//! The heap: a growable array of 32-bit cells addressed by index.
//!
//! A heap is modelled by the sequence of its cells. The length of that
//! sequence is the heap's capacity; every cell that was never written holds
//! zero, and so, by convention, does every address beyond the capacity.

use vstd::prelude::*;
use crate::endian::{be_bytes, split};

verus! {

/// Number of cells a new heap starts with.
pub const HEAP_INITIAL_CAPACITY: usize = 256;

/// `n` zeroed cells.
pub open spec fn zeros(n: nat) -> Seq<u32> {
    Seq::new(n, |i: int| 0u32)
}

/// What a read at `addr` yields from `cells`: the cell, or zero outside them.
pub open spec fn cell_at(cells: Seq<u32>, addr: int) -> u32 {
    if 0 <= addr < cells.len() {
        cells[addr]
    } else {
        0
    }
}

/// The cells after `value` is written at `addr`. An address inside the cells
/// is overwritten in place; one at or beyond the capacity first extends the
/// cells with zeros so that `addr` becomes the last cell.
pub open spec fn stored(cells: Seq<u32>, addr: nat, value: u32) -> Seq<u32> {
    if addr < cells.len() {
        cells.update(addr as int, value)
    } else {
        (cells + zeros((addr - cells.len()) as nat)).push(value)
    }
}

/// The cells after the bytes `bytes` are written to consecutive addresses
/// from `addr` on, one byte per cell, lowest address first.
pub open spec fn stored_bytes(cells: Seq<u32>, addr: nat, bytes: Seq<u8>) -> Seq<u32>
    decreases bytes.len(),
{
    if bytes.len() == 0 {
        cells
    } else {
        stored(
            stored_bytes(cells, addr, bytes.drop_last()),
            (addr + bytes.len() - 1) as nat,
            bytes.last() as u32,
        )
    }
}

/// The `len` cells from `addr` on, each written out as four bytes, most
/// significant first. Addresses outside the cells count as zero.
pub open spec fn cells_as_bytes(cells: Seq<u32>, addr: int, len: nat) -> Seq<u8>
    decreases len,
{
    if len == 0 {
        Seq::empty()
    } else {
        cells_as_bytes(cells, addr, (len - 1) as nat) + be_bytes(cell_at(cells, addr + len - 1))
    }
}

/// The cells after the writes `writes`, each an address and a value, are
/// carried out in order.
pub open spec fn stored_all(cells: Seq<u32>, writes: Seq<(nat, u32)>) -> Seq<u32>
    decreases writes.len(),
{
    if writes.len() == 0 {
        cells
    } else {
        stored(stored_all(cells, writes.drop_last()), writes.last().0, writes.last().1)
    }
}

/// A read returns what was last written at its address, and after a write
/// at `addr` the capacity is at least `addr + 1` and no less than before.
pub proof fn lemma_read_own_write(cells: Seq<u32>, addr: nat, value: u32)
    ensures
        cell_at(stored(cells, addr, value), addr as int) == value,
        stored(cells, addr, value).len() >= addr + 1,
        stored(cells, addr, value).len() >= cells.len(),
{
}

/// A write at one address changes what no other address reads.
pub proof fn lemma_write_keeps_others(cells: Seq<u32>, addr: nat, value: u32, other: int)
    requires
        other != addr,
    ensures
        cell_at(stored(cells, addr, value), other) == cell_at(cells, other),
{
}

/// An address that was never written reads as zero: whatever writes a new
/// heap has seen, an address that none of them names holds zero.
pub proof fn lemma_unwritten_reads_zero(capacity: nat, writes: Seq<(nat, u32)>, addr: int)
    requires
        forall|i: int| 0 <= i < writes.len() ==> (#[trigger] writes[i]).0 != addr,
    ensures
        cell_at(stored_all(zeros(capacity), writes), addr) == 0,
    decreases writes.len(),
{
    if writes.len() > 0 {
        let earlier = writes.drop_last();
        assert forall|i: int| 0 <= i < earlier.len() implies (#[trigger] earlier[i]).0 != addr by {
            assert(earlier[i] == writes[i]);
        }
        lemma_unwritten_reads_zero(capacity, earlier, addr);
        lemma_write_keeps_others(
            stored_all(zeros(capacity), earlier),
            writes.last().0,
            writes.last().1,
            addr,
        );
    }
}

/// What the heap holds after bytes are stored: the addresses from `addr`
/// on read as the bytes, every other address reads as before, and the
/// capacity has grown just enough to hold the last byte.
pub proof fn lemma_stored_bytes(cells: Seq<u32>, addr: nat, bytes: Seq<u8>)
    ensures
        forall|a: int|
            addr <= a < addr + bytes.len() ==> cell_at(#[trigger] stored_bytes(cells, addr, bytes), a)
                == bytes[a - addr],
        forall|a: int|
            !(addr <= a < addr + bytes.len()) ==> cell_at(
                #[trigger] stored_bytes(cells, addr, bytes),
                a,
            ) == cell_at(cells, a),
        bytes.len() == 0 ==> stored_bytes(cells, addr, bytes) == cells,
        bytes.len() > 0 ==> stored_bytes(cells, addr, bytes).len() == if cells.len() >= addr
            + bytes.len() {
            cells.len()
        } else {
            addr + bytes.len()
        },
    decreases bytes.len(),
{
    if bytes.len() > 0 {
        lemma_stored_bytes(cells, addr, bytes.drop_last());
        let before = stored_bytes(cells, addr, bytes.drop_last());
        let last = (addr + bytes.len() - 1) as nat;
        assert forall|a: int| addr <= a < addr + bytes.len() implies cell_at(
            stored_bytes(cells, addr, bytes),
            a,
        ) == bytes[a - addr] by {
            if a != last {
                assert(cell_at(before, a) == bytes.drop_last()[a - addr]);
            }
        }
        assert forall|a: int| !(addr <= a < addr + bytes.len()) implies cell_at(
            stored_bytes(cells, addr, bytes),
            a,
        ) == cell_at(cells, a) by {
            assert(cell_at(before, a) == cell_at(cells, a));
        }
    }
}

/// A growable array of 32-bit cells. Its capacity only ever grows.
#[derive(Debug)]
pub struct Heap {
    cells: Vec<u32>,
}

impl View for Heap {
    type V = Seq<u32>;

    closed spec fn view(&self) -> Seq<u32> {
        self.cells@
    }
}

impl Heap {
    /// Extends the heap with zeroed cells up to `new_cap` cells in all.
    fn grow(&mut self, new_cap: usize)
        requires
            old(self)@.len() <= new_cap,
        ensures
            final(self)@ == old(self)@ + zeros((new_cap - old(self)@.len()) as nat),
    {
        self.cells.resize(new_cap, 0u32);
        assert(self.cells@ =~= old(self).cells@ + zeros((new_cap - old(self).cells@.len()) as nat));
    }

    /// A heap of `HEAP_INITIAL_CAPACITY` zeroed cells.
    pub fn new() -> (heap: Heap)
        ensures
            heap@ == zeros(HEAP_INITIAL_CAPACITY as nat),
    {
        let mut heap = Heap { cells: Vec::new() };
        heap.grow(HEAP_INITIAL_CAPACITY);
        assert(heap.cells@ =~= zeros(HEAP_INITIAL_CAPACITY as nat));
        heap
    }

    /// The number of cells the heap currently holds.
    pub fn capacity(&self) -> (cap: usize)
        ensures
            cap == self@.len(),
    {
        self.cells.len()
    }

    /// Reads the cell at `addr`. An address outside the heap reads as zero.
    pub fn read(&self, addr: usize) -> (value: u32)
        ensures
            value == cell_at(self@, addr as int),
    {
        if addr >= self.cells.len() {
            return 0;
        }
        self.cells[addr]
    }

    /// Stores `value` at `addr`, first growing the heap to `addr + 1` cells
    /// when `addr` lies outside it. The new capacity has to fit the machine
    /// word, hence the bound on `addr`.
    pub fn write(&mut self, addr: usize, value: u32)
        requires
            addr < usize::MAX,
        ensures
            final(self)@ == stored(old(self)@, addr as nat, value),
    {
        if addr >= self.cells.len() {
            self.grow(addr + 1);
        }
        self.cells[addr] = value;
        assert(self.cells@ =~= stored(old(self).cells@, addr as nat, value));
    }

    /// Stores `bytes` at consecutive addresses from `addr` on, one byte per
    /// cell. The last address written has to lie below the word's maximum.
    pub fn write_bytes(&mut self, addr: usize, bytes: &[u8])
        requires
            addr + bytes@.len() <= usize::MAX,
        ensures
            final(self)@ == stored_bytes(old(self)@, addr as nat, bytes@),
    {
        let mut i: usize = 0;
        assert(bytes@.take(0) =~= Seq::<u8>::empty());
        while i < bytes.len()
            invariant
                i <= bytes@.len(),
                addr + bytes@.len() <= usize::MAX,
                self@ == stored_bytes(old(self)@, addr as nat, bytes@.take(i as int)),
            decreases bytes@.len() - i,
        {
            assert(bytes@.take(i + 1).drop_last() =~= bytes@.take(i as int));
            self.write(addr + i, bytes[i] as u32);
            i += 1;
        }
        assert(bytes@.take(i as int) =~= bytes@);
    }

    /// The `len` cells from `addr` on as bytes, four per cell, most
    /// significant first. The number of bytes has to fit the machine word.
    pub fn read_bytes(&self, addr: usize, len: usize) -> (bytes: Vec<u8>)
        requires
            4 * len <= usize::MAX,
        ensures
            bytes@ == cells_as_bytes(self@, addr as int, len as nat),
    {
        let cap: usize = self.cells.len();
        let mut bytes: Vec<u8> = Vec::new();
        let mut i: usize = 0;
        while i < len
            invariant
                i <= len,
                cap == self@.len(),
                bytes@ == cells_as_bytes(self@, addr as int, i as nat),
            decreases len - i,
        {
            let value: u32 = if i > usize::MAX - addr {
                0
            } else {
                self.read(addr + i)
            };
            assert(value == cell_at(self@, addr + i));
            let four: [u8; 4] = split(value);
            bytes.push(four[0]);
            bytes.push(four[1]);
            bytes.push(four[2]);
            bytes.push(four[3]);
            i += 1;
            assert(bytes@ =~= cells_as_bytes(self@, addr as int, (i - 1) as nat) + be_bytes(value));
        }
        bytes
    }
}

impl Default for Heap {
    fn default() -> (heap: Heap)
        ensures
            heap@ == zeros(HEAP_INITIAL_CAPACITY as nat),
    {
        Heap::new()
    }
}

} // verus!
