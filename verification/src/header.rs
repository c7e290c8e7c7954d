//! The header of a program image: the bytes in front of the first run of
//! four sentinel bytes.

use vstd::prelude::*;

verus! {

/// The byte that, repeated four times, ends the header.
pub const SENTINEL: u8 = 0x1d;

/// Whether the four bytes of `bytes` from `i` on are the sentinel.
pub open spec fn sentinel_at(bytes: Seq<u8>, i: int) -> bool {
    &&& 0 <= i
    &&& i + 4 <= bytes.len()
    &&& bytes[i] == SENTINEL
    &&& bytes[i + 1] == SENTINEL
    &&& bytes[i + 2] == SENTINEL
    &&& bytes[i + 3] == SENTINEL
}

/// The first place from `from` on at which the sentinel stands or at which
/// four bytes no longer fit.
pub open spec fn scan(bytes: Seq<u8>, from: int) -> int
    decreases bytes.len() - from,
{
    if from + 4 > bytes.len() || sentinel_at(bytes, from) {
        from
    } else {
        scan(bytes, from + 1)
    }
}

/// The number of header bytes of a program image: the place of its first
/// sentinel. An image of four bytes or more without a sentinel counts every
/// place at which four bytes fit, which is all but its last three bytes.
pub open spec fn header_len(bytes: Seq<u8>) -> int {
    scan(bytes, 0)
}

/// What `scan` finds: a place not before `from`, with no sentinel between
/// `from` and it, and the sentinel at it unless the image ends first.
pub proof fn lemma_scan(bytes: Seq<u8>, from: int)
    requires
        0 <= from,
    ensures
        from <= scan(bytes, from),
        from + 4 <= bytes.len() ==> scan(bytes, from) + 3 <= bytes.len(),
        forall|i: int| from <= i < scan(bytes, from) ==> !sentinel_at(bytes, i),
        scan(bytes, from) + 4 <= bytes.len() ==> sentinel_at(bytes, scan(bytes, from)),
    decreases bytes.len() - from,
{
    if from + 4 > bytes.len() || sentinel_at(bytes, from) {
    } else {
        lemma_scan(bytes, from + 1);
    }
}

/// A place with the sentinel and none before it is the header's length.
pub proof fn lemma_first_sentinel(bytes: Seq<u8>, n: int)
    requires
        sentinel_at(bytes, n),
        forall|i: int| 0 <= i < n ==> !sentinel_at(bytes, i),
    ensures
        header_len(bytes) == n,
{
    lemma_scan(bytes, 0);
    let found = scan(bytes, 0);
    if found < n {
        assert(found + 4 <= bytes.len());
        assert(sentinel_at(bytes, found));
    } else if found > n {
        assert(!sentinel_at(bytes, n));
    }
}

} // verus!
