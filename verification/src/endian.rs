//! Big-endian encoding of 32-bit values, as used for literal operands in a
//! program and for heap cells on their way to the host.

use vstd::prelude::*;

verus! {

/// The value of four bytes read as a 32-bit number, most significant first.
pub open spec fn be_value(b0: u8, b1: u8, b2: u8, b3: u8) -> u32 {
    (b0 * 0x100_0000 + b1 * 0x1_0000 + b2 * 0x100 + b3) as u32
}

/// The four bytes of a 32-bit number, most significant first.
pub open spec fn be_bytes(value: u32) -> Seq<u8> {
    seq![
        (value / 0x100_0000) as u8,
        (value / 0x1_0000 % 0x100) as u8,
        (value / 0x100 % 0x100) as u8,
        (value % 0x100) as u8,
    ]
}

/// Reading back the bytes of a number gives the number.
pub proof fn lemma_value_of_bytes(value: u32)
    ensures
        be_bytes(value).len() == 4,
        be_value(be_bytes(value)[0], be_bytes(value)[1], be_bytes(value)[2], be_bytes(value)[3])
            == value,
{
}

/// Writing out the value of four bytes gives the four bytes.
pub proof fn lemma_bytes_of_value(b0: u8, b1: u8, b2: u8, b3: u8)
    ensures
        be_bytes(be_value(b0, b1, b2, b3)) == seq![b0, b1, b2, b3],
{
    let v = be_value(b0, b1, b2, b3);
    assert(v == (b0 * 0x100_0000 + b1 * 0x1_0000 + b2 * 0x100 + b3) as u32 ==> (v / 0x100_0000) as u8
        == b0 && (v / 0x1_0000 % 0x100) as u8 == b1 && (v / 0x100 % 0x100) as u8 == b2 && (v
        % 0x100) as u8 == b3) by (bit_vector);
    assert(be_bytes(v) =~= seq![b0, b1, b2, b3]);
}

/// Combines four bytes into the 32-bit number they spell, most significant
/// byte first.
pub fn combine(b0: u8, b1: u8, b2: u8, b3: u8) -> (value: u32)
    ensures
        value == be_value(b0, b1, b2, b3),
{
    assert((b0 as u32) << 24 | (b1 as u32) << 16 | (b2 as u32) << 8 | (b3 as u32) == (b0
        * 0x100_0000 + b1 * 0x1_0000 + b2 * 0x100 + b3) as u32) by (bit_vector);
    (b0 as u32) << 24 | (b1 as u32) << 16 | (b2 as u32) << 8 | (b3 as u32)
}

/// Splits a 32-bit number into its four bytes, most significant first.
pub fn split(value: u32) -> (bytes: [u8; 4])
    ensures
        bytes@ == be_bytes(value),
{
    assert((value >> 24) as u8 == (value / 0x100_0000) as u8) by (bit_vector);
    assert(((value >> 16) & 0xff) as u8 == (value / 0x1_0000 % 0x100) as u8) by (bit_vector);
    assert(((value >> 8) & 0xff) as u8 == (value / 0x100 % 0x100) as u8) by (bit_vector);
    assert((value & 0xff) as u8 == (value % 0x100) as u8) by (bit_vector);
    assert(value >> 24 <= 0xff) by (bit_vector);
    assert((value >> 16) & 0xff <= 0xff) by (bit_vector);
    assert((value >> 8) & 0xff <= 0xff) by (bit_vector);
    assert(value & 0xff <= 0xff) by (bit_vector);
    let bytes: [u8; 4] = [
        (value >> 24) as u8,
        ((value >> 16) & 0xff) as u8,
        ((value >> 8) & 0xff) as u8,
        (value & 0xff) as u8,
    ];
    assert(bytes@ =~= be_bytes(value));
    bytes
}

} // verus!
