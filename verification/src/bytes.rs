//! Little-endian byte strings of fixed-width fields, as the processor reads
//! them from memory.

use vstd::prelude::*;

verus! {

/// The `width` little-endian bytes of `value`, lowest byte first.
pub open spec fn le_bytes(value: int, width: nat) -> Seq<u8>
    decreases width,
{
    if width == 0 {
        Seq::empty()
    } else {
        seq![(value % 256) as u8] + le_bytes(value / 256, (width - 1) as nat)
    }
}

/// A field of `width` bytes encodes as `width` bytes.
pub proof fn lemma_le_bytes_len(value: int, width: nat)
    ensures
        le_bytes(value, width).len() == width,
    decreases width,
{
    if width > 0 {
        lemma_le_bytes_len(value / 256, (width - 1) as nat);
    }
}

/// The two little-endian bytes of a 16-bit field are its low and high byte.
pub(crate) proof fn lemma_two_bytes(value: u16)
    ensures
        le_bytes(value as int, 2) == seq![value as u8, (value >> 8) as u8],
{
    reveal_with_fuel(le_bytes, 3);
    assert((value as int % 256) as u8 == value as u8 && ((value as int / 256) % 256) as u8 == (value
        >> 8) as u8) by (bit_vector);
    assert(le_bytes(value as int, 2) =~= seq![value as u8, (value >> 8) as u8]);
}

/// The four little-endian bytes of a 32-bit field, lowest first.
pub(crate) proof fn lemma_four_bytes(value: u32)
    ensures
        le_bytes(value as int, 4) == seq![
            value as u8,
            (value >> 8) as u8,
            (value >> 16) as u8,
            (value >> 24) as u8,
        ],
{
    reveal_with_fuel(le_bytes, 5);
    assert((value as int % 256) as u8 == value as u8 && ((value as int / 256) % 256) as u8 == (value
        >> 8) as u8 && ((value as int / 256 / 256) % 256) as u8 == (value >> 16) as u8 && ((value as int
        / 256 / 256 / 256) % 256) as u8 == (value >> 24) as u8) by (bit_vector);
    assert(le_bytes(value as int, 4) =~= seq![
        value as u8,
        (value >> 8) as u8,
        (value >> 16) as u8,
        (value >> 24) as u8,
    ]);
}

/// The eight little-endian bytes of a 64-bit field, lowest first.
pub(crate) proof fn lemma_eight_bytes(value: u64)
    ensures
        le_bytes(value as int, 8) == seq![
            value as u8,
            (value >> 8) as u8,
            (value >> 16) as u8,
            (value >> 24) as u8,
            (value >> 32) as u8,
            (value >> 40) as u8,
            (value >> 48) as u8,
            (value >> 56) as u8,
        ],
{
    reveal_with_fuel(le_bytes, 9);
    assert((value as int % 256) as u8 == value as u8 && ((value as int / 256) % 256) as u8 == (value
        >> 8) as u8 && ((value as int / 256 / 256) % 256) as u8 == (value >> 16) as u8 && ((value as int
        / 256 / 256 / 256) % 256) as u8 == (value >> 24) as u8 && ((value as int / 256 / 256 / 256
        / 256) % 256) as u8 == (value >> 32) as u8 && ((value as int / 256 / 256 / 256 / 256 / 256)
        % 256) as u8 == (value >> 40) as u8 && ((value as int / 256 / 256 / 256 / 256 / 256 / 256)
        % 256) as u8 == (value >> 48) as u8 && ((value as int / 256 / 256 / 256 / 256 / 256 / 256
        / 256) % 256) as u8 == (value >> 56) as u8) by (bit_vector);
    assert(le_bytes(value as int, 8) =~= seq![
        value as u8,
        (value >> 8) as u8,
        (value >> 16) as u8,
        (value >> 24) as u8,
        (value >> 32) as u8,
        (value >> 40) as u8,
        (value >> 48) as u8,
        (value >> 56) as u8,
    ]);
}

/// Zero encodes as zero bytes, whatever the width.
pub(crate) proof fn lemma_zero_bytes(width: nat)
    ensures
        le_bytes(0, width).len() == width,
        forall|i: int| 0 <= i < width ==> le_bytes(0, width)[i] == 0u8,
    decreases width,
{
    if width > 0 {
        lemma_zero_bytes((width - 1) as nat);
    }
}

} // verus!
