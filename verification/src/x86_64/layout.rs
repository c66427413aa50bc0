//! Little-endian byte layout of the structures that the processor reads
//! from memory. A structure is laid out field after field without padding;
//! each field contributes its bytes from the least significant one up.

use vstd::prelude::*;

verus! {

/// Byte `index` of `value`, counted from the least significant one.
pub open spec fn le_byte(value: u64, index: nat) -> u8 {
    ((value >> ((8 * index) as u64)) & 0xFF) as u8
}

/// The first `width` bytes of `value`, least significant first.
pub open spec fn le_bytes(value: u64, width: nat) -> Seq<u8> {
    Seq::new(width, |index: int| le_byte(value, index as nat))
}

/// The number that up to eight bytes stand for, least significant first.
pub open spec fn le_value(bytes: Seq<u8>) -> u64 {
    le_term(bytes, 0) | le_term(bytes, 1) | le_term(bytes, 2) | le_term(bytes, 3) | le_term(
        bytes,
        4,
    ) | le_term(bytes, 5) | le_term(bytes, 6) | le_term(bytes, 7)
}

/// What byte `index` of `bytes` adds to the number, which is nothing where
/// `bytes` is shorter.
pub open spec fn le_term(bytes: Seq<u8>, index: nat) -> u64 {
    if index < bytes.len() {
        (bytes[index as int] as u64) << ((8 * index) as u64)
    } else {
        0
    }
}

/// A field of one, two, four or eight bytes reads back as the value that
/// was laid out, provided the value fits the field.
pub proof fn lemma_le_round_trip(value: u64, width: nat)
    requires
        width == 1 || width == 2 || width == 4 || width == 8,
        width < 8 ==> value >> ((8 * width) as u64) == 0,
    ensures
        le_bytes(value, width).len() == width,
        le_value(le_bytes(value, width)) == value,
{
    let bytes = le_bytes(value, width);
    if width == 1 {
        assert(value >> 8 == 0 ==> (((value >> 0) & 0xFF) as u8 as u64) << 0 | 0 | 0 | 0 | 0 | 0 | 0
            | 0 == value) by (bit_vector);
    } else if width == 2 {
        assert(value >> 16 == 0 ==> (((value >> 0) & 0xFF) as u8 as u64) << 0 | (((value >> 8)
            & 0xFF) as u8 as u64) << 8 | 0 | 0 | 0 | 0 | 0 | 0 == value) by (bit_vector);
    } else if width == 4 {
        assert(value >> 32 == 0 ==> (((value >> 0) & 0xFF) as u8 as u64) << 0 | (((value >> 8)
            & 0xFF) as u8 as u64) << 8 | (((value >> 16) & 0xFF) as u8 as u64) << 16 | (((value
            >> 24) & 0xFF) as u8 as u64) << 24 | 0 | 0 | 0 | 0 == value) by (bit_vector);
    } else {
        assert((((value >> 0) & 0xFF) as u8 as u64) << 0 | (((value >> 8) & 0xFF) as u8 as u64)
            << 8 | (((value >> 16) & 0xFF) as u8 as u64) << 16 | (((value >> 24) & 0xFF) as u8
            as u64) << 24 | (((value >> 32) & 0xFF) as u8 as u64) << 32 | (((value >> 40)
            & 0xFF) as u8 as u64) << 40 | (((value >> 48) & 0xFF) as u8 as u64) << 48 | (((value
            >> 56) & 0xFF) as u8 as u64) << 56 == value) by (bit_vector);
    }
}

/// Appends the first `width` bytes of `value` to `bytes`, least significant
/// first.
pub fn push_le(bytes: &mut Vec<u8>, value: u64, width: usize)
    requires
        width <= 8,
    ensures
        final(bytes)@ == old(bytes)@ + le_bytes(value, width as nat),
{
    let mut index: usize = 0;
    assert(bytes@ =~= old(bytes)@ + le_bytes(value, 0));
    while index < width
        invariant
            index <= width <= 8,
            bytes@ == old(bytes)@ + le_bytes(value, index as nat),
        decreases width - index,
    {
        let shift: u64 = 8 * (index as u64);
        let byte: u8 = ((value >> shift) & 0xFF) as u8;
        bytes.push(byte);
        assert(bytes@ =~= old(bytes)@ + le_bytes(value, (index + 1) as nat));
        index += 1;
    }
}

} // verus!
