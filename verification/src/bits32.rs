//! Generic bit-field arithmetic on 32-bit raw register values.
//!
//! A field is a pair of a bit offset (0-based from the least significant bit)
//! and a bit width (at least 1), with `offset + width` no larger than the
//! register's 32 bits. [`decode32`] extracts a field's value, [`encode32`]
//! replaces a field's value and keeps every other bit. The proof functions
//! below state the laws the register layouts rely on: round-trip,
//! non-interference and truncation.

use vstd::prelude::*;

verus! {

/// A mask with the low `width` bits of a 32-bit word set.
pub open spec fn low_bits32(width: u32) -> u32
    recommends
        1 <= width <= 32,
{
    u32::MAX >> ((32 - width) as u32)
}

/// The mask covering bits `[offset, offset + width)` of a 32-bit word.
pub open spec fn field_mask32(offset: u32, width: u32) -> u32
    recommends
        1 <= width,
        offset + width <= 32,
{
    low_bits32(width) << offset
}

/// The value held in bits `[offset, offset + width)` of `raw`, right-aligned.
pub open spec fn extract32(raw: u32, offset: u32, width: u32) -> u32
    recommends
        1 <= width,
        offset + width <= 32,
{
    (raw >> offset) & low_bits32(width)
}

/// `raw` with bits `[offset, offset + width)` replaced by the low `width`
/// bits of `value`, and every other bit of `raw` kept.
pub open spec fn insert32(raw: u32, offset: u32, width: u32, value: u32) -> u32
    recommends
        1 <= width,
        offset + width <= 32,
{
    (raw & !field_mask32(offset, width)) | ((value & low_bits32(width)) << offset)
}

/// Decode one field out of a raw register value.
pub fn decode32(raw: u32, offset: u32, width: u32) -> (v: u32)
    requires
        1 <= width,
        offset + width <= 32,
    ensures
        v == extract32(raw, offset, width),
{
    let mask: u32 = u32::MAX >> (32 - width);
    (raw >> offset) & mask
}

/// Encode one field into a raw register value, keeping all other bits.
/// A `value` wider than the field is truncated to the field's width,
/// matching what the hardware does on a register write.
pub fn encode32(raw: u32, offset: u32, width: u32, value: u32) -> (r: u32)
    requires
        1 <= width,
        offset + width <= 32,
    ensures
        r == insert32(raw, offset, width, value),
{
    let mask: u32 = u32::MAX >> (32 - width);
    (raw & !(mask << offset)) | ((value & mask) << offset)
}

/// Law: a decoded field value always fits in the field's width.
pub proof fn lemma_extract_fits32(raw: u32, offset: u32, width: u32)
    requires
        1 <= width,
        offset + width <= 32,
    ensures
        extract32(raw, offset, width) <= low_bits32(width),
{
    assert(extract32(raw, offset, width) <= low_bits32(width)) by (bit_vector)
        requires
            1 <= width,
            width <= 32,
    ;
}

/// Law (round trip): encoding a value that fits in the field and decoding
/// the same field returns the value, whatever `raw` held before.
pub proof fn lemma_round_trip32(raw: u32, offset: u32, width: u32, value: u32)
    requires
        1 <= width,
        offset + width <= 32,
        value <= low_bits32(width),
    ensures
        extract32(insert32(raw, offset, width, value), offset, width) == value,
{
    assert(extract32(insert32(raw, offset, width, value), offset, width) == value)
        by (bit_vector)
        requires
            1 <= width,
            width <= 32,
            offset + width <= 32,
            value <= low_bits32(width),
    ;
}

/// Law: decoding right after encoding returns the value truncated to the
/// field's width, for every `value`, legal or not.
pub proof fn lemma_decode_of_encode32(raw: u32, offset: u32, width: u32, value: u32)
    requires
        1 <= width,
        offset + width <= 32,
    ensures
        extract32(insert32(raw, offset, width, value), offset, width)
            == value & low_bits32(width),
{
    assert(extract32(insert32(raw, offset, width, value), offset, width)
        == value & low_bits32(width)) by (bit_vector)
        requires
            1 <= width,
            width <= 32,
            offset + width <= 32,
    ;
}

/// Law (truncation): encoding a value with bits set above the field's width
/// produces the same result as encoding the value masked to that width.
pub proof fn lemma_truncate32(raw: u32, offset: u32, width: u32, value: u32)
    requires
        1 <= width,
        offset + width <= 32,
    ensures
        insert32(raw, offset, width, value)
            == insert32(raw, offset, width, value & low_bits32(width)),
{
    assert(insert32(raw, offset, width, value)
        == insert32(raw, offset, width, value & low_bits32(width))) by (bit_vector)
        requires
            1 <= width,
            width <= 32,
    ;
}

/// Law (non-interference, masked form): encoding changes nothing outside the
/// field's mask.
pub proof fn lemma_frame32(raw: u32, offset: u32, width: u32, value: u32)
    requires
        1 <= width,
        offset + width <= 32,
    ensures
        insert32(raw, offset, width, value) & !field_mask32(offset, width)
            == raw & !field_mask32(offset, width),
{
    assert(insert32(raw, offset, width, value) & !field_mask32(offset, width)
        == raw & !field_mask32(offset, width)) by (bit_vector)
        requires
            1 <= width,
            width <= 32,
    ;
}

/// Law (non-interference, bit form): every bit outside `[offset, offset + width)`
/// of the encoded word equals the corresponding bit of `raw`.
pub proof fn lemma_frame_bit32(raw: u32, offset: u32, width: u32, value: u32, i: u32)
    requires
        1 <= width,
        offset + width <= 32,
        i < 32,
        i < offset || offset + width <= i,
    ensures
        (insert32(raw, offset, width, value) >> i) & 1 == (raw >> i) & 1,
{
    assert((insert32(raw, offset, width, value) >> i) & 1 == (raw >> i) & 1)
        by (bit_vector)
        requires
            1 <= width,
            width <= 32,
            offset + width <= 32,
            i < 32,
            i < offset || offset + width <= i,
    ;
}

/// Law: inside the field, bit `offset + j` of the encoded word is bit `j` of
/// the value written. Together with the frame law this pins every bit of the
/// encoded word down.
pub proof fn lemma_insert_bit32(raw: u32, offset: u32, width: u32, value: u32, j: u32)
    requires
        1 <= width,
        offset + width <= 32,
        j < width,
    ensures
        (insert32(raw, offset, width, value) >> ((offset + j) as u32)) & 1
            == (value >> j) & 1,
{
    assert((insert32(raw, offset, width, value) >> ((offset + j) as u32)) & 1
        == (value >> j) & 1) by (bit_vector)
        requires
            1 <= width,
            width <= 32,
            offset + width <= 32,
            j < width,
    ;
}

/// The low-bit masks for the field widths the 32-bit register layouts use.
pub proof fn lemma_low_bits32_consts()
    ensures
        low_bits32(1) == 0x1,
        low_bits32(2) == 0x3,
        low_bits32(3) == 0x7,
        low_bits32(4) == 0xf,
        low_bits32(5) == 0x1f,
        low_bits32(10) == 0x3ff,
        low_bits32(15) == 0x7fff,
        low_bits32(16) == 0xffff,
{
    assert(u32::MAX >> 31u32 == 0x1u32 && u32::MAX >> 30u32 == 0x3u32
        && u32::MAX >> 29u32 == 0x7u32 && u32::MAX >> 28u32 == 0xfu32
        && u32::MAX >> 27u32 == 0x1fu32 && u32::MAX >> 22u32 == 0x3ffu32
        && u32::MAX >> 17u32 == 0x7fffu32 && u32::MAX >> 16u32 == 0xffffu32)
        by (bit_vector);
}

} // verus!
