//! Generic bit-field arithmetic on 64-bit raw register values.
//!
//! A field is a pair of a bit offset (0-based from the least significant bit)
//! and a bit width (at least 1), with `offset + width` no larger than the
//! register's 64 bits. [`decode64`] extracts a field's value, [`encode64`]
//! replaces a field's value and keeps every other bit. The proof functions
//! below state the laws the register layouts rely on: round-trip,
//! non-interference and truncation.

use vstd::prelude::*;

verus! {

/// A mask with the low `width` bits of a 64-bit word set.
pub open spec fn low_bits64(width: u64) -> u64
    recommends
        1 <= width <= 64,
{
    u64::MAX >> ((64 - width) as u64)
}

/// The mask covering bits `[offset, offset + width)` of a 64-bit word.
pub open spec fn field_mask64(offset: u64, width: u64) -> u64
    recommends
        1 <= width,
        offset + width <= 64,
{
    low_bits64(width) << offset
}

/// The value held in bits `[offset, offset + width)` of `raw`, right-aligned.
pub open spec fn extract64(raw: u64, offset: u64, width: u64) -> u64
    recommends
        1 <= width,
        offset + width <= 64,
{
    (raw >> offset) & low_bits64(width)
}

/// `raw` with bits `[offset, offset + width)` replaced by the low `width`
/// bits of `value`, and every other bit of `raw` kept.
pub open spec fn insert64(raw: u64, offset: u64, width: u64, value: u64) -> u64
    recommends
        1 <= width,
        offset + width <= 64,
{
    (raw & !field_mask64(offset, width)) | ((value & low_bits64(width)) << offset)
}

/// Decode one field out of a raw register value.
pub fn decode64(raw: u64, offset: u64, width: u64) -> (v: u64)
    requires
        1 <= width,
        offset + width <= 64,
    ensures
        v == extract64(raw, offset, width),
{
    let mask: u64 = u64::MAX >> (64 - width);
    (raw >> offset) & mask
}

/// Encode one field into a raw register value, keeping all other bits.
/// A `value` wider than the field is truncated to the field's width,
/// matching what the hardware does on a register write.
pub fn encode64(raw: u64, offset: u64, width: u64, value: u64) -> (r: u64)
    requires
        1 <= width,
        offset + width <= 64,
    ensures
        r == insert64(raw, offset, width, value),
{
    let mask: u64 = u64::MAX >> (64 - width);
    (raw & !(mask << offset)) | ((value & mask) << offset)
}

/// Law: a decoded field value always fits in the field's width.
pub proof fn lemma_extract_fits64(raw: u64, offset: u64, width: u64)
    requires
        1 <= width,
        offset + width <= 64,
    ensures
        extract64(raw, offset, width) <= low_bits64(width),
{
    assert(extract64(raw, offset, width) <= low_bits64(width)) by (bit_vector)
        requires
            1 <= width,
            width <= 64,
    ;
}

/// Law (round trip): encoding a value that fits in the field and decoding
/// the same field returns the value, whatever `raw` held before.
pub proof fn lemma_round_trip64(raw: u64, offset: u64, width: u64, value: u64)
    requires
        1 <= width,
        offset + width <= 64,
        value <= low_bits64(width),
    ensures
        extract64(insert64(raw, offset, width, value), offset, width) == value,
{
    assert(extract64(insert64(raw, offset, width, value), offset, width) == value)
        by (bit_vector)
        requires
            1 <= width,
            width <= 64,
            offset + width <= 64,
            value <= low_bits64(width),
    ;
}

/// Law: decoding right after encoding returns the value truncated to the
/// field's width, for every `value`, legal or not.
pub proof fn lemma_decode_of_encode64(raw: u64, offset: u64, width: u64, value: u64)
    requires
        1 <= width,
        offset + width <= 64,
    ensures
        extract64(insert64(raw, offset, width, value), offset, width)
            == value & low_bits64(width),
{
    assert(extract64(insert64(raw, offset, width, value), offset, width)
        == value & low_bits64(width)) by (bit_vector)
        requires
            1 <= width,
            width <= 64,
            offset + width <= 64,
    ;
}

/// Law (truncation): encoding a value with bits set above the field's width
/// produces the same result as encoding the value masked to that width.
pub proof fn lemma_truncate64(raw: u64, offset: u64, width: u64, value: u64)
    requires
        1 <= width,
        offset + width <= 64,
    ensures
        insert64(raw, offset, width, value)
            == insert64(raw, offset, width, value & low_bits64(width)),
{
    assert(insert64(raw, offset, width, value)
        == insert64(raw, offset, width, value & low_bits64(width))) by (bit_vector)
        requires
            1 <= width,
            width <= 64,
    ;
}

/// Law (non-interference, masked form): encoding changes nothing outside the
/// field's mask.
pub proof fn lemma_frame64(raw: u64, offset: u64, width: u64, value: u64)
    requires
        1 <= width,
        offset + width <= 64,
    ensures
        insert64(raw, offset, width, value) & !field_mask64(offset, width)
            == raw & !field_mask64(offset, width),
{
    assert(insert64(raw, offset, width, value) & !field_mask64(offset, width)
        == raw & !field_mask64(offset, width)) by (bit_vector)
        requires
            1 <= width,
            width <= 64,
    ;
}

/// Law (non-interference, bit form): every bit outside `[offset, offset + width)`
/// of the encoded word equals the corresponding bit of `raw`.
pub proof fn lemma_frame_bit64(raw: u64, offset: u64, width: u64, value: u64, i: u64)
    requires
        1 <= width,
        offset + width <= 64,
        i < 64,
        i < offset || offset + width <= i,
    ensures
        (insert64(raw, offset, width, value) >> i) & 1 == (raw >> i) & 1,
{
    assert((insert64(raw, offset, width, value) >> i) & 1 == (raw >> i) & 1)
        by (bit_vector)
        requires
            1 <= width,
            width <= 64,
            offset + width <= 64,
            i < 64,
            i < offset || offset + width <= i,
    ;
}

/// Law: inside the field, bit `offset + j` of the encoded word is bit `j` of
/// the value written. Together with the frame law this pins every bit of the
/// encoded word down.
pub proof fn lemma_insert_bit64(raw: u64, offset: u64, width: u64, value: u64, j: u64)
    requires
        1 <= width,
        offset + width <= 64,
        j < width,
    ensures
        (insert64(raw, offset, width, value) >> ((offset + j) as u64)) & 1
            == (value >> j) & 1,
{
    assert((insert64(raw, offset, width, value) >> ((offset + j) as u64)) & 1
        == (value >> j) & 1) by (bit_vector)
        requires
            1 <= width,
            width <= 64,
            offset + width <= 64,
            j < width,
    ;
}

/// The low-bit masks for the field widths the 64-bit register layouts use.
pub proof fn lemma_low_bits64_consts()
    ensures
        low_bits64(1) == 0x1,
        low_bits64(2) == 0x3,
        low_bits64(16) == 0xffff,
        low_bits64(47) == 0x7fff_ffff_ffff,
{
    assert(u64::MAX >> 63u64 == 0x1u64 && u64::MAX >> 62u64 == 0x3u64
        && u64::MAX >> 48u64 == 0xffffu64 && u64::MAX >> 17u64 == 0x7fff_ffff_ffffu64)
        by (bit_vector);
}

} // verus!
