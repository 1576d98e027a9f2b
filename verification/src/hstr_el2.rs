//! Hypervisor System Trap Register - EL2.
//!
//! Controls trapping to EL2 of Non-secure EL1 or lower AArch32 accesses to
//! the System register in the coproc == 1111 encoding space, by the CRn
//! value used to access the register using an MCR or MRC instruction.
//! 32 bits, read-write.

use vstd::prelude::*;
use crate::bits32::{extract32, insert32, decode32, encode32};

verus! {

/// The fields of the register, each with its bit offset and width.
#[derive(Clone, Copy, PartialEq, Eq, Structural, Debug)]
pub enum Field {
    /// Trap accesses with CRn == 15 (bit 15).
    T15,
    /// Trap accesses with CRn == 14 (bit 14).
    T14,
    /// Trap accesses with CRn == 13 (bit 13).
    T13,
    /// Trap accesses with CRn == 12 (bit 12).
    T12,
    /// Trap accesses with CRn == 11 (bit 11).
    T11,
    /// Trap accesses with CRn == 10 (bit 10).
    T10,
    /// Trap accesses with CRn == 9 (bit 9).
    T9,
    /// Trap accesses with CRn == 8 (bit 8).
    T8,
    /// Trap accesses with CRn == 7 (bit 7).
    T7,
    /// Trap accesses with CRn == 6 (bit 6).
    T6,
    /// Trap accesses with CRn == 5 (bit 5).
    T5,
    /// Trap accesses with CRn == 4 (bit 4).
    T4,
    /// Trap accesses with CRn == 3 (bit 3).
    T3,
    /// Trap accesses with CRn == 2 (bit 2).
    T2,
    /// Trap accesses with CRn == 1 (bit 1).
    T1,
    /// Trap accesses with CRn == 0 (bit 0).
    T0,
}

impl Field {
    /// Bit offset of the field, counted from the least significant bit.
    pub open spec fn spec_offset(self) -> u32 {
        match self {
            Field::T15 => 15,
            Field::T14 => 14,
            Field::T13 => 13,
            Field::T12 => 12,
            Field::T11 => 11,
            Field::T10 => 10,
            Field::T9 => 9,
            Field::T8 => 8,
            Field::T7 => 7,
            Field::T6 => 6,
            Field::T5 => 5,
            Field::T4 => 4,
            Field::T3 => 3,
            Field::T2 => 2,
            Field::T1 => 1,
            Field::T0 => 0,
        }
    }

    /// Bit width of the field.
    pub open spec fn spec_width(self) -> u32 {
        1
    }

    /// Bit offset of the field; also shows that the field lies within the
    /// 32-bit register.
    pub fn offset(&self) -> (o: u32)
        ensures
            o == self.spec_offset(),
            o + self.spec_width() <= 32,
    {
        match self {
            Field::T15 => 15,
            Field::T14 => 14,
            Field::T13 => 13,
            Field::T12 => 12,
            Field::T11 => 11,
            Field::T10 => 10,
            Field::T9 => 9,
            Field::T8 => 8,
            Field::T7 => 7,
            Field::T6 => 6,
            Field::T5 => 5,
            Field::T4 => 4,
            Field::T3 => 3,
            Field::T2 => 2,
            Field::T1 => 1,
            Field::T0 => 0,
        }
    }

    /// Bit width of the field; at least 1.
    pub fn width(&self) -> (w: u32)
        ensures
            w == self.spec_width(),
            1 <= w,
    {
        1
    }
}

/// An image of the HSTR_EL2 register: the raw 32-bit value, with
/// field access on top of it. The embedding program captures the hardware
/// register into a `Reg` and writes `Reg::get` back out.
pub struct Reg {
    value: u32,
}

impl Reg {
    /// The raw 32-bit contents of the register image.
    pub closed spec fn raw(self) -> u32 {
        self.value
    }

    /// Wrap a raw register value.
    pub fn new(value: u32) -> (r: Reg)
        ensures
            r.raw() == value,
    {
        Reg { value }
    }

    /// The full raw value.
    pub fn get(&self) -> (raw: u32)
        ensures
            raw == self.raw(),
    {
        self.value
    }

    /// Replace the full raw value.
    pub fn set(&mut self, raw: u32)
        ensures
            final(self).raw() == raw,
    {
        self.value = raw;
    }

    /// The value of one field.
    pub fn read(&self, field: Field) -> (v: u32)
        ensures
            v == extract32(self.raw(), field.spec_offset(), field.spec_width()),
    {
        decode32(self.value, field.offset(), field.width())
    }

    /// Replace one field, keeping every bit outside it; a value wider than
    /// the field is truncated to the field's width.
    pub fn write(&mut self, field: Field, value: u32)
        ensures
            final(self).raw() == insert32(
                old(self).raw(),
                field.spec_offset(),
                field.spec_width(),
                value,
            ),
    {
        self.value = encode32(self.value, field.offset(), field.width(), value);
    }
}

} // verus!
