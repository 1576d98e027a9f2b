//! Saved Program Status Register - EL2.
//!
//! Holds the saved process state when an exception is taken to EL2.
//! 32 bits, read-write.

use vstd::prelude::*;
use crate::bits32::{extract32, insert32, decode32, encode32};
use crate::bits32::{lemma_round_trip32, lemma_low_bits32_consts};

verus! {

/// The fields of the register, each with its bit offset and width.
#[derive(Clone, Copy, PartialEq, Eq, Structural, Debug)]
pub enum Field {
    /// Negative condition flag (bit 31).
    N,
    /// Zero condition flag (bit 30).
    Z,
    /// Carry condition flag (bit 29).
    C,
    /// Overflow condition flag (bit 28).
    V,
    /// Software step: PSTATE.SS immediately before the exception (bit 21).
    SS,
    /// Illegal Execution state: PSTATE.IL immediately before the exception (bit 20).
    IL,
    /// Process state D (debug exception) mask (bit 9).
    D,
    /// SError interrupt mask (bit 8).
    A,
    /// IRQ mask (bit 7).
    I,
    /// FIQ mask (bit 6).
    F,
    /// Execution state that the exception was taken from (bit 4).
    M4,
    /// Mode or state that the exception was taken from (bits 3:0).
    M,
}

impl Field {
    /// Bit offset of the field, counted from the least significant bit.
    pub open spec fn spec_offset(self) -> u32 {
        match self {
            Field::N => 31,
            Field::Z => 30,
            Field::C => 29,
            Field::V => 28,
            Field::SS => 21,
            Field::IL => 20,
            Field::D => 9,
            Field::A => 8,
            Field::I => 7,
            Field::F => 6,
            Field::M4 => 4,
            Field::M => 0,
        }
    }

    /// Bit width of the field.
    pub open spec fn spec_width(self) -> u32 {
        match self {
            Field::N => 1,
            Field::Z => 1,
            Field::C => 1,
            Field::V => 1,
            Field::SS => 1,
            Field::IL => 1,
            Field::D => 1,
            Field::A => 1,
            Field::I => 1,
            Field::F => 1,
            Field::M4 => 1,
            Field::M => 4,
        }
    }

    /// Bit offset of the field; also shows that the field lies within the
    /// 32-bit register.
    pub fn offset(&self) -> (o: u32)
        ensures
            o == self.spec_offset(),
            o + self.spec_width() <= 32,
    {
        match self {
            Field::N => 31,
            Field::Z => 30,
            Field::C => 29,
            Field::V => 28,
            Field::SS => 21,
            Field::IL => 20,
            Field::D => 9,
            Field::A => 8,
            Field::I => 7,
            Field::F => 6,
            Field::M4 => 4,
            Field::M => 0,
        }
    }

    /// Bit width of the field; at least 1.
    pub fn width(&self) -> (w: u32)
        ensures
            w == self.spec_width(),
            1 <= w,
    {
        match self {
            Field::N => 1,
            Field::Z => 1,
            Field::C => 1,
            Field::V => 1,
            Field::SS => 1,
            Field::IL => 1,
            Field::D => 1,
            Field::A => 1,
            Field::I => 1,
            Field::F => 1,
            Field::M4 => 1,
            Field::M => 4,
        }
    }
}

/// Named values of the one-bit exception mask fields D, A, I and F.
#[derive(Clone, Copy, PartialEq, Eq, Structural, Debug)]
pub enum Mask {
    /// Exception not masked.
    Unmasked,
    /// Exception masked.
    Masked,
}

impl Mask {
    /// The bit pattern of the named value.
    pub open spec fn spec_value(self) -> u32 {
        match self {
            Mask::Unmasked => 0,
            Mask::Masked => 1,
        }
    }

    /// The bit pattern of the named value.
    pub fn value(&self) -> (v: u32)
        ensures
            v == self.spec_value(),
    {
        match self {
            Mask::Unmasked => 0,
            Mask::Masked => 1,
        }
    }

    /// The named value for a decoded bit pattern, if there is one.
    pub open spec fn spec_from_value(v: u32) -> Option<Mask> {
        if v == 0 {
            Some(Mask::Unmasked)
        } else if v == 1 {
            Some(Mask::Masked)
        } else {
            None
        }
    }

    /// The named value for a decoded bit pattern, if there is one.
    pub fn from_value(v: u32) -> (r: Option<Mask>)
        ensures
            r == Mask::spec_from_value(v),
    {
        if v == 0 {
            Some(Mask::Unmasked)
        } else if v == 1 {
            Some(Mask::Masked)
        } else {
            None
        }
    }
}

/// Named values of the M4 field (execution state the exception came from).
#[derive(Clone, Copy, PartialEq, Eq, Structural, Debug)]
pub enum M4 {
    /// Exception taken from AArch64.
    AArch64,
    /// Exception taken from AArch32.
    AArch32,
}

impl M4 {
    /// The bit pattern of the named value.
    pub open spec fn spec_value(self) -> u32 {
        match self {
            M4::AArch64 => 0,
            M4::AArch32 => 1,
        }
    }

    /// The bit pattern of the named value.
    pub fn value(&self) -> (v: u32)
        ensures
            v == self.spec_value(),
    {
        match self {
            M4::AArch64 => 0,
            M4::AArch32 => 1,
        }
    }

    /// The named value for a decoded bit pattern, if there is one.
    pub open spec fn spec_from_value(v: u32) -> Option<M4> {
        if v == 0 {
            Some(M4::AArch64)
        } else if v == 1 {
            Some(M4::AArch32)
        } else {
            None
        }
    }

    /// The named value for a decoded bit pattern, if there is one.
    pub fn from_value(v: u32) -> (r: Option<M4>)
        ensures
            r == M4::spec_from_value(v),
    {
        if v == 0 {
            Some(M4::AArch64)
        } else if v == 1 {
            Some(M4::AArch32)
        } else {
            None
        }
    }
}

/// Named values of the M field: the AArch32 mode or the AArch64 state (Exception level and selected SP) that an exception was taken from. Other bit patterns are reserved.
#[derive(Clone, Copy, PartialEq, Eq, Structural, Debug)]
pub enum Mode {
    /// AArch64 EL0, SP0.
    EL0t,
    /// AArch32 FIQ mode.
    FIQ,
    /// AArch32 IRQ mode.
    IRQ,
    /// AArch32 Supervisor mode.
    Supervisor,
    /// AArch64 EL1, SP0.
    EL1t,
    /// AArch64 EL1, SP determined by the EL.
    EL1h,
    /// AArch32 Abort mode.
    Abort,
    /// AArch64 EL2, SP0.
    EL2t,
    /// AArch64 EL2, SP determined by the EL.
    EL2h,
    /// AArch32 Hyp mode.
    Hyp,
    /// AArch32 Undefined mode.
    Undefined,
    /// AArch32 System mode.
    System,
}

impl Mode {
    /// The bit pattern of the named value.
    pub open spec fn spec_value(self) -> u32 {
        match self {
            Mode::EL0t => 0,
            Mode::FIQ => 1,
            Mode::IRQ => 2,
            Mode::Supervisor => 3,
            Mode::EL1t => 4,
            Mode::EL1h => 5,
            Mode::Abort => 7,
            Mode::EL2t => 8,
            Mode::EL2h => 9,
            Mode::Hyp => 10,
            Mode::Undefined => 11,
            Mode::System => 15,
        }
    }

    /// The bit pattern of the named value.
    pub fn value(&self) -> (v: u32)
        ensures
            v == self.spec_value(),
    {
        match self {
            Mode::EL0t => 0,
            Mode::FIQ => 1,
            Mode::IRQ => 2,
            Mode::Supervisor => 3,
            Mode::EL1t => 4,
            Mode::EL1h => 5,
            Mode::Abort => 7,
            Mode::EL2t => 8,
            Mode::EL2h => 9,
            Mode::Hyp => 10,
            Mode::Undefined => 11,
            Mode::System => 15,
        }
    }

    /// The named value for a decoded bit pattern, if there is one.
    pub open spec fn spec_from_value(v: u32) -> Option<Mode> {
        if v == 0 {
            Some(Mode::EL0t)
        } else if v == 1 {
            Some(Mode::FIQ)
        } else if v == 2 {
            Some(Mode::IRQ)
        } else if v == 3 {
            Some(Mode::Supervisor)
        } else if v == 4 {
            Some(Mode::EL1t)
        } else if v == 5 {
            Some(Mode::EL1h)
        } else if v == 7 {
            Some(Mode::Abort)
        } else if v == 8 {
            Some(Mode::EL2t)
        } else if v == 9 {
            Some(Mode::EL2h)
        } else if v == 10 {
            Some(Mode::Hyp)
        } else if v == 11 {
            Some(Mode::Undefined)
        } else if v == 15 {
            Some(Mode::System)
        } else {
            None
        }
    }

    /// The named value for a decoded bit pattern, if there is one.
    pub fn from_value(v: u32) -> (r: Option<Mode>)
        ensures
            r == Mode::spec_from_value(v),
    {
        if v == 0 {
            Some(Mode::EL0t)
        } else if v == 1 {
            Some(Mode::FIQ)
        } else if v == 2 {
            Some(Mode::IRQ)
        } else if v == 3 {
            Some(Mode::Supervisor)
        } else if v == 4 {
            Some(Mode::EL1t)
        } else if v == 5 {
            Some(Mode::EL1h)
        } else if v == 7 {
            Some(Mode::Abort)
        } else if v == 8 {
            Some(Mode::EL2t)
        } else if v == 9 {
            Some(Mode::EL2h)
        } else if v == 10 {
            Some(Mode::Hyp)
        } else if v == 11 {
            Some(Mode::Undefined)
        } else if v == 15 {
            Some(Mode::System)
        } else {
            None
        }
    }
}

/// An image of the SPSR_EL2 register: the raw 32-bit value, with
/// field access on top of it. The embedding program captures the hardware
/// register into a `Reg` and writes `Reg::get` back out.
pub struct Reg {
    value: u32,
}

impl Reg {
    /// The raw 32-bit contents of the register image.
    pub closed spec fn raw(self) -> u32 {
        self.value
    }

    /// Wrap a raw register value.
    pub fn new(value: u32) -> (r: Reg)
        ensures
            r.raw() == value,
    {
        Reg { value }
    }

    /// The full raw value.
    pub fn get(&self) -> (raw: u32)
        ensures
            raw == self.raw(),
    {
        self.value
    }

    /// Replace the full raw value.
    pub fn set(&mut self, raw: u32)
        ensures
            final(self).raw() == raw,
    {
        self.value = raw;
    }

    /// The value of one field.
    pub fn read(&self, field: Field) -> (v: u32)
        ensures
            v == extract32(self.raw(), field.spec_offset(), field.spec_width()),
    {
        decode32(self.value, field.offset(), field.width())
    }

    /// Replace one field, keeping every bit outside it; a value wider than
    /// the field is truncated to the field's width.
    pub fn write(&mut self, field: Field, value: u32)
        ensures
            final(self).raw() == insert32(
                old(self).raw(),
                field.spec_offset(),
                field.spec_width(),
                value,
            ),
    {
        self.value = encode32(self.value, field.offset(), field.width(), value);
    }
}

/// Law (enumeration fidelity): for every one-bit field of this register,
/// every named mask value, once encoded into any raw value and decoded
/// again, names the same value.
pub proof fn lemma_mask_fidelity(raw: u32, field: Field, e: Mask)
    requires
        field.spec_width() == 1,
    ensures
        Mask::spec_from_value(
            extract32(
                insert32(raw, field.spec_offset(), 1, e.spec_value()),
                field.spec_offset(),
                1,
            ),
        ) == Some(e),
{
    lemma_low_bits32_consts();
    lemma_round_trip32(raw, field.spec_offset(), 1, e.spec_value());
}

/// Law (enumeration fidelity): every named value of the M4 field, once
/// encoded into any raw value and decoded again, names the same value.
pub proof fn lemma_m4_fidelity(raw: u32, e: M4)
    ensures
        M4::spec_from_value(
            extract32(
                insert32(
                    raw,
                    Field::M4.spec_offset(),
                    Field::M4.spec_width(),
                    e.spec_value(),
                ),
                Field::M4.spec_offset(),
                Field::M4.spec_width(),
            ),
        ) == Some(e),
{
    lemma_low_bits32_consts();
    lemma_round_trip32(raw, 4, 1, e.spec_value());
}

/// Law (enumeration fidelity): every named value of the M field, once
/// encoded into any raw value and decoded again, names the same value.
pub proof fn lemma_mode_fidelity(raw: u32, e: Mode)
    ensures
        Mode::spec_from_value(
            extract32(
                insert32(
                    raw,
                    Field::M.spec_offset(),
                    Field::M.spec_width(),
                    e.spec_value(),
                ),
                Field::M.spec_offset(),
                Field::M.spec_width(),
            ),
        ) == Some(e),
{
    lemma_low_bits32_consts();
    lemma_round_trip32(raw, 0, 4, e.spec_value());
}

} // verus!
