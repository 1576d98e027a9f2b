//! Hypervisor Configuration Register - EL2.
//!
//! Provides configuration controls for virtualization, including defining
//! whether various Non-secure operations are trapped to EL2. 64 bits,
//! read-write.

use vstd::prelude::*;
use crate::bits64::{extract64, insert64, decode64, encode64};
use crate::bits64::{lemma_round_trip64, lemma_low_bits64_consts};

verus! {

/// The fields of HCR_EL2, each with its bit offset and width.
#[derive(Clone, Copy, PartialEq, Eq, Structural, Debug)]
pub enum Field {
    /// Execution state control for lower Exception levels (bit 31).
    RW,
    /// Default Cacheability (bit 12).
    DC,
    /// Barrier Shareability upgrade (bits 11:10).
    BSU,
    /// Force broadcast (bit 9).
    FB,
    /// Virtual System Error/Asynchronous Abort pending (bit 8).
    VSE,
    /// Virtual IRQ pending (bit 7).
    VI,
    /// Virtual FIQ pending (bit 6).
    VF,
    /// Asynchronous External Abort and SError routing to EL2 (bit 5).
    AMO,
    /// Physical IRQ routing to EL2 (bit 4).
    IMO,
    /// Physical FIQ routing to EL2 (bit 3).
    FMO,
    /// Protected Table Walk (bit 2).
    PTW,
    /// Set/Way Invalidation Override (bit 1).
    SWIO,
    /// Stage 2 address translation enable for EL1 and EL0 (bit 0).
    VM,
}

impl Field {
    /// Bit offset of the field, counted from the least significant bit.
    pub open spec fn spec_offset(self) -> u64 {
        match self {
            Field::RW => 31,
            Field::DC => 12,
            Field::BSU => 10,
            Field::FB => 9,
            Field::VSE => 8,
            Field::VI => 7,
            Field::VF => 6,
            Field::AMO => 5,
            Field::IMO => 4,
            Field::FMO => 3,
            Field::PTW => 2,
            Field::SWIO => 1,
            Field::VM => 0,
        }
    }

    /// Bit width of the field.
    pub open spec fn spec_width(self) -> u64 {
        match self {
            Field::BSU => 2,
            _ => 1,
        }
    }

    /// Bit offset of the field; also shows that the field lies within the
    /// 64-bit register.
    pub fn offset(&self) -> (o: u64)
        ensures
            o == self.spec_offset(),
            o + self.spec_width() <= 64,
    {
        match self {
            Field::RW => 31,
            Field::DC => 12,
            Field::BSU => 10,
            Field::FB => 9,
            Field::VSE => 8,
            Field::VI => 7,
            Field::VF => 6,
            Field::AMO => 5,
            Field::IMO => 4,
            Field::FMO => 3,
            Field::PTW => 2,
            Field::SWIO => 1,
            Field::VM => 0,
        }
    }

    /// Bit width of the field; at least 1.
    pub fn width(&self) -> (w: u64)
        ensures
            w == self.spec_width(),
            1 <= w,
    {
        match self {
            Field::BSU => 2,
            _ => 1,
        }
    }
}

/// Named values of the RW field (execution state of lower Exception levels).
#[derive(Clone, Copy, PartialEq, Eq, Structural, Debug)]
pub enum RW {
    /// Lower levels are all AArch32.
    AllLowerELsAreAarch32,
    /// The Execution state for EL1 is AArch64.
    EL1IsAarch64,
}

impl RW {
    /// The bit pattern of the named value.
    pub open spec fn spec_value(self) -> u64 {
        match self {
            RW::AllLowerELsAreAarch32 => 0,
            RW::EL1IsAarch64 => 1,
        }
    }

    /// The bit pattern of the named value.
    pub fn value(&self) -> (v: u64)
        ensures
            v == self.spec_value(),
    {
        match self {
            RW::AllLowerELsAreAarch32 => 0,
            RW::EL1IsAarch64 => 1,
        }
    }

    /// The named value for a decoded bit pattern, if there is one.
    pub open spec fn spec_from_value(v: u64) -> Option<RW> {
        if v == 0 {
            Some(RW::AllLowerELsAreAarch32)
        } else if v == 1 {
            Some(RW::EL1IsAarch64)
        } else {
            None
        }
    }

    /// The named value for a decoded bit pattern, if there is one.
    pub fn from_value(v: u64) -> (r: Option<RW>)
        ensures
            r == RW::spec_from_value(v),
    {
        if v == 0 {
            Some(RW::AllLowerELsAreAarch32)
        } else if v == 1 {
            Some(RW::EL1IsAarch64)
        } else {
            None
        }
    }
}

/// Named values of the BSU field (barrier shareability upgrade).
#[derive(Clone, Copy, PartialEq, Eq, Structural, Debug)]
pub enum BSU {
    /// No effect.
    NoEffect,
    /// Inner Shareable.
    InnerShareable,
    /// Outer Shareable.
    OuterShareable,
    /// Full system.
    FullSystem,
}

impl BSU {
    /// The bit pattern of the named value.
    pub open spec fn spec_value(self) -> u64 {
        match self {
            BSU::NoEffect => 0,
            BSU::InnerShareable => 1,
            BSU::OuterShareable => 2,
            BSU::FullSystem => 3,
        }
    }

    /// The bit pattern of the named value.
    pub fn value(&self) -> (v: u64)
        ensures
            v == self.spec_value(),
    {
        match self {
            BSU::NoEffect => 0,
            BSU::InnerShareable => 1,
            BSU::OuterShareable => 2,
            BSU::FullSystem => 3,
        }
    }

    /// The named value for a decoded bit pattern, if there is one.
    pub open spec fn spec_from_value(v: u64) -> Option<BSU> {
        if v == 0 {
            Some(BSU::NoEffect)
        } else if v == 1 {
            Some(BSU::InnerShareable)
        } else if v == 2 {
            Some(BSU::OuterShareable)
        } else if v == 3 {
            Some(BSU::FullSystem)
        } else {
            None
        }
    }

    /// The named value for a decoded bit pattern, if there is one.
    pub fn from_value(v: u64) -> (r: Option<BSU>)
        ensures
            r == BSU::spec_from_value(v),
    {
        if v == 0 {
            Some(BSU::NoEffect)
        } else if v == 1 {
            Some(BSU::InnerShareable)
        } else if v == 2 {
            Some(BSU::OuterShareable)
        } else if v == 3 {
            Some(BSU::FullSystem)
        } else {
            None
        }
    }
}

/// An image of the HCR_EL2 register: the raw 64-bit value, with field access
/// on top of it. The embedding program captures the hardware register into a
/// `Reg` and writes `Reg::get` back out.
pub struct Reg {
    value: u64,
}

impl Reg {
    /// The raw 64-bit contents of the register image.
    pub closed spec fn raw(self) -> u64 {
        self.value
    }

    /// Wrap a raw register value.
    pub fn new(value: u64) -> (r: Reg)
        ensures
            r.raw() == value,
    {
        Reg { value }
    }

    /// The full raw value.
    pub fn get(&self) -> (raw: u64)
        ensures
            raw == self.raw(),
    {
        self.value
    }

    /// Replace the full raw value.
    pub fn set(&mut self, raw: u64)
        ensures
            final(self).raw() == raw,
    {
        self.value = raw;
    }

    /// The value of one field.
    pub fn read(&self, field: Field) -> (v: u64)
        ensures
            v == extract64(self.raw(), field.spec_offset(), field.spec_width()),
    {
        decode64(self.value, field.offset(), field.width())
    }

    /// Replace one field, keeping every bit outside it; a value wider than
    /// the field is truncated to the field's width.
    pub fn write(&mut self, field: Field, value: u64)
        ensures
            final(self).raw() == insert64(
                old(self).raw(),
                field.spec_offset(),
                field.spec_width(),
                value,
            ),
    {
        self.value = encode64(self.value, field.offset(), field.width(), value);
    }
}

/// Law (enumeration fidelity): every named value of the RW field, once
/// encoded into any raw value and decoded again, names the same value.
pub proof fn lemma_rw_fidelity(raw: u64, e: RW)
    ensures
        RW::spec_from_value(
            extract64(
                insert64(raw, Field::RW.spec_offset(), Field::RW.spec_width(), e.spec_value()),
                Field::RW.spec_offset(),
                Field::RW.spec_width(),
            ),
        ) == Some(e),
{
    lemma_low_bits64_consts();
    lemma_round_trip64(raw, 31, 1, e.spec_value());
}

/// Law (enumeration fidelity): every named value of the BSU field, once
/// encoded into any raw value and decoded again, names the same value.
pub proof fn lemma_bsu_fidelity(raw: u64, e: BSU)
    ensures
        BSU::spec_from_value(
            extract64(
                insert64(raw, Field::BSU.spec_offset(), Field::BSU.spec_width(), e.spec_value()),
                Field::BSU.spec_offset(),
                Field::BSU.spec_width(),
            ),
        ) == Some(e),
{
    lemma_low_bits64_consts();
    lemma_round_trip64(raw, 10, 2, e.spec_value());
}

} // verus!
