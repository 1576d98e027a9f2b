//! Cache Size Selection Register - EL1.
//!
//! Selects the current Cache Size ID Register, CCSIDR_EL1, by specifying the
//! required cache level and the cache type (instruction or data cache).
//! 32 bits, read-write.

use vstd::prelude::*;
use crate::bits32::{extract32, insert32, decode32, encode32};
use crate::bits32::{lemma_round_trip32, lemma_low_bits32_consts};

verus! {

/// The fields of the register, each with its bit offset and width.
#[derive(Clone, Copy, PartialEq, Eq, Structural, Debug)]
pub enum Field {
    /// Cache level of the required cache (bits 3:1).
    Level,
    /// Instruction not Data bit (bit 0).
    InD,
}

impl Field {
    /// Bit offset of the field, counted from the least significant bit.
    pub open spec fn spec_offset(self) -> u32 {
        match self {
            Field::Level => 1,
            Field::InD => 0,
        }
    }

    /// Bit width of the field.
    pub open spec fn spec_width(self) -> u32 {
        match self {
            Field::Level => 3,
            Field::InD => 1,
        }
    }

    /// Bit offset of the field; also shows that the field lies within the
    /// 32-bit register.
    pub fn offset(&self) -> (o: u32)
        ensures
            o == self.spec_offset(),
            o + self.spec_width() <= 32,
    {
        match self {
            Field::Level => 1,
            Field::InD => 0,
        }
    }

    /// Bit width of the field; at least 1.
    pub fn width(&self) -> (w: u32)
        ensures
            w == self.spec_width(),
            1 <= w,
    {
        match self {
            Field::Level => 3,
            Field::InD => 1,
        }
    }
}

/// Named values of the Level field (cache level).
#[derive(Clone, Copy, PartialEq, Eq, Structural, Debug)]
pub enum Level {
    /// Level 1 cache.
    Level1,
    /// Level 2 cache.
    Level2,
    /// Level 3 cache.
    Level3,
    /// Level 4 cache.
    Level4,
    /// Level 5 cache.
    Level5,
    /// Level 6 cache.
    Level6,
    /// Level 7 cache.
    Level7,
}

impl Level {
    /// The bit pattern of the named value.
    pub open spec fn spec_value(self) -> u32 {
        match self {
            Level::Level1 => 0,
            Level::Level2 => 1,
            Level::Level3 => 2,
            Level::Level4 => 3,
            Level::Level5 => 4,
            Level::Level6 => 5,
            Level::Level7 => 6,
        }
    }

    /// The bit pattern of the named value.
    pub fn value(&self) -> (v: u32)
        ensures
            v == self.spec_value(),
    {
        match self {
            Level::Level1 => 0,
            Level::Level2 => 1,
            Level::Level3 => 2,
            Level::Level4 => 3,
            Level::Level5 => 4,
            Level::Level6 => 5,
            Level::Level7 => 6,
        }
    }

    /// The named value for a decoded bit pattern, if there is one.
    pub open spec fn spec_from_value(v: u32) -> Option<Level> {
        if v == 0 {
            Some(Level::Level1)
        } else if v == 1 {
            Some(Level::Level2)
        } else if v == 2 {
            Some(Level::Level3)
        } else if v == 3 {
            Some(Level::Level4)
        } else if v == 4 {
            Some(Level::Level5)
        } else if v == 5 {
            Some(Level::Level6)
        } else if v == 6 {
            Some(Level::Level7)
        } else {
            None
        }
    }

    /// The named value for a decoded bit pattern, if there is one.
    pub fn from_value(v: u32) -> (r: Option<Level>)
        ensures
            r == Level::spec_from_value(v),
    {
        if v == 0 {
            Some(Level::Level1)
        } else if v == 1 {
            Some(Level::Level2)
        } else if v == 2 {
            Some(Level::Level3)
        } else if v == 3 {
            Some(Level::Level4)
        } else if v == 4 {
            Some(Level::Level5)
        } else if v == 5 {
            Some(Level::Level6)
        } else if v == 6 {
            Some(Level::Level7)
        } else {
            None
        }
    }
}

/// Named values of the InD field (cache type).
#[derive(Clone, Copy, PartialEq, Eq, Structural, Debug)]
pub enum InD {
    /// Data or unified cache.
    DataOrUnifiedCache,
    /// Instruction cache.
    InstructionCache,
}

impl InD {
    /// The bit pattern of the named value.
    pub open spec fn spec_value(self) -> u32 {
        match self {
            InD::DataOrUnifiedCache => 0,
            InD::InstructionCache => 1,
        }
    }

    /// The bit pattern of the named value.
    pub fn value(&self) -> (v: u32)
        ensures
            v == self.spec_value(),
    {
        match self {
            InD::DataOrUnifiedCache => 0,
            InD::InstructionCache => 1,
        }
    }

    /// The named value for a decoded bit pattern, if there is one.
    pub open spec fn spec_from_value(v: u32) -> Option<InD> {
        if v == 0 {
            Some(InD::DataOrUnifiedCache)
        } else if v == 1 {
            Some(InD::InstructionCache)
        } else {
            None
        }
    }

    /// The named value for a decoded bit pattern, if there is one.
    pub fn from_value(v: u32) -> (r: Option<InD>)
        ensures
            r == InD::spec_from_value(v),
    {
        if v == 0 {
            Some(InD::DataOrUnifiedCache)
        } else if v == 1 {
            Some(InD::InstructionCache)
        } else {
            None
        }
    }
}

/// An image of the CSSELR_EL1 register: the raw 32-bit value, with
/// field access on top of it. The embedding program captures the hardware
/// register into a `Reg` and writes `Reg::get` back out.
pub struct Reg {
    value: u32,
}

impl Reg {
    /// The raw 32-bit contents of the register image.
    pub closed spec fn raw(self) -> u32 {
        self.value
    }

    /// Wrap a raw register value.
    pub fn new(value: u32) -> (r: Reg)
        ensures
            r.raw() == value,
    {
        Reg { value }
    }

    /// The full raw value.
    pub fn get(&self) -> (raw: u32)
        ensures
            raw == self.raw(),
    {
        self.value
    }

    /// Replace the full raw value.
    pub fn set(&mut self, raw: u32)
        ensures
            final(self).raw() == raw,
    {
        self.value = raw;
    }

    /// The value of one field.
    pub fn read(&self, field: Field) -> (v: u32)
        ensures
            v == extract32(self.raw(), field.spec_offset(), field.spec_width()),
    {
        decode32(self.value, field.offset(), field.width())
    }

    /// Replace one field, keeping every bit outside it; a value wider than
    /// the field is truncated to the field's width.
    pub fn write(&mut self, field: Field, value: u32)
        ensures
            final(self).raw() == insert32(
                old(self).raw(),
                field.spec_offset(),
                field.spec_width(),
                value,
            ),
    {
        self.value = encode32(self.value, field.offset(), field.width(), value);
    }
}

/// Law (enumeration fidelity): every named value of the Level field, once
/// encoded into any raw value and decoded again, names the same value.
pub proof fn lemma_level_fidelity(raw: u32, e: Level)
    ensures
        Level::spec_from_value(
            extract32(
                insert32(
                    raw,
                    Field::Level.spec_offset(),
                    Field::Level.spec_width(),
                    e.spec_value(),
                ),
                Field::Level.spec_offset(),
                Field::Level.spec_width(),
            ),
        ) == Some(e),
{
    lemma_low_bits32_consts();
    lemma_round_trip32(raw, 1, 3, e.spec_value());
}

/// Law (enumeration fidelity): every named value of the InD field, once
/// encoded into any raw value and decoded again, names the same value.
pub proof fn lemma_ind_fidelity(raw: u32, e: InD)
    ensures
        InD::spec_from_value(
            extract32(
                insert32(
                    raw,
                    Field::InD.spec_offset(),
                    Field::InD.spec_width(),
                    e.spec_value(),
                ),
                Field::InD.spec_offset(),
                Field::InD.spec_width(),
            ),
        ) == Some(e),
{
    lemma_low_bits32_consts();
    lemma_round_trip32(raw, 0, 1, e.spec_value());
}

} // verus!
