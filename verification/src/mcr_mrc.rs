//! Instruction Syndrome encoding for an exception from an MCR or MRC access.
//!
//! This encoding is used by:
//! - Trapped MCR or MRC access with (coproc==1111) that is not reported
//!   using EC 0b000000.
//! - Trapped MCR or MRC access with (coproc==1110).
//! - Trapped VMRS access, from ID group trap, that is not reported using
//!   EC 0b000111.
//!
//! A value of this kind is an immutable snapshot of one raw 32-bit syndrome
//! captured at trap time; no operation mutates it. No validation is done on
//! the raw value's origin: any 32-bit value decodes as if it were a genuine
//! syndrome.

use vstd::prelude::*;
use crate::bits32::{extract32, insert32, decode32};
use crate::bits32::{lemma_round_trip32, lemma_low_bits32_consts};

verus! {

/// The fields of the register, each with its bit offset and width.
#[derive(Clone, Copy, PartialEq, Eq, Structural, Debug)]
pub enum Field {
    /// Whether the Cond field is valid (bit 24).
    CV,
    /// The condition code for the trapped instruction; meaningful only when CV says it is valid (bits 23:20).
    Cond,
    /// The Opc2 value from the issued instruction (bits 19:17).
    Opc2,
    /// The Opc1 value from the issued instruction (bits 16:14).
    Opc1,
    /// The CRn value from the issued instruction (bits 13:10).
    CRn,
    /// The Rt value from the issued instruction: the general-purpose register used for the transfer, in the AArch64 view of the register file (bits 9:5).
    Rt,
    /// The CRm value from the issued instruction (bits 4:1).
    CRm,
    /// The direction of the trapped instruction (bit 0).
    Direction,
}

impl Field {
    /// Bit offset of the field, counted from the least significant bit.
    pub open spec fn spec_offset(self) -> u32 {
        match self {
            Field::CV => 24,
            Field::Cond => 20,
            Field::Opc2 => 17,
            Field::Opc1 => 14,
            Field::CRn => 10,
            Field::Rt => 5,
            Field::CRm => 1,
            Field::Direction => 0,
        }
    }

    /// Bit width of the field.
    pub open spec fn spec_width(self) -> u32 {
        match self {
            Field::CV => 1,
            Field::Cond => 4,
            Field::Opc2 => 3,
            Field::Opc1 => 3,
            Field::CRn => 4,
            Field::Rt => 5,
            Field::CRm => 4,
            Field::Direction => 1,
        }
    }

    /// Bit offset of the field; also shows that the field lies within the
    /// 32-bit register.
    pub fn offset(&self) -> (o: u32)
        ensures
            o == self.spec_offset(),
            o + self.spec_width() <= 32,
    {
        match self {
            Field::CV => 24,
            Field::Cond => 20,
            Field::Opc2 => 17,
            Field::Opc1 => 14,
            Field::CRn => 10,
            Field::Rt => 5,
            Field::CRm => 1,
            Field::Direction => 0,
        }
    }

    /// Bit width of the field; at least 1.
    pub fn width(&self) -> (w: u32)
        ensures
            w == self.spec_width(),
            1 <= w,
    {
        match self {
            Field::CV => 1,
            Field::Cond => 4,
            Field::Opc2 => 3,
            Field::Opc1 => 3,
            Field::CRn => 4,
            Field::Rt => 5,
            Field::CRm => 4,
            Field::Direction => 1,
        }
    }
}

/// Named values of the CV field (condition code validity).
#[derive(Clone, Copy, PartialEq, Eq, Structural, Debug)]
pub enum CV {
    /// The Cond field is not valid.
    NotValid,
    /// The Cond field is valid.
    Valid,
}

impl CV {
    /// The bit pattern of the named value.
    pub open spec fn spec_value(self) -> u32 {
        match self {
            CV::NotValid => 0,
            CV::Valid => 1,
        }
    }

    /// The bit pattern of the named value.
    pub fn value(&self) -> (v: u32)
        ensures
            v == self.spec_value(),
    {
        match self {
            CV::NotValid => 0,
            CV::Valid => 1,
        }
    }

    /// The named value for a decoded bit pattern, if there is one.
    pub open spec fn spec_from_value(v: u32) -> Option<CV> {
        if v == 0 {
            Some(CV::NotValid)
        } else if v == 1 {
            Some(CV::Valid)
        } else {
            None
        }
    }

    /// The named value for a decoded bit pattern, if there is one.
    pub fn from_value(v: u32) -> (r: Option<CV>)
        ensures
            r == CV::spec_from_value(v),
    {
        if v == 0 {
            Some(CV::NotValid)
        } else if v == 1 {
            Some(CV::Valid)
        } else {
            None
        }
    }
}

/// Named values of the Direction field.
#[derive(Clone, Copy, PartialEq, Eq, Structural, Debug)]
pub enum Direction {
    /// Write to System register space: an MCR instruction.
    SystemRegisterWrite,
    /// Read from System register space: an MRC or VMRS instruction.
    SystemRegisterRead,
}

impl Direction {
    /// The bit pattern of the named value.
    pub open spec fn spec_value(self) -> u32 {
        match self {
            Direction::SystemRegisterWrite => 0,
            Direction::SystemRegisterRead => 1,
        }
    }

    /// The bit pattern of the named value.
    pub fn value(&self) -> (v: u32)
        ensures
            v == self.spec_value(),
    {
        match self {
            Direction::SystemRegisterWrite => 0,
            Direction::SystemRegisterRead => 1,
        }
    }

    /// The named value for a decoded bit pattern, if there is one.
    pub open spec fn spec_from_value(v: u32) -> Option<Direction> {
        if v == 0 {
            Some(Direction::SystemRegisterWrite)
        } else if v == 1 {
            Some(Direction::SystemRegisterRead)
        } else {
            None
        }
    }

    /// The named value for a decoded bit pattern, if there is one.
    pub fn from_value(v: u32) -> (r: Option<Direction>)
        ensures
            r == Direction::spec_from_value(v),
    {
        if v == 0 {
            Some(Direction::SystemRegisterWrite)
        } else if v == 1 {
            Some(Direction::SystemRegisterRead)
        } else {
            None
        }
    }
}

/// An immutable snapshot of one raw 32-bit MCR/MRC access syndrome, with
/// read-only named-field access on top of it.
pub struct McrMrcAccessIss {
    value: u32,
}

impl McrMrcAccessIss {
    /// The raw 32-bit syndrome value.
    pub closed spec fn raw(self) -> u32 {
        self.value
    }

    /// Wrap a raw syndrome value captured at trap time.
    pub fn new(value: u32) -> (r: McrMrcAccessIss)
        ensures
            r.raw() == value,
    {
        McrMrcAccessIss { value }
    }

    /// The full raw value.
    pub fn get(&self) -> (raw: u32)
        ensures
            raw == self.raw(),
    {
        self.value
    }

    /// The value of one field.
    pub fn read(&self, field: Field) -> (v: u32)
        ensures
            v == extract32(self.raw(), field.spec_offset(), field.spec_width()),
    {
        decode32(self.value, field.offset(), field.width())
    }
}

/// Law (enumeration fidelity): every named value of the CV field, once
/// encoded into any raw value and decoded again, names the same value.
pub proof fn lemma_cv_fidelity(raw: u32, e: CV)
    ensures
        CV::spec_from_value(
            extract32(
                insert32(
                    raw,
                    Field::CV.spec_offset(),
                    Field::CV.spec_width(),
                    e.spec_value(),
                ),
                Field::CV.spec_offset(),
                Field::CV.spec_width(),
            ),
        ) == Some(e),
{
    lemma_low_bits32_consts();
    lemma_round_trip32(raw, 24, 1, e.spec_value());
}

/// Law (enumeration fidelity): every named value of the Direction field, once
/// encoded into any raw value and decoded again, names the same value.
pub proof fn lemma_direction_fidelity(raw: u32, e: Direction)
    ensures
        Direction::spec_from_value(
            extract32(
                insert32(
                    raw,
                    Field::Direction.spec_offset(),
                    Field::Direction.spec_width(),
                    e.spec_value(),
                ),
                Field::Direction.spec_offset(),
                Field::Direction.spec_width(),
            ),
        ) == Some(e),
{
    lemma_low_bits32_consts();
    lemma_round_trip32(raw, 0, 1, e.spec_value());
}

} // verus!
