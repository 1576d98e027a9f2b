//! Current Cache Size ID Register - EL1.
//!
//! Provides information about the architecture of the currently selected
//! cache. 32 bits, read-only: the type exposes no operation that writes it.

use vstd::prelude::*;
use crate::bits32::{extract32, decode32};

verus! {

/// The fields of the register, each with its bit offset and width.
#[derive(Clone, Copy, PartialEq, Eq, Structural, Debug)]
pub enum Field {
    /// (Number of sets in cache) - 1 (bits 27:13).
    NumSets,
    /// (Associativity of cache) - 1 (bits 12:3).
    Associativity,
    /// (Log2(Number of bytes in cache line)) - 4 (bits 2:0).
    LineSize,
}

impl Field {
    /// Bit offset of the field, counted from the least significant bit.
    pub open spec fn spec_offset(self) -> u32 {
        match self {
            Field::NumSets => 13,
            Field::Associativity => 3,
            Field::LineSize => 0,
        }
    }

    /// Bit width of the field.
    pub open spec fn spec_width(self) -> u32 {
        match self {
            Field::NumSets => 15,
            Field::Associativity => 10,
            Field::LineSize => 3,
        }
    }

    /// Bit offset of the field; also shows that the field lies within the
    /// 32-bit register.
    pub fn offset(&self) -> (o: u32)
        ensures
            o == self.spec_offset(),
            o + self.spec_width() <= 32,
    {
        match self {
            Field::NumSets => 13,
            Field::Associativity => 3,
            Field::LineSize => 0,
        }
    }

    /// Bit width of the field; at least 1.
    pub fn width(&self) -> (w: u32)
        ensures
            w == self.spec_width(),
            1 <= w,
    {
        match self {
            Field::NumSets => 15,
            Field::Associativity => 10,
            Field::LineSize => 3,
        }
    }
}

/// An image of the CCSIDR_EL1 register: the raw 32-bit value, with
/// read-only field access on top of it. The register is read-only, so the
/// type exposes no operation that changes the image: the embedding program
/// only captures the hardware register into a `Reg`.
pub struct Reg {
    value: u32,
}

impl Reg {
    /// The raw 32-bit contents of the register image.
    pub closed spec fn raw(self) -> u32 {
        self.value
    }

    /// Wrap a raw register value.
    pub fn new(value: u32) -> (r: Reg)
        ensures
            r.raw() == value,
    {
        Reg { value }
    }

    /// The full raw value.
    pub fn get(&self) -> (raw: u32)
        ensures
            raw == self.raw(),
    {
        self.value
    }

    /// The value of one field.
    pub fn read(&self, field: Field) -> (v: u32)
        ensures
            v == extract32(self.raw(), field.spec_offset(), field.spec_width()),
    {
        decode32(self.value, field.offset(), field.width())
    }
}

} // verus!
