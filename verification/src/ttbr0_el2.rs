//! Translation Table Base Register 0 - EL2.
//!
//! Holds the base address of the translation table for the initial lookup
//! for stage 1 of the translation of an address from the lower VA range in
//! the EL2&0 translation regime, and other information for this translation
//! regime. 64 bits, read-write.

use vstd::prelude::*;
use crate::baddr::{spec_baddr, spec_with_baddr, baddr_of, with_baddr};
use crate::bits64::{extract64, insert64, decode64, encode64};

verus! {

/// The fields of the register, each with its bit offset and width.
#[derive(Clone, Copy, PartialEq, Eq, Structural, Debug)]
pub enum Field {
    /// An ASID for the translation table base address (bits 63:48).
    ASID,
    /// Translation table base address, bits [47:1] of it (bits 47:1).
    BADDR,
    /// Common not Private (bit 0).
    CnP,
}

impl Field {
    /// Bit offset of the field, counted from the least significant bit.
    pub open spec fn spec_offset(self) -> u64 {
        match self {
            Field::ASID => 48,
            Field::BADDR => 1,
            Field::CnP => 0,
        }
    }

    /// Bit width of the field.
    pub open spec fn spec_width(self) -> u64 {
        match self {
            Field::ASID => 16,
            Field::BADDR => 47,
            Field::CnP => 1,
        }
    }

    /// Bit offset of the field; also shows that the field lies within the
    /// 64-bit register.
    pub fn offset(&self) -> (o: u64)
        ensures
            o == self.spec_offset(),
            o + self.spec_width() <= 64,
    {
        match self {
            Field::ASID => 48,
            Field::BADDR => 1,
            Field::CnP => 0,
        }
    }

    /// Bit width of the field; at least 1.
    pub fn width(&self) -> (w: u64)
        ensures
            w == self.spec_width(),
            1 <= w,
    {
        match self {
            Field::ASID => 16,
            Field::BADDR => 47,
            Field::CnP => 1,
        }
    }
}

/// An image of the TTBR0_EL2 register: the raw 64-bit value, with
/// field access on top of it. The embedding program captures the hardware
/// register into a `Reg` and writes `Reg::get` back out.
pub struct Reg {
    value: u64,
}

impl Reg {
    /// The raw 64-bit contents of the register image.
    pub closed spec fn raw(self) -> u64 {
        self.value
    }

    /// Wrap a raw register value.
    pub fn new(value: u64) -> (r: Reg)
        ensures
            r.raw() == value,
    {
        Reg { value }
    }

    /// The full raw value.
    pub fn get(&self) -> (raw: u64)
        ensures
            raw == self.raw(),
    {
        self.value
    }

    /// Replace the full raw value.
    pub fn set(&mut self, raw: u64)
        ensures
            final(self).raw() == raw,
    {
        self.value = raw;
    }

    /// The value of one field.
    pub fn read(&self, field: Field) -> (v: u64)
        ensures
            v == extract64(self.raw(), field.spec_offset(), field.spec_width()),
    {
        decode64(self.value, field.offset(), field.width())
    }

    /// Replace one field, keeping every bit outside it; a value wider than
    /// the field is truncated to the field's width.
    pub fn write(&mut self, field: Field, value: u64)
        ensures
            final(self).raw() == insert64(
                old(self).raw(),
                field.spec_offset(),
                field.spec_width(),
                value,
            ),
    {
        self.value = encode64(self.value, field.offset(), field.width(), value);
    }

    /// The translation-table base address: the BADDR field with its
    /// implicit zero low bit restored.
    pub fn get_baddr(&self) -> (addr: u64)
        ensures
            addr == spec_baddr(self.raw()),
    {
        baddr_of(self.value)
    }

    /// Store a translation-table base address into the BADDR field,
    /// keeping every bit outside it. The address's low bit is implicitly
    /// zero and is dropped; an odd address silently loses it, matching
    /// hardware truncation.
    pub fn set_baddr(&mut self, addr: u64)
        ensures
            final(self).raw() == spec_with_baddr(old(self).raw(), addr),
    {
        self.value = with_baddr(self.value, addr);
    }
}

} // verus!
