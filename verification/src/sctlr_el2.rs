//! System Control Register - EL2.
//!
//! Provides top level control of the system, including its memory system,
//! at EL2 and EL0. 32 bits, read-write.

use vstd::prelude::*;
use crate::bits32::{extract32, insert32, decode32, encode32};
use crate::bits32::{lemma_round_trip32, lemma_low_bits32_consts};

verus! {

/// The fields of the register, each with its bit offset and width.
#[derive(Clone, Copy, PartialEq, Eq, Structural, Debug)]
pub enum Field {
    /// Instruction access Cacheability control, for accesses at EL0 and EL2 (bit 12).
    I,
    /// Cacheability control, for data accesses (bit 2).
    C,
    /// MMU enable for EL2 and EL0 stage 1 address translation (bit 0).
    M,
}

impl Field {
    /// Bit offset of the field, counted from the least significant bit.
    pub open spec fn spec_offset(self) -> u32 {
        match self {
            Field::I => 12,
            Field::C => 2,
            Field::M => 0,
        }
    }

    /// Bit width of the field.
    pub open spec fn spec_width(self) -> u32 {
        1
    }

    /// Bit offset of the field; also shows that the field lies within the
    /// 32-bit register.
    pub fn offset(&self) -> (o: u32)
        ensures
            o == self.spec_offset(),
            o + self.spec_width() <= 32,
    {
        match self {
            Field::I => 12,
            Field::C => 2,
            Field::M => 0,
        }
    }

    /// Bit width of the field; at least 1.
    pub fn width(&self) -> (w: u32)
        ensures
            w == self.spec_width(),
            1 <= w,
    {
        1
    }
}

/// Named values of the I field (instruction access Cacheability).
#[derive(Clone, Copy, PartialEq, Eq, Structural, Debug)]
pub enum I {
    /// Instruction accesses to Normal memory are Non-cacheable.
    NonCacheable,
    /// No effect on the Cacheability of instruction accesses.
    Cacheable,
}

impl I {
    /// The bit pattern of the named value.
    pub open spec fn spec_value(self) -> u32 {
        match self {
            I::NonCacheable => 0,
            I::Cacheable => 1,
        }
    }

    /// The bit pattern of the named value.
    pub fn value(&self) -> (v: u32)
        ensures
            v == self.spec_value(),
    {
        match self {
            I::NonCacheable => 0,
            I::Cacheable => 1,
        }
    }

    /// The named value for a decoded bit pattern, if there is one.
    pub open spec fn spec_from_value(v: u32) -> Option<I> {
        if v == 0 {
            Some(I::NonCacheable)
        } else if v == 1 {
            Some(I::Cacheable)
        } else {
            None
        }
    }

    /// The named value for a decoded bit pattern, if there is one.
    pub fn from_value(v: u32) -> (r: Option<I>)
        ensures
            r == I::spec_from_value(v),
    {
        if v == 0 {
            Some(I::NonCacheable)
        } else if v == 1 {
            Some(I::Cacheable)
        } else {
            None
        }
    }
}

/// Named values of the C field (data access Cacheability).
#[derive(Clone, Copy, PartialEq, Eq, Structural, Debug)]
pub enum C {
    /// Data accesses to Normal memory are Non-cacheable.
    NonCacheable,
    /// No effect on the Cacheability of data accesses.
    Cacheable,
}

impl C {
    /// The bit pattern of the named value.
    pub open spec fn spec_value(self) -> u32 {
        match self {
            C::NonCacheable => 0,
            C::Cacheable => 1,
        }
    }

    /// The bit pattern of the named value.
    pub fn value(&self) -> (v: u32)
        ensures
            v == self.spec_value(),
    {
        match self {
            C::NonCacheable => 0,
            C::Cacheable => 1,
        }
    }

    /// The named value for a decoded bit pattern, if there is one.
    pub open spec fn spec_from_value(v: u32) -> Option<C> {
        if v == 0 {
            Some(C::NonCacheable)
        } else if v == 1 {
            Some(C::Cacheable)
        } else {
            None
        }
    }

    /// The named value for a decoded bit pattern, if there is one.
    pub fn from_value(v: u32) -> (r: Option<C>)
        ensures
            r == C::spec_from_value(v),
    {
        if v == 0 {
            Some(C::NonCacheable)
        } else if v == 1 {
            Some(C::Cacheable)
        } else {
            None
        }
    }
}

/// Named values of the M field (stage 1 MMU enable).
#[derive(Clone, Copy, PartialEq, Eq, Structural, Debug)]
pub enum M {
    /// EL2 and EL0 stage 1 address translation disabled.
    Disable,
    /// EL2 and EL0 stage 1 address translation enabled.
    Enable,
}

impl M {
    /// The bit pattern of the named value.
    pub open spec fn spec_value(self) -> u32 {
        match self {
            M::Disable => 0,
            M::Enable => 1,
        }
    }

    /// The bit pattern of the named value.
    pub fn value(&self) -> (v: u32)
        ensures
            v == self.spec_value(),
    {
        match self {
            M::Disable => 0,
            M::Enable => 1,
        }
    }

    /// The named value for a decoded bit pattern, if there is one.
    pub open spec fn spec_from_value(v: u32) -> Option<M> {
        if v == 0 {
            Some(M::Disable)
        } else if v == 1 {
            Some(M::Enable)
        } else {
            None
        }
    }

    /// The named value for a decoded bit pattern, if there is one.
    pub fn from_value(v: u32) -> (r: Option<M>)
        ensures
            r == M::spec_from_value(v),
    {
        if v == 0 {
            Some(M::Disable)
        } else if v == 1 {
            Some(M::Enable)
        } else {
            None
        }
    }
}

/// An image of the SCTLR_EL2 register: the raw 32-bit value, with
/// field access on top of it. The embedding program captures the hardware
/// register into a `Reg` and writes `Reg::get` back out.
pub struct Reg {
    value: u32,
}

impl Reg {
    /// The raw 32-bit contents of the register image.
    pub closed spec fn raw(self) -> u32 {
        self.value
    }

    /// Wrap a raw register value.
    pub fn new(value: u32) -> (r: Reg)
        ensures
            r.raw() == value,
    {
        Reg { value }
    }

    /// The full raw value.
    pub fn get(&self) -> (raw: u32)
        ensures
            raw == self.raw(),
    {
        self.value
    }

    /// Replace the full raw value.
    pub fn set(&mut self, raw: u32)
        ensures
            final(self).raw() == raw,
    {
        self.value = raw;
    }

    /// The value of one field.
    pub fn read(&self, field: Field) -> (v: u32)
        ensures
            v == extract32(self.raw(), field.spec_offset(), field.spec_width()),
    {
        decode32(self.value, field.offset(), field.width())
    }

    /// Replace one field, keeping every bit outside it; a value wider than
    /// the field is truncated to the field's width.
    pub fn write(&mut self, field: Field, value: u32)
        ensures
            final(self).raw() == insert32(
                old(self).raw(),
                field.spec_offset(),
                field.spec_width(),
                value,
            ),
    {
        self.value = encode32(self.value, field.offset(), field.width(), value);
    }
}

/// Law (enumeration fidelity): every named value of the I field, once
/// encoded into any raw value and decoded again, names the same value.
pub proof fn lemma_i_fidelity(raw: u32, e: I)
    ensures
        I::spec_from_value(
            extract32(
                insert32(
                    raw,
                    Field::I.spec_offset(),
                    Field::I.spec_width(),
                    e.spec_value(),
                ),
                Field::I.spec_offset(),
                Field::I.spec_width(),
            ),
        ) == Some(e),
{
    lemma_low_bits32_consts();
    lemma_round_trip32(raw, 12, 1, e.spec_value());
}

/// Law (enumeration fidelity): every named value of the C field, once
/// encoded into any raw value and decoded again, names the same value.
pub proof fn lemma_c_fidelity(raw: u32, e: C)
    ensures
        C::spec_from_value(
            extract32(
                insert32(
                    raw,
                    Field::C.spec_offset(),
                    Field::C.spec_width(),
                    e.spec_value(),
                ),
                Field::C.spec_offset(),
                Field::C.spec_width(),
            ),
        ) == Some(e),
{
    lemma_low_bits32_consts();
    lemma_round_trip32(raw, 2, 1, e.spec_value());
}

/// Law (enumeration fidelity): every named value of the M field, once
/// encoded into any raw value and decoded again, names the same value.
pub proof fn lemma_m_fidelity(raw: u32, e: M)
    ensures
        M::spec_from_value(
            extract32(
                insert32(
                    raw,
                    Field::M.spec_offset(),
                    Field::M.spec_width(),
                    e.spec_value(),
                ),
                Field::M.spec_offset(),
                Field::M.spec_width(),
            ),
        ) == Some(e),
{
    lemma_low_bits32_consts();
    lemma_round_trip32(raw, 0, 1, e.spec_value());
}

} // verus!
