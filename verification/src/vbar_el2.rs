//! Vector Base Address Register - EL2.
//!
//! Holds the vector base address for any exception that is taken to EL2.
//! 64 bits, read-write, with no sub-fields.

use vstd::prelude::*;

verus! {

/// An image of the VBAR_EL2 register: the raw 64-bit value, with
/// get and set on top of it. The embedding program captures the hardware
/// register into a `Reg` and writes `Reg::get` back out.
pub struct Reg {
    value: u64,
}

impl Reg {
    /// The raw 64-bit contents of the register image.
    pub closed spec fn raw(self) -> u64 {
        self.value
    }

    /// Wrap a raw register value.
    pub fn new(value: u64) -> (r: Reg)
        ensures
            r.raw() == value,
    {
        Reg { value }
    }

    /// The full raw value.
    pub fn get(&self) -> (raw: u64)
        ensures
            raw == self.raw(),
    {
        self.value
    }

    /// Replace the full raw value.
    pub fn set(&mut self, raw: u64)
        ensures
            final(self).raw() == raw,
    {
        self.value = raw;
    }
}

} // verus!
