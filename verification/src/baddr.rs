//! Composite translation-table base-address field.
//!
//! The translation-table base registers store a 47-bit base address in bits
//! `[47:1]` of the register; bit 0 of the address is implicitly zero. Storing
//! an address therefore drops its low bit, and reading the field back
//! reconstructs the address by shifting left by one. Callers are expected to
//! pass addresses that are at least 2-byte aligned; an odd address silently
//! loses its low bit, matching what the hardware does.

use vstd::prelude::*;
use crate::bits64::{extract64, insert64, decode64, encode64};

verus! {

/// The base address stored in `raw`, with its implicit zero low bit restored.
pub open spec fn spec_baddr(raw: u64) -> u64 {
    extract64(raw, 1, 47) << 1u64
}

/// `raw` with the base-address field replaced by `addr`'s bits `[47:1]`;
/// every bit outside the field is kept.
pub open spec fn spec_with_baddr(raw: u64, addr: u64) -> u64 {
    insert64(raw, 1, 47, addr >> 1u64)
}

/// Read the base address out of a raw register value.
pub fn baddr_of(raw: u64) -> (addr: u64)
    ensures
        addr == spec_baddr(raw),
{
    decode64(raw, 1, 47) << 1
}

/// Store a base address into a raw register value, keeping all other bits.
pub fn with_baddr(raw: u64, addr: u64) -> (r: u64)
    ensures
        r == spec_with_baddr(raw, addr),
{
    encode64(raw, 1, 47, addr >> 1)
}

/// Law (composite round trip): for every address representable in 48 bits,
/// storing it and reading it back returns the address with its low bit
/// cleared; in particular an even address comes back unchanged.
pub proof fn lemma_baddr_round_trip(raw: u64, addr: u64)
    requires
        addr < 0x1_0000_0000_0000,
    ensures
        spec_baddr(spec_with_baddr(raw, addr)) == addr & !1u64,
        addr & 1 == 0 ==> spec_baddr(spec_with_baddr(raw, addr)) == addr,
{
    assert(spec_baddr(spec_with_baddr(raw, addr)) == addr & !1u64) by (bit_vector)
        requires
            addr < 0x1_0000_0000_0000u64,
    ;
    assert(addr & 1 == 0 ==> addr & !1u64 == addr) by (bit_vector);
}

} // verus!
