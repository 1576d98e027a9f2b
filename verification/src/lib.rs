//! Typed bit-field accessors for AArch64 virtualization-related system
//! registers, plus a decoder for the instruction syndrome of trapped
//! MCR/MRC/VMRS coprocessor accesses.
//!
//! Each register module declares the register's bit layout (field offsets,
//! widths and named enumerated values) and a `Reg` value that models the
//! register's raw contents. Decoding and encoding of fields is done by the
//! generic bit-field core in [`bits32`] and [`bits64`], whose contracts pin
//! the result down bit by bit. The actual hardware access (an `mrs`/`msr`
//! instruction on the architectural register name) is left to the embedding
//! program, which captures a raw value into a `Reg` and writes a `Reg`'s raw
//! value back out.
//!
//! Read-modify-write of a hardware register through these types is not atomic
//! with respect to other execution contexts; callers are expected to touch
//! only registers banked to their own context.

pub mod baddr;
pub mod bits32;
pub mod bits64;
pub mod ccsidr_el1;
pub mod csselr_el1;
pub mod hcr_el2;
pub mod hstr_el2;
pub mod mcr_mrc;
pub mod sctlr_el2;
pub mod spsr_el2;
pub mod ttbr0_el2;
pub mod vbar_el2;
pub mod vttbr_el2;
