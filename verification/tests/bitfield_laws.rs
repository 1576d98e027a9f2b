//! Concrete checks of the generic bit-field core: round-trip,
//! non-interference and truncation on sample values of both widths.

use sysregs::bits32::{decode32, encode32};
use sysregs::bits64::{decode64, encode64};

#[test]
fn round_trip_64() {
    let raw: u64 = 0xDEAD_BEEF_0123_4567;
    for v in [0u64, 1, 0x7FFF, 0xABCD, 0xFFFF] {
        let enc = encode64(raw, 8, 16, v);
        assert_eq!(decode64(enc, 8, 16), v);
    }
    // A one-bit field at the top of the register.
    assert_eq!(decode64(encode64(raw, 63, 1, 1), 63, 1), 1);
    assert_eq!(decode64(encode64(raw, 63, 1, 0), 63, 1), 0);
}

#[test]
fn round_trip_32() {
    let raw: u32 = 0x8765_4321;
    for v in [0u32, 1, 2, 3, 7, 15] {
        let enc = encode32(raw, 10, 4, v);
        assert_eq!(decode32(enc, 10, 4), v);
    }
}

#[test]
fn non_interference_64() {
    let raw: u64 = 0xDEAD_BEEF_0123_4567;
    let enc = encode64(raw, 8, 16, 0xABCD);
    let mask: u64 = 0xFFFF << 8;
    // Bits outside the field are exactly the starting raw value's.
    assert_eq!(enc & !mask, raw & !mask);
    // Bits inside the field are exactly the value written.
    assert_eq!(enc & mask, 0xABCD << 8);
}

#[test]
fn non_interference_32() {
    let raw: u32 = 0xFFFF_FFFF;
    let enc = encode32(raw, 1, 3, 0);
    assert_eq!(enc, 0xFFFF_FFF1);
}

#[test]
fn truncation_64() {
    let raw: u64 = 0x0123_4567_89AB_CDEF;
    // Bits of the value above the field's width are ignored.
    assert_eq!(encode64(raw, 3, 4, 0xFF), encode64(raw, 3, 4, 0xF));
    assert_eq!(encode64(raw, 0, 1, 0xFE), encode64(raw, 0, 1, 0));
}

#[test]
fn truncation_32() {
    let raw: u32 = 0x1234_5678;
    assert_eq!(encode32(raw, 20, 4, 0x5A), encode32(raw, 20, 4, 0xA));
}

#[test]
fn decode_known_values() {
    assert_eq!(decode32(0x0000_0100, 8, 4), 1);
    assert_eq!(decode32(0xFFFF_FFFF, 0, 32), 0xFFFF_FFFF);
    assert_eq!(decode64(0x8000_0000_0000_0000, 63, 1), 1);
    assert_eq!(decode64(0x0000_4000_0000_0000, 46, 2), 1);
}
