//! Checks of the MCR/MRC access syndrome decoder.

use sysregs::bits32::encode32;
use sysregs::mcr_mrc::{CV, Direction, Field, McrMrcAccessIss};

#[test]
fn decode_sample_syndrome() {
    // 0x1F00_3C21: bit 0 (Direction), bit 5 (Rt = 1), bits 13:10 (CRn = 0xF)
    // and bit 24 (CV) set, plus bits above CV that no field covers.
    let iss = McrMrcAccessIss::new(0x1F00_3C21);
    assert_eq!(iss.get(), 0x1F00_3C21);
    assert_eq!(iss.read(Field::Direction), 1);
    assert_eq!(
        Direction::from_value(iss.read(Field::Direction)),
        Some(Direction::SystemRegisterRead)
    );
    assert_eq!(iss.read(Field::CRm), 0x0);
    assert_eq!(iss.read(Field::Rt), 0x1);
    assert_eq!(iss.read(Field::CRn), 0xF);
    assert_eq!(iss.read(Field::Opc1), 0x0);
    assert_eq!(iss.read(Field::Opc2), 0x0);
    assert_eq!(iss.read(Field::Cond), 0x0);
    assert_eq!(iss.read(Field::CV), 1);
    assert_eq!(CV::from_value(iss.read(Field::CV)), Some(CV::Valid));
}

#[test]
fn decode_write_direction() {
    let iss = McrMrcAccessIss::new(0x0000_0000);
    assert_eq!(
        Direction::from_value(iss.read(Field::Direction)),
        Some(Direction::SystemRegisterWrite)
    );
    assert_eq!(CV::from_value(iss.read(Field::CV)), Some(CV::NotValid));
}

#[test]
fn field_fidelity() {
    for e in [Direction::SystemRegisterWrite, Direction::SystemRegisterRead] {
        let raw = encode32(0xFFFF_FFFF, 0, 1, e.value());
        let iss = McrMrcAccessIss::new(raw);
        assert_eq!(Direction::from_value(iss.read(Field::Direction)), Some(e));
    }
    for e in [CV::NotValid, CV::Valid] {
        let raw = encode32(0xFFFF_FFFF, 24, 1, e.value());
        let iss = McrMrcAccessIss::new(raw);
        assert_eq!(CV::from_value(iss.read(Field::CV)), Some(e));
    }
}

#[test]
fn arbitrary_value_decodes_without_failing() {
    // No validation is done on the raw value's origin: any 32-bit value
    // decodes as if it were a genuine syndrome.
    let iss = McrMrcAccessIss::new(0xFFFF_FFFF);
    assert_eq!(iss.read(Field::Cond), 0xF);
    assert_eq!(iss.read(Field::Opc2), 0x7);
    assert_eq!(iss.read(Field::Opc1), 0x7);
    assert_eq!(iss.read(Field::Rt), 0x1F);
    assert_eq!(iss.read(Field::CRm), 0xF);
}
