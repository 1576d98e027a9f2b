//! Per-register checks: field layout scenarios and enumeration fidelity for
//! every named value of every enumerated field.

use sysregs::{ccsidr_el1, csselr_el1, hcr_el2, hstr_el2, sctlr_el2, spsr_el2};
use sysregs::{ttbr0_el2, vbar_el2, vttbr_el2};

#[test]
fn hcr_el2_vm_then_fmo() {
    // Starting from a zero raw value, setting VM gives 0x1; setting FMO on
    // top gives 0x9, with bit 0 still set.
    let mut reg = hcr_el2::Reg::new(0);
    reg.write(hcr_el2::Field::VM, 1);
    assert_eq!(reg.get(), 0x1);
    reg.write(hcr_el2::Field::FMO, 1);
    assert_eq!(reg.get(), 0x9);
    assert_eq!(reg.read(hcr_el2::Field::VM), 1);
    assert_eq!(reg.read(hcr_el2::Field::FMO), 1);
    assert_eq!(reg.read(hcr_el2::Field::IMO), 0);
}

#[test]
fn hcr_el2_rw_fidelity() {
    for e in [
        hcr_el2::RW::AllLowerELsAreAarch32,
        hcr_el2::RW::EL1IsAarch64,
    ] {
        let mut reg = hcr_el2::Reg::new(0xFFFF_FFFF_FFFF_FFFF);
        reg.write(hcr_el2::Field::RW, e.value());
        assert_eq!(hcr_el2::RW::from_value(reg.read(hcr_el2::Field::RW)), Some(e));
    }
}

#[test]
fn hcr_el2_bsu_fidelity() {
    for e in [
        hcr_el2::BSU::NoEffect,
        hcr_el2::BSU::InnerShareable,
        hcr_el2::BSU::OuterShareable,
        hcr_el2::BSU::FullSystem,
    ] {
        let mut reg = hcr_el2::Reg::new(0x5555_5555_5555_5555);
        reg.write(hcr_el2::Field::BSU, e.value());
        assert_eq!(hcr_el2::BSU::from_value(reg.read(hcr_el2::Field::BSU)), Some(e));
    }
    // An unnamed pattern has no symbolic match.
    assert_eq!(hcr_el2::BSU::from_value(4), None);
}

#[test]
fn sctlr_el2_fidelity() {
    for e in [sctlr_el2::I::NonCacheable, sctlr_el2::I::Cacheable] {
        let mut reg = sctlr_el2::Reg::new(0);
        reg.write(sctlr_el2::Field::I, e.value());
        assert_eq!(sctlr_el2::I::from_value(reg.read(sctlr_el2::Field::I)), Some(e));
    }
    for e in [sctlr_el2::C::NonCacheable, sctlr_el2::C::Cacheable] {
        let mut reg = sctlr_el2::Reg::new(0xFFFF_FFFF);
        reg.write(sctlr_el2::Field::C, e.value());
        assert_eq!(sctlr_el2::C::from_value(reg.read(sctlr_el2::Field::C)), Some(e));
    }
    for e in [sctlr_el2::M::Disable, sctlr_el2::M::Enable] {
        let mut reg = sctlr_el2::Reg::new(0);
        reg.write(sctlr_el2::Field::M, e.value());
        assert_eq!(sctlr_el2::M::from_value(reg.read(sctlr_el2::Field::M)), Some(e));
    }
}

#[test]
fn sctlr_el2_layout() {
    let mut reg = sctlr_el2::Reg::new(0);
    reg.write(sctlr_el2::Field::I, 1);
    reg.write(sctlr_el2::Field::C, 1);
    reg.write(sctlr_el2::Field::M, 1);
    assert_eq!(reg.get(), (1 << 12) | (1 << 2) | 1);
}

#[test]
fn csselr_el1_fidelity() {
    for e in [
        csselr_el1::Level::Level1,
        csselr_el1::Level::Level2,
        csselr_el1::Level::Level3,
        csselr_el1::Level::Level4,
        csselr_el1::Level::Level5,
        csselr_el1::Level::Level6,
        csselr_el1::Level::Level7,
    ] {
        let mut reg = csselr_el1::Reg::new(0);
        reg.write(csselr_el1::Field::Level, e.value());
        assert_eq!(
            csselr_el1::Level::from_value(reg.read(csselr_el1::Field::Level)),
            Some(e)
        );
    }
    for e in [
        csselr_el1::InD::DataOrUnifiedCache,
        csselr_el1::InD::InstructionCache,
    ] {
        let mut reg = csselr_el1::Reg::new(0);
        reg.write(csselr_el1::Field::InD, e.value());
        assert_eq!(
            csselr_el1::InD::from_value(reg.read(csselr_el1::Field::InD)),
            Some(e)
        );
    }
    // InstructionCache round-trips to the bit pattern 1.
    assert_eq!(csselr_el1::InD::InstructionCache.value(), 1);
    // Level bit patterns above the named range have no symbolic match.
    assert_eq!(csselr_el1::Level::from_value(7), None);
}

#[test]
fn ccsidr_el1_read_only_decode() {
    let raw: u32 = (7 << 13) | (3 << 3) | 2;
    let reg = ccsidr_el1::Reg::new(raw);
    assert_eq!(reg.get(), raw);
    assert_eq!(reg.read(ccsidr_el1::Field::NumSets), 7);
    assert_eq!(reg.read(ccsidr_el1::Field::Associativity), 3);
    assert_eq!(reg.read(ccsidr_el1::Field::LineSize), 2);
}

#[test]
fn hstr_el2_trap_bits() {
    let mut reg = hstr_el2::Reg::new(0);
    reg.write(hstr_el2::Field::T0, 1);
    reg.write(hstr_el2::Field::T5, 1);
    assert_eq!(reg.get(), 0x21);
    assert_eq!(reg.read(hstr_el2::Field::T0), 1);
    assert_eq!(reg.read(hstr_el2::Field::T5), 1);
    assert_eq!(reg.read(hstr_el2::Field::T15), 0);
    reg.write(hstr_el2::Field::T5, 0);
    assert_eq!(reg.get(), 0x1);
}

#[test]
fn spsr_el2_m_decodes_el2h() {
    // Raw value 0b1001 has M = 0b1001, which names EL2h.
    let reg = spsr_el2::Reg::new(0b0000_0000_0000_0000_0000_0000_0000_1001);
    let m = reg.read(spsr_el2::Field::M);
    assert_eq!(m, 0b1001);
    assert_eq!(spsr_el2::Mode::from_value(m), Some(spsr_el2::Mode::EL2h));
}

#[test]
fn spsr_el2_mode_fidelity() {
    for e in [
        spsr_el2::Mode::EL0t,
        spsr_el2::Mode::FIQ,
        spsr_el2::Mode::IRQ,
        spsr_el2::Mode::Supervisor,
        spsr_el2::Mode::EL1t,
        spsr_el2::Mode::EL1h,
        spsr_el2::Mode::Abort,
        spsr_el2::Mode::EL2t,
        spsr_el2::Mode::EL2h,
        spsr_el2::Mode::Hyp,
        spsr_el2::Mode::Undefined,
        spsr_el2::Mode::System,
    ] {
        let mut reg = spsr_el2::Reg::new(0xFFFF_FFF0);
        reg.write(spsr_el2::Field::M, e.value());
        assert_eq!(
            spsr_el2::Mode::from_value(reg.read(spsr_el2::Field::M)),
            Some(e)
        );
    }
    // A reserved pattern decodes to its raw integer with no symbolic name.
    assert_eq!(spsr_el2::Mode::from_value(0b0110), None);
}

#[test]
fn spsr_el2_mask_and_m4_fidelity() {
    for f in [
        spsr_el2::Field::D,
        spsr_el2::Field::A,
        spsr_el2::Field::I,
        spsr_el2::Field::F,
    ] {
        for e in [spsr_el2::Mask::Unmasked, spsr_el2::Mask::Masked] {
            let mut reg = spsr_el2::Reg::new(0);
            reg.write(f, e.value());
            assert_eq!(spsr_el2::Mask::from_value(reg.read(f)), Some(e));
        }
    }
    for e in [spsr_el2::M4::AArch64, spsr_el2::M4::AArch32] {
        let mut reg = spsr_el2::Reg::new(0);
        reg.write(spsr_el2::Field::M4, e.value());
        assert_eq!(spsr_el2::M4::from_value(reg.read(spsr_el2::Field::M4)), Some(e));
    }
}

#[test]
fn spsr_el2_condition_flags() {
    let mut reg = spsr_el2::Reg::new(0);
    reg.write(spsr_el2::Field::N, 1);
    reg.write(spsr_el2::Field::V, 1);
    assert_eq!(reg.get(), (1 << 31) | (1 << 28));
    assert_eq!(reg.read(spsr_el2::Field::N), 1);
    assert_eq!(reg.read(spsr_el2::Field::Z), 0);
    assert_eq!(reg.read(spsr_el2::Field::C), 0);
    assert_eq!(reg.read(spsr_el2::Field::V), 1);
}

#[test]
fn ttbr0_el2_baddr_scenario() {
    let mut reg = ttbr0_el2::Reg::new(0);
    reg.set_baddr(0x0000_4000_0000);
    // The stored field value is the address shifted right by one.
    assert_eq!((reg.get() >> 1) & 0x7FFF_FFFF_FFFF, 0x0000_2000_0000);
    assert_eq!(reg.get_baddr(), 0x0000_4000_0000);
    assert_eq!(reg.read(ttbr0_el2::Field::BADDR), 0x0000_2000_0000);
}

#[test]
fn ttbr0_el2_baddr_keeps_other_fields() {
    let mut reg = ttbr0_el2::Reg::new(0);
    reg.write(ttbr0_el2::Field::ASID, 0x42);
    reg.write(ttbr0_el2::Field::CnP, 1);
    reg.set_baddr(0x8000);
    assert_eq!(reg.read(ttbr0_el2::Field::ASID), 0x42);
    assert_eq!(reg.read(ttbr0_el2::Field::CnP), 1);
    assert_eq!(reg.get_baddr(), 0x8000);
}

#[test]
fn ttbr0_el2_odd_address_loses_low_bit() {
    let mut reg = ttbr0_el2::Reg::new(0);
    reg.set_baddr(0x1235);
    assert_eq!(reg.get_baddr(), 0x1234);
}

#[test]
fn vttbr_el2_baddr_round_trip() {
    let mut reg = vttbr_el2::Reg::new(0);
    reg.write(vttbr_el2::Field::VMID, 0xBEEF);
    reg.set_baddr(0x0000_4000_0000);
    assert_eq!(reg.get_baddr(), 0x0000_4000_0000);
    assert_eq!(reg.read(vttbr_el2::Field::VMID), 0xBEEF);
    // The largest even 48-bit address round-trips too.
    reg.set_baddr(0xFFFF_FFFF_FFFE);
    assert_eq!(reg.get_baddr(), 0xFFFF_FFFF_FFFE);
}

#[test]
fn vbar_el2_get_set() {
    let mut reg = vbar_el2::Reg::new(0);
    assert_eq!(reg.get(), 0);
    reg.set(0xFFFF_0000_0000_0800);
    assert_eq!(reg.get(), 0xFFFF_0000_0000_0800);
}
