use cpu_regs::{
    Access, ByteReg, Cpu, CpuRegister, CpuRegisterPair, FlagName, PairReg, RegName, RegisterError,
    RegisterFile, Width,
};

const BYTES: [ByteReg; 8] = [
    ByteReg::B,
    ByteReg::C,
    ByteReg::D,
    ByteReg::E,
    ByteReg::H,
    ByteReg::L,
    ByteReg::A,
    ByteReg::F,
];

const PAIRS: [PairReg; 4] = [PairReg::BC, PairReg::DE, PairReg::HL, PairReg::AF];

fn snapshot(regs: &RegisterFile) -> Vec<u8> {
    BYTES.iter().map(|r| regs.read_byte(*r)).collect()
}

#[test]
fn byte_write_then_read_every_value() {
    for r in BYTES {
        let mut cpu = Cpu::new();
        for v in 0..=255u8 {
            cpu.regs.write_byte(r, v);
            assert_eq!(cpu.regs.read_byte(r), v);
        }
    }
}

#[test]
fn byte_write_leaves_other_registers() {
    let mut cpu = Cpu::new();
    cpu.regs.write_byte(ByteReg::H, 0x5A);
    for r in BYTES {
        if r != ByteReg::H {
            assert_eq!(cpu.regs.read_byte(r), 0);
        }
    }
    assert_eq!(cpu.regs.read_pair(PairReg::HL), 0x5A00);
    assert_eq!(cpu.regs.read_pair(PairReg::BC), 0);
}

#[test]
fn pair_write_then_read_round_trip() {
    let values: [u16; 7] = [0, 1, 0x00FF, 0x0100, 0x1234, 0xABCD, 0xFFFF];
    for p in PAIRS {
        let mut cpu = Cpu::new();
        for v in values {
            cpu.regs.write_pair(p, v);
            assert_eq!(cpu.regs.read_pair(p), v);
        }
    }
}

#[test]
fn pair_write_leaves_other_pairs() {
    let mut cpu = Cpu::new();
    cpu.regs.write_pair(PairReg::DE, 0xBEEF);
    assert_eq!(cpu.regs.read_pair(PairReg::BC), 0);
    assert_eq!(cpu.regs.read_pair(PairReg::HL), 0);
    assert_eq!(cpu.regs.read_pair(PairReg::AF), 0);
    assert_eq!(cpu.regs.read_byte(ByteReg::D), 0xBE);
    assert_eq!(cpu.regs.read_byte(ByteReg::E), 0xEF);
}

#[test]
fn bytes_alias_into_pair() {
    let mut cpu = Cpu::new();
    cpu.regs.write_byte(ByteReg::B, 0x12);
    cpu.regs.write_byte(ByteReg::C, 0x34);
    assert_eq!(cpu.regs.read_pair(PairReg::BC), 0x1234);
}

#[test]
fn pair_aliases_into_bytes() {
    let mut cpu = Cpu::new();
    cpu.regs.write_pair(PairReg::BC, 0xABCD);
    assert_eq!(cpu.regs.read_byte(ByteReg::B), 0xAB);
    assert_eq!(cpu.regs.read_byte(ByteReg::C), 0xCD);
}

#[test]
fn pair_halves_follow_naming_order() {
    let mut cpu = Cpu::new();
    cpu.regs.write_byte(ByteReg::A, 0x01);
    cpu.regs.write_byte(ByteReg::F, 0x02);
    cpu.regs.write_byte(ByteReg::H, 0x03);
    cpu.regs.write_byte(ByteReg::L, 0x04);
    cpu.regs.write_byte(ByteReg::D, 0x05);
    cpu.regs.write_byte(ByteReg::E, 0x06);
    assert_eq!(cpu.regs.read_pair(PairReg::AF), 0x0102);
    assert_eq!(cpu.regs.read_pair(PairReg::HL), 0x0304);
    assert_eq!(cpu.regs.read_pair(PairReg::DE), 0x0506);
}

#[test]
fn set_flag_isolates_bits() {
    let mut cpu = Cpu::new();
    assert_eq!(cpu.regs.read_byte(ByteReg::F), 0);
    cpu.set_flag(FlagName::Z, true);
    assert_eq!(cpu.regs.read_byte(ByteReg::F), 0x80);
    cpu.set_flag(FlagName::C, true);
    assert_eq!(cpu.regs.read_byte(ByteReg::F), 0x90);
}

#[test]
fn set_flag_bit_positions() {
    let cases = [
        (FlagName::Z, 0x80u8),
        (FlagName::N, 0x40u8),
        (FlagName::H, 0x20u8),
        (FlagName::C, 0x10u8),
    ];
    for (flag, bit) in cases {
        let mut cpu = Cpu::new();
        cpu.set_flag(flag, true);
        assert_eq!(cpu.regs.read_byte(ByteReg::F), bit);
        cpu.regs.write_byte(ByteReg::F, 0xFF);
        cpu.set_flag(flag, false);
        assert_eq!(cpu.regs.read_byte(ByteReg::F), 0xFF & !bit);
    }
}

#[test]
fn set_flag_keeps_low_nibble_and_other_registers() {
    let mut cpu = Cpu::new();
    cpu.regs.write_byte(ByteReg::F, 0x0F);
    cpu.regs.write_byte(ByteReg::A, 0x77);
    cpu.set_flag(FlagName::H, true);
    assert_eq!(cpu.regs.read_byte(ByteReg::F), 0x2F);
    cpu.set_flag(FlagName::H, true);
    assert_eq!(cpu.regs.read_byte(ByteReg::F), 0x2F);
    cpu.set_flag(FlagName::N, false);
    assert_eq!(cpu.regs.read_byte(ByteReg::F), 0x2F);
    assert_eq!(cpu.regs.read_byte(ByteReg::A), 0x77);
    assert_eq!(cpu.regs.read_pair(PairReg::AF), 0x772F);
}

#[test]
fn set_flags_overwrites_whole_register() {
    let mut cpu = Cpu::new();
    cpu.regs.write_byte(ByteReg::F, 0xFF);
    cpu.set_flags(true, false, true, false);
    assert_eq!(cpu.regs.read_byte(ByteReg::F), 0xA0);
    cpu.regs.write_byte(ByteReg::F, 0x00);
    cpu.set_flags(true, false, true, false);
    assert_eq!(cpu.regs.read_byte(ByteReg::F), 0xA0);
}

#[test]
fn set_flags_each_combination() {
    for bits in 0..16u8 {
        let z = bits & 8 != 0;
        let n = bits & 4 != 0;
        let h = bits & 2 != 0;
        let c = bits & 1 != 0;
        let mut cpu = Cpu::new();
        cpu.regs.write_byte(ByteReg::F, 0x5A);
        cpu.set_flags(z, n, h, c);
        assert_eq!(cpu.regs.read_byte(ByteReg::F), bits << 4);
    }
    let mut cpu = Cpu::new();
    cpu.set_flags(true, true, true, true);
    assert_eq!(cpu.regs.read_byte(ByteReg::F), 0xF0);
}

#[test]
fn set_flags_leaves_other_registers() {
    let mut cpu = Cpu::new();
    cpu.regs.write_pair(PairReg::HL, 0x1357);
    cpu.pc = 0x100;
    cpu.sp = 0xFFFE;
    cpu.set_flags(false, true, false, true);
    assert_eq!(cpu.regs.read_byte(ByteReg::F), 0x50);
    assert_eq!(cpu.regs.read_pair(PairReg::HL), 0x1357);
    assert_eq!(cpu.pc, 0x100);
    assert_eq!(cpu.sp, 0xFFFE);
}

#[test]
fn wide_read_of_byte_register_is_refused() {
    let mut cpu = Cpu::new();
    cpu.regs.write_byte(ByteReg::L, 9);
    let before = snapshot(&cpu.regs);
    let r = cpu.regs.read_u16(RegName::L);
    assert_eq!(
        r,
        Err(RegisterError::InvalidAccessWidth {
            name: RegName::L,
            width: Width::Bits16,
            access: Access::Read
        })
    );
    assert_eq!(snapshot(&cpu.regs), before);
}

#[test]
fn narrow_write_of_pair_is_refused() {
    let mut cpu = Cpu::new();
    cpu.regs.write_pair(PairReg::HL, 0x4321);
    let before = snapshot(&cpu.regs);
    let r = cpu.regs.write_u8(RegName::HL, 0x99);
    assert_eq!(
        r,
        Err(RegisterError::InvalidAccessWidth {
            name: RegName::HL,
            width: Width::Bits8,
            access: Access::Write
        })
    );
    assert_eq!(snapshot(&cpu.regs), before);
    assert_eq!(cpu.regs.read_pair(PairReg::HL), 0x4321);
}

#[test]
fn other_wrong_width_accesses_are_refused() {
    let mut cpu = Cpu::new();
    cpu.regs.write_pair(PairReg::BC, 0x0102);
    let before = snapshot(&cpu.regs);
    assert_eq!(
        cpu.regs.read_u8(RegName::AF),
        Err(RegisterError::InvalidAccessWidth {
            name: RegName::AF,
            width: Width::Bits8,
            access: Access::Read
        })
    );
    assert_eq!(
        cpu.regs.write_u16(RegName::B, 0xFFFF),
        Err(RegisterError::InvalidAccessWidth {
            name: RegName::B,
            width: Width::Bits16,
            access: Access::Write
        })
    );
    assert_eq!(snapshot(&cpu.regs), before);
}

#[test]
fn access_by_name_at_the_right_width() {
    let mut cpu = Cpu::new();
    assert_eq!(cpu.regs.write_u8(RegName::D, 0x42), Ok(()));
    assert_eq!(cpu.regs.read_u8(RegName::D), Ok(0x42));
    assert_eq!(cpu.regs.write_u16(RegName::AF, 0x1FA0), Ok(()));
    assert_eq!(cpu.regs.read_u16(RegName::AF), Ok(0x1FA0));
    assert_eq!(cpu.regs.read_u8(RegName::A), Ok(0x1F));
    assert_eq!(cpu.regs.read_u8(RegName::F), Ok(0xA0));
    assert_eq!(cpu.regs.read_u16(RegName::DE), Ok(0x4200));
}

#[test]
fn error_message_names_register_and_width() {
    let e = RegisterError::InvalidAccessWidth {
        name: RegName::L,
        width: Width::Bits16,
        access: Access::Read,
    };
    assert_eq!(e.message(), "attempted 16-bit read of 8-bit register L");
    let e = RegisterError::InvalidAccessWidth {
        name: RegName::HL,
        width: Width::Bits8,
        access: Access::Write,
    };
    assert_eq!(e.message(), "attempted 8-bit write of 16-bit register HL");
}

#[test]
fn fresh_cpu_is_zeroed() {
    let cpu = Cpu::new();
    for r in BYTES {
        assert_eq!(cpu.regs.read_byte(r), 0);
    }
    for p in PAIRS {
        assert_eq!(cpu.regs.read_pair(p), 0);
    }
    assert_eq!(cpu.pc, 0);
    assert_eq!(cpu.sp, 0);
}

#[test]
fn names_split_into_two_kinds() {
    for r in BYTES {
        assert_eq!(r.name().as_byte(), Some(r));
        assert_eq!(r.name().as_pair(), None);
    }
    for p in PAIRS {
        assert_eq!(p.name().as_pair(), Some(p));
        assert_eq!(p.name().as_byte(), None);
    }
}

#[test]
fn pair_parts_and_labels() {
    let parts = PairReg::HL.parts();
    assert_eq!(parts.upper, ByteReg::H);
    assert_eq!(parts.lower, ByteReg::L);
    assert_eq!(RegName::AF.label(), "AF");
    assert_eq!(RegName::A.label(), "A");
    assert_eq!(ByteReg::F.slot(), 7);
    assert_eq!(FlagName::C.bit(), 4);
    assert_eq!(FlagName::Z.bit(), 7);
}

#[test]
fn cells_and_pairs_directly() {
    let mut cell = CpuRegister::new(ByteReg::E);
    assert_eq!(cell.read_u8(), 0);
    cell.write_u8(0xC3);
    assert_eq!(cell.read_u8(), 0xC3);
    assert_eq!(cell.name, ByteReg::E);

    let mut regs = RegisterFile::new();
    let pair = CpuRegisterPair::new(ByteReg::D, ByteReg::E);
    pair.write_u16(&mut regs, 0x8001);
    assert_eq!(pair.read_u16(&regs), 0x8001);
    assert_eq!(regs.read_pair(PairReg::DE), 0x8001);
}
