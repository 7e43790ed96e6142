use cpu_core::registers::{Flag, Register, RegisterFile};

#[test]
fn write_read_simple() {
    let mut register_file = RegisterFile::new();
    register_file.write_register(Register::B, 69);

    assert_eq!(register_file.read_register(Register::B), 69);
}

#[test]
fn write_read_word() {
    let mut register_file = RegisterFile::new();
    register_file.write_register(Register::BC, 69);

    assert_eq!(register_file.read_register(Register::BC), 69);

    register_file.write_register(Register::BC, 65535);
    assert_eq!(register_file.read_register(Register::BC), 65535);
}

#[test]
fn write_short_read_word() {
    let mut register_file = RegisterFile::new();
    register_file.write_register(Register::B, 0x80);
    register_file.write_register(Register::C, 0x08);
    assert_eq!(register_file.read_register(Register::BC), 0x8008);
}

#[test]
fn truncation() {
    let mut register_file = RegisterFile::new();
    register_file.write_register(Register::B, 65535);
    assert_eq!(register_file.read_register(Register::B), 255);
}

#[test]
fn flags() {
    let mut register_file = RegisterFile::new();
    register_file.write_register(Register::F, 0);

    assert_eq!(register_file.get_flag(Flag::Z), false);

    register_file.set_flag(Flag::Z, true);
    assert_eq!(register_file.get_flag(Flag::Z), true);
    assert_eq!(register_file.get_flag(Flag::N), false);

    register_file.set_flag(Flag::Z, false);
    assert_eq!(register_file.get_flag(Flag::Z), false);
    assert_eq!(register_file.get_flag(Flag::N), false);
}

#[test]
fn every_wide_register_reads_back_what_was_written() {
    let wide = [Register::AF, Register::BC, Register::DE, Register::HL, Register::StackPointer];
    for reg in wide {
        for value in [0u16, 1, 0x00FF, 0x0100, 0x1234, 0x8000, 0xFFFF] {
            let mut register_file = RegisterFile::new();
            register_file.write_register(reg, value);
            assert_eq!(register_file.read_register(reg), value);
        }
    }
}

#[test]
fn every_narrow_register_keeps_the_low_byte() {
    let narrow = [
        Register::A,
        Register::F,
        Register::B,
        Register::C,
        Register::D,
        Register::E,
        Register::H,
        Register::L,
    ];
    for reg in narrow {
        for value in [0u16, 0x7F, 0x00FF, 0x0100, 0x1234, 0xFFFF] {
            let mut register_file = RegisterFile::new();
            register_file.write_register(reg, value);
            assert_eq!(register_file.read_register(reg), value & 0xFF);
        }
    }
}

#[test]
fn narrow_write_leaves_pair_mate_alone() {
    let mut register_file = RegisterFile::new();
    register_file.write_register(Register::HL, 0xABCD);
    register_file.write_register(Register::H, 0x12);
    assert_eq!(register_file.read_register(Register::L), 0xCD);
    assert_eq!(register_file.read_register(Register::HL), 0x12CD);
    register_file.write_register(Register::L, 0x1FF);
    assert_eq!(register_file.read_register(Register::H), 0x12);
    assert_eq!(register_file.read_register(Register::HL), 0x12FF);
}

#[test]
fn pair_from_halves_for_each_pair() {
    let pairs = [
        (Register::AF, Register::A, Register::F),
        (Register::BC, Register::B, Register::C),
        (Register::DE, Register::D, Register::E),
        (Register::HL, Register::H, Register::L),
    ];
    for (pair, high, low) in pairs {
        let mut register_file = RegisterFile::new();
        register_file.write_register(high, 0x1AB);
        register_file.write_register(low, 0x2CD);
        assert_eq!(register_file.read_register(pair), 0xABCD);
    }
}

#[test]
fn wide_write_splits_high_then_low() {
    let mut register_file = RegisterFile::new();
    register_file.write_register(Register::DE, 0x1234);
    assert_eq!(register_file.read_register(Register::D), 0x12);
    assert_eq!(register_file.read_register(Register::E), 0x34);
    register_file.write_register(Register::AF, 0xBEEF);
    assert_eq!(register_file.read_register(Register::A), 0xBE);
    assert_eq!(register_file.read_register(Register::F), 0xEF);
}

#[test]
fn each_flag_is_independent() {
    let all = [Flag::Z, Flag::N, Flag::H, Flag::C];
    for flag in all {
        let mut register_file = RegisterFile::new();
        register_file.set_flag(flag, true);
        for other in all {
            assert_eq!(register_file.get_flag(other), other == flag);
        }
        register_file.set_flag(flag, false);
        for other in all {
            assert!(!register_file.get_flag(other));
        }
    }
}

#[test]
fn flag_bits_in_flags_register() {
    let mut register_file = RegisterFile::new();
    register_file.set_flag(Flag::Z, true);
    assert_eq!(register_file.read_register(Register::F), 0x80);
    register_file.set_flag(Flag::N, true);
    assert_eq!(register_file.read_register(Register::F), 0xC0);
    register_file.set_flag(Flag::H, true);
    assert_eq!(register_file.read_register(Register::F), 0xE0);
    register_file.set_flag(Flag::C, true);
    assert_eq!(register_file.read_register(Register::F), 0xF0);
    register_file.set_flag(Flag::N, false);
    assert_eq!(register_file.read_register(Register::F), 0xB0);
}

#[test]
fn clearing_a_flag_keeps_the_others_set() {
    let mut register_file = RegisterFile::new();
    register_file.write_register(Register::F, 0xF0);
    register_file.set_flag(Flag::Z, false);
    assert!(!register_file.get_flag(Flag::Z));
    assert!(register_file.get_flag(Flag::N));
    assert!(register_file.get_flag(Flag::H));
    assert!(register_file.get_flag(Flag::C));
}

#[test]
fn setting_flags_keeps_low_nibble() {
    let mut register_file = RegisterFile::new();
    register_file.write_register(Register::F, 0x05);
    register_file.set_flag(Flag::C, true);
    register_file.set_flag(Flag::Z, true);
    register_file.set_flag(Flag::C, false);
    assert_eq!(register_file.read_register(Register::F), 0x85);
}
