use rusty_gb::cpu::registers::{Flag, Register8b};
use rusty_gb::cpu::Cpu;
use rusty_gb::memory::mbc::MbcNone;

/// Checks flags in the order given; returns the first that differs.
fn assert_flags(cpu: &Cpu<MbcNone>, values: &[bool], flags: &[Flag]) -> Result<(), Flag> {
    for (flag_val, flag) in values.iter().zip(flags.iter()) {
        if *flag_val != cpu.registers.flag_value(*flag) {
            return Err(*flag);
        }
    }
    Ok(())
}

/// Checks the four flags `Z N H C` after a binary operation.
fn assert_flags_binop(cpu: &Cpu<MbcNone>, values: &[bool; 4], operands: (&u8, &u8)) {
    let flags = &[Flag::Z, Flag::N, Flag::H, Flag::C];
    let result = assert_flags(cpu, values, flags);

    if let Err(f) = result {
        panic!(
            "Flag assertion failed for flag {:?} with operands (0x{:X}, 0x{:X})",
            f, operands.0, operands.1
        );
    }
}

#[test]
fn tests_cpu_alu_add_bytes_value() {
    let mut cpu = Cpu::new();

    let test_cases: &[(u8, u8)] = &[
        (0, 0),
        (1, 1),
        (0xFF, 0xFF),
        (0xFF, 0x01),
        (0x01, 0xFF),
        (0xFE, 0x01),
        (0x01, 0xFE),
        (5, 7),
        (12, 35),
    ];

    for (a, b) in test_cases {
        let result = cpu.alu_add_bytes(*a, *b, false);
        assert_eq!(a.wrapping_add(*b), result);
    }
}

#[test]
fn tests_cpu_alu_add_bytes_flag_z() {
    let mut cpu = Cpu::new();

    let test_cases: &[((u8, u8), [bool; 4])] = &[
        ((0x00, 0x00), [true, false, false, false]),
        ((0xFF, 0x01), [true, false, true, true]),
        ((0xFE, 0x02), [true, false, true, true]),
        ((0x02, 0xFE), [true, false, true, true]),
    ];

    for ((a, b), flags) in test_cases {
        let result: u8 = cpu.alu_add_bytes(*a, *b, false);
        assert_eq!(0, result);

        assert_flags_binop(&cpu, flags, (a, b));
    }
}

#[test]
fn tests_cpu_alu_add_bytes_flag_h() {
    let mut cpu = Cpu::new();

    let test_cases: &[((u8, u8), [bool; 4])] = &[
        ((0x00, 0x01), [false, false, false, false]),
        ((0x08, 0x07), [false, false, false, false]),
        ((0x0F, 0x01), [false, false, true, false]),
        ((0x0E, 0x02), [false, false, true, false]),
        ((0x08, 0x08), [false, false, true, false]),
        ((0x0F, 0x02), [false, false, true, false]),
        ((0x0E, 0x04), [false, false, true, false]),
        ((0x0F, 0x0F), [false, false, true, false]),
        ((0xF0, 0xF0), [false, false, false, true]),
        ((0xF0, 0x20), [false, false, false, true]),
        ((0xF0, 0x01), [false, false, false, false]),
        ((0x50, 0x51), [false, false, false, false]),
    ];

    for ((a, b), flags) in test_cases {
        let result: u8 = cpu.alu_add_bytes(*a, *b, false);
        assert_eq!(a.wrapping_add(*b), result);

        assert_flags_binop(&cpu, flags, (a, b));
    }
}

#[test]
fn tests_cpu_alu_add_bytes_flag_c() {
    let mut cpu = Cpu::new();

    let test_cases: &[((u8, u8), [bool; 4])] = &[
        ((0x00, 0x00), [true, false, false, false]),
        ((0x00, 0x01), [false, false, false, false]),
        ((0xFF, 0x01), [true, false, true, true]),
        ((0xFE, 0x02), [true, false, true, true]),
        ((0xF0, 0x20), [false, false, false, true]),
    ];

    for ((a, b), flags) in test_cases {
        let result: u8 = cpu.alu_add_bytes(*a, *b, false);
        assert_eq!(a.wrapping_add(*b), result);

        assert_flags_binop(&cpu, flags, (a, b));
    }
}

#[test]
fn tests_cpu_alu_add_bytes_with_carry() {
    let mut cpu = Cpu::new();
    let test_cases: &[((u8, u8), [bool; 4])] = &[((0x00, 0x00), [false, false, false, false])];

    for ((a, b), flags) in test_cases {
        cpu.registers.set_flag(Flag::C, true);
        let result = cpu.alu_add_bytes(*a, *b, true);
        assert_eq!(a.wrapping_add(*b).wrapping_add(1), result);

        assert_flags_binop(&cpu, flags, (a, b));
    }
}

#[test]
fn cpu_alu_sub_bytes_value() {
    let mut cpu = Cpu::new();

    let test_cases: &[(u8, u8)] = &[
        (0x00, 0x00),
        (0x01, 0x00),
        (0xFF, 0x32),
        (0x01, 0x32),
        (0x32, 0x32),
    ];

    for (a, b) in test_cases {
        let result = cpu.alu_sub_bytes(*a, *b, false);
        assert_eq!(a.wrapping_sub(*b), result);
    }
}

#[test]
fn cpu_alu_sub_bytes_flag_z() {
    let mut cpu = Cpu::new();

    let test_cases: &[((u8, u8), [bool; 4])] = &[
        ((0x00, 0x00), [true, true, false, false]),
        ((0x01, 0x01), [true, true, false, false]),
        ((0x1F, 0x1F), [true, true, false, false]),
        ((0xFF, 0xFF), [true, true, false, false]),
    ];

    for ((a, b), flags) in test_cases {
        let result: u8 = cpu.alu_sub_bytes(*a, *b, false);
        assert_eq!(a.wrapping_sub(*b), result);

        assert_flags_binop(&cpu, flags, (a, b));
    }
}

#[test]
fn cpu_alu_sub_bytes_flag_h() {
    let mut cpu = Cpu::new();

    let test_cases: &[((u8, u8), [bool; 4])] = &[
        ((0x00, 0x00), [true, true, false, false]),
        ((0x00, 0x01), [false, true, true, true]),
        ((0x03, 0x04), [false, true, true, true]),
        ((0x07, 0x08), [false, true, true, true]),
        ((0x08, 0x09), [false, true, true, true]),
        ((0x0F, 0x10), [false, true, false, true]),
        ((0x10, 0x02), [false, true, true, false]),
    ];

    for ((a, b), flags) in test_cases {
        let result: u8 = cpu.alu_sub_bytes(*a, *b, false);
        assert_eq!(a.wrapping_sub(*b), result);

        assert_flags_binop(&cpu, flags, (a, b));
    }
}

#[test]
fn cpu_alu_sub_bytes_flag_c() {
    let mut cpu = Cpu::new();

    let test_cases: &[((u8, u8), [bool; 4])] = &[
        ((0xFE, 0xFF), [false, true, true, true]),
        ((0x00, 0x01), [false, true, true, true]),
    ];

    for ((a, b), flags) in test_cases {
        let result: u8 = cpu.alu_sub_bytes(*a, *b, false);
        assert_eq!(a.wrapping_sub(*b), result);

        assert_flags_binop(&cpu, flags, (a, b));
    }
}

#[test]
fn cpu_alu_sub_bytes_with_carry() {
    let mut cpu = Cpu::new();

    let test_cases: &[(u8, u8)] = &[(0x01, 0x00), (0x01, 0x01), (0x10, 0x02), (0x10, 0x1F)];

    for (a, b) in test_cases {
        cpu.registers.set_flag(Flag::C, true);
        let result: u8 = cpu.alu_sub_bytes(*a, *b, true);

        assert_eq!(a.wrapping_sub(*b).wrapping_sub(1), result);
    }
}

#[test]
fn cpu_alu_inc_byte() {
    let mut cpu = Cpu::new();

    let test_cases: &[(u8, [bool; 3])] = &[(0xFE, [false, false, false])];

    let flags = &[Flag::Z, Flag::N, Flag::H];
    for (a, flag_vals) in test_cases {
        let value = cpu.alu_inc_byte(*a);

        assert_eq!(value, a.wrapping_add(1));

        let result = assert_flags(&cpu, flag_vals, flags);
        if let Err(f) = result {
            panic!("Flag assertion failed for {:?} with value {:X}.", f, a);
        }
    }
}

#[test]
fn cpu_alu_dec_byte() {
    let mut cpu = Cpu::new();

    let test_cases: &[(u8, [bool; 3])] = &[
        (0xFF, [false, true, false]),
        (0x00, [false, true, true]),
        (0x9F, [false, true, false]),
        (0x13, [false, true, false]),
        (0x01, [true, true, false]),
        (0x0F, [false, true, false]),
        (0x10, [false, true, true]),
    ];

    let flags = &[Flag::Z, Flag::N, Flag::H];
    for (a, flag_vals) in test_cases {
        let value = cpu.alu_dec_byte(*a);

        assert_eq!(value, a.wrapping_sub(1));

        let result = assert_flags(&cpu, flag_vals, flags);
        if let Err(f) = result {
            panic!("Flag assertion failed for {:?} with value {:X}.", f, a);
        }
    }
}

#[test]
fn cpu_alu_add_words() {
    let mut cpu = Cpu::new();

    let test_cases: &[(u16, u16, [bool; 3])] = &[
        (0x0000, 0x0000, [false, false, false]),
        (0x1523, 0x2333, [false, false, false]),
        (0x0100, 0x0F00, [false, true, false]),
        (0x1000, 0xF000, [false, false, true]),
        (0x0100, 0xFF00, [false, true, true]),
        (0x0101, 0x1010, [false, false, false]),
        (0x0FFF, 0x0001, [false, true, false]),
    ];

    let flags = &[Flag::N, Flag::H, Flag::C];
    for (x, y, flag_vals) in test_cases {
        let value = cpu.alu_add_words(*x, *y);
        assert_eq!(value, x.wrapping_add(*y));

        let result = assert_flags(&cpu, flag_vals, flags);
        if let Err(f) = result {
            panic!("Flag assertion failed for {:?} with values {:?}.", f, (x, y));
        }
    }
}

#[test]
fn cpu_alu_and_a() {
    let mut cpu = Cpu::new();

    let test_cases: &[(u8, u8, [bool; 4])] = &[
        (0x00, 0x00, [true, false, true, false]),
        (0x00, 0xFF, [true, false, true, false]),
        (0xFF, 0x00, [true, false, true, false]),
        (0x1F, 0x00, [true, false, true, false]),
        (0x11, 0x22, [true, false, true, false]),
    ];

    for (a, y, flags) in test_cases {
        cpu.registers.set_r8(Register8b::A, *a);
        cpu.alu_and_a(*y);

        assert_eq!(a & y, cpu.registers.get_r8(Register8b::A));
        assert_flags_binop(&cpu, flags, (a, y));
    }
}

#[test]
fn cpu_alu_xor_a() {
    let mut cpu = Cpu::new();

    let test_cases: &[(u8, u8, [bool; 4])] = &[
        (0x00, 0x00, [true, false, false, false]),
        (0xFF, 0xFF, [true, false, false, false]),
        (0xF0, 0x0F, [false, false, false, false]),
        (0xAA, 0x55, [false, false, false, false]),
    ];

    for (a, y, flags) in test_cases {
        cpu.registers.set_r8(Register8b::A, *a);
        cpu.alu_xor_a(*y);

        assert_eq!(a ^ y, cpu.registers.get_r8(Register8b::A));
        assert_flags_binop(&cpu, flags, (a, y));
    }
}

#[test]
fn cpu_alu_or_a() {
    let mut cpu = Cpu::new();

    let test_cases: &[(u8, u8, [bool; 4])] = &[
        (0x00, 0x00, [true, false, false, false]),
        (0xFF, 0xFF, [false, false, false, false]),
        (0xF0, 0x0F, [false, false, false, false]),
        (0xAA, 0x55, [false, false, false, false]),
        (0x00, 0xF0, [false, false, false, false]),
    ];

    for (a, y, flags) in test_cases {
        cpu.registers.set_r8(Register8b::A, *a);
        cpu.alu_or_a(*y);

        assert_eq!(a | y, cpu.registers.get_r8(Register8b::A));
        assert_flags_binop(&cpu, flags, (a, y));
    }
}

#[test]
fn cpu_alu_cp_a() {
    let mut cpu = Cpu::new();

    let test_cases: &[(u8, u8, [bool; 4])] = &[(0x00, 0x00, [true, true, false, false])];

    for (a, y, flags) in test_cases {
        cpu.registers.set_r8(Register8b::A, *a);
        cpu.alu_cp_a(*y);

        assert_eq!(*a, cpu.registers.get_r8(Register8b::A));
        assert_flags_binop(&cpu, flags, (a, y));
    }
}

#[test]
fn test_cpu_alu_add_bytes_value() {
    let mut cpu = Cpu::new();

    let test_cases: Vec<(u8, u8)> = vec![
        (0, 0),
        (1, 1),
        (0xFF, 0xFF),
        (0xFF, 0x01),
        (0x01, 0xFF),
        (0xFE, 0x01),
        (0x01, 0xFE),
        (5, 7),
        (12, 35),
    ];

    for (a, b) in &test_cases {
        let result = cpu.alu_add_bytes(*a, *b, false);
        assert_eq!(a.wrapping_add(*b), result);
    }
}

#[test]
fn test_cpu_alu_add_bytes_flag_z() {
    let mut cpu = Cpu::new();

    let test_cases: Vec<((u8, u8), [bool; 4])> = vec![
        ((0x00, 0x00), [true, false, false, false]),
        ((0xFF, 0x01), [true, false, true, true]),
        ((0xFE, 0x02), [true, false, true, true]),
        ((0x02, 0xFE), [true, false, true, true]),
    ];

    for ((a, b), flags) in test_cases {
        let result: u8 = cpu.alu_add_bytes(a, b, false);
        assert_eq!(0, result);

        assert_flags_binop(&cpu, &flags, (&a, &b));
    }
}

#[test]
fn test_cpu_alu_add_bytes_flag_h() {
    let mut cpu = Cpu::new();

    let test_cases: Vec<((u8, u8), [bool; 4])> = vec![
        ((0x00, 0x01), [false, false, false, false]),
        ((0x08, 0x07), [false, false, false, false]),
        ((0x0F, 0x01), [false, false, true, false]),
        ((0x0E, 0x02), [false, false, true, false]),
        ((0x08, 0x08), [false, false, true, false]),
        ((0x0F, 0x02), [false, false, true, false]),
        ((0x0E, 0x04), [false, false, true, false]),
        ((0x0F, 0x0F), [false, false, true, false]),
        ((0xF0, 0xF0), [false, false, false, true]),
        ((0xF0, 0x20), [false, false, false, true]),
        ((0xF0, 0x01), [false, false, false, false]),
        ((0x50, 0x51), [false, false, false, false]),
    ];

    for ((a, b), flags) in test_cases {
        let result: u8 = cpu.alu_add_bytes(a, b, false);
        assert_eq!(a.wrapping_add(b), result);

        assert_flags_binop(&cpu, &flags, (&a, &b));
    }
}

#[test]
fn test_cpu_alu_add_bytes_flag_c() {
    let mut cpu = Cpu::new();

    let test_cases: Vec<((u8, u8), [bool; 4])> = vec![
        ((0x00, 0x00), [true, false, false, false]),
        ((0x00, 0x01), [false, false, false, false]),
        ((0xFF, 0x01), [true, false, true, true]),
        ((0xFE, 0x02), [true, false, true, true]),
        ((0xF0, 0x20), [false, false, false, true]),
    ];

    for ((a, b), flags) in test_cases {
        let result: u8 = cpu.alu_add_bytes(a, b, false);
        assert_eq!(a.wrapping_add(b), result);

        assert_flags_binop(&cpu, &flags, (&a, &b));
    }
}

#[test]
fn test_cpu_alu_add_bytes_with_carry() {
    let mut cpu = Cpu::new();
    let test_cases: Vec<((u8, u8), [bool; 4])> = vec![((0x00, 0x00), [false, false, false, false])];

    for ((a, b), flags) in test_cases {
        cpu.registers.set_flag(Flag::C, true);
        let result = cpu.alu_add_bytes(a, b, true);
        assert_eq!(a.wrapping_add(b).wrapping_add(1), result);

        assert_flags_binop(&cpu, &flags, (&a, &b));
    }
}

#[test]
fn cpu_alu_subtract_bytes_value() {
    let mut cpu = Cpu::new();
    for (a, b) in [(0x10u8, 0x01u8), (0x00, 0xFF), (0x80, 0x80)] {
        assert_eq!(a.wrapping_sub(b), cpu.alu_sub_bytes(a, b, false));
    }
}

#[test]
fn cpu_alu_subtract_bytes_flag_z() {
    let mut cpu = Cpu::new();
    for (a, b) in [(0x42u8, 0x42u8), (0x00, 0x00)] {
        assert_eq!(0, cpu.alu_sub_bytes(a, b, false));
        assert_flags_binop(&cpu, &[true, true, false, false], (&a, &b));
    }
}

#[test]
fn cpu_alu_subtract_bytes_flag_h() {
    let mut cpu = Cpu::new();

    let test_cases: Vec<((u8, u8), [bool; 4])> = vec![
        ((0x00, 0x00), [true, true, false, false]),
        ((0x00, 0x01), [false, true, true, true]),
        ((0xFF, 0x01), [false, true, false, false]),
        ((0xFE, 0x02), [false, true, false, false]),
    ];

    for ((a, b), flags) in test_cases {
        let result: u8 = cpu.alu_sub_bytes(a, b, false);
        assert_eq!(a.wrapping_sub(b), result);

        assert_flags_binop(&cpu, &flags, (&a, &b));
    }
}

#[test]
fn cpu_alu_subtract_bytes_flag_c() {
    let mut cpu = Cpu::new();
    cpu.alu_sub_bytes(0x01, 0x02, false);
    assert!(cpu.registers.flag_value(Flag::C));
    cpu.alu_sub_bytes(0x02, 0x01, false);
    assert!(!cpu.registers.flag_value(Flag::C));
}

#[test]
fn cpu_alu_subtract_bytes_with_carry() {
    let mut cpu = Cpu::new();
    cpu.registers.set_flag(Flag::C, true);
    assert_eq!(0xFF, cpu.alu_sub_bytes(0x01, 0x01, true));
    assert!(cpu.registers.flag_value(Flag::C));
    cpu.registers.set_flag(Flag::C, false);
    assert_eq!(0x00, cpu.alu_sub_bytes(0x01, 0x01, true));
    assert!(cpu.registers.flag_value(Flag::Z));
}

#[test]
fn add_bytes_half_carry_scenario() {
    let mut cpu = Cpu::new();
    assert_eq!(0x10, cpu.alu_add_bytes(0x0F, 0x01, false));
    assert_flags_binop(&cpu, &[false, false, true, false], (&0x0F, &0x01));
}

#[test]
fn sub_bytes_borrow_scenario() {
    let mut cpu = Cpu::new();
    assert_eq!(0xFF, cpu.alu_sub_bytes(0x00, 0x01, false));
    assert_flags_binop(&cpu, &[false, true, true, true], (&0x00, &0x01));
}

#[test]
fn add_words_keeps_z() {
    let mut cpu = Cpu::new();
    cpu.registers.set_flag(Flag::Z, true);
    assert_eq!(0x0100, cpu.alu_add_words(0x00FF, 0x0001));
    assert!(cpu.registers.flag_value(Flag::Z));
    cpu.registers.set_flag(Flag::Z, false);
    assert_eq!(0x0000, cpu.alu_add_words(0xFFFF, 0x0001));
    assert!(!cpu.registers.flag_value(Flag::Z));
    assert!(cpu.registers.flag_value(Flag::C));
    assert!(cpu.registers.flag_value(Flag::H));
}

#[test]
fn add_then_sub_round_trip() {
    let mut cpu = Cpu::new();
    for x in [0u8, 1, 0x0F, 0x7F, 0x80, 0xFE, 0xFF] {
        for y in [0u8, 1, 0x10, 0x81, 0xFF] {
            let sum = cpu.alu_add_bytes(x, y, false);
            assert_eq!(x.wrapping_add(y), sum);
            assert_eq!(x, cpu.alu_sub_bytes(sum, y, false));
        }
    }
}

#[test]
fn inc_dec_keep_carry() {
    let mut cpu = Cpu::new();
    cpu.registers.set_flag(Flag::C, true);
    assert_eq!(0x00, cpu.alu_inc_byte(0xFF));
    assert!(cpu.registers.flag_value(Flag::Z));
    assert!(cpu.registers.flag_value(Flag::H));
    assert!(cpu.registers.flag_value(Flag::C));
    assert_eq!(0xFF, cpu.alu_dec_byte(0x00));
    assert!(cpu.registers.flag_value(Flag::C));
    assert!(cpu.registers.flag_value(Flag::N));
}

#[test]
fn rotates_move_bit_into_carry() {
    let mut cpu = Cpu::new();
    assert_eq!(0x03, cpu.bit_op_rlc(0x81));
    assert!(cpu.registers.flag_value(Flag::C));
    assert_eq!(0x80, cpu.bit_op_rrc(0x01));
    assert!(cpu.registers.flag_value(Flag::C));
    assert_eq!(0x00, cpu.bit_op_rlc(0x00));
    assert!(cpu.registers.flag_value(Flag::Z));
    assert!(!cpu.registers.flag_value(Flag::C));
}

#[test]
fn daa_adjusts_bcd_add() {
    let mut cpu = Cpu::new();
    // 0x15 + 0x27 = 0x3C, adjusted to 0x42
    cpu.registers.set_r8(Register8b::A, 0x15);
    let sum = cpu.alu_add_bytes(0x15, 0x27, false);
    cpu.registers.set_r8(Register8b::A, sum);
    cpu.alu_daa();
    assert_eq!(0x42, cpu.registers.get_r8(Register8b::A));
    assert!(!cpu.registers.flag_value(Flag::C));
}
