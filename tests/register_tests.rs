use gameboy::cpu::flags;
use gameboy::cpu::Registers;

#[test]
fn test_register_creation() {
    let regs = Registers::new();
    assert_eq!(regs.a, 0x00);
    assert_eq!(regs.pc, 0x0000);
    assert_eq!(regs.sp, 0x0000);
}

#[test]
fn test_16bit_register_pairs() {
    let mut regs = Registers::new();

    regs.a = 0x12;
    regs.f = 0x30;
    assert_eq!(regs.af(), 0x1230);

    regs.set_af(0x5678);
    assert_eq!(regs.a, 0x56);
    assert_eq!(regs.f, 0x70);

    regs.set_bc(0x1234);
    assert_eq!(regs.b, 0x12);
    assert_eq!(regs.c, 0x34);
    assert_eq!(regs.bc(), 0x1234);

    regs.set_de(0x5678);
    assert_eq!(regs.d, 0x56);
    assert_eq!(regs.e, 0x78);
    assert_eq!(regs.de(), 0x5678);

    regs.set_hl(0x9ABC);
    assert_eq!(regs.h, 0x9A);
    assert_eq!(regs.l, 0xBC);
    assert_eq!(regs.hl(), 0x9ABC);
}

#[test]
fn test_flag_operations() {
    let mut regs = Registers::new();

    assert!(!regs.zero_flag());
    regs.set_zero_flag(true);
    assert!(regs.zero_flag());
    assert_eq!(regs.f, flags::ZERO);

    regs.set_carry_flag(true);
    assert!(regs.carry_flag());
    assert_eq!(regs.f, flags::ZERO | flags::CARRY);

    regs.set_flags(true, true, false, true);
    assert!(regs.zero_flag());
    assert!(regs.subtract_flag());
    assert!(!regs.half_carry_flag());
    assert!(regs.carry_flag());
}

#[test]
fn test_f_register_masking() {
    let mut regs = Registers::new();

    regs.f = 0xFF;
    assert_eq!(regs.f, 0xFF);

    regs.set_af(0x12FF);
    assert_eq!(regs.f, 0xF0);
}

#[test]
fn test_flags_string() {
    let mut regs = Registers::new();

    assert_eq!(regs.flags_string(), "----");

    regs.set_flags(true, false, true, false);
    assert_eq!(regs.flags_string(), "Z-H-");

    regs.set_flags(true, true, true, true);
    assert_eq!(regs.flags_string(), "ZNHC");
}
