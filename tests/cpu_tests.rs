use gameboy::cpu::Cpu;
use gameboy::memory::BootRom;
use gameboy::peripherals::Peripherals;

fn create_test_system() -> (Cpu, Peripherals) {
    let cpu = Cpu::new();
    let mut peripherals = Peripherals::new(BootRom::new_dummy());
    peripherals.write(0xFF50, 0x01);
    (cpu, peripherals)
}

#[test]
fn test_cpu_creation() {
    let cpu = Cpu::new();
    assert_eq!(cpu.registers.pc, 0x0000);
    assert_eq!(cpu.instruction_count, 0);
}

#[test]
fn test_nop_instruction() {
    let (mut cpu, mut peripherals) = create_test_system();

    cpu.registers.pc = 0xC000;
    peripherals.write(0xC000, 0x00);

    let cycles = cpu.step(&mut peripherals).unwrap();
    assert_eq!(cycles, 4);
    assert_eq!(cpu.registers.pc, 0xC001);
    assert_eq!(cpu.instruction_count, 1);
}

#[test]
fn test_ld_a_n_instruction() {
    let (mut cpu, mut peripherals) = create_test_system();

    cpu.registers.pc = 0xC000;
    peripherals.write(0xC000, 0x3E);
    peripherals.write(0xC001, 0x42);

    let cycles = cpu.step(&mut peripherals).unwrap();
    assert_eq!(cycles, 8);
    assert_eq!(cpu.registers.a, 0x42);
    assert_eq!(cpu.registers.pc, 0xC002);
}

#[test]
fn test_jp_nn_instruction() {
    let (mut cpu, mut peripherals) = create_test_system();

    cpu.registers.pc = 0xC000;
    peripherals.write(0xC000, 0xC3);
    peripherals.write(0xC001, 0x34);
    peripherals.write(0xC002, 0x12);

    let cycles = cpu.step(&mut peripherals).unwrap();
    assert_eq!(cycles, 16);
    assert_eq!(cpu.registers.pc, 0x1234);
}
