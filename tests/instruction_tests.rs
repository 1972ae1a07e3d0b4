use gameboy::cpu::instructions::{InstructionTable, InstructionType, Register8};

#[test]
fn test_instruction_table_creation() {
    let table = InstructionTable::new();

    let nop = table.get_instruction(0x00).unwrap();
    assert_eq!(nop.instruction_type, InstructionType::Nop);
    assert_eq!(nop.cycles, 4);
    assert_eq!(nop.length, 1);

    let ld_a_n = table.get_instruction(0x3E).unwrap();
    assert_eq!(ld_a_n.instruction_type, InstructionType::LdR8N);
    assert_eq!(ld_a_n.reg8, Some(Register8::A));
    assert_eq!(ld_a_n.cycles, 8);
    assert_eq!(ld_a_n.length, 2);

    let jp_nn = table.get_instruction(0xC3).unwrap();
    assert_eq!(jp_nn.instruction_type, InstructionType::JpNN);
    assert_eq!(jp_nn.cycles, 16);
    assert_eq!(jp_nn.length, 3);
}

#[test]
fn test_unknown_instruction() {
    let table = InstructionTable::new();

    assert!(table.get_instruction(0xFF).is_none());
}

#[test]
fn test_implemented_opcodes() {
    let table = InstructionTable::new();
    let opcodes = table.get_implemented_opcodes();

    assert!(opcodes.contains(&0x00));
    assert!(opcodes.contains(&0x3E));
    assert!(opcodes.contains(&0xC3));

    assert!(opcodes.len() >= 10);
}
