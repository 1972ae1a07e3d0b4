use gameboy::cpu::decoder::InstructionDecoder;
use gameboy::cpu::instructions::InstructionType;

#[test]
fn test_decoder_creation() {
    let decoder = InstructionDecoder::new();

    assert!(decoder.decode(0x00).is_ok());
    assert!(decoder.decode(0x3E).is_ok());
    assert!(decoder.decode(0xC3).is_ok());
}

#[test]
fn test_decode_valid_instruction() {
    let decoder = InstructionDecoder::new();

    let instruction = decoder.decode(0x00).unwrap();
    assert_eq!(instruction.opcode, 0x00);
    assert_eq!(instruction.instruction_type, InstructionType::Nop);
}

#[test]
fn test_decode_invalid_instruction() {
    let decoder = InstructionDecoder::new();

    let result = decoder.decode(0xFF);
    assert!(result.is_err());
    assert!(result.unwrap_err().contains("未実装"));
}

#[test]
fn test_instruction_info() {
    let decoder = InstructionDecoder::new();

    let info = decoder.get_instruction_info(0x00);
    assert!(info.contains("NOP"));
    assert!(info.contains("length:1"));
    assert!(info.contains("cycles:4"));
}

#[test]
fn test_cb_instruction() {
    let decoder = InstructionDecoder::new();

    let result = decoder.decode_cb(0x00);
    assert!(result.is_err());
    assert!(result.unwrap_err().contains("CB命令は未実装"));
}

#[test]
fn test_list_instructions() {
    let decoder = InstructionDecoder::new();

    let list = decoder.list_implemented_instructions();
    assert!(list.contains("実装済み命令一覧"));
    assert!(list.contains("NOP"));
    assert!(list.contains("LD A, n"));
}

#[test]
fn test_instruction_stats() {
    let decoder = InstructionDecoder::new();

    let stats = decoder.get_instruction_stats();
    assert!(stats.contains("命令統計"));
    assert!(stats.contains("NOP: 1"));
    assert!(stats.contains("LOAD:"));
    assert!(stats.contains("JUMP:"));
}
