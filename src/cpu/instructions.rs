use vstd::prelude::*;

verus! {

/// The instruction kinds the table knows.
#[derive(Debug, Clone, Copy, PartialEq, Eq, Structural)]
pub enum InstructionType {
    Nop,
    LdR8N,
    LdR16N,
    JpNN,
    JrN,
    Unknown,
}

#[derive(Debug, Clone, Copy, PartialEq, Eq, Structural)]
pub enum Register8 {
    A,
    B,
    C,
    D,
    E,
    H,
    L,
}

#[derive(Debug, Clone, Copy, PartialEq, Eq, Structural)]
pub enum Register16 {
    AF,
    BC,
    DE,
    HL,
    SP,
    PC,
}

/// A table entry: kind, encoding, size, timing and operand register.
#[derive(Debug, Clone, Copy)]
pub struct Instruction {
    pub instruction_type: InstructionType,
    pub opcode: u8,
    pub length: u8,
    pub cycles: u8,
    pub reg8: Option<Register8>,
    pub reg16: Option<Register16>,
    pub description: &'static str,
}

impl Instruction {
    pub fn new(instruction_type: InstructionType, opcode: u8, length: u8, cycles: u8, description: &'static str) -> (r: Self)
        ensures
            r == (Instruction { instruction_type, opcode, length, cycles, reg8: None, reg16: None, description }),
    {
        Instruction { instruction_type, opcode, length, cycles, reg8: None, reg16: None, description }
    }

    pub fn with_reg8(self, reg: Register8) -> (r: Self)
        ensures
            r == (Instruction { reg8: Some(reg), ..self }),
    {
        Instruction { reg8: Some(reg), ..self }
    }

    pub fn with_reg16(self, reg: Register16) -> (r: Self)
        ensures
            r == (Instruction { reg16: Some(reg), ..self }),
    {
        Instruction { reg16: Some(reg), ..self }
    }
}

/// The entry the table holds for an opcode.
pub open spec fn table_entry(op: u8) -> Option<Instruction> {
    if op == 0x00 {
        Some(Instruction { instruction_type: InstructionType::Nop, opcode: 0x00, length: 1, cycles: 4, reg8: None, reg16: None, description: "NOP" })
    } else if op == 0x3E {
        Some(Instruction { instruction_type: InstructionType::LdR8N, opcode: 0x3E, length: 2, cycles: 8, reg8: Some(Register8::A), reg16: None, description: "LD A, n" })
    } else if op == 0x06 {
        Some(Instruction { instruction_type: InstructionType::LdR8N, opcode: 0x06, length: 2, cycles: 8, reg8: Some(Register8::B), reg16: None, description: "LD B, n" })
    } else if op == 0x0E {
        Some(Instruction { instruction_type: InstructionType::LdR8N, opcode: 0x0E, length: 2, cycles: 8, reg8: Some(Register8::C), reg16: None, description: "LD C, n" })
    } else if op == 0x16 {
        Some(Instruction { instruction_type: InstructionType::LdR8N, opcode: 0x16, length: 2, cycles: 8, reg8: Some(Register8::D), reg16: None, description: "LD D, n" })
    } else if op == 0x1E {
        Some(Instruction { instruction_type: InstructionType::LdR8N, opcode: 0x1E, length: 2, cycles: 8, reg8: Some(Register8::E), reg16: None, description: "LD E, n" })
    } else if op == 0x26 {
        Some(Instruction { instruction_type: InstructionType::LdR8N, opcode: 0x26, length: 2, cycles: 8, reg8: Some(Register8::H), reg16: None, description: "LD H, n" })
    } else if op == 0x2E {
        Some(Instruction { instruction_type: InstructionType::LdR8N, opcode: 0x2E, length: 2, cycles: 8, reg8: Some(Register8::L), reg16: None, description: "LD L, n" })
    } else if op == 0x31 {
        Some(Instruction { instruction_type: InstructionType::LdR16N, opcode: 0x31, length: 3, cycles: 12, reg8: None, reg16: Some(Register16::SP), description: "LD SP, nn" })
    } else if op == 0xC3 {
        Some(Instruction { instruction_type: InstructionType::JpNN, opcode: 0xC3, length: 3, cycles: 16, reg8: None, reg16: None, description: "JP nn" })
    } else if op == 0x18 {
        Some(Instruction { instruction_type: InstructionType::JrN, opcode: 0x18, length: 2, cycles: 12, reg8: None, reg16: None, description: "JR n" })
    } else {
        None
    }
}

/// Whether the table holds an entry for an opcode.
pub open spec fn in_table(op: u8) -> bool {
    table_entry(op).is_some()
}

/// A 256-slot table of described instructions.
pub struct InstructionTable {
    pub instructions: Vec<Option<Instruction>>,
}

impl InstructionTable {
    pub open spec fn wf(&self) -> bool {
        &&& self.instructions@.len() == 256
        &&& forall|i: int| 0 <= i < 256 ==> #[trigger] self.instructions@[i] == table_entry(i as u8)
    }

    pub fn new() -> (r: Self)
        ensures
            r.wf(),
    {
        let mut instructions: Vec<Option<Instruction>> = Vec::new();
        let mut i: usize = 0;
        while i < 256
            invariant
                i <= 256,
                instructions@.len() == i,
                forall|j: int| 0 <= j < i ==> #[trigger] instructions@[j] == None::<Instruction>,
            decreases 256 - i,
        {
            instructions.push(None);
            i = i + 1;
        }
        let mut table = InstructionTable { instructions };
        table.initialize_instructions();
        table
    }

    fn initialize_instructions(&mut self)
        requires
            old(self).instructions@.len() == 256,
            forall|j: int| 0 <= j < 256 ==> #[trigger] old(self).instructions@[j] == None::<Instruction>,
        ensures
            final(self).wf(),
    {
        self.add_instruction(0x00, Instruction::new(InstructionType::Nop, 0x00, 1, 4, "NOP"));
        self.add_instruction(0x3E, Instruction::new(InstructionType::LdR8N, 0x3E, 2, 8, "LD A, n").with_reg8(Register8::A));
        self.add_instruction(0x06, Instruction::new(InstructionType::LdR8N, 0x06, 2, 8, "LD B, n").with_reg8(Register8::B));
        self.add_instruction(0x0E, Instruction::new(InstructionType::LdR8N, 0x0E, 2, 8, "LD C, n").with_reg8(Register8::C));
        self.add_instruction(0x16, Instruction::new(InstructionType::LdR8N, 0x16, 2, 8, "LD D, n").with_reg8(Register8::D));
        self.add_instruction(0x1E, Instruction::new(InstructionType::LdR8N, 0x1E, 2, 8, "LD E, n").with_reg8(Register8::E));
        self.add_instruction(0x26, Instruction::new(InstructionType::LdR8N, 0x26, 2, 8, "LD H, n").with_reg8(Register8::H));
        self.add_instruction(0x2E, Instruction::new(InstructionType::LdR8N, 0x2E, 2, 8, "LD L, n").with_reg8(Register8::L));
        self.add_instruction(0x31, Instruction::new(InstructionType::LdR16N, 0x31, 3, 12, "LD SP, nn").with_reg16(Register16::SP));
        self.add_instruction(0xC3, Instruction::new(InstructionType::JpNN, 0xC3, 3, 16, "JP nn"));
        self.add_instruction(0x18, Instruction::new(InstructionType::JrN, 0x18, 2, 12, "JR n"));
        assert forall|i: int| 0 <= i < 256 implies #[trigger] self.instructions@[i] == table_entry(i as u8) by {}
    }

    fn add_instruction(&mut self, opcode: u8, instruction: Instruction)
        requires
            old(self).instructions@.len() == 256,
        ensures
            final(self).instructions@ == old(self).instructions@.update(opcode as int, Some(instruction)),
    {
        self.instructions.set(opcode as usize, Some(instruction));
    }

    pub fn get_instruction(&self, opcode: u8) -> (r: Option<&Instruction>)
        requires
            self.wf(),
        ensures
            r.is_some() == in_table(opcode),
            r matches Some(i) ==> Some(*i) == table_entry(opcode),
    {
        self.instructions[opcode as usize].as_ref()
    }

    /// The opcodes that have entries, ascending.
    pub fn get_implemented_opcodes(&self) -> (r: Vec<u8>)
        requires
            self.wf(),
        ensures
            forall|k: int, m: int| 0 <= k < m < r@.len() ==> r@[k] < r@[m],
            forall|op: u8| r@.contains(op) <==> in_table(op),
    {
        let mut opcodes: Vec<u8> = Vec::new();
        let mut i: usize = 0;
        while i < 256
            invariant
                i <= 256,
                self.wf(),
                forall|k: int, m: int| 0 <= k < m < opcodes@.len() ==> opcodes@[k] < opcodes@[m],
                forall|k: int| 0 <= k < opcodes@.len() ==> opcodes@[k] < i,
                forall|op: u8| opcodes@.contains(op) <==> (op < i && in_table(op)),
            decreases 256 - i,
        {
            let ghost prev = opcodes@;
            proof {
                assert(self.instructions@[i as int] == table_entry(i as u8));
            }
            if self.instructions[i].is_some() {
                opcodes.push(i as u8);
            }
            proof {
                assert forall|op: u8| opcodes@.contains(op) <==> (op < i + 1 && in_table(op)) by {
                    if opcodes@.contains(op) && op != i as u8 {
                        let k = choose|k: int| 0 <= k < opcodes@.len() && opcodes@[k] == op;
                        assert(k < prev.len());
                        assert(prev[k] == op);
                        assert(prev.contains(op));
                    }
                    if op < i && in_table(op) {
                        assert(prev.contains(op));
                        let k = choose|k: int| 0 <= k < prev.len() && prev[k] == op;
                        assert(opcodes@[k] == op);
                    }
                    if op == i as u8 && in_table(op) {
                        assert(opcodes@[opcodes@.len() - 1] == op);
                    }
                }
            }
            i = i + 1;
        }
        opcodes
    }
}

} // verus!
