use vstd::prelude::*;
use vstd::string::StringExecFns;

use super::instructions::{in_table, table_entry, Instruction, InstructionTable, InstructionType};
use crate::text::{decimal, decimal_spec, hex2, hex2_spec};

verus! {

/// The message for an opcode without a table entry.
pub open spec fn unknown_message(op: u8) -> Seq<char> {
    "未実装の命令: 0x"@ + hex2_spec(op)
}

/// The message for a CB-prefixed opcode, which the table does not describe.
pub open spec fn cb_message(op: u8) -> Seq<char> {
    "CB命令は未実装: 0xCB"@ + hex2_spec(op)
}

/// `n` spaces.
pub open spec fn spaces(n: int) -> Seq<char>
    decreases n,
{
    if n <= 0 { Seq::empty() } else { spaces(n - 1).push(' ') }
}

/// A text padded with spaces to `width` characters.
pub open spec fn padded(s: Seq<char>, width: int) -> Seq<char> {
    s + spaces(width - s.len())
}

/// One line of the summary of an entry.
pub open spec fn info_line(op: u8, i: Instruction) -> Seq<char> {
    "0x"@ + hex2_spec(op) + ": "@ + i.description@ + " (length:"@ + decimal_spec(i.length as nat) + ", cycles:"@
        + decimal_spec(i.cycles as nat) + ")"@
}

/// One line of the listing of entries.
pub open spec fn list_line(op: u8, i: Instruction) -> Seq<char> {
    "  0x"@ + hex2_spec(op) + ": "@ + padded(i.description@, 12) + " ("@ + decimal_spec(i.length as nat) + "bytes, "@
        + decimal_spec(i.cycles as nat) + "cycles)\n"@
}

/// The listing lines of the entries for opcodes below `n`.
pub open spec fn listing(n: int) -> Seq<char>
    decreases n,
{
    if n <= 0 {
        Seq::empty()
    } else {
        listing(n - 1) + match table_entry((n - 1) as u8) {
            Some(i) => list_line((n - 1) as u8, i),
            None => Seq::empty(),
        }
    }
}

/// Whether an entry belongs to a group of kinds (0 NOP, 1 loads, 2 jumps, 3 unknown).
pub open spec fn in_group(t: InstructionType, group: int) -> bool {
    match t {
        InstructionType::Nop => group == 0,
        InstructionType::LdR8N | InstructionType::LdR16N => group == 1,
        InstructionType::JpNN | InstructionType::JrN => group == 2,
        InstructionType::Unknown => group == 3,
    }
}

/// How many entries below opcode `n` belong to a group.
pub open spec fn group_count(group: int, n: int) -> nat
    decreases n,
{
    if n <= 0 {
        0
    } else {
        group_count(group, n - 1) + match table_entry((n - 1) as u8) {
            Some(i) => if in_group(i.instruction_type, group) { 1nat } else { 0 },
            None => 0,
        }
    }
}

/// Decodes opcodes through the instruction table.
pub struct InstructionDecoder {
    pub instruction_table: InstructionTable,
}

impl InstructionDecoder {
    pub open spec fn wf(&self) -> bool {
        self.instruction_table.wf()
    }

    pub fn new() -> (r: Self)
        ensures
            r.wf(),
    {
        InstructionDecoder { instruction_table: InstructionTable::new() }
    }

    /// The entry of an opcode, or an error naming it.
    pub fn decode(&self, opcode: u8) -> (r: Result<&Instruction, String>)
        requires
            self.wf(),
        ensures
            r.is_ok() == in_table(opcode),
            r matches Ok(i) ==> Some(*i) == table_entry(opcode),
            r matches Err(e) ==> e@ == unknown_message(opcode),
    {
        match self.instruction_table.get_instruction(opcode) {
            Some(instruction) => Ok(instruction),
            None => {
                let mut s = String::from_str("未実装の命令: 0x");
                let h = hex2(opcode);
                s.append(h.as_str());
                Err(s)
            },
        }
    }

    /// CB-prefixed opcodes have no table entries.
    pub fn decode_cb(&self, opcode: u8) -> (r: Result<&Instruction, String>)
        ensures
            r matches Err(e) && e@ == cb_message(opcode),
    {
        let mut s = String::from_str("CB命令は未実装: 0xCB");
        let h = hex2(opcode);
        s.append(h.as_str());
        Err(s)
    }

    /// `0xOP: DESCRIPTION (length:N, cycles:M)`, or the decode error.
    pub fn get_instruction_info(&self, opcode: u8) -> (r: String)
        requires
            self.wf(),
        ensures
            r@ == match table_entry(opcode) {
                Some(i) => info_line(opcode, i),
                None => unknown_message(opcode),
            },
    {
        match self.decode(opcode) {
            Ok(instruction) => {
                let mut s = String::from_str("0x");
                let h = hex2(opcode);
                s.append(h.as_str());
                s.append(": ");
                s.append(instruction.description);
                s.append(" (length:");
                let l = decimal(instruction.length as u64);
                s.append(l.as_str());
                s.append(", cycles:");
                let c = decimal(instruction.cycles as u64);
                s.append(c.as_str());
                s.append(")");
                s
            },
            Err(e) => e,
        }
    }

    /// A heading followed by one line per table entry, in opcode order.
    pub fn list_implemented_instructions(&self) -> (r: String)
        requires
            self.wf(),
        ensures
            r@ == "実装済み命令一覧:\n"@ + listing(256),
    {
        let mut s = String::from_str("実装済み命令一覧:\n");
        let mut op: usize = 0;
        while op < 256
            invariant
                op <= 256,
                self.wf(),
                s@ == "実装済み命令一覧:\n"@ + listing(op as int),
            decreases 256 - op,
        {
            let ghost before = s@;
            match self.instruction_table.get_instruction(op as u8) {
                Some(instruction) => {
                    s.append("  0x");
                    let h = hex2(op as u8);
                    s.append(h.as_str());
                    s.append(": ");
                    let d = pad_right(instruction.description, 12);
                    s.append(d.as_str());
                    s.append(" (");
                    let l = decimal(instruction.length as u64);
                    s.append(l.as_str());
                    s.append("bytes, ");
                    let c = decimal(instruction.cycles as u64);
                    s.append(c.as_str());
                    s.append("cycles)\n");
                    proof {
                        assert(s@ =~= before + list_line(op as u8, *instruction));
                    }
                },
                None => {},
            }
            proof {
                assert(listing(op + 1) == listing(op as int) + match table_entry(op as u8) {
                    Some(i) => list_line(op as u8, i),
                    None => Seq::<char>::empty(),
                });
                assert(s@ =~= "実装済み命令一覧:\n"@ + listing(op + 1));
            }
            op = op + 1;
        }
        s
    }

    /// The number of entries of each kind, and their total.
    pub fn get_instruction_stats(&self) -> (r: String)
        requires
            self.wf(),
        ensures
            r@ == "命令統計:\n  NOP: "@ + decimal_spec(group_count(0, 256)) + "\n  LOAD: "@ + decimal_spec(
                group_count(1, 256),
            ) + "\n  JUMP: "@ + decimal_spec(group_count(2, 256)) + "\n  UNKNOWN: "@ + decimal_spec(group_count(3, 256))
                + "\n  合計: "@ + decimal_spec(
                group_count(0, 256) + group_count(1, 256) + group_count(2, 256) + group_count(3, 256),
            ),
    {
        let mut counts: [u64; 4] = [0, 0, 0, 0];
        let mut op: usize = 0;
        while op < 256
            invariant
                op <= 256,
                self.wf(),
                forall|g: int| 0 <= g < 4 ==> #[trigger] counts@[g] == group_count(g, op as int),
                forall|g: int| 0 <= g < 4 ==> group_count(g, op as int) <= op,
            decreases 256 - op,
        {
            match self.instruction_table.get_instruction(op as u8) {
                Some(instruction) => {
                    let g: usize = match instruction.instruction_type {
                        InstructionType::Nop => 0,
                        InstructionType::LdR8N | InstructionType::LdR16N => 1,
                        InstructionType::JpNN | InstructionType::JrN => 2,
                        InstructionType::Unknown => 3,
                    };
                    counts[g] = counts[g] + 1;
                },
                None => {},
            }
            proof {
                let next: int = op + 1;
                assert forall|g: int| 0 <= g < 4 implies #[trigger] group_count(g, next) <= next by {
                    assert(group_count(g, next) == group_count(g, op as int) + match table_entry(op as u8) {
                        Some(i) => if in_group(i.instruction_type, g) { 1nat } else { 0 },
                        None => 0,
                    });
                }
            }
            op = op + 1;
        }
        let mut s = String::from_str("命令統計:\n  NOP: ");
        let n0 = decimal(counts[0]);
        s.append(n0.as_str());
        s.append("\n  LOAD: ");
        let n1 = decimal(counts[1]);
        s.append(n1.as_str());
        s.append("\n  JUMP: ");
        let n2 = decimal(counts[2]);
        s.append(n2.as_str());
        s.append("\n  UNKNOWN: ");
        let n3 = decimal(counts[3]);
        s.append(n3.as_str());
        s.append("\n  合計: ");
        let t = decimal(counts[0] + counts[1] + counts[2] + counts[3]);
        s.append(t.as_str());
        s
    }
}

/// A text padded with spaces to at least `width` characters.
pub fn pad_right(s: &str, width: usize) -> (r: String)
    ensures
        r@ == padded(s@, width as int),
{
    let mut out = String::from_str(s);
    let n = s.unicode_len();
    let mut k: usize = n;
    proof {
        reveal_strlit(" ");
    }
    while k < width
        invariant
            n == s@.len(),
            n <= k <= width || (k == n && n >= width),
            out@ == s@ + spaces(k - n),
        decreases width - k,
    {
        proof {
            reveal_strlit(" ");
        }
        assert(spaces(k + 1 - n) == spaces(k - n).push(' '));
        out.append(" ");
        k = k + 1;
        assert(out@ =~= s@ + spaces(k - n));
    }
    proof {
        if n >= width {
            assert(spaces(width - n) == Seq::<char>::empty());
            assert(spaces(0) == Seq::<char>::empty());
        }
    }
    out
}

} // verus!
