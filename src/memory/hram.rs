use vstd::prelude::*;
use vstd::string::StringExecFns;

use crate::text::{ascii_char, column_header, hex2, hex2_spec, hex4, hex4_spec, push_char};

verus! {

/// The message for a stack pointer that leaves high memory.
pub open spec fn stack_range_message(sp: u16) -> Seq<char> {
    "stack pointer out of range: 0x"@ + hex4_spec(sp)
}

/// The message for a push below high memory.
pub open spec fn stack_overflow_message(sp: u16) -> Seq<char> {
    "stack overflow: SP=0x"@ + hex4_spec(sp)
}

/// Hex cells of high memory from offset `start`: three blanks past the end.
pub open spec fn hram_hex_cells(data: Seq<u8>, start: int, n: int) -> Seq<char>
    decreases n,
{
    if n <= 0 {
        Seq::empty()
    } else {
        hram_hex_cells(data, start, n - 1) + if start + n - 1 < 0x7F {
            hex2_spec(data[start + n - 1]) + " "@
        } else {
            "   "@
        }
    }
}

/// Text cells of high memory from offset `start`: a blank past the end.
pub open spec fn hram_text_cells(data: Seq<u8>, start: int, n: int) -> Seq<char>
    decreases n,
{
    if n <= 0 {
        Seq::empty()
    } else {
        hram_text_cells(data, start, n - 1).push(if start + n - 1 < 0x7F { ascii_char(data[start + n - 1]) } else { ' ' })
    }
}

/// One row of the high-memory dump.
pub open spec fn hram_dump_row(data: Seq<u8>, row: int) -> Seq<char> {
    "0x"@ + hex4_spec((0xFF80 + row * 16) as u16) + ": "@ + hram_hex_cells(data, row * 16, 16) + " | "@
        + hram_text_cells(data, row * 16, 16) + "\n"@
}

/// The first `n` rows of the high-memory dump.
pub open spec fn hram_dump_rows(data: Seq<u8>, n: int) -> Seq<char>
    decreases n,
{
    if n <= 0 { Seq::empty() } else { hram_dump_rows(data, n - 1) + hram_dump_row(data, n - 1) }
}

/// The 127 bytes of high memory at 0xFF80-0xFFFE.
pub struct HighRam {
    data: Vec<u8>,
}

impl View for HighRam {
    type V = Seq<u8>;

    closed spec fn view(&self) -> Seq<u8> {
        self.data@
    }
}

/// The offset of a high-memory address.
pub open spec fn hram_index(addr: u16) -> int {
    addr - 0xFF80
}

impl HighRam {
    pub open spec fn wf(&self) -> bool {
        self@.len() == 0x7F
    }

    pub fn new() -> (r: Self)
        ensures
            r.wf(),
            forall|i: int| 0 <= i < 0x7F ==> #[trigger] r@[i] == 0,
    {
        HighRam { data: vec![0u8; 0x7F] }
    }

    pub fn read(&self, addr: u16) -> (r: u8)
        requires
            self.wf(),
            0xFF80 <= addr <= 0xFFFE,
        ensures
            r == self@[hram_index(addr)],
    {
        let index = self.addr_to_index(addr);
        self.data[index]
    }

    pub fn write(&mut self, addr: u16, value: u8)
        requires
            old(self).wf(),
            0xFF80 <= addr <= 0xFFFE,
        ensures
            final(self)@ == old(self)@.update(hram_index(addr), value),
    {
        let index = self.addr_to_index(addr);
        self.data.set(index, value);
    }

    /// The offset of an address inside high memory.
    pub fn addr_to_index(&self, addr: u16) -> (r: usize)
        requires
            0xFF80 <= addr <= 0xFFFE,
        ensures
            r == hram_index(addr),
    {
        (addr - 0xFF80) as usize
    }

    /// The number of non-zero bytes.
    pub fn used_bytes(&self) -> (r: usize)
        ensures
            r == crate::memory::wram::nonzero_count(self@, self@.len() as int),
    {
        crate::memory::wram::count_nonzero(&self.data)
    }

    pub fn clear(&mut self)
        requires
            old(self).wf(),
        ensures
            final(self).wf(),
            forall|i: int| 0 <= i < 0x7F ==> #[trigger] final(self)@[i] == 0,
    {
        let mut i: usize = 0;
        while i < 0x7F
            invariant
                0 <= i <= 0x7F,
                self.wf(),
                forall|j: int| 0 <= j < i ==> #[trigger] self@[j] == 0,
            decreases 0x7F - i,
        {
            self.data.set(i, 0);
            i = i + 1;
        }
    }

    /// A listing of high memory: sixteen bytes a row in hexadecimal, then as text.
    pub fn dump(&self) -> (r: String)
        requires
            self.wf(),
        ensures
            r@ == "=== HRAM Dump ===\n"@ + "Address : "@ + column_header() + hram_dump_rows(self@, 8),
    {
        let mut s = String::from_str("=== HRAM Dump ===\n");
        s.append("Address : ");
        s.append("00 01 02 03 04 05 06 07 08 09 0A 0B 0C 0D 0E 0F\n");
        let ghost prefix = s@;
        let mut row: usize = 0;
        while row < 8
            invariant
                row <= 8,
                self.wf(),
                s@ == prefix + hram_dump_rows(self@, row as int),
            decreases 8 - row,
        {
            let ghost before = s@;
            let base: u16 = 0xFF80 + (row as u16) * 16;
            s.append("0x");
            let h = hex4(base);
            s.append(h.as_str());
            s.append(": ");
            let ghost mid = s@;
            let mut col: usize = 0;
            while col < 16
                invariant
                    col <= 16,
                    row < 8,
                    self.wf(),
                    s@ == mid + hram_hex_cells(self@, row * 16, col as int),
                decreases 16 - col,
            {
                let i = row * 16 + col;
                if i < 0x7F {
                    let h = hex2(self.data[i]);
                    s.append(h.as_str());
                    s.append(" ");
                } else {
                    s.append("   ");
                }
                col = col + 1;
                assert(s@ =~= mid + hram_hex_cells(self@, row * 16, col as int));
            }
            s.append(" | ");
            let ghost mid2 = s@;
            let mut col: usize = 0;
            while col < 16
                invariant
                    col <= 16,
                    row < 8,
                    self.wf(),
                    s@ == mid2 + hram_text_cells(self@, row * 16, col as int),
                decreases 16 - col,
            {
                let i = row * 16 + col;
                if i < 0x7F {
                    let v = self.data[i];
                    if 32 <= v && v <= 126 {
                        push_char(&mut s, v as char);
                    } else {
                        push_char(&mut s, '.');
                    }
                } else {
                    push_char(&mut s, ' ');
                }
                col = col + 1;
                assert(s@ =~= mid2 + hram_text_cells(self@, row * 16, col as int));
            }
            s.append("\n");
            proof {
                assert(s@ =~= before + hram_dump_row(self@, row as int));
            }
            row = row + 1;
            assert(s@ =~= prefix + hram_dump_rows(self@, row as int));
        }
        s
    }

    /// Decrements `sp` and stores `value` there; the new SP must lie in high memory.
    pub fn push_stack(&mut self, sp: &mut u16, value: u8) -> (r: Result<(), String>)
        requires
            old(self).wf(),
        ensures
            final(self).wf(),
            *old(sp) < 0xFF80 ==> r.is_err() && *final(sp) == *old(sp) && final(self)@ == old(self)@
                && r->Err_0@ == stack_range_message(*old(sp)),
            0xFF80 <= *old(sp) ==> *final(sp) == (*old(sp) - 1) as u16,
            0xFF81 <= *old(sp) <= 0xFFFF ==> r.is_ok() && final(self)@ == old(self)@.update(
                hram_index((*old(sp) - 1) as u16),
                value,
            ),
            *old(sp) == 0xFF80 ==> r.is_err() && final(self)@ == old(self)@ && r->Err_0@
                == stack_overflow_message(0xFF7F),
    {
        if *sp < 0xFF80 {
            let mut s = String::from_str("stack pointer out of range: 0x");
            let h = hex4(*sp);
            s.append(h.as_str());
            return Err(s);
        }
        *sp = *sp - 1;
        if *sp >= 0xFF80 && *sp <= 0xFFFE {
            self.write(*sp, value);
            Ok(())
        } else {
            let mut s = String::from_str("stack overflow: SP=0x");
            let h = hex4(*sp);
            s.append(h.as_str());
            Err(s)
        }
    }

    /// Reads the byte at `sp` and increments `sp`; SP must lie in high memory.
    pub fn pop_stack(&mut self, sp: &mut u16) -> (r: Result<u8, String>)
        requires
            old(self).wf(),
        ensures
            final(self)@ == old(self)@,
            *old(sp) > 0xFFFE ==> r.is_err() && *final(sp) == *old(sp) && r->Err_0@
                == stack_range_message(*old(sp)),
            *old(sp) < 0xFF80 ==> r.is_err() && *final(sp) == *old(sp) && r->Err_0@
                == stack_range_message(*old(sp)),
            0xFF80 <= *old(sp) <= 0xFFFE ==> r == Ok::<u8, String>(old(self)@[hram_index(*old(sp))])
                && *final(sp) == *old(sp) + 1,
    {
        if *sp > 0xFFFE || *sp < 0xFF80 {
            let mut s = String::from_str("stack pointer out of range: 0x");
            let h = hex4(*sp);
            s.append(h.as_str());
            return Err(s);
        }
        let value = self.read(*sp);
        *sp = *sp + 1;
        Ok(value)
    }

    /// What games customarily keep in each part of high memory.
    pub fn get_location_name(addr: u16) -> (r: &'static str)
        ensures
            r == (if 0xFF80 <= addr <= 0xFF8F {
                "stack reserve"
            } else if 0xFF90 <= addr <= 0xFF9F {
                "temporaries"
            } else if 0xFFA0 <= addr <= 0xFFAF {
                "game data"
            } else if 0xFFB0 <= addr <= 0xFFCF {
                "system variables"
            } else if 0xFFD0 <= addr <= 0xFFFE {
                "stack"
            } else {
                "unknown"
            }),
    {
        if 0xFF80 <= addr && addr <= 0xFF8F {
            "stack reserve"
        } else if 0xFF90 <= addr && addr <= 0xFF9F {
            "temporaries"
        } else if 0xFFA0 <= addr && addr <= 0xFFAF {
            "game data"
        } else if 0xFFB0 <= addr && addr <= 0xFFCF {
            "system variables"
        } else if 0xFFD0 <= addr && addr <= 0xFFFE {
            "stack"
        } else {
            "unknown"
        }
    }
}

} // verus!
