use vstd::prelude::*;
use vstd::string::StringExecFns;

use crate::text::{ascii_char, hex2, hex2_spec, hex4, hex4_spec, push_char};

verus! {

/// Whether a dump of `start..=end` shows the work-memory byte at `cur`.
pub open spec fn wram_shown(start: u16, end: u16, cur: int) -> bool {
    0xC000 <= cur <= 0xDFFF && cur <= end
}

/// Hex cells of a work-memory dump row from `addr`.
pub open spec fn wram_hex_cells(data: Seq<u8>, start: u16, end: u16, addr: int, n: int) -> Seq<char>
    decreases n,
{
    if n <= 0 {
        Seq::empty()
    } else {
        let cur = addr + n - 1;
        wram_hex_cells(data, start, end, addr, n - 1) + if wram_shown(start, end, cur) && cur >= start {
            hex2_spec(data[cur - 0xC000]) + " "@
        } else {
            "   "@
        }
    }
}

/// Text cells of a work-memory dump row from `addr`.
pub open spec fn wram_text_cells(data: Seq<u8>, start: u16, end: u16, addr: int, n: int) -> Seq<char>
    decreases n,
{
    if n <= 0 {
        Seq::empty()
    } else {
        let cur = addr + n - 1;
        wram_text_cells(data, start, end, addr, n - 1).push(
            if wram_shown(start, end, cur) && cur >= start { ascii_char(data[cur - 0xC000]) } else { ' ' },
        )
    }
}

/// The rows of a work-memory dump from row address `addr` to `end`.
pub open spec fn wram_dump_rows(data: Seq<u8>, start: u16, end: u16, addr: int) -> Seq<char>
    decreases end + 16 - addr,
{
    if addr > end || addr < 0 {
        Seq::empty()
    } else {
        "0x"@ + hex4_spec(addr as u16) + ": "@ + wram_hex_cells(data, start, end, addr, 16) + " | "@ + wram_text_cells(
            data,
            start,
            end,
            addr,
            16,
        ) + "\n"@ + wram_dump_rows(data, start, end, addr + 16)
    }
}

/// How many of the first `n` bytes are non-zero.
pub open spec fn nonzero_count(s: Seq<u8>, n: int) -> nat
    decreases n,
{
    if n <= 0 { 0 } else { nonzero_count(s, n - 1) + if s[n - 1] != 0 { 1nat } else { 0 } }
}

/// How many bytes of a sequence are non-zero.
pub fn count_nonzero(v: &Vec<u8>) -> (r: usize)
    ensures
        r == nonzero_count(v@, v@.len() as int),
{
    let mut n: usize = 0;
    let mut i: usize = 0;
    while i < v.len()
        invariant
            i <= v@.len(),
            n == nonzero_count(v@, i as int),
            n <= i,
        decreases v.len() - i,
    {
        if v[i] != 0 {
            n = n + 1;
        }
        i = i + 1;
    }
    n
}

/// 8 KiB of work memory at 0xC000-0xDFFF.
pub struct WorkRam {
    data: Vec<u8>,
}

impl View for WorkRam {
    type V = Seq<u8>;

    closed spec fn view(&self) -> Seq<u8> {
        self.data@
    }
}

/// The offset of a work-memory address.
pub open spec fn wram_index(addr: u16) -> int {
    addr - 0xC000
}

impl WorkRam {
    pub open spec fn wf(&self) -> bool {
        self@.len() == 0x2000
    }

    pub fn new() -> (r: Self)
        ensures
            r.wf(),
            forall|i: int| 0 <= i < 0x2000 ==> #[trigger] r@[i] == 0,
    {
        WorkRam { data: vec![0u8; 0x2000] }
    }

    pub fn read(&self, addr: u16) -> (r: u8)
        requires
            self.wf(),
            0xC000 <= addr <= 0xDFFF,
        ensures
            r == self@[wram_index(addr)],
    {
        let index = self.addr_to_index(addr);
        self.data[index]
    }

    pub fn write(&mut self, addr: u16, value: u8)
        requires
            old(self).wf(),
            0xC000 <= addr <= 0xDFFF,
        ensures
            final(self)@ == old(self)@.update(wram_index(addr), value),
    {
        let index = self.addr_to_index(addr);
        self.data.set(index, value);
    }

    /// The offset of an address inside work memory.
    pub fn addr_to_index(&self, addr: u16) -> (r: usize)
        requires
            0xC000 <= addr <= 0xDFFF,
        ensures
            r == wram_index(addr),
    {
        (addr - 0xC000) as usize
    }

    /// Zeroes the work-memory bytes whose addresses lie in `start..=end`.
    pub fn clear_range(&mut self, start_addr: u16, end_addr: u16)
        requires
            old(self).wf(),
        ensures
            final(self).wf(),
            forall|i: int|
                0 <= i < 0x2000 ==> #[trigger] final(self)@[i] == (if start_addr <= 0xC000 + i
                    <= end_addr {
                    0u8
                } else {
                    old(self)@[i]
                }),
    {
        let mut i: usize = 0;
        while i < 0x2000
            invariant
                0 <= i <= 0x2000,
                self.wf(),
                forall|j: int|
                    0 <= j < 0x2000 ==> #[trigger] self@[j] == (if j < i && start_addr <= 0xC000 + j
                        <= end_addr {
                        0u8
                    } else {
                        old(self)@[j]
                    }),
            decreases 0x2000 - i,
        {
            let addr: u16 = (0xC000 + i) as u16;
            if start_addr <= addr && addr <= end_addr {
                self.data.set(i, 0);
            }
            i = i + 1;
        }
    }

    /// A listing of the work memory in `start..=end`: rows of sixteen from `start` rounded down,
    /// in hexadecimal and as text; addresses outside the range or outside work memory show blank.
    pub fn dump_range(&self, start_addr: u16, end_addr: u16) -> (r: String)
        requires
            self.wf(),
            end_addr < 0xFFF0,
        ensures
            r@ == "=== WRAM Dump 0x"@ + hex4_spec(start_addr) + "-0x"@ + hex4_spec(end_addr) + " ===\n"@ + wram_dump_rows(
                self@,
                start_addr,
                end_addr,
                (start_addr - start_addr % 16) as int,
            ),
    {
        let mut s = String::from_str("=== WRAM Dump 0x");
        let h = hex4(start_addr);
        s.append(h.as_str());
        s.append("-0x");
        let h = hex4(end_addr);
        s.append(h.as_str());
        s.append(" ===\n");
        let ghost prefix = s@;
        let mut addr: u16 = start_addr - start_addr % 16;
        let ghost first = addr as int;
        while addr <= end_addr
            invariant
                self.wf(),
                end_addr < 0xFFF0,
                addr as int == first || addr <= end_addr + 16,
                s@ + wram_dump_rows(self@, start_addr, end_addr, addr as int) == prefix + wram_dump_rows(
                    self@,
                    start_addr,
                    end_addr,
                    first,
                ),
            decreases end_addr + 16 - addr,
        {
            let ghost before = s@;
            s.append("0x");
            let h = hex4(addr);
            s.append(h.as_str());
            s.append(": ");
            let ghost mid = s@;
            let mut i: u16 = 0;
            while i < 16
                invariant
                    i <= 16,
                    addr <= end_addr,
                    end_addr < 0xFFF0,
                    self.wf(),
                    s@ == mid + wram_hex_cells(self@, start_addr, end_addr, addr as int, i as int),
                decreases 16 - i,
            {
                let cur = addr + i;
                if 0xC000 <= cur && cur <= 0xDFFF && cur <= end_addr && cur >= start_addr {
                    let h = hex2(self.read(cur));
                    s.append(h.as_str());
                    s.append(" ");
                } else {
                    s.append("   ");
                }
                i = i + 1;
                assert(s@ =~= mid + wram_hex_cells(self@, start_addr, end_addr, addr as int, i as int));
            }
            s.append(" | ");
            let ghost mid2 = s@;
            let mut i: u16 = 0;
            while i < 16
                invariant
                    i <= 16,
                    addr <= end_addr,
                    end_addr < 0xFFF0,
                    self.wf(),
                    s@ == mid2 + wram_text_cells(self@, start_addr, end_addr, addr as int, i as int),
                decreases 16 - i,
            {
                let cur = addr + i;
                if 0xC000 <= cur && cur <= 0xDFFF && cur <= end_addr && cur >= start_addr {
                    let v = self.read(cur);
                    if 32 <= v && v <= 126 {
                        push_char(&mut s, v as char);
                    } else {
                        push_char(&mut s, '.');
                    }
                } else {
                    push_char(&mut s, ' ');
                }
                i = i + 1;
                assert(s@ =~= mid2 + wram_text_cells(self@, start_addr, end_addr, addr as int, i as int));
            }
            s.append("\n");
            proof {
                let row = "0x"@ + hex4_spec(addr) + ": "@ + wram_hex_cells(self@, start_addr, end_addr, addr as int, 16) + " | "@
                    + wram_text_cells(self@, start_addr, end_addr, addr as int, 16) + "\n"@;
                assert(s@ =~= before + row);
                assert(wram_dump_rows(self@, start_addr, end_addr, addr as int) == row + wram_dump_rows(
                    self@,
                    start_addr,
                    end_addr,
                    addr + 16,
                ));
                assert((before + row) + wram_dump_rows(self@, start_addr, end_addr, addr + 16) =~= before + (row
                    + wram_dump_rows(self@, start_addr, end_addr, addr + 16)));
            }
            addr = addr + 16;
        }
        assert(s@ =~= s@ + wram_dump_rows(self@, start_addr, end_addr, addr as int));
        s
    }

    /// The number of non-zero bytes.
    pub fn used_bytes(&self) -> (r: usize)
        ensures
            r == nonzero_count(self@, self@.len() as int),
    {
        count_nonzero(&self.data)
    }

    pub fn clear_all(&mut self)
        requires
            old(self).wf(),
        ensures
            final(self).wf(),
            forall|i: int| 0 <= i < 0x2000 ==> #[trigger] final(self)@[i] == 0,
    {
        self.clear_range(0xC000, 0xDFFF);
    }
}

} // verus!
