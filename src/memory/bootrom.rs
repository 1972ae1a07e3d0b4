use vstd::prelude::*;
use vstd::string::StringExecFns;

use crate::text::{column_header, decimal, decimal_spec, hex2, hex2_spec, hex_cells};

verus! {

/// The message for a boot image of the wrong size.
pub open spec fn bad_size_message(len: nat) -> Seq<char> {
    "BootRom must be exactly 256 bytes, got "@ + decimal_spec(len) + " bytes"@
}

/// The 256-byte boot image, mapped at 0x0000-0x00FF until it is disabled.
pub struct BootRom {
    data: Vec<u8>,
    active: bool,
}

/// One row of the boot image dump.
pub open spec fn boot_dump_row(data: Seq<u8>, row: int) -> Seq<char> {
    "0x"@ + hex2_spec(row as u8) + "0   : "@ + hex_cells(data, row * 16, 16) + "\n"@
}

/// The first `n` rows of the boot image dump.
pub open spec fn boot_dump_rows(data: Seq<u8>, n: int) -> Seq<char>
    decreases n,
{
    if n <= 0 { Seq::empty() } else { boot_dump_rows(data, n - 1) + boot_dump_row(data, n - 1) }
}

impl BootRom {
    /// The image bytes.
    pub closed spec fn bytes(&self) -> Seq<u8> {
        self.data@
    }

    /// Whether the image is still mapped.
    pub closed spec fn active_spec(&self) -> bool {
        self.active
    }

    /// The image holds exactly 256 bytes.
    pub open spec fn wf(&self) -> bool {
        self.bytes().len() == 256
    }

    /// Takes a 256-byte image; any other size is rejected.
    pub fn new(data: Vec<u8>) -> (r: Result<Self, String>)
        ensures
            data@.len() == 256 <==> r.is_ok(),
            r matches Ok(b) ==> b.wf() && b.bytes() == data@ && b.active_spec(),
            r matches Err(e) ==> e@ == bad_size_message(data@.len()),
    {
        if data.len() != 256 {
            let mut s = String::from_str("BootRom must be exactly 256 bytes, got ");
            let n = decimal(data.len() as u64);
            s.append(n.as_str());
            s.append(" bytes");
            return Err(s);
        }
        Ok(BootRom { data, active: true })
    }

    /// An all-zero image whose last bytes jump to 0x0100.
    pub fn new_dummy() -> (r: Self)
        ensures
            r.wf(),
            r.active_spec(),
            forall|i: int|
                0 <= i < 256 ==> #[trigger] r.bytes()[i] == (if i == 0xFC {
                    0xC3u8
                } else if i == 0xFE {
                    0x01u8
                } else {
                    0u8
                }),
    {
        let mut data: Vec<u8> = vec![0u8; 256];
        data.set(0xFC, 0xC3);
        data.set(0xFD, 0x00);
        data.set(0xFE, 0x01);
        BootRom { data, active: true }
    }

    /// The image byte while mapped and in range, else 0xFF.
    pub fn read(&self, addr: u16) -> (r: u8)
        requires
            self.wf(),
        ensures
            r == (if self.active_spec() && addr <= 0xFF {
                self.bytes()[addr as int]
            } else {
                0xFFu8
            }),
    {
        if !self.active {
            return 0xFF;
        }
        if addr > 0xFF {
            return 0xFF;
        }
        self.data[addr as usize]
    }

    pub fn is_active(&self) -> (r: bool)
        ensures
            r == self.active_spec(),
    {
        self.active
    }

    /// A hexadecimal listing of the image, sixteen bytes a row.
    pub fn dump(&self) -> (r: String)
        requires
            self.wf(),
        ensures
            r@ == "BootRom Dump:\n"@ + "Active: "@ + (if self.active_spec() { "true"@ } else { "false"@ }) + "\n"@
                + "Address  : "@ + column_header() + boot_dump_rows(self.bytes(), 16),
    {
        let mut s = String::from_str("BootRom Dump:\n");
        s.append("Active: ");
        if self.active {
            s.append("true");
        } else {
            s.append("false");
        }
        s.append("\n");
        s.append("Address  : ");
        s.append("00 01 02 03 04 05 06 07 08 09 0A 0B 0C 0D 0E 0F\n");
        let ghost prefix = s@;
        let mut row: usize = 0;
        while row < 16
            invariant
                row <= 16,
                self.wf(),
                s@ == prefix + boot_dump_rows(self.bytes(), row as int),
            decreases 16 - row,
        {
            let ghost before = s@;
            s.append("0x");
            let h = hex2(row as u8);
            s.append(h.as_str());
            s.append("0   : ");
            let ghost mid = s@;
            let mut col: usize = 0;
            while col < 16
                invariant
                    col <= 16,
                    row < 16,
                    self.wf(),
                    s@ == mid + hex_cells(self.bytes(), row * 16, col as int),
                decreases 16 - col,
            {
                let h = hex2(self.data[row * 16 + col]);
                s.append(h.as_str());
                proof {
                    reveal_strlit(" ");
                }
                s.append(" ");
                col = col + 1;
                assert(s@ =~= mid + hex_cells(self.bytes(), row * 16, col as int));
            }
            s.append("\n");
            proof {
                assert(s@ =~= before + boot_dump_row(self.bytes(), row as int));
            }
            row = row + 1;
            assert(s@ =~= prefix + boot_dump_rows(self.bytes(), row as int));
        }
        s
    }

    /// A non-zero write unmaps the image for good.
    pub fn write_disable_register(&mut self, value: u8)
        ensures
            final(self).bytes() == old(self).bytes(),
            final(self).active_spec() == (old(self).active_spec() && value == 0),
    {
        if value != 0 {
            self.active = false;
        }
    }
}

} // verus!
