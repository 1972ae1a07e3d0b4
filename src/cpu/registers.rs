use vstd::prelude::*;
use vstd::string::StringExecFns;

use super::flags;

verus! {

/// The 16-bit value made of a high and a low byte.
pub open spec fn pair_value(hi: u8, lo: u8) -> u16 {
    (hi as u16) << 8 | lo as u16
}

/// A flag register value with bit `mask` forced to `on`.
pub open spec fn with_flag(f: u8, mask: u8, on: bool) -> u8 {
    if on { f | mask } else { f & !mask }
}

/// The register file of the LR35902: eight 8-bit registers, SP and PC.
#[derive(Debug, Clone, Copy, PartialEq, Eq, Structural)]
pub struct Registers {
    pub a: u8,
    /// Flag register: Z, N, H, C in the upper nibble.
    pub f: u8,
    pub b: u8,
    pub c: u8,
    pub d: u8,
    pub e: u8,
    pub h: u8,
    pub l: u8,
    pub sp: u16,
    pub pc: u16,
}

impl Registers {
    /// Every register zero.
    pub open spec fn zeroed() -> Registers {
        Registers { a: 0, f: 0, b: 0, c: 0, d: 0, e: 0, h: 0, l: 0, sp: 0, pc: 0 }
    }

    /// The lower nibble of F is clear.
    pub open spec fn flags_well_formed(&self) -> bool {
        self.f & 0x0F == 0
    }

    pub fn new() -> (r: Self)
        ensures
            r == Self::zeroed(),
    {
        Registers { a: 0, f: 0, b: 0, c: 0, d: 0, e: 0, h: 0, l: 0, sp: 0, pc: 0 }
    }

    pub fn reset(&mut self)
        ensures
            *final(self) == Self::zeroed(),
    {
        *self = Self::new();
    }

    pub fn af(&self) -> (r: u16)
        ensures
            r == pair_value(self.a, self.f),
    {
        ((self.a as u16) << 8) | (self.f as u16)
    }

    /// The registers after AF is set to `value`.
    pub open spec fn with_af(self, value: u16) -> Registers {
        Registers { a: (value >> 8) as u8, f: (value & 0xF0) as u8, ..self }
    }

    /// Sets AF; the lower nibble of F is dropped.
    pub fn set_af(&mut self, value: u16)
        ensures
            *final(self) == old(self).with_af(value),
            final(self).f & 0x0F == 0,
    {
        self.a = (value >> 8) as u8;
        self.f = (value & 0xF0) as u8;
        assert((value & 0xF0) as u8 & 0x0F == 0) by (bit_vector);
    }

    pub fn bc(&self) -> (r: u16)
        ensures
            r == pair_value(self.b, self.c),
    {
        ((self.b as u16) << 8) | (self.c as u16)
    }

    pub fn set_bc(&mut self, value: u16)
        ensures
            *final(self) == (Registers { b: (value >> 8) as u8, c: value as u8, ..*old(self) }),
            pair_value(final(self).b, final(self).c) == value,
    {
        self.b = (value >> 8) as u8;
        self.c = value as u8;
        assert(((value >> 8) as u8 as u16) << 8 | (value as u8 as u16) == value) by (bit_vector);
    }

    pub fn de(&self) -> (r: u16)
        ensures
            r == pair_value(self.d, self.e),
    {
        ((self.d as u16) << 8) | (self.e as u16)
    }

    pub fn set_de(&mut self, value: u16)
        ensures
            *final(self) == (Registers { d: (value >> 8) as u8, e: value as u8, ..*old(self) }),
            pair_value(final(self).d, final(self).e) == value,
    {
        self.d = (value >> 8) as u8;
        self.e = value as u8;
        assert(((value >> 8) as u8 as u16) << 8 | (value as u8 as u16) == value) by (bit_vector);
    }

    pub fn hl(&self) -> (r: u16)
        ensures
            r == pair_value(self.h, self.l),
    {
        ((self.h as u16) << 8) | (self.l as u16)
    }

    pub fn set_hl(&mut self, value: u16)
        ensures
            *final(self) == (Registers { h: (value >> 8) as u8, l: value as u8, ..*old(self) }),
            pair_value(final(self).h, final(self).l) == value,
    {
        self.h = (value >> 8) as u8;
        self.l = value as u8;
        assert(((value >> 8) as u8 as u16) << 8 | (value as u8 as u16) == value) by (bit_vector);
    }

    pub fn get_af(&self) -> (r: u16)
        ensures
            r == pair_value(self.a, self.f),
    {
        self.af()
    }

    pub fn get_bc(&self) -> (r: u16)
        ensures
            r == pair_value(self.b, self.c),
    {
        self.bc()
    }

    pub fn get_de(&self) -> (r: u16)
        ensures
            r == pair_value(self.d, self.e),
    {
        self.de()
    }

    pub fn get_hl(&self) -> (r: u16)
        ensures
            r == pair_value(self.h, self.l),
    {
        self.hl()
    }

    pub fn get_flag_z(&self) -> (r: bool)
        ensures
            r == (self.f & flags::ZERO != 0),
    {
        self.zero_flag()
    }

    pub fn get_flag_c(&self) -> (r: bool)
        ensures
            r == (self.f & flags::CARRY != 0),
    {
        self.carry_flag()
    }

    pub fn zero_flag(&self) -> (r: bool)
        ensures
            r == (self.f & flags::ZERO != 0),
    {
        (self.f & flags::ZERO) != 0
    }

    pub fn set_zero_flag(&mut self, value: bool)
        ensures
            *final(self) == (Registers { f: with_flag(old(self).f, flags::ZERO, value), ..*old(self) }),
    {
        if value {
            self.f = self.f | flags::ZERO;
        } else {
            self.f = self.f & !flags::ZERO;
        }
    }

    pub fn subtract_flag(&self) -> (r: bool)
        ensures
            r == (self.f & flags::SUBTRACT != 0),
    {
        (self.f & flags::SUBTRACT) != 0
    }

    pub fn set_subtract_flag(&mut self, value: bool)
        ensures
            *final(self) == (Registers { f: with_flag(old(self).f, flags::SUBTRACT, value), ..*old(self) }),
    {
        if value {
            self.f = self.f | flags::SUBTRACT;
        } else {
            self.f = self.f & !flags::SUBTRACT;
        }
    }

    pub fn half_carry_flag(&self) -> (r: bool)
        ensures
            r == (self.f & flags::HALF_CARRY != 0),
    {
        (self.f & flags::HALF_CARRY) != 0
    }

    pub fn set_half_carry_flag(&mut self, value: bool)
        ensures
            *final(self) == (Registers { f: with_flag(old(self).f, flags::HALF_CARRY, value), ..*old(self) }),
    {
        if value {
            self.f = self.f | flags::HALF_CARRY;
        } else {
            self.f = self.f & !flags::HALF_CARRY;
        }
    }

    pub fn carry_flag(&self) -> (r: bool)
        ensures
            r == (self.f & flags::CARRY != 0),
    {
        (self.f & flags::CARRY) != 0
    }

    pub fn set_carry_flag(&mut self, value: bool)
        ensures
            *final(self) == (Registers { f: with_flag(old(self).f, flags::CARRY, value), ..*old(self) }),
    {
        if value {
            self.f = self.f | flags::CARRY;
        } else {
            self.f = self.f & !flags::CARRY;
        }
    }

    /// Sets all four flags at once.
    pub fn set_flags(&mut self, zero: bool, subtract: bool, half_carry: bool, carry: bool)
        ensures
            *final(self) == (Registers {
                f: with_flag(
                    with_flag(
                        with_flag(with_flag(old(self).f, flags::ZERO, zero), flags::SUBTRACT, subtract),
                        flags::HALF_CARRY,
                        half_carry,
                    ),
                    flags::CARRY,
                    carry,
                ),
                ..*old(self)
            }),
    {
        self.set_zero_flag(zero);
        self.set_subtract_flag(subtract);
        self.set_half_carry_flag(half_carry);
        self.set_carry_flag(carry);
    }

    /// The four flags as letters, `-` for a clear flag: "ZNHC" order.
    pub fn flags_string(&self) -> (r: String)
        ensures
            r@ == flag_letter(self.f & flags::ZERO != 0, 'Z')
                + flag_letter(self.f & flags::SUBTRACT != 0, 'N')
                + flag_letter(self.f & flags::HALF_CARRY != 0, 'H')
                + flag_letter(self.f & flags::CARRY != 0, 'C'),
    {
        let mut s = String::new();
        proof {
            reveal_strlit("Z");
            reveal_strlit("N");
            reveal_strlit("H");
            reveal_strlit("C");
            reveal_strlit("-");
        }
        if self.zero_flag() {
            s.append("Z");
        } else {
            s.append("-");
        }
        if self.subtract_flag() {
            s.append("N");
        } else {
            s.append("-");
        }
        if self.half_carry_flag() {
            s.append("H");
        } else {
            s.append("-");
        }
        if self.carry_flag() {
            s.append("C");
        } else {
            s.append("-");
        }
        s
    }
}

/// Whatever is written to F, F then reads as its upper nibble.
pub proof fn lemma_f_reads_back_masked(r: Registers, a: u8, v: u8)
    ensures
        r.with_af(pair_value(a, v)).f == v & 0xF0,
        r.with_af(pair_value(a, v)).a == a,
{
    assert((((a as u16) << 8 | v as u16) & 0xF0) as u8 == v & 0xF0 && (((a as u16) << 8 | v as u16) >> 8) as u8 == a)
        by (bit_vector);
}

/// The two bytes of a pair come back out of it.
pub proof fn lemma_pair_bytes(hi: u8, lo: u8)
    ensures
        (pair_value(hi, lo) >> 8) as u8 == hi,
        pair_value(hi, lo) as u8 == lo,
{
    assert((((hi as u16) << 8 | lo as u16) >> 8) as u8 == hi && ((hi as u16) << 8 | lo as u16) as u8 == lo) by (bit_vector);
}

/// One letter for a flag: its name when set, `-` when clear.
pub open spec fn flag_letter(set: bool, name: char) -> Seq<char> {
    if set { seq![name] } else { seq!['-'] }
}

impl Default for Registers {
    fn default() -> (r: Self)
        ensures
            r == Registers::zeroed(),
    {
        Self::new()
    }
}

} // verus!
