use vstd::prelude::*;

verus! {

/// The flag byte for Z, N, H, C.
pub open spec fn flags_of(z: bool, n: bool, h: bool, c: bool) -> u8 {
    (if z { 0x80u8 } else { 0 }) | (if n { 0x40u8 } else { 0 }) | (if h { 0x20u8 } else { 0 }) | (if c { 0x10u8 } else { 0 })
}

/// The result of an 8-bit ALU operation on A: new A and new F.
/// `op` is bits 5-3 of the opcode: ADD, ADC, SUB, SBC, AND, XOR, OR, CP; `carry` is the prior C flag.
pub open spec fn alu_spec(op: u8, a: u8, x: u8, carry: bool) -> (u8, u8) {
    let cin: int = if carry && (op == 1 || op == 3) { 1 } else { 0 };
    if op == 0 || op == 1 {
        let sum = a + x + cin;
        let r = (sum % 256) as u8;
        (r, flags_of(r == 0, false, (a % 16) + (x % 16) + cin > 15, sum > 255))
    } else if op == 2 || op == 3 || op == 7 {
        let diff = a - x - cin;
        let r = ((diff + 256) % 256) as u8;
        let f = flags_of(r == 0, true, (a % 16) - (x % 16) - cin < 0, diff < 0);
        if op == 7 { (a, f) } else { (r, f) }
    } else if op == 4 {
        let r = a & x;
        (r, flags_of(r == 0, false, true, false))
    } else if op == 5 {
        let r = a ^ x;
        (r, flags_of(r == 0, false, false, false))
    } else {
        let r = a | x;
        (r, flags_of(r == 0, false, false, false))
    }
}

/// INC r8: Z, N = 0, H from the low nibble; C kept.
pub open spec fn inc_spec(v: u8, f: u8) -> (u8, u8) {
    let r = ((v + 1) % 256) as u8;
    (r, flags_of(r == 0, false, v % 16 == 15, f & 0x10 != 0))
}

/// DEC r8: Z, N = 1, H on a borrow from bit 4; C kept.
pub open spec fn dec_spec(v: u8, f: u8) -> (u8, u8) {
    let r = ((v + 255) % 256) as u8;
    (r, flags_of(r == 0, true, v % 16 == 0, f & 0x10 != 0))
}

/// The flag byte; its lower nibble is always clear.
pub fn make_flags(z: bool, n: bool, h: bool, c: bool) -> (r: u8)
    ensures
        r == flags_of(z, n, h, c),
        r & 0x0F == 0,
{
    let r = (if z { 0x80u8 } else { 0x00u8 }) | (if n { 0x40u8 } else { 0x00u8 }) | (if h { 0x20u8 } else { 0x00u8 }) | (
    if c { 0x10u8 } else { 0x00u8 });
    assert(forall|a: u8, b: u8, c2: u8, d: u8|
        (a == 0 || a == 0x80) && (b == 0 || b == 0x40) && (c2 == 0 || c2 == 0x20) && (d == 0 || d == 0x10) ==> #[trigger] (a
            | b | c2 | d) & 0x0F == 0) by (bit_vector);
    r
}

/// The flag byte has a clear lower nibble.
pub proof fn lemma_flags_low_nibble(z: bool, n: bool, h: bool, c: bool)
    ensures
        flags_of(z, n, h, c) & 0x0F == 0,
{
    let a: u8 = if z { 0x80u8 } else { 0 };
    let b: u8 = if n { 0x40u8 } else { 0 };
    let c2: u8 = if h { 0x20u8 } else { 0 };
    let d: u8 = if c { 0x10u8 } else { 0 };
    assert((a == 0 || a == 0x80) && (b == 0 || b == 0x40) && (c2 == 0 || c2 == 0x20) && (d == 0 || d == 0x10) ==> (a | b
        | c2 | d) & 0x0F == 0) by (bit_vector);
}

/// A rotate or shift leaves the lower nibble of the flags clear.
pub proof fn lemma_shift_low_nibble(op: u8, v: u8, carry: bool)
    ensures
        shift_spec(op, v, carry).1 & 0x0F == 0,
{
    assert forall|z: bool, n: bool, h: bool, c: bool| #[trigger] flags_of(z, n, h, c) & 0x0F == 0 by {
        lemma_flags_low_nibble(z, n, h, c);
    }
}

/// An 8-bit ALU operation on A.
pub fn alu(op: u8, a: u8, x: u8, carry: bool) -> (r: (u8, u8))
    requires
        op <= 7,
    ensures
        r == alu_spec(op, a, x, carry),
        r.1 & 0x0F == 0,
{
    let cin: u16 = if carry && (op == 1 || op == 3) { 1 } else { 0 };
    if op == 0 || op == 1 {
        let sum: u16 = a as u16 + x as u16 + cin;
        let r = (sum % 256) as u8;
        let h = (a % 16) as u16 + (x % 16) as u16 + cin > 15;
        (r, make_flags(r == 0, false, h, sum > 255))
    } else if op == 2 || op == 3 || op == 7 {
        let borrow = (x as u16 + cin) > a as u16;
        let r = ((a as u16 + 256 - x as u16 - cin) % 256) as u8;
        let h = ((x % 16) as u16 + cin) > (a % 16) as u16;
        let f = make_flags(r == 0, true, h, borrow);
        if op == 7 {
            (a, f)
        } else {
            (r, f)
        }
    } else if op == 4 {
        let r = a & x;
        (r, make_flags(r == 0, false, true, false))
    } else if op == 5 {
        let r = a ^ x;
        (r, make_flags(r == 0, false, false, false))
    } else {
        let r = a | x;
        (r, make_flags(r == 0, false, false, false))
    }
}

/// INC r8.
pub fn inc8(v: u8, f: u8) -> (r: (u8, u8))
    ensures
        r == inc_spec(v, f),
{
    let r = ((v as u16 + 1) % 256) as u8;
    (r, make_flags(r == 0, false, v % 16 == 15, f & 0x10 != 0))
}

/// DEC r8.
pub fn dec8(v: u8, f: u8) -> (r: (u8, u8))
    ensures
        r == dec_spec(v, f),
{
    let r = ((v as u16 + 255) % 256) as u8;
    (r, make_flags(r == 0, true, v % 16 == 0, f & 0x10 != 0))
}

/// The CB-prefixed rotate and shift family: RLC, RRC, RL, RR, SLA, SRA, SWAP, SRL (`op` = bits 5-3).
pub open spec fn shift_spec(op: u8, v: u8, carry: bool) -> (u8, u8) {
    let top = v >= 128;
    let low = v % 2 == 1;
    let (r, c): (int, bool) = if op == 0 {
        ((v * 2) % 256 + (if top { 1int } else { 0 }), top)
    } else if op == 1 {
        (v / 2 + (if low { 128int } else { 0 }), low)
    } else if op == 2 {
        ((v * 2) % 256 + (if carry { 1int } else { 0 }), top)
    } else if op == 3 {
        (v / 2 + (if carry { 128int } else { 0 }), low)
    } else if op == 4 {
        ((v * 2) % 256, top)
    } else if op == 5 {
        (v / 2 + (if top { 128int } else { 0 }), low)
    } else if op == 6 {
        ((v % 16) * 16 + v / 16, false)
    } else {
        ((v / 2) as int, low)
    };
    (r as u8, flags_of(r == 0, false, false, c))
}

/// One CB rotate or shift.
pub fn shift(op: u8, v: u8, carry: bool) -> (r: (u8, u8))
    requires
        op <= 7,
    ensures
        r == shift_spec(op, v, carry),
{
    let w = v as u16;
    let top = v >= 128;
    let low = v % 2 == 1;
    let (res, c): (u16, bool) = if op == 0 {
        ((w * 2) % 256 + (if top { 1u16 } else { 0 }), top)
    } else if op == 1 {
        (w / 2 + (if low { 128u16 } else { 0 }), low)
    } else if op == 2 {
        ((w * 2) % 256 + (if carry { 1u16 } else { 0 }), top)
    } else if op == 3 {
        (w / 2 + (if carry { 128u16 } else { 0 }), low)
    } else if op == 4 {
        ((w * 2) % 256, top)
    } else if op == 5 {
        (w / 2 + (if top { 128u16 } else { 0 }), low)
    } else if op == 6 {
        ((w % 16) * 16 + w / 16, false)
    } else {
        (w / 2, low)
    };
    (res as u8, make_flags(res == 0, false, false, c))
}

} // verus!
