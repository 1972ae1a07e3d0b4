use vstd::prelude::*;
use vstd::string::StringExecFns;

pub mod alu;
pub mod decoder;
pub mod flags;
pub mod instructions;
pub mod interrupts;
pub mod registers;
pub mod timer;

pub use registers::Registers;

use crate::peripherals::{cell, lemma_write_frame, Peripherals};
use crate::text::{hex2, hex2_spec, hex4, hex4_spec, zero_padded, zero_padded_spec};
use alu::{alu, alu_spec, dec8, inc8, make_flags, shift};
use timer::inc16;
use interrupts::{get_pending_interrupt, highest_priority, mask_of, pending_bits, vector_of, Interrupt};
use registers::pair_value;

verus! {

/// Whether the primary table defines an opcode.
pub open spec fn is_defined(op: u8) -> bool {
    !(op == 0xD3 || op == 0xDB || op == 0xDD || op == 0xE3 || op == 0xE4 || op == 0xEB || op == 0xEC || op == 0xED
        || op == 0xF4 || op == 0xFC || op == 0xFD)
}

/// Whether condition `cc` (0 NZ, 1 Z, 2 NC, 3 C) holds for a flag byte.
pub open spec fn condition_holds(f: u8, cc: u8) -> bool {
    if cc == 0 {
        f & 0x80 == 0
    } else if cc == 1 {
        f & 0x80 != 0
    } else if cc == 2 {
        f & 0x10 == 0
    } else {
        f & 0x10 != 0
    }
}

/// Whether an opcode is a conditional jump, call or return.
pub open spec fn is_conditional(op: u8) -> bool {
    op == 0x20 || op == 0x28 || op == 0x30 || op == 0x38 || op == 0xC0 || op == 0xC8 || op == 0xD0 || op == 0xD8
        || op == 0xC2 || op == 0xCA || op == 0xD2 || op == 0xDA || op == 0xC4 || op == 0xCC || op == 0xD4 || op == 0xDC
}

/// The cycles of a conditional instruction, taken or not.
pub open spec fn conditional_cycles(op: u8, taken: bool) -> u8 {
    if op == 0x20 || op == 0x28 || op == 0x30 || op == 0x38 {
        if taken { 12 } else { 8 }
    } else if op == 0xC2 || op == 0xCA || op == 0xD2 || op == 0xDA {
        if taken { 16 } else { 12 }
    } else if op == 0xC4 || op == 0xCC || op == 0xD4 || op == 0xDC {
        if taken { 24 } else { 12 }
    } else {
        if taken { 20 } else { 8 }
    }
}

/// The cycles of an unconditional primary opcode (CB-prefixed ones excepted).
pub open spec fn fixed_cycles(op: u8) -> u8 {
    if 0x40 <= op <= 0x7F {
        if op == 0x76 { 4 } else if op % 8 == 6 || (op / 8) % 8 == 6 { 8 } else { 4 }
    } else if 0x80 <= op <= 0xBF {
        if op % 8 == 6 { 8 } else { 4 }
    } else if op < 0x40 {
        if op == 0x34 || op == 0x35 || op == 0x36 || op == 0x18 {
            12
        } else if op % 16 == 1 {
            12
        } else if op == 0x08 {
            20
        } else if op % 8 == 4 || op % 8 == 5 {
            4
        } else if op % 8 == 6 || op % 16 == 2 || op % 16 == 0x0A || op % 16 == 3 || op % 16 == 0x0B || op % 16 == 9 {
            8
        } else {
            4
        }
    } else if op == 0xC3 || op % 16 == 5 || op % 8 == 7 || op == 0xC9 || op == 0xD9 || op == 0xE8 || op == 0xEA || op
        == 0xFA {
        16
    } else if op == 0xCD {
        24
    } else if op % 16 == 1 || op == 0xE0 || op == 0xF0 || op == 0xF8 {
        12
    } else if op % 8 == 6 || op == 0xE2 || op == 0xF2 || op == 0xF9 {
        8
    } else {
        4
    }
}

/// The cycles of a CB-prefixed operation: 16 on (HL), 8 on a register.
pub open spec fn cb_cycles(cb: u8) -> u8 {
    if cb % 8 == 6 { 16 } else { 8 }
}

/// A 16-bit value less `k`, wrapping.
pub open spec fn sub16(v: u16, k: int) -> u16 {
    ((v - k + 0x10000) % 0x10000) as u16
}

/// The LR35902 core: registers, interrupt master enable with its one-instruction delay, and HALT.
pub struct Cpu {
    pub registers: Registers,
    pub ime: bool,
    /// EI was executed: IME turns on after the next instruction.
    pub ime_scheduled: bool,
    pub halted: bool,
    pub instruction_count: u64,
}

/// The 8-bit register or memory operand selected by a 3-bit code (6 is (HL)).
pub open spec fn operand_value(regs: Registers, bus: Peripherals, idx: u8) -> u8 {
    if idx == 0 {
        regs.b
    } else if idx == 1 {
        regs.c
    } else if idx == 2 {
        regs.d
    } else if idx == 3 {
        regs.e
    } else if idx == 4 {
        regs.h
    } else if idx == 5 {
        regs.l
    } else if idx == 6 {
        bus.read_spec(pair_value(regs.h, regs.l))
    } else {
        regs.a
    }
}

/// The register file with the register of code `idx` (not 6) set.
pub open spec fn with_register(regs: Registers, idx: u8, v: u8) -> Registers {
    if idx == 0 {
        Registers { b: v, ..regs }
    } else if idx == 1 {
        Registers { c: v, ..regs }
    } else if idx == 2 {
        Registers { d: v, ..regs }
    } else if idx == 3 {
        Registers { e: v, ..regs }
    } else if idx == 4 {
        Registers { h: v, ..regs }
    } else if idx == 5 {
        Registers { l: v, ..regs }
    } else {
        Registers { a: v, ..regs }
    }
}


/// The register file after an instruction whose effect on registers depends on registers and
/// memory alone, read before the instruction runs; `r.pc` is the address of the opcode.
/// Covers NOP, LD r,n, LD r,r', the ALU block and its immediate forms, INC/DEC r, JP nn, JR,
/// JR cc, CALL nn, RET, DI and EI (memory destinations excepted); None for the others.
pub open spec fn instruction_effect(r: Registers, bus: Peripherals, op: u8) -> Option<Registers> {
    let after_op = inc16(r.pc);
    let after_byte = inc16(after_op);
    let n = bus.read_spec(after_op);
    let nn = pair_value(bus.read_spec(after_byte), n);
    let next = Registers { pc: after_op, ..r };
    if op == 0x00 || op == 0xF3 || op == 0xFB {
        Some(next)
    } else if op < 0x40 && op % 8 == 6 && (op / 8) % 8 != 6 {
        Some(with_register(Registers { pc: after_byte, ..r }, (op / 8) % 8, n))
    } else if op < 0x40 && (op % 8 == 4 || op % 8 == 5) && (op / 8) % 8 != 6 {
        let v = operand_value(r, bus, (op / 8) % 8);
        let (x, f) = if op % 8 == 4 { alu::inc_spec(v, r.f) } else { alu::dec_spec(v, r.f) };
        Some(Registers { f: f, ..with_register(next, (op / 8) % 8, x) })
    } else if 0x40 <= op <= 0x7F && op != 0x76 && (op / 8) % 8 != 6 {
        Some(with_register(next, (op / 8) % 8, operand_value(r, bus, op % 8)))
    } else if 0x80 <= op <= 0xBF {
        let (a, f) = alu_spec((op / 8) % 8, r.a, operand_value(r, bus, op % 8), r.f & 0x10 != 0);
        Some(Registers { a: a, f: f, ..next })
    } else if op >= 0xC0 && op % 8 == 6 {
        let (a, f) = alu_spec((op / 8) % 8, r.a, n, r.f & 0x10 != 0);
        Some(Registers { a: a, f: f, pc: after_byte, ..r })
    } else if op == 0xC3 {
        Some(Registers { pc: nn, ..r })
    } else if op == 0x18 {
        Some(Registers { pc: relative_target(after_byte, n), ..r })
    } else if op == 0x20 || op == 0x28 || op == 0x30 || op == 0x38 {
        Some(Registers {
            pc: if condition_holds(r.f, (op >> 3) & 0x03) { relative_target(after_byte, n) } else { after_byte },
            ..r
        })
    } else if op == 0xCD {
        Some(Registers { pc: nn, sp: sub16(r.sp, 2), ..r })
    } else if op == 0xC9 || op == 0xD9 || ((op == 0xC0 || op == 0xC8 || op == 0xD0 || op == 0xD8) && condition_holds(
        r.f,
        (op >> 3) & 0x03,
    )) {
        Some(Registers { pc: pair_value(bus.read_spec(inc16(r.sp)), bus.read_spec(r.sp)), sp: inc16(inc16(r.sp)), ..r })
    } else if op == 0xC0 || op == 0xC8 || op == 0xD0 || op == 0xD8 {
        Some(next)
    } else if op == 0xC1 || op == 0xD1 || op == 0xE1 || op == 0xF1 {
        let hi = bus.read_spec(inc16(r.sp));
        let lo = bus.read_spec(r.sp);
        let popped = Registers { pc: after_op, sp: inc16(inc16(r.sp)), ..r };
        Some(
            if op == 0xC1 {
                Registers { b: hi, c: lo, ..popped }
            } else if op == 0xD1 {
                Registers { d: hi, e: lo, ..popped }
            } else if op == 0xE1 {
                Registers { h: hi, l: lo, ..popped }
            } else {
                popped.with_af(pair_value(hi, lo))
            },
        )
    } else {
        None
    }
}


/// Whether an opcode may store to memory (all CB-prefixed ones are counted).
pub open spec fn may_write(op: u8) -> bool {
    op == 0x02 || op == 0x12 || op == 0x22 || op == 0x32 || op == 0x08 || op == 0x34 || op == 0x35 || op == 0x36 || (0x70
        <= op <= 0x77 && op != 0x76) || op == 0xC4 || op == 0xCC || op == 0xD4 || op == 0xDC || op == 0xCD || op == 0xC5
        || op == 0xD5 || op == 0xE5 || op == 0xF5 || (op >= 0xC0 && op % 8 == 7) || op == 0xCB || op == 0xE0 || op == 0xE2
        || op == 0xEA
}

/// The word an instruction pushes onto the stack, if it pushes one: the register pair of PUSH,
/// or the return address of a (taken) CALL or of RST. `r.pc` is the address of the opcode.
pub open spec fn pushed_word(r: Registers, op: u8) -> Option<u16> {
    if op == 0xC5 {
        Some(pair_value(r.b, r.c))
    } else if op == 0xD5 {
        Some(pair_value(r.d, r.e))
    } else if op == 0xE5 {
        Some(pair_value(r.h, r.l))
    } else if op == 0xF5 {
        Some(pair_value(r.a, r.f))
    } else if op == 0xCD || ((op == 0xC4 || op == 0xCC || op == 0xD4 || op == 0xDC) && condition_holds(r.f, (op >> 3) & 0x03)) {
        Some(inc16(inc16(inc16(r.pc))))
    } else if op >= 0xC0 && op % 8 == 7 {
        Some(inc16(r.pc))
    } else {
        None
    }
}

/// The pushed word, if any, lies below `sp` (high byte first) when the stack is in RAM.
pub open spec fn stack_holds(bus: Peripherals, sp: u16, pushed: Option<u16>) -> bool {
    match pushed {
        Some(w) => stack_in_ram(sp) ==> bus.read_spec(sub16(sp, 1)) == (w >> 8) as u8 && bus.read_spec(sub16(sp, 2))
            == w as u8,
        None => true,
    }
}

/// Nothing but the two cells below `sp` reads differently.
pub open spec fn stack_frame(before: Peripherals, after: Peripherals, sp: u16) -> bool {
    forall|a: u16| cell(a) != sub16(sp, 1) && cell(a) != sub16(sp, 2) ==> #[trigger] after.read_spec(a) == before.read_spec(a)
}

/// Nothing but IF and the two cells below `sp` reads differently.
pub open spec fn dispatch_frame(before: Peripherals, after: Peripherals, sp: u16) -> bool {
    forall|a: u16|
        a != 0xFF0F && cell(a) != sub16(sp, 1) && cell(a) != sub16(sp, 2) ==> #[trigger] after.read_spec(a)
            == before.read_spec(a)
}

/// Whether an opcode's only store to memory is a push (PUSH, CALL, conditional CALL, RST).
pub open spec fn only_pushes(op: u8) -> bool {
    op == 0xC4 || op == 0xCC || op == 0xD4 || op == 0xDC || op == 0xCD || op == 0xC5 || op == 0xD5 || op == 0xE5 || op
        == 0xF5 || (op >= 0xC0 && op % 8 == 7)
}

/// For an opcode that only pushes: with a push and the stack in RAM, only the two stack cells
/// change; without a push (a call not taken), memory is unchanged.
pub open spec fn push_frame(before: Peripherals, after: Peripherals, sp: u16, pushed: Option<u16>) -> bool {
    match pushed {
        Some(_) => stack_in_ram(sp) ==> stack_frame(before, after, sp),
        None => after.same_except_counts(&before),
    }
}

/// IME and the pending enable after an instruction completes: DI clears both at once; an
/// enable pending from the previous instruction (EI) takes effect now; EI sets the pending
/// enable; RETI sets IME immediately.
pub open spec fn ime_after(ime: bool, scheduled: bool, op: u8) -> (bool, bool) {
    if op == 0xF3 {
        (false, false)
    } else if scheduled {
        (true, false)
    } else if op == 0xFB {
        (ime, true)
    } else if op == 0xD9 {
        (true, false)
    } else {
        (ime, false)
    }
}

/// The message for an opcode outside the instruction set.
pub open spec fn undefined_message(op: u8, pc: u16) -> Seq<char> {
    "undefined opcode: 0x"@ + hex2_spec(op) + " at PC=0x"@ + hex4_spec(pc)
}

/// Where the stack lies in memory that reads back what was written: work or high memory.
pub open spec fn stack_in_ram(sp: u16) -> bool {
    (0xC002 <= sp <= 0xE000) || (0xFF82 <= sp <= 0xFFFF)
}

impl Cpu {
    pub open spec fn wf(&self) -> bool {
        self.registers.f & 0x0F == 0
    }

    pub fn new() -> (r: Self)
        ensures
            r.wf(),
            r.registers == Registers::zeroed(),
            !r.ime && !r.ime_scheduled && !r.halted,
            r.instruction_count == 0,
    {
        assert(0u8 & 0x0F == 0) by (bit_vector);
        Cpu { registers: Registers::new(), ime: false, ime_scheduled: false, halted: false, instruction_count: 0 }
    }

    pub fn reset(&mut self)
        ensures
            final(self).wf(),
            final(self).registers == Registers::zeroed(),
            !final(self).ime && !final(self).ime_scheduled && !final(self).halted,
            final(self).instruction_count == 0,
    {
        assert(0u8 & 0x0F == 0) by (bit_vector);
        self.registers.reset();
        self.ime = false;
        self.ime_scheduled = false;
        self.halted = false;
        self.instruction_count = 0;
    }

    /// Services a pending interrupt, or executes one instruction; returns the cycles spent.
    /// A halted CPU wakes on any requested-and-enabled interrupt, whatever IME says.
    #[verifier::rlimit(100)]
    pub fn step(&mut self, bus: &mut Peripherals) -> (r: Result<u8, String>)
        requires
            old(self).wf(),
            old(bus).wf(),
        ensures
            final(self).wf(),
            final(bus).wf(),
            ({
                let pend = pending_bits(old(bus).interrupt_flag, old(bus).interrupt_enable);
                if old(self).halted && pend == 0 {
                    &&& r == Ok::<u8, String>(4)
                    &&& *final(self) == *old(self)
                    &&& *final(bus) == *old(bus)
                } else if old(self).ime && pend != 0 {
                    let irq = highest_priority(pend)->Some_0;
                    &&& r == Ok::<u8, String>(20)
                    &&& final(self).registers == (Registers {
                        pc: vector_of(irq),
                        sp: sub16(old(self).registers.sp, 2),
                        ..old(self).registers
                    })
                    &&& !final(self).ime
                    &&& !final(self).halted
                    &&& (sub16(old(self).registers.sp, 1) != 0xFF0F && sub16(old(self).registers.sp, 2) != 0xFF0F)
                        ==> final(bus).interrupt_flag == old(bus).interrupt_flag & !mask_of(irq)
                    &&& final(self).ime_scheduled == old(self).ime_scheduled
                    &&& stack_in_ram(old(self).registers.sp) ==> dispatch_frame(*old(bus), *final(bus), old(self).registers.sp)
                    &&& stack_in_ram(old(self).registers.sp) ==> final(bus).read_spec(sub16(old(self).registers.sp, 1))
                        == (old(self).registers.pc >> 8) as u8 && final(bus).read_spec(sub16(old(self).registers.sp, 2))
                        == old(self).registers.pc as u8
                } else {
                    let op = old(bus).read_spec(old(self).registers.pc);
                    &&& (r.is_err() <==> !is_defined(op))
                    &&& (instruction_effect(old(self).registers, *old(bus), op) matches Some(regs) ==> final(self).registers == regs)
                    &&& r.is_err() ==> r->Err_0@ == undefined_message(op, old(self).registers.pc)
                    &&& r.is_ok() ==> final(self).instruction_count == crate::peripherals::inc64(old(self).instruction_count)
                    &&& final(self).halted == (op == 0x76)
                    &&& r.is_ok() ==> (final(self).ime, final(self).ime_scheduled) == ime_after(
                        old(self).ime,
                        old(self).ime_scheduled,
                        op,
                    )
                    &&& !may_write(op) ==> final(bus).same_except_counts(old(bus))
                    &&& stack_holds(*final(bus), old(self).registers.sp, pushed_word(old(self).registers, op))
                    &&& only_pushes(op) ==> push_frame(*old(bus), *final(bus), old(self).registers.sp, pushed_word(old(self).registers, op))
                    &&& (r matches Ok(c) ==> c > 0 && (if is_conditional(op) {
                        c == conditional_cycles(op, condition_holds(old(self).registers.f, (op >> 3) & 0x03))
                    } else if op == 0xCB {
                        c == cb_cycles(old(bus).read_spec(inc16(old(self).registers.pc)))
                    } else {
                        c == fixed_cycles(op)
                    }))
                }
            }),
    {
        let pending = get_pending_interrupt(bus.interrupt_flag, bus.interrupt_enable);
        if self.halted {
            match pending {
                None => return Ok(4),
                Some(_) => self.halted = false,
            }
        }
        if self.ime {
            match pending {
                Some(irq) => {
                    return Ok(self.service_interrupt(bus, irq));
                },
                None => {},
            }
        }
        let enable_after = self.ime_scheduled;
        let pc = self.registers.pc;
        let opcode = self.fetch_byte(bus);
        let result = self.execute_instruction(opcode, pc, bus);
        if result.is_ok() {
            self.instruction_count = self.instruction_count.wrapping_add(1);
            if enable_after && self.ime_scheduled {
                self.ime = true;
                self.ime_scheduled = false;
            }
        }
        result
    }
}

impl Cpu {
    /// Fetches the byte at PC and advances PC.
    fn fetch_byte(&mut self, bus: &mut Peripherals) -> (r: u8)
        requires
            old(bus).wf(),
        ensures
            final(bus).wf(),
            final(bus).same_except_counts(old(bus)),
            r == old(bus).read_spec(old(self).registers.pc),
            final(self).registers == (Registers { pc: inc16(old(self).registers.pc), ..old(self).registers }),
            final(self).ime == old(self).ime && final(self).ime_scheduled == old(self).ime_scheduled,
            final(self).halted == old(self).halted && final(self).instruction_count == old(self).instruction_count,
    {
        let value = bus.read(self.registers.pc);
        self.registers.pc = self.registers.pc.wrapping_add(1);
        value
    }

    /// Fetches a little-endian word at PC and advances PC by two.
    fn fetch_word(&mut self, bus: &mut Peripherals) -> (r: u16)
        requires
            old(bus).wf(),
        ensures
            final(bus).wf(),
            final(bus).same_except_counts(old(bus)),
            r == pair_value(
                old(bus).read_spec(inc16(old(self).registers.pc)),
                old(bus).read_spec(old(self).registers.pc),
            ),
            final(self).registers == (Registers { pc: inc16(inc16(old(self).registers.pc)), ..old(self).registers }),
            final(self).ime == old(self).ime && final(self).ime_scheduled == old(self).ime_scheduled,
            final(self).halted == old(self).halted && final(self).instruction_count == old(self).instruction_count,
    {
        let low = self.fetch_byte(bus);
        let high = self.fetch_byte(bus);
        ((high as u16) << 8) | (low as u16)
    }

    /// The operand of register code `idx`; 6 reads (HL).
    fn read_r8(&self, bus: &mut Peripherals, idx: u8) -> (r: u8)
        requires
            old(bus).wf(),
        ensures
            final(bus).wf(),
            final(bus).same_except_counts(old(bus)),
            r == operand_value(self.registers, *old(bus), idx),
    {
        match idx {
            0 => self.registers.b,
            1 => self.registers.c,
            2 => self.registers.d,
            3 => self.registers.e,
            4 => self.registers.h,
            5 => self.registers.l,
            6 => bus.read(self.registers.hl()),
            _ => self.registers.a,
        }
    }

    /// Stores into register code `idx`; 6 writes (HL).
    fn write_r8(&mut self, bus: &mut Peripherals, idx: u8, v: u8)
        requires
            old(bus).wf(),
            old(self).wf(),
        ensures
            final(bus).wf(),
            final(self).wf(),
            idx != 6 ==> final(self).registers == with_register(old(self).registers, idx, v) && *final(bus) == *old(bus),
            idx == 6 ==> final(self).registers == old(self).registers,
            final(self).ime == old(self).ime && final(self).ime_scheduled == old(self).ime_scheduled,
            final(self).halted == old(self).halted && final(self).instruction_count == old(self).instruction_count,
    {
        match idx {
            0 => self.registers.b = v,
            1 => self.registers.c = v,
            2 => self.registers.d = v,
            3 => self.registers.e = v,
            4 => self.registers.h = v,
            5 => self.registers.l = v,
            6 => bus.write(self.registers.hl(), v),
            _ => self.registers.a = v,
        }
    }

    /// BC, DE, HL or SP by code.
    fn get_r16(&self, idx: u8) -> (r: u16)
        ensures
            r == (if idx == 0 {
                pair_value(self.registers.b, self.registers.c)
            } else if idx == 1 {
                pair_value(self.registers.d, self.registers.e)
            } else if idx == 2 {
                pair_value(self.registers.h, self.registers.l)
            } else {
                self.registers.sp
            }),
    {
        match idx {
            0 => self.registers.bc(),
            1 => self.registers.de(),
            2 => self.registers.hl(),
            _ => self.registers.sp,
        }
    }

    /// Sets BC, DE, HL or SP by code.
    fn set_r16(&mut self, idx: u8, v: u16)
        requires
            old(self).wf(),
        ensures
            final(self).wf(),
            final(self).registers.a == old(self).registers.a && final(self).registers.f == old(self).registers.f,
            final(self).registers.pc == old(self).registers.pc,
            idx == 3 ==> final(self).registers == (Registers { sp: v, ..old(self).registers }),
            idx == 0 ==> final(self).registers == (Registers { b: (v >> 8) as u8, c: v as u8, ..old(self).registers }),
            idx == 1 ==> final(self).registers == (Registers { d: (v >> 8) as u8, e: v as u8, ..old(self).registers }),
            idx == 2 ==> final(self).registers == (Registers { h: (v >> 8) as u8, l: v as u8, ..old(self).registers }),
            final(self).ime == old(self).ime && final(self).ime_scheduled == old(self).ime_scheduled,
            final(self).halted == old(self).halted && final(self).instruction_count == old(self).instruction_count,
    {
        match idx {
            0 => self.registers.set_bc(v),
            1 => self.registers.set_de(v),
            2 => self.registers.set_hl(v),
            _ => self.registers.sp = v,
        }
    }

    /// PUSH: the high byte at SP-1, the low byte at SP-2, then SP -= 2.
    pub fn push16(&mut self, bus: &mut Peripherals, value: u16)
        requires
            old(bus).wf(),
            old(self).wf(),
        ensures
            final(bus).wf(),
            final(self).wf(),
            final(self).registers == (Registers { sp: sub16(old(self).registers.sp, 2), ..old(self).registers }),
            final(self).ime == old(self).ime && final(self).ime_scheduled == old(self).ime_scheduled,
            final(self).halted == old(self).halted && final(self).instruction_count == old(self).instruction_count,
            stack_in_ram(old(self).registers.sp) ==> final(bus).read_spec(sub16(old(self).registers.sp, 1)) == (value
                >> 8) as u8 && final(bus).read_spec(sub16(old(self).registers.sp, 2)) == value as u8,
            (sub16(old(self).registers.sp, 1) != 0xFF0F && sub16(old(self).registers.sp, 2) != 0xFF0F)
                ==> final(bus).interrupt_flag == old(bus).interrupt_flag,
            stack_in_ram(old(self).registers.sp) ==> stack_frame(*old(bus), *final(bus), old(self).registers.sp),
    {
        let sp1 = self.registers.sp.wrapping_sub(1);
        let ghost b0 = *bus;
        bus.write(sp1, (value >> 8) as u8);
        let ghost b1 = *bus;
        let sp2 = sp1.wrapping_sub(1);
        bus.write(sp2, value as u8);
        self.registers.sp = sp2;
        proof {
            let sp = old(self).registers.sp;
            if stack_in_ram(sp) {
                assert(sp2 as int == sp - 2);
                lemma_write_frame(&b0, &b1, sp1, (value >> 8) as u8);
                lemma_write_frame(&b1, &*bus, sp2, value as u8);
            }
        }
    }

    /// POP: the low byte at SP, the high byte at SP+1, then SP += 2.
    pub fn pop16(&mut self, bus: &mut Peripherals) -> (r: u16)
        requires
            old(bus).wf(),
            old(self).wf(),
        ensures
            final(bus).wf(),
            final(bus).same_except_counts(old(bus)),
            final(self).wf(),
            r == pair_value(old(bus).read_spec(inc16(old(self).registers.sp)), old(bus).read_spec(old(self).registers.sp)),
            final(self).registers == (Registers { sp: inc16(inc16(old(self).registers.sp)), ..old(self).registers }),
            final(self).ime == old(self).ime && final(self).ime_scheduled == old(self).ime_scheduled,
            final(self).halted == old(self).halted && final(self).instruction_count == old(self).instruction_count,
    {
        let low = bus.read(self.registers.sp);
        self.registers.sp = self.registers.sp.wrapping_add(1);
        let high = bus.read(self.registers.sp);
        self.registers.sp = self.registers.sp.wrapping_add(1);
        ((high as u16) << 8) | (low as u16)
    }

    /// Whether condition `cc` holds.
    fn condition(&self, cc: u8) -> (r: bool)
        ensures
            r == condition_holds(self.registers.f, cc),
    {
        if cc == 0 {
            self.registers.f & 0x80 == 0
        } else if cc == 1 {
            self.registers.f & 0x80 != 0
        } else if cc == 2 {
            self.registers.f & 0x10 == 0
        } else {
            self.registers.f & 0x10 != 0
        }
    }

    /// Clears the request, drops IME, pushes PC and jumps to the vector: 20 cycles.
    fn service_interrupt(&mut self, bus: &mut Peripherals, irq: Interrupt) -> (r: u8)
        requires
            old(bus).wf(),
            old(self).wf(),
        ensures
            r == 20,
            final(bus).wf(),
            final(self).wf(),
            final(self).registers == (Registers {
                pc: vector_of(irq),
                sp: sub16(old(self).registers.sp, 2),
                ..old(self).registers
            }),
            !final(self).ime && !final(self).halted,
            final(self).instruction_count == old(self).instruction_count,
            (sub16(old(self).registers.sp, 1) != 0xFF0F && sub16(old(self).registers.sp, 2) != 0xFF0F)
                ==> final(bus).interrupt_flag == old(bus).interrupt_flag & !mask_of(irq),
            final(self).ime_scheduled == old(self).ime_scheduled,
            stack_in_ram(old(self).registers.sp) ==> dispatch_frame(*old(bus), *final(bus), old(self).registers.sp),
            stack_in_ram(old(self).registers.sp) ==> final(bus).read_spec(sub16(old(self).registers.sp, 1)) == (
            old(self).registers.pc >> 8) as u8 && final(bus).read_spec(sub16(old(self).registers.sp, 2))
                == old(self).registers.pc as u8,
    {
        let f = bus.interrupt_flag;
        let m = irq.mask();
        assert(f & 0xE0 == 0 ==> (f & !m) & 0xE0 == 0) by (bit_vector);
        let ghost b0 = *bus;
        bus.interrupt_flag = f & !m;
        assert forall|a: u16| a != 0xFF0F implies #[trigger] bus.read_spec(a) == b0.read_spec(a) by {}
        self.ime = false;
        self.halted = false;
        let pc = self.registers.pc;
        self.push16(bus, pc);
        self.registers.pc = irq.handler_address();
        20
    }
}

impl Cpu {
    /// Executes one fetched opcode; PC already points past it.
    #[verifier::rlimit(100)]
    fn execute_instruction(&mut self, op: u8, pc: u16, bus: &mut Peripherals) -> (r: Result<u8, String>)
        requires
            old(self).wf(),
            old(bus).wf(),
            old(self).registers.pc == inc16(pc),
        ensures
            final(self).halted == (old(self).halted || op == 0x76),
            (final(self).ime, final(self).ime_scheduled) == (if op == 0xF3 {
                (false, false)
            } else if op == 0xFB {
                (old(self).ime, true)
            } else if op == 0xD9 {
                (true, old(self).ime_scheduled)
            } else {
                (old(self).ime, old(self).ime_scheduled)
            }),
            !may_write(op) ==> final(bus).same_except_counts(old(bus)),
            stack_holds(*final(bus), old(self).registers.sp, pushed_word(Registers { pc: pc, ..old(self).registers }, op)),
            only_pushes(op) ==> push_frame(
                *old(bus),
                *final(bus),
                old(self).registers.sp,
                pushed_word(Registers { pc: pc, ..old(self).registers }, op),
            ),
            final(self).wf(),
            final(bus).wf(),
            final(self).instruction_count == old(self).instruction_count,
            r.is_err() <==> !is_defined(op),
            r.is_err() ==> r->Err_0@ == undefined_message(op, pc),
            r matches Ok(c) ==> c > 0 && (if is_conditional(op) {
                c == conditional_cycles(op, condition_holds(old(self).registers.f, (op >> 3) & 0x03))
            } else if op == 0xCB {
                c == cb_cycles(old(bus).read_spec(old(self).registers.pc))
            } else {
                c == fixed_cycles(op)
            }),
            instruction_effect(Registers { pc: pc, ..old(self).registers }, *old(bus), op) matches Some(regs)
                ==> final(self).registers == regs,
    {
        if 0x40 <= op && op <= 0x7F {
            if op == 0x76 {
                self.halted = true;
                return Ok(4);
            }
            let v = self.read_r8(bus, op % 8);
            self.write_r8(bus, (op / 8) % 8, v);
            return Ok(if op % 8 == 6 || (op / 8) % 8 == 6 { 8 } else { 4 });
        }
        if 0x80 <= op && op <= 0xBF {
            let x = self.read_r8(bus, op % 8);
            let (a, f) = alu((op / 8) % 8, self.registers.a, x, self.registers.carry_flag());
            self.registers.a = a;
            self.registers.f = f;
            return Ok(if op % 8 == 6 { 8 } else { 4 });
        }
        if op < 0x40 {
            return self.execute_low(op, pc, bus);
        }
        self.execute_high(op, pc, bus)
    }

    /// Opcodes 0x00-0x3F.
    #[verifier::rlimit(100)]
    fn execute_low(&mut self, op: u8, pc: u16, bus: &mut Peripherals) -> (r: Result<u8, String>)
        requires
            old(self).wf(),
            old(bus).wf(),
            op < 0x40,
            old(self).registers.pc == inc16(pc),
        ensures
            final(self).halted == (old(self).halted || op == 0x76),
            (final(self).ime, final(self).ime_scheduled) == (if op == 0xF3 {
                (false, false)
            } else if op == 0xFB {
                (old(self).ime, true)
            } else if op == 0xD9 {
                (true, old(self).ime_scheduled)
            } else {
                (old(self).ime, old(self).ime_scheduled)
            }),
            !may_write(op) ==> final(bus).same_except_counts(old(bus)),
            stack_holds(*final(bus), old(self).registers.sp, pushed_word(Registers { pc: pc, ..old(self).registers }, op)),
            only_pushes(op) ==> push_frame(
                *old(bus),
                *final(bus),
                old(self).registers.sp,
                pushed_word(Registers { pc: pc, ..old(self).registers }, op),
            ),
            final(self).wf(),
            final(bus).wf(),
            final(self).instruction_count == old(self).instruction_count,
            r.is_ok(),
            old(self).registers.pc == inc16(pc),
            instruction_effect(Registers { pc: pc, ..old(self).registers }, *old(bus), op) matches Some(regs)
                ==> final(self).registers == regs,
            r matches Ok(c) ==> c > 0 && (if is_conditional(op) {
                c == conditional_cycles(op, condition_holds(old(self).registers.f, (op >> 3) & 0x03))
            } else {
                c == fixed_cycles(op)
            }),
    {
        let rr = (op / 16) % 4;
        if op == 0x00 {
            Ok(4)
        } else if op == 0x10 {
            self.fetch_byte(bus);
            Ok(4)
        } else if op % 16 == 1 {
            let nn = self.fetch_word(bus);
            self.set_r16(rr, nn);
            Ok(12)
        } else if op % 16 == 2 || op % 16 == 0x0A {
            let hl = self.registers.hl();
            let addr = if rr == 0 {
                self.registers.bc()
            } else if rr == 1 {
                self.registers.de()
            } else {
                hl
            };
            if op % 16 == 2 {
                bus.write(addr, self.registers.a);
            } else {
                self.registers.a = bus.read(addr);
            }
            if rr == 2 {
                self.registers.set_hl(hl.wrapping_add(1));
            } else if rr == 3 {
                self.registers.set_hl(hl.wrapping_sub(1));
            }
            Ok(8)
        } else if op % 16 == 3 {
            let v = self.get_r16(rr);
            self.set_r16(rr, v.wrapping_add(1));
            Ok(8)
        } else if op % 16 == 0x0B {
            let v = self.get_r16(rr);
            self.set_r16(rr, v.wrapping_sub(1));
            Ok(8)
        } else if op % 8 == 4 {
            let idx = (op / 8) % 8;
            let v = self.read_r8(bus, idx);
            let (n, f) = inc8(v, self.registers.f);
            self.write_r8(bus, idx, n);
            self.registers.f = f;
            proof {
                alu::lemma_flags_low_nibble(n == 0, false, v % 16 == 15, old(self).registers.f & 0x10 != 0);
            }
            Ok(if idx == 6 { 12 } else { 4 })
        } else if op % 8 == 5 {
            let idx = (op / 8) % 8;
            let v = self.read_r8(bus, idx);
            let (n, f) = dec8(v, self.registers.f);
            self.write_r8(bus, idx, n);
            self.registers.f = f;
            proof {
                alu::lemma_flags_low_nibble(n == 0, true, v % 16 == 0, old(self).registers.f & 0x10 != 0);
            }
            Ok(if idx == 6 { 12 } else { 4 })
        } else if op % 8 == 6 {
            let n = self.fetch_byte(bus);
            let idx = (op / 8) % 8;
            self.write_r8(bus, idx, n);
            Ok(if idx == 6 { 12 } else { 8 })
        } else if op == 0x07 || op == 0x0F || op == 0x17 || op == 0x1F {
            let (a, f) = shift(op / 8, self.registers.a, self.registers.carry_flag());
            self.registers.a = a;
            self.registers.f = make_flags(false, false, false, f & 0x10 != 0);
            Ok(4)
        } else if op == 0x08 {
            let nn = self.fetch_word(bus);
            let sp = self.registers.sp;
            bus.write(nn, sp as u8);
            bus.write(nn.wrapping_add(1), (sp >> 8) as u8);
            Ok(20)
        } else if op % 16 == 9 {
            let hl = self.registers.hl();
            let v = self.get_r16(rr);
            let h = (hl % 0x1000) + (v % 0x1000) > 0x0FFF;
            let c = hl as u32 + v as u32 > 0xFFFF;
            let z = self.registers.zero_flag();
            self.registers.set_hl(hl.wrapping_add(v));
            self.registers.f = make_flags(z, false, h, c);
            Ok(8)
        } else if op == 0x18 {
            let e = self.fetch_byte(bus);
            self.registers.pc = jump_relative(self.registers.pc, e);
            Ok(12)
        } else if op == 0x20 || op == 0x28 || op == 0x30 || op == 0x38 {
            let e = self.fetch_byte(bus);
            if self.condition((op >> 3) & 0x03) {
                self.registers.pc = jump_relative(self.registers.pc, e);
                Ok(12)
            } else {
                Ok(8)
            }
        } else if op == 0x27 {
            self.daa();
            Ok(4)
        } else if op == 0x2F {
            self.registers.a = !self.registers.a;
            let z = self.registers.zero_flag();
            let c = self.registers.carry_flag();
            self.registers.f = make_flags(z, true, true, c);
            Ok(4)
        } else if op == 0x37 {
            let z = self.registers.zero_flag();
            self.registers.f = make_flags(z, false, false, true);
            Ok(4)
        } else {
            let z = self.registers.zero_flag();
            let c = self.registers.carry_flag();
            self.registers.f = make_flags(z, false, false, !c);
            Ok(4)
        }
    }

    /// DAA: adjusts A to packed BCD after an addition or subtraction.
    fn daa(&mut self)
        requires
            old(self).wf(),
        ensures
            final(self).wf(),
            final(self).registers.pc == old(self).registers.pc && final(self).registers.sp == old(self).registers.sp,
            final(self).ime == old(self).ime && final(self).ime_scheduled == old(self).ime_scheduled,
            final(self).halted == old(self).halted && final(self).instruction_count == old(self).instruction_count,
    {
        let mut a = self.registers.a;
        let n = self.registers.subtract_flag();
        let h = self.registers.half_carry_flag();
        let mut carry = self.registers.carry_flag();
        if !n {
            if carry || a > 0x99 {
                a = a.wrapping_add(0x60);
                carry = true;
            }
            if h || (a % 16) > 9 {
                a = a.wrapping_add(0x06);
            }
        } else {
            if carry {
                a = a.wrapping_sub(0x60);
            }
            if h {
                a = a.wrapping_sub(0x06);
            }
        }
        self.registers.a = a;
        self.registers.f = make_flags(a == 0, n, false, carry);
    }

    /// Opcodes 0xC0-0xFF.
    #[verifier::rlimit(100)]
    fn execute_high(&mut self, op: u8, pc: u16, bus: &mut Peripherals) -> (r: Result<u8, String>)
        requires
            old(self).wf(),
            old(bus).wf(),
            op >= 0xC0,
            old(self).registers.pc == inc16(pc),
        ensures
            final(self).halted == (old(self).halted || op == 0x76),
            (final(self).ime, final(self).ime_scheduled) == (if op == 0xF3 {
                (false, false)
            } else if op == 0xFB {
                (old(self).ime, true)
            } else if op == 0xD9 {
                (true, old(self).ime_scheduled)
            } else {
                (old(self).ime, old(self).ime_scheduled)
            }),
            !may_write(op) ==> final(bus).same_except_counts(old(bus)),
            stack_holds(*final(bus), old(self).registers.sp, pushed_word(Registers { pc: pc, ..old(self).registers }, op)),
            only_pushes(op) ==> push_frame(
                *old(bus),
                *final(bus),
                old(self).registers.sp,
                pushed_word(Registers { pc: pc, ..old(self).registers }, op),
            ),
            final(self).wf(),
            final(bus).wf(),
            final(self).instruction_count == old(self).instruction_count,
            r.is_err() <==> !is_defined(op),
            r.is_err() ==> r->Err_0@ == undefined_message(op, pc),
            r matches Ok(c) ==> c > 0 && (if is_conditional(op) {
                c == conditional_cycles(op, condition_holds(old(self).registers.f, (op >> 3) & 0x03))
            } else if op == 0xCB {
                c == cb_cycles(old(bus).read_spec(old(self).registers.pc))
            } else {
                c == fixed_cycles(op)
            }),
            instruction_effect(Registers { pc: pc, ..old(self).registers }, *old(bus), op) matches Some(regs)
                ==> final(self).registers == regs,
    {
        let cc = (op >> 3) & 0x03;
        if op == 0xC0 || op == 0xC8 || op == 0xD0 || op == 0xD8 {
            if self.condition(cc) {
                let a = self.pop16(bus);
                self.registers.pc = a;
                Ok(20)
            } else {
                Ok(8)
            }
        } else if op == 0xC2 || op == 0xCA || op == 0xD2 || op == 0xDA {
            let a = self.fetch_word(bus);
            if self.condition(cc) {
                self.registers.pc = a;
                Ok(16)
            } else {
                Ok(12)
            }
        } else if op == 0xC4 || op == 0xCC || op == 0xD4 || op == 0xDC {
            let a = self.fetch_word(bus);
            if self.condition(cc) {
                let ret = self.registers.pc;
                self.push16(bus, ret);
                self.registers.pc = a;
                Ok(24)
            } else {
                Ok(12)
            }
        } else if op == 0xC1 || op == 0xD1 || op == 0xE1 {
            let ghost sp0 = self.registers.sp;
            let v = self.pop16(bus);
            proof {
                registers::lemma_pair_bytes(old(bus).read_spec(inc16(sp0)), old(bus).read_spec(sp0));
            }
            self.set_r16((op / 16) % 4, v);
            Ok(12)
        } else if op == 0xF1 {
            let v = self.pop16(bus);
            self.registers.set_af(v);
            Ok(12)
        } else if op == 0xC5 || op == 0xD5 || op == 0xE5 {
            let v = self.get_r16((op / 16) % 4);
            self.push16(bus, v);
            Ok(16)
        } else if op == 0xF5 {
            let v = self.registers.af();
            self.push16(bus, v);
            Ok(16)
        } else if op % 8 == 6 {
            let x = self.fetch_byte(bus);
            let (a, f) = alu((op / 8) % 8, self.registers.a, x, self.registers.carry_flag());
            self.registers.a = a;
            self.registers.f = f;
            Ok(8)
        } else if op % 8 == 7 {
            let ret = self.registers.pc;
            self.push16(bus, ret);
            self.registers.pc = (op - 0xC7) as u16;
            Ok(16)
        } else if op == 0xC3 {
            let a = self.fetch_word(bus);
            self.registers.pc = a;
            Ok(16)
        } else if op == 0xC9 || op == 0xD9 {
            let a = self.pop16(bus);
            self.registers.pc = a;
            if op == 0xD9 {
                self.ime = true;
            }
            Ok(16)
        } else if op == 0xCB {
            let cb = self.fetch_byte(bus);
            self.execute_cb(cb, bus);
            Ok(if cb % 8 == 6 { 16 } else { 8 })
        } else if op == 0xCD {
            let a = self.fetch_word(bus);
            let ret = self.registers.pc;
            self.push16(bus, ret);
            self.registers.pc = a;
            Ok(24)
        } else if op == 0xE0 {
            let n = self.fetch_byte(bus);
            bus.write(0xFF00 + n as u16, self.registers.a);
            Ok(12)
        } else if op == 0xF0 {
            let n = self.fetch_byte(bus);
            self.registers.a = bus.read(0xFF00 + n as u16);
            Ok(12)
        } else if op == 0xE2 {
            bus.write(0xFF00 + self.registers.c as u16, self.registers.a);
            Ok(8)
        } else if op == 0xF2 {
            self.registers.a = bus.read(0xFF00 + self.registers.c as u16);
            Ok(8)
        } else if op == 0xE8 || op == 0xF8 {
            let n = self.fetch_byte(bus);
            let sp = self.registers.sp;
            let h = (sp % 16) + (n as u16 % 16) > 0x0F;
            let c = (sp % 256) + n as u16 > 0xFF;
            let v = jump_relative(sp, n);
            if op == 0xE8 {
                self.registers.sp = v;
            } else {
                self.registers.set_hl(v);
            }
            self.registers.f = make_flags(false, false, h, c);
            Ok(if op == 0xE8 { 16 } else { 12 })
        } else if op == 0xE9 {
            self.registers.pc = self.registers.hl();
            Ok(4)
        } else if op == 0xF9 {
            self.registers.sp = self.registers.hl();
            Ok(8)
        } else if op == 0xEA {
            let a = self.fetch_word(bus);
            bus.write(a, self.registers.a);
            Ok(16)
        } else if op == 0xFA {
            let a = self.fetch_word(bus);
            self.registers.a = bus.read(a);
            Ok(16)
        } else if op == 0xF3 {
            self.ime = false;
            self.ime_scheduled = false;
            Ok(4)
        } else if op == 0xFB {
            self.ime_scheduled = true;
            Ok(4)
        } else {
            let mut msg = String::from_str("undefined opcode: 0x");
            let h = hex2(op);
            msg.append(h.as_str());
            msg.append(" at PC=0x");
            let p = hex4(pc);
            msg.append(p.as_str());
            Err(msg)
        }
    }

    /// A CB-prefixed operation: rotate/shift, BIT, RES or SET on a register or (HL).
    fn execute_cb(&mut self, cb: u8, bus: &mut Peripherals)
        requires
            old(self).wf(),
            old(bus).wf(),
        ensures
            final(self).wf(),
            final(bus).wf(),
            final(self).instruction_count == old(self).instruction_count,
            final(self).registers.pc == old(self).registers.pc && final(self).registers.sp == old(self).registers.sp,
            final(self).ime == old(self).ime && final(self).halted == old(self).halted,
            final(self).ime_scheduled == old(self).ime_scheduled,
    {
        let idx = cb % 8;
        let sub = (cb / 8) % 8;
        let v = self.read_r8(bus, idx);
        if cb < 0x40 {
            let (n, f) = shift(sub, v, self.registers.carry_flag());
            self.write_r8(bus, idx, n);
            self.registers.f = f;
            proof {
                alu::lemma_shift_low_nibble(sub, v, old(self).registers.f & 0x10 != 0);
            }
        } else if cb < 0x80 {
            let bit_set = (v >> sub) & 1 != 0;
            let c = self.registers.carry_flag();
            self.registers.f = make_flags(!bit_set, false, true, c);
        } else if cb < 0xC0 {
            self.write_r8(bus, idx, v & !(1u8 << sub));
        } else {
            self.write_r8(bus, idx, v | (1u8 << sub));
        }
    }
}

/// A pushed word pops back unchanged, and SP returns to where it was, when the stack lies in
/// work or high memory: after a push has stored the high byte at SP-1 and the low byte at SP-2,
/// a pop from SP-2 reads the word and leaves SP at SP-2+2.
pub proof fn lemma_push_pop_round_trip(bus: Peripherals, sp: u16, v: u16)
    requires
        stack_in_ram(sp),
        bus.read_spec(sub16(sp, 1)) == (v >> 8) as u8,
        bus.read_spec(sub16(sp, 2)) == v as u8,
    ensures
        pair_value(bus.read_spec(inc16(sub16(sp, 2))), bus.read_spec(sub16(sp, 2))) == v,
        inc16(inc16(sub16(sp, 2))) == sp,
{
    assert(inc16(sub16(sp, 2)) == sub16(sp, 1));
    assert((((v >> 8) as u8 as u16) << 8) | (v as u8 as u16) == v) by (bit_vector);
}

/// A taken relative or absolute conditional jump costs exactly four cycles more than one not
/// taken. (Conditional calls and returns cost twelve more.)
pub proof fn lemma_taken_branch_costs_four_more(op: u8)
    requires
        op == 0x20 || op == 0x28 || op == 0x30 || op == 0x38 || op == 0xC2 || op == 0xCA || op == 0xD2 || op == 0xDA,
    ensures
        is_conditional(op),
        conditional_cycles(op, true) == conditional_cycles(op, false) + 4,
{
}

/// The one-line register dump.
pub open spec fn debug_line(c: Cpu) -> Seq<char> {
    let r = c.registers;
    "PC:"@ + hex4_spec(r.pc) + " SP:"@ + hex4_spec(r.sp) + " A:"@ + hex2_spec(r.a) + " F:"@ + hex2_spec(r.f)
        + " B:"@ + hex2_spec(r.b) + " C:"@ + hex2_spec(r.c) + " D:"@ + hex2_spec(r.d) + " E:"@ + hex2_spec(r.e)
        + " H:"@ + hex2_spec(r.h) + " L:"@ + hex2_spec(r.l) + " | "@ + zero_padded_spec(c.instruction_count as nat, 8)
}

impl Cpu {
    /// `PC:.... SP:.... A:.. F:.. B:.. C:.. D:.. E:.. H:.. L:.. | count`, in hexadecimal and a
    /// zero-padded eight-digit instruction count.
    pub fn debug_string(&self) -> (r: String)
        ensures
            r@ == debug_line(*self),
    {
        let mut s = String::from_str("PC:");
        let t = hex4(self.registers.pc);
        s.append(t.as_str());
        s.append(" SP:");
        let t = hex4(self.registers.sp);
        s.append(t.as_str());
        s.append(" A:");
        let t = hex2(self.registers.a);
        s.append(t.as_str());
        s.append(" F:");
        let t = hex2(self.registers.f);
        s.append(t.as_str());
        s.append(" B:");
        let t = hex2(self.registers.b);
        s.append(t.as_str());
        s.append(" C:");
        let t = hex2(self.registers.c);
        s.append(t.as_str());
        s.append(" D:");
        let t = hex2(self.registers.d);
        s.append(t.as_str());
        s.append(" E:");
        let t = hex2(self.registers.e);
        s.append(t.as_str());
        s.append(" H:");
        let t = hex2(self.registers.h);
        s.append(t.as_str());
        s.append(" L:");
        let t = hex2(self.registers.l);
        s.append(t.as_str());
        s.append(" | ");
        let t = zero_padded(self.instruction_count, 8);
        s.append(t.as_str());
        s
    }
}

/// PC or SP moved by a signed 8-bit offset.
pub open spec fn relative_target(base: u16, e: u8) -> u16 {
    ((base + (if e >= 128 { e - 256 } else { e as int }) + 0x10000) % 0x10000) as u16
}

/// Adds a signed 8-bit offset, wrapping at 16 bits.
pub fn jump_relative(base: u16, e: u8) -> (r: u16)
    ensures
        r == relative_target(base, e),
{
    if e >= 128 {
        base.wrapping_sub(256 - e as u16)
    } else {
        base.wrapping_add(e as u16)
    }
}

} // verus!
