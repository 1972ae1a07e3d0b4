use vstd::prelude::*;

use crate::bits::lemma_byte_fields;

verus! {

/// The divisor of a noise divisor code.
pub open spec fn divisor_of(code: u8) -> u32 {
    if code == 0 { 8 } else { (16 * code) as u32 }
}

/// The noise timer period: divisor times two to the clock shift.
pub open spec fn noise_period(code: u8, shift: u8) -> u32 {
    (divisor_of(code) * pow2(shift as nat)) as u32
}

pub open spec fn pow2(n: nat) -> nat
    decreases n,
{
    if n == 0 { 1 } else { 2 * pow2((n - 1) as nat) }
}

/// The LFSR one step later; 7-bit mode copies the feedback into bit 6 too.
pub open spec fn lfsr_next(lfsr: u16, width_mode: bool) -> u16 {
    let x = (lfsr & 0x01) ^ ((lfsr >> 1) & 0x01);
    let l = (lfsr >> 1) | (x << 14);
    if width_mode { (l & !0x0040u16) | (x << 6) } else { l }
}

/// The noise channel (channel 4).
#[derive(Clone, Copy, PartialEq, Eq, Structural)]
pub struct NoiseChannel {
    pub enabled: bool,
    pub dac_enabled: bool,
    pub length_counter: u16,
    pub length_enabled: bool,
    pub envelope_initial: u8,
    pub envelope_direction: bool,
    pub envelope_period: u8,
    pub volume: u8,
    pub envelope_timer: u8,
    pub clock_shift: u8,
    pub width_mode: bool,
    pub divisor_code: u8,
    pub lfsr: u16,
    pub frequency_timer: u32,
}

impl NoiseChannel {
    pub open spec fn wf(&self) -> bool {
        &&& self.length_counter <= 64
        &&& self.envelope_initial <= 15
        &&& self.envelope_period <= 7
        &&& self.volume <= 15
        &&& self.envelope_timer <= 8
        &&& self.clock_shift <= 15
        &&& self.divisor_code <= 7
        &&& self.frequency_timer <= 112 * 32768
    }

    pub open spec fn output_spec(&self) -> u8 {
        if !self.enabled || !self.dac_enabled {
            0
        } else if self.lfsr & 0x01 == 0 {
            self.volume
        } else {
            0
        }
    }

    pub open spec fn initial() -> NoiseChannel {
        NoiseChannel {
            enabled: false,
            dac_enabled: false,
            length_counter: 0,
            length_enabled: false,
            envelope_initial: 0,
            envelope_direction: false,
            envelope_period: 0,
            volume: 0,
            envelope_timer: 0,
            clock_shift: 0,
            width_mode: false,
            divisor_code: 0,
            lfsr: 0x7FFF,
            frequency_timer: 0,
        }
    }

    pub fn new() -> (r: Self)
        ensures
            r == Self::initial(),
            r.wf(),
    {
        NoiseChannel {
            enabled: false,
            dac_enabled: false,
            length_counter: 0,
            length_enabled: false,
            envelope_initial: 0,
            envelope_direction: false,
            envelope_period: 0,
            volume: 0,
            envelope_timer: 0,
            clock_shift: 0,
            width_mode: false,
            divisor_code: 0,
            lfsr: 0x7FFF,
            frequency_timer: 0,
        }
    }

    /// NR41: length 64 minus the low six bits.
    pub fn write_length(&mut self, value: u8)
        requires
            old(self).wf(),
        ensures
            final(self).wf(),
            *final(self) == (NoiseChannel { length_counter: (64 - (value & 0x3F)) as u16, ..*old(self) }),
    {
        proof {
            lemma_byte_fields(value);
        }
        let length_data = value & 0x3F;
        self.length_counter = 64 - length_data as u16;
    }

    pub fn read_envelope(&self) -> (r: u8)
        requires
            self.wf(),
        ensures
            r == (self.envelope_initial << 4) | (if self.envelope_direction { 0x08u8 } else { 0 }) | self.envelope_period,
    {
        (self.envelope_initial << 4) | (if self.envelope_direction { 0x08u8 } else { 0x00u8 }) | self.envelope_period
    }

    pub fn write_envelope(&mut self, value: u8)
        requires
            old(self).wf(),
        ensures
            final(self).wf(),
            *final(self) == (NoiseChannel {
                envelope_initial: (value >> 4) & 0x0F,
                envelope_direction: value & 0x08 != 0,
                envelope_period: value & 0x07,
                dac_enabled: value & 0xF8 != 0,
                enabled: if value & 0xF8 == 0 { false } else { old(self).enabled },
                ..*old(self)
            }),
    {
        proof {
            lemma_byte_fields(value);
        }
        self.envelope_initial = (value >> 4) & 0x0F;
        self.envelope_direction = value & 0x08 != 0;
        self.envelope_period = value & 0x07;
        self.dac_enabled = value & 0xF8 != 0;
        if !self.dac_enabled {
            self.enabled = false;
        }
    }

    /// NR43.
    pub fn read_polynomial(&self) -> (r: u8)
        requires
            self.wf(),
        ensures
            r == (self.clock_shift << 4) | (if self.width_mode { 0x08u8 } else { 0 }) | self.divisor_code,
    {
        (self.clock_shift << 4) | (if self.width_mode { 0x08u8 } else { 0x00u8 }) | self.divisor_code
    }

    pub fn write_polynomial(&mut self, value: u8)
        requires
            old(self).wf(),
        ensures
            final(self).wf(),
            *final(self) == (NoiseChannel {
                clock_shift: (value >> 4) & 0x0F,
                width_mode: value & 0x08 != 0,
                divisor_code: value & 0x07,
                ..*old(self)
            }),
    {
        proof {
            lemma_byte_fields(value);
        }
        self.clock_shift = (value >> 4) & 0x0F;
        self.width_mode = value & 0x08 != 0;
        self.divisor_code = value & 0x07;
    }

    /// NR44: only the length-enable bit reads back.
    pub fn read_control(&self) -> (r: u8)
        ensures
            r == 0xBF | (if self.length_enabled { 0x40u8 } else { 0 }),
    {
        0xBF | (if self.length_enabled { 0x40u8 } else { 0x00u8 })
    }

    /// The channel after a trigger.
    pub open spec fn triggered(self) -> NoiseChannel {
        NoiseChannel {
            enabled: self.dac_enabled,
            length_counter: if self.length_counter == 0 { 64 } else { self.length_counter },
            frequency_timer: noise_period(self.divisor_code, self.clock_shift),
            lfsr: 0x7FFF,
            volume: self.envelope_initial,
            envelope_timer: if self.envelope_period == 0 { 8 } else { self.envelope_period },
            ..self
        }
    }

    pub fn write_control(&mut self, value: u8)
        requires
            old(self).wf(),
        ensures
            final(self).wf(),
            ({
                let c = NoiseChannel { length_enabled: value & 0x40 != 0, ..*old(self) };
                *final(self) == if value & 0x80 != 0 { c.triggered() } else { c }
            }),
    {
        self.length_enabled = value & 0x40 != 0;
        if value & 0x80 != 0 {
            self.trigger();
        }
    }

    fn trigger(&mut self)
        requires
            old(self).wf(),
        ensures
            final(self).wf(),
            *final(self) == old(self).triggered(),
    {
        self.enabled = self.dac_enabled;
        if self.length_counter == 0 {
            self.length_counter = 64;
        }
        self.frequency_timer = self.get_period();
        self.lfsr = 0x7FFF;
        self.volume = self.envelope_initial;
        self.envelope_timer = if self.envelope_period == 0 { 8 } else { self.envelope_period };
    }

    fn get_period(&self) -> (r: u32)
        requires
            self.wf(),
        ensures
            r == noise_period(self.divisor_code, self.clock_shift),
            r <= 112 * 32768,
    {
        let divisor: u32 = if self.divisor_code == 0 { 8 } else { 16 * self.divisor_code as u32 };
        let mut p: u32 = divisor;
        let mut i: u8 = 0;
        assert(pow2(0) == 1);
        proof {
            lemma_pow2_bound(0);
        }
        while i < self.clock_shift
            invariant
                i <= self.clock_shift,
                self.clock_shift <= 15,
                divisor == divisor_of(self.divisor_code),
                divisor <= 112,
                p == divisor * pow2(i as nat),
                pow2(i as nat) <= 32768,
            decreases self.clock_shift - i,
        {
            proof {
                lemma_pow2_bound(i as nat + 1);
                assert(pow2(i as nat + 1) == 2 * pow2(i as nat));
                assert(p * 2 <= 112 * 32768) by (nonlinear_arith)
                    requires
                        p == divisor * pow2(i as nat),
                        divisor <= 112,
                        2 * pow2(i as nat) <= 32768,
                ;
            }
            p = p * 2;
            i = i + 1;
            assert(p == divisor * pow2(i as nat)) by (nonlinear_arith)
                requires
                    p == divisor * pow2((i - 1) as nat) * 2,
                    pow2(i as nat) == 2 * pow2((i - 1) as nat),
            ;
        }
        assert(p <= 112 * 32768) by (nonlinear_arith)
            requires
                p == divisor * pow2(i as nat),
                divisor <= 112,
                pow2(i as nat) <= 32768,
        ;
        p
    }

    pub fn clock_length(&mut self)
        requires
            old(self).wf(),
        ensures
            final(self).wf(),
            *final(self) == (if old(self).length_enabled && old(self).length_counter > 0 {
                NoiseChannel {
                    length_counter: (old(self).length_counter - 1) as u16,
                    enabled: if old(self).length_counter == 1 { false } else { old(self).enabled },
                    ..*old(self)
                }
            } else {
                *old(self)
            }),
    {
        if self.length_enabled && self.length_counter > 0 {
            self.length_counter = self.length_counter - 1;
            if self.length_counter == 0 {
                self.enabled = false;
            }
        }
    }

    /// The channel after an envelope clock.
    pub open spec fn envelope_clocked(self) -> NoiseChannel {
        if self.envelope_period == 0 {
            self
        } else {
            let t: u8 = if self.envelope_timer == 0 { 0 } else { (self.envelope_timer - 1) as u8 };
            if t != 0 {
                NoiseChannel { envelope_timer: t, ..self }
            } else {
                let v: u8 = if self.envelope_direction && self.volume < 15 {
                    (self.volume + 1) as u8
                } else if !self.envelope_direction && self.volume > 0 {
                    (self.volume - 1) as u8
                } else {
                    self.volume
                };
                NoiseChannel { envelope_timer: self.envelope_period, volume: v, ..self }
            }
        }
    }

    pub fn clock_envelope(&mut self)
        requires
            old(self).wf(),
        ensures
            final(self).wf(),
            *final(self) == old(self).envelope_clocked(),
    {
        if self.envelope_period == 0 {
            return;
        }
        self.envelope_timer = self.envelope_timer.saturating_sub(1);
        if self.envelope_timer == 0 {
            self.envelope_timer = self.envelope_period;
            if self.envelope_direction && self.volume < 15 {
                self.volume = self.volume + 1;
            } else if !self.envelope_direction && self.volume > 0 {
                self.volume = self.volume - 1;
            }
        }
    }

    /// The channel one machine cycle later.
    pub open spec fn ticked(self) -> NoiseChannel {
        let t: u32 = if self.frequency_timer > 0 { (self.frequency_timer - 1) as u32 } else { 0 };
        if t == 0 {
            NoiseChannel {
                frequency_timer: noise_period(self.divisor_code, self.clock_shift),
                lfsr: lfsr_next(self.lfsr, self.width_mode),
                ..self
            }
        } else {
            NoiseChannel { frequency_timer: t, ..self }
        }
    }

    /// One machine cycle: on timer expiry the LFSR shifts.
    pub fn tick(&mut self)
        requires
            old(self).wf(),
        ensures
            final(self).wf(),
            *final(self) == old(self).ticked(),
    {
        if self.frequency_timer > 0 {
            self.frequency_timer = self.frequency_timer - 1;
        }
        if self.frequency_timer == 0 {
            self.frequency_timer = self.get_period();
            let l = self.lfsr;
            let xor_result = (l & 0x01) ^ ((l >> 1) & 0x01);
            let mut n = (l >> 1) | (xor_result << 14);
            if self.width_mode {
                n = (n & !0x0040u16) | (xor_result << 6);
            }
            self.lfsr = n;
        }
    }

    /// The volume while LFSR bit 0 is clear.
    pub fn output(&self) -> (r: u8)
        requires
            self.wf(),
        ensures
            r == self.output_spec(),
            r <= 15,
    {
        if !self.enabled || !self.dac_enabled {
            return 0;
        }
        if self.lfsr & 0x01 == 0 {
            self.volume
        } else {
            0
        }
    }
}

proof fn lemma_pow2_mono(n: nat, m: nat)
    requires
        n <= m,
    ensures
        1 <= pow2(n) <= pow2(m),
    decreases m - n,
{
    if n < m {
        lemma_pow2_mono(n, (m - 1) as nat);
    } else {
        lemma_pow2_pos(n);
    }
}

proof fn lemma_pow2_pos(n: nat)
    ensures
        pow2(n) >= 1,
    decreases n,
{
    if n > 0 {
        lemma_pow2_pos((n - 1) as nat);
    }
}

proof fn lemma_pow2_bound(n: nat)
    requires
        n <= 15,
    ensures
        1 <= pow2(n) <= 32768,
{
    lemma_pow2_mono(n, 15);
    reveal_with_fuel(pow2, 16);
    assert(pow2(15) == 32768);
}

} // verus!
