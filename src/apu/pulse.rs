use vstd::prelude::*;

use crate::bits::{lemma_byte_fields, lemma_frequency_bytes};

verus! {

/// The waveform bit of a duty pattern (12.5%, 25%, 50%, 75%) at a step.
pub open spec fn duty_bit(duty: u8, position: u8) -> u8 {
    if duty == 0 {
        if position == 7 { 1 } else { 0 }
    } else if duty == 1 {
        if position == 0 || position == 7 { 1 } else { 0 }
    } else if duty == 2 {
        if position == 0 || position >= 5 { 1 } else { 0 }
    } else {
        if position == 0 || position == 7 { 0 } else { 1 }
    }
}

/// The duty waveform bit.
pub fn duty_table(duty: u8, position: u8) -> (r: u8)
    ensures
        r == duty_bit(duty, position),
{
    if duty == 0 {
        if position == 7 { 1 } else { 0 }
    } else if duty == 1 {
        if position == 0 || position == 7 { 1 } else { 0 }
    } else if duty == 2 {
        if position == 0 || position >= 5 { 1 } else { 0 }
    } else {
        if position == 0 || position == 7 { 0 } else { 1 }
    }
}

/// A square channel (channels 1 and 2), with the frequency sweep on channel 1.
#[derive(Clone, Copy, PartialEq, Eq, Structural)]
pub struct PulseChannel {
    pub enabled: bool,
    pub dac_enabled: bool,
    pub duty: u8,
    pub length_counter: u16,
    pub length_enabled: bool,
    pub envelope_initial: u8,
    /// true: volume rises.
    pub envelope_direction: bool,
    pub envelope_period: u8,
    pub volume: u8,
    pub envelope_timer: u8,
    pub frequency: u16,
    pub frequency_timer: u16,
    pub duty_position: u8,
    pub sweep_enabled: bool,
    pub sweep_period: u8,
    pub sweep_negate: bool,
    pub sweep_shift: u8,
    pub sweep_timer: u8,
    pub sweep_shadow: u16,
    pub sweep_negate_used: bool,
    pub has_sweep: bool,
}

impl PulseChannel {
    pub open spec fn wf(&self) -> bool {
        &&& self.duty <= 3
        &&& self.length_counter <= 64
        &&& self.envelope_initial <= 15
        &&& self.envelope_period <= 7
        &&& self.volume <= 15
        &&& self.envelope_timer <= 8
        &&& self.frequency <= 0x7FF
        &&& self.frequency_timer <= 8192
        &&& self.duty_position <= 7
        &&& self.sweep_period <= 7
        &&& self.sweep_shift <= 7
        &&& self.sweep_timer <= 8
        &&& self.sweep_shadow <= 0x7FF
    }

    /// The next sweep frequency from the shadow register, and the channel with the negate use noted.
    pub open spec fn sweep_target(self) -> (PulseChannel, u16) {
        let shifted = self.sweep_shadow >> self.sweep_shift;
        if self.sweep_negate {
            (PulseChannel { sweep_negate_used: true, ..self }, (self.sweep_shadow - shifted) as u16)
        } else {
            (self, (self.sweep_shadow + shifted) as u16)
        }
    }

    /// The channel after a trigger.
    pub open spec fn triggered(self) -> PulseChannel {
        let base = PulseChannel {
            enabled: self.dac_enabled,
            length_counter: if self.length_counter == 0 { 64 } else { self.length_counter },
            frequency_timer: ((2048 - self.frequency) * 4) as u16,
            volume: self.envelope_initial,
            envelope_timer: if self.envelope_period == 0 { 8 } else { self.envelope_period },
            ..self
        };
        if !self.has_sweep {
            base
        } else {
            let s = PulseChannel {
                sweep_shadow: self.frequency,
                sweep_timer: if self.sweep_period == 0 { 8 } else { self.sweep_period },
                sweep_enabled: self.sweep_period != 0 || self.sweep_shift != 0,
                sweep_negate_used: false,
                ..base
            };
            if self.sweep_shift != 0 {
                let (c, f) = s.sweep_target();
                if f > 2047 { PulseChannel { enabled: false, ..c } } else { c }
            } else {
                s
            }
        }
    }

    /// The channel after a sweep clock from the frame sequencer.
    pub open spec fn sweep_clocked(self) -> PulseChannel {
        if !self.has_sweep {
            self
        } else {
            let t: u8 = if self.sweep_timer == 0 { 0 } else { (self.sweep_timer - 1) as u8 };
            if t != 0 {
                PulseChannel { sweep_timer: t, ..self }
            } else {
                let s = PulseChannel { sweep_timer: if self.sweep_period == 0 { 8 } else { self.sweep_period }, ..self };
                if s.sweep_enabled && s.sweep_period != 0 {
                    let (c, f) = s.sweep_target();
                    if f > 2047 {
                        PulseChannel { enabled: false, ..c }
                    } else if s.sweep_shift != 0 {
                        let c2 = PulseChannel { sweep_shadow: f, frequency: f, ..c };
                        let (c3, f2) = c2.sweep_target();
                        if f2 > 2047 { PulseChannel { enabled: false, ..c3 } } else { c3 }
                    } else {
                        c
                    }
                } else {
                    s
                }
            }
        }
    }

    /// The channel after a length clock.
    pub open spec fn length_clocked(self) -> PulseChannel {
        if self.length_enabled && self.length_counter > 0 {
            let n = (self.length_counter - 1) as u16;
            PulseChannel { length_counter: n, enabled: if n == 0 { false } else { self.enabled }, ..self }
        } else {
            self
        }
    }

    /// The channel after an envelope clock.
    pub open spec fn envelope_clocked(self) -> PulseChannel {
        if self.envelope_period == 0 {
            self
        } else {
            let t: u8 = if self.envelope_timer == 0 { 0 } else { (self.envelope_timer - 1) as u8 };
            if t != 0 {
                PulseChannel { envelope_timer: t, ..self }
            } else {
                let v: u8 = if self.envelope_direction && self.volume < 15 {
                    (self.volume + 1) as u8
                } else if !self.envelope_direction && self.volume > 0 {
                    (self.volume - 1) as u8
                } else {
                    self.volume
                };
                PulseChannel { envelope_timer: self.envelope_period, volume: v, ..self }
            }
        }
    }

    /// The channel one machine cycle later.
    pub open spec fn ticked(self) -> PulseChannel {
        let t: u16 = if self.frequency_timer > 0 { (self.frequency_timer - 1) as u16 } else { 0 };
        if t == 0 {
            PulseChannel {
                frequency_timer: ((2048 - self.frequency) * 4) as u16,
                duty_position: ((self.duty_position + 1) % 8) as u8,
                ..self
            }
        } else {
            PulseChannel { frequency_timer: t, ..self }
        }
    }

    /// The 4-bit output level.
    pub open spec fn output_spec(self) -> u8 {
        if !self.enabled || !self.dac_enabled {
            0
        } else if duty_bit(self.duty, self.duty_position) != 0 {
            self.volume
        } else {
            0
        }
    }

    /// The channel at power-on; `has_sweep` marks channel 1.
    pub open spec fn initial(has_sweep: bool) -> PulseChannel {
        PulseChannel {
            enabled: false,
            dac_enabled: false,
            duty: 0,
            length_counter: 0,
            length_enabled: false,
            envelope_initial: 0,
            envelope_direction: false,
            envelope_period: 0,
            volume: 0,
            envelope_timer: 0,
            frequency: 0,
            frequency_timer: 0,
            duty_position: 0,
            sweep_enabled: false,
            sweep_period: 0,
            sweep_negate: false,
            sweep_shift: 0,
            sweep_timer: 0,
            sweep_shadow: 0,
            sweep_negate_used: false,
            has_sweep,
        }
    }

    pub fn new(has_sweep: bool) -> (r: Self)
        ensures
            r == Self::initial(has_sweep),
            r.wf(),
    {
        PulseChannel {
            enabled: false,
            dac_enabled: false,
            duty: 0,
            length_counter: 0,
            length_enabled: false,
            envelope_initial: 0,
            envelope_direction: false,
            envelope_period: 0,
            volume: 0,
            envelope_timer: 0,
            frequency: 0,
            frequency_timer: 0,
            duty_position: 0,
            sweep_enabled: false,
            sweep_period: 0,
            sweep_negate: false,
            sweep_shift: 0,
            sweep_timer: 0,
            sweep_shadow: 0,
            sweep_negate_used: false,
            has_sweep,
        }
    }

    /// NR10: bit 7 reads 1.
    pub fn read_sweep(&self) -> (r: u8)
        requires
            self.wf(),
        ensures
            r == 0x80 | (self.sweep_period << 4) | (if self.sweep_negate { 0x08u8 } else { 0 }) | self.sweep_shift,
    {
        0x80 | (self.sweep_period << 4) | (if self.sweep_negate { 0x08u8 } else { 0x00u8 }) | self.sweep_shift
    }

    /// NR10; leaving negate mode after a negated calculation silences the channel.
    pub fn write_sweep(&mut self, value: u8)
        requires
            old(self).wf(),
        ensures
            final(self).wf(),
            *final(self) == (PulseChannel {
                sweep_period: (value >> 4) & 0x07,
                sweep_negate: value & 0x08 != 0,
                sweep_shift: value & 0x07,
                enabled: if old(self).sweep_negate && value & 0x08 == 0 && old(self).sweep_negate_used {
                    false
                } else {
                    old(self).enabled
                },
                ..*old(self)
            }),
    {
        proof {
            lemma_byte_fields(value);
        }
        self.sweep_period = (value >> 4) & 0x07;
        let new_negate = value & 0x08 != 0;
        if self.sweep_negate && !new_negate && self.sweep_negate_used {
            self.enabled = false;
        }
        self.sweep_negate = new_negate;
        self.sweep_shift = value & 0x07;
    }

    /// NR11/NR21: the low six bits read 1.
    pub fn read_length_duty(&self) -> (r: u8)
        requires
            self.wf(),
        ensures
            r == (self.duty << 6) | 0x3F,
    {
        (self.duty << 6) | 0x3F
    }

    /// NR11/NR21: duty in bits 7-6, length 64 minus bits 5-0.
    pub fn write_length_duty(&mut self, value: u8)
        requires
            old(self).wf(),
        ensures
            final(self).wf(),
            *final(self) == (PulseChannel {
                duty: (value >> 6) & 0x03,
                length_counter: (64 - (value & 0x3F)) as u16,
                ..*old(self)
            }),
    {
        proof {
            lemma_byte_fields(value);
        }
        self.duty = (value >> 6) & 0x03;
        let length_data = value & 0x3F;
        self.length_counter = 64 - length_data as u16;
    }

    /// The length bits of NR11/NR21 alone, as written while the APU is powered off.
    pub fn write_length(&mut self, value: u8)
        requires
            old(self).wf(),
        ensures
            final(self).wf(),
            *final(self) == (PulseChannel { length_counter: (64 - (value & 0x3F)) as u16, ..*old(self) }),
    {
        proof {
            lemma_byte_fields(value);
        }
        self.length_counter = 64 - (value & 0x3F) as u16;
    }

    pub fn read_envelope(&self) -> (r: u8)
        requires
            self.wf(),
        ensures
            r == (self.envelope_initial << 4) | (if self.envelope_direction { 0x08u8 } else { 0 }) | self.envelope_period,
    {
        (self.envelope_initial << 4) | (if self.envelope_direction { 0x08u8 } else { 0x00u8 }) | self.envelope_period
    }

    /// NR12/NR22; a zero upper five bits turn the DAC, and the channel, off.
    pub fn write_envelope(&mut self, value: u8)
        requires
            old(self).wf(),
        ensures
            final(self).wf(),
            *final(self) == (PulseChannel {
                envelope_initial: (value >> 4) & 0x0F,
                envelope_direction: value & 0x08 != 0,
                envelope_period: value & 0x07,
                dac_enabled: value & 0xF8 != 0,
                enabled: if value & 0xF8 == 0 { false } else { old(self).enabled },
                ..*old(self)
            }),
    {
        proof {
            lemma_byte_fields(value);
        }
        self.envelope_initial = (value >> 4) & 0x0F;
        self.envelope_direction = value & 0x08 != 0;
        self.envelope_period = value & 0x07;
        self.dac_enabled = value & 0xF8 != 0;
        if !self.dac_enabled {
            self.enabled = false;
        }
    }

    /// NR13/NR23: the low eight frequency bits.
    pub fn write_frequency_low(&mut self, value: u8)
        requires
            old(self).wf(),
        ensures
            final(self).wf(),
            *final(self) == (PulseChannel { frequency: (old(self).frequency & 0x700) | value as u16, ..*old(self) }),
    {
        let f = self.frequency;
        proof {
            lemma_frequency_bytes(f, value as u16);
        }
        self.frequency = (f & 0x700) | value as u16;
    }

    /// NR14/NR24: only the length-enable bit reads back.
    pub fn read_frequency_high(&self) -> (r: u8)
        ensures
            r == 0xBF | (if self.length_enabled { 0x40u8 } else { 0 }),
    {
        0xBF | (if self.length_enabled { 0x40u8 } else { 0x00u8 })
    }

    /// NR14/NR24: length enable, frequency bits 10-8, and trigger in bit 7.
    pub fn write_frequency_high(&mut self, value: u8)
        requires
            old(self).wf(),
        ensures
            final(self).wf(),
            ({
                let c = PulseChannel {
                    length_enabled: value & 0x40 != 0,
                    frequency: (old(self).frequency & 0x00FF) | ((value as u16 & 0x07) << 8),
                    ..*old(self)
                };
                *final(self) == if value & 0x80 != 0 { c.triggered() } else { c }
            }),
    {
        self.length_enabled = value & 0x40 != 0;
        let f = self.frequency;
        let v = value as u16;
        proof {
            lemma_frequency_bytes(f, v);
        }
        self.frequency = (f & 0x00FF) | ((v & 0x07) << 8);
        if value & 0x80 != 0 {
            self.trigger();
        }
    }

    fn trigger(&mut self)
        requires
            old(self).wf(),
        ensures
            final(self).wf(),
            *final(self) == old(self).triggered(),
    {
        self.enabled = self.dac_enabled;
        if self.length_counter == 0 {
            self.length_counter = 64;
        }
        self.frequency_timer = (2048 - self.frequency) * 4;
        self.volume = self.envelope_initial;
        self.envelope_timer = if self.envelope_period == 0 { 8 } else { self.envelope_period };
        if self.has_sweep {
            self.sweep_shadow = self.frequency;
            self.sweep_timer = if self.sweep_period == 0 { 8 } else { self.sweep_period };
            self.sweep_enabled = self.sweep_period != 0 || self.sweep_shift != 0;
            self.sweep_negate_used = false;
            if self.sweep_shift != 0 {
                let new_freq = self.calculate_sweep_frequency();
                if new_freq > 2047 {
                    self.enabled = false;
                }
            }
        }
    }

    fn calculate_sweep_frequency(&mut self) -> (r: u16)
        requires
            old(self).wf(),
        ensures
            final(self).wf(),
            (*final(self), r) == old(self).sweep_target(),
            r <= 4094,
    {
        let shadow = self.sweep_shadow;
        let shift = self.sweep_shift;
        assert(shadow <= 0x7FF && shift <= 7 ==> shadow >> shift <= shadow) by (bit_vector);
        let shifted = shadow >> shift;
        if self.sweep_negate {
            self.sweep_negate_used = true;
            shadow - shifted
        } else {
            shadow + shifted
        }
    }

    /// A sweep clock from the frame sequencer (channel 1 only).
    pub fn clock_sweep(&mut self)
        requires
            old(self).wf(),
        ensures
            final(self).wf(),
            *final(self) == old(self).sweep_clocked(),
    {
        if !self.has_sweep {
            return;
        }
        self.sweep_timer = self.sweep_timer.saturating_sub(1);
        if self.sweep_timer == 0 {
            self.sweep_timer = if self.sweep_period == 0 { 8 } else { self.sweep_period };
            if self.sweep_enabled && self.sweep_period != 0 {
                let new_freq = self.calculate_sweep_frequency();
                if new_freq > 2047 {
                    self.enabled = false;
                } else if self.sweep_shift != 0 {
                    self.sweep_shadow = new_freq;
                    self.frequency = new_freq;
                    let check_freq = self.calculate_sweep_frequency();
                    if check_freq > 2047 {
                        self.enabled = false;
                    }
                }
            }
        }
    }

    /// A length clock: a counter that runs out disables the channel.
    pub fn clock_length(&mut self)
        requires
            old(self).wf(),
        ensures
            final(self).wf(),
            *final(self) == old(self).length_clocked(),
    {
        if self.length_enabled && self.length_counter > 0 {
            self.length_counter = self.length_counter - 1;
            if self.length_counter == 0 {
                self.enabled = false;
            }
        }
    }

    /// An envelope clock: every `period` clocks the volume moves one step, within 0..=15.
    pub fn clock_envelope(&mut self)
        requires
            old(self).wf(),
        ensures
            final(self).wf(),
            *final(self) == old(self).envelope_clocked(),
    {
        if self.envelope_period == 0 {
            return;
        }
        self.envelope_timer = self.envelope_timer.saturating_sub(1);
        if self.envelope_timer == 0 {
            self.envelope_timer = self.envelope_period;
            if self.envelope_direction && self.volume < 15 {
                self.volume = self.volume + 1;
            } else if !self.envelope_direction && self.volume > 0 {
                self.volume = self.volume - 1;
            }
        }
    }

    /// One machine cycle: on timer expiry the duty step advances.
    pub fn tick(&mut self)
        requires
            old(self).wf(),
        ensures
            final(self).wf(),
            *final(self) == old(self).ticked(),
    {
        if self.frequency_timer > 0 {
            self.frequency_timer = self.frequency_timer - 1;
        }
        if self.frequency_timer == 0 {
            self.frequency_timer = (2048 - self.frequency) * 4;
            let d = self.duty_position;
            assert(d <= 7 ==> ((d + 1) as u8) & 0x07 == ((d + 1) % 8) as u8) by (bit_vector);
            self.duty_position = (d + 1) & 0x07;
        }
    }

    /// The 4-bit output: the volume while the duty waveform is high.
    pub fn output(&self) -> (r: u8)
        requires
            self.wf(),
        ensures
            r == self.output_spec(),
            r <= 15,
    {
        if !self.enabled || !self.dac_enabled {
            return 0;
        }
        let wave = duty_table(self.duty, self.duty_position);
        if wave != 0 {
            self.volume
        } else {
            0
        }
    }
}

} // verus!
