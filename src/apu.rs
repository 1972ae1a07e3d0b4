use vstd::prelude::*;

pub mod noise;
pub mod pulse;
pub mod wave;

use noise::NoiseChannel;
use pulse::PulseChannel;
use wave::WaveChannel;

verus! {

/// Machine cycles per frame-sequencer step (512 Hz).
pub const FRAME_SEQUENCER_PERIOD: u16 = 8192;

/// Machine cycles per second.
pub const CPU_FREQUENCY: u32 = 4_194_304;

/// A channel's DAC output scaled by 7.5: 2v - 15 when the DAC is on, else 0.
pub open spec fn dac_level(dac_enabled: bool, v: u8) -> int {
    if dac_enabled { 2 * v - 15 } else { 0 }
}

/// The sum of the channel levels that a panning byte routes to one side.
#[verifier::opaque]
pub open spec fn side_sum(p: u8, m1: u8, m2: u8, m3: u8, m4: u8, c1: int, c2: int, c3: int, c4: int) -> int {
    (if p & m1 != 0 { c1 } else { 0 }) + (if p & m2 != 0 { c2 } else { 0 }) + (if p & m3 != 0 { c3 } else { 0 })
        + (if p & m4 != 0 { c4 } else { 0 })
}

/// A side's sum times its master volume plus one.
#[verifier::opaque]
pub open spec fn scaled(sum: int, volume: u8) -> int {
    sum * (volume + 1)
}

/// Everything of the APU but its sample buffer.
#[derive(Clone, Copy)]
pub struct ApuState {
    pub channel1: PulseChannel,
    pub channel2: PulseChannel,
    pub channel3: WaveChannel,
    pub channel4: NoiseChannel,
    pub vin_left: bool,
    pub left_volume: u8,
    pub vin_right: bool,
    pub right_volume: u8,
    pub panning: u8,
    pub power: bool,
    pub frame_sequencer_timer: u16,
    pub frame_sequencer_step: u8,
    pub downsample_counter: u32,
    pub sample_rate: u32,
}

/// The audio unit: four channels, the frame sequencer, the mixer and a buffer of stereo samples.
///
/// Samples are interleaved left/right and held as multiples of 1/480: a stored `s` stands for
/// the level `s / 480`, which is the sum of the panned DAC outputs (each `v / 7.5 - 1`), scaled
/// by `(volume + 1) / 8` and divided by four.
pub struct Apu {
    pub channel1: PulseChannel,
    pub channel2: PulseChannel,
    pub channel3: WaveChannel,
    pub channel4: NoiseChannel,
    pub vin_left: bool,
    pub left_volume: u8,
    pub vin_right: bool,
    pub right_volume: u8,
    pub panning: u8,
    pub power: bool,
    pub frame_sequencer_timer: u16,
    pub frame_sequencer_step: u8,
    pub sample_buffer: Vec<i16>,
    pub downsample_counter: u32,
    pub sample_rate: u32,
}

impl ApuState {
    pub open spec fn wf(&self) -> bool {
        &&& self.channel1.wf()
        &&& self.channel2.wf()
        &&& self.channel3.wf()
        &&& self.channel4.wf()
        &&& self.left_volume <= 7
        &&& self.right_volume <= 7
        &&& 1 <= self.frame_sequencer_timer <= 8192
        &&& self.frame_sequencer_step <= 7
        &&& self.downsample_counter < CPU_FREQUENCY
        &&& self.sample_rate <= CPU_FREQUENCY
        &&& !self.power ==> !self.channel1.enabled && !self.channel2.enabled && !self.channel3.enabled
            && !self.channel4.enabled
    }

    /// The status register NR52.
    pub open spec fn nr52(&self) -> u8 {
        0x70 | (if self.power { 0x80u8 } else { 0 }) | (if self.channel4.enabled { 0x08u8 } else { 0 }) | (
        if self.channel3.enabled { 0x04u8 } else { 0 }) | (if self.channel2.enabled { 0x02u8 } else { 0 }) | (
        if self.channel1.enabled { 0x01u8 } else { 0 })
    }

    /// The left and right mixed levels, in units of 1/480.
    pub open spec fn mix(&self) -> (int, int) {
        let c1 = dac_level(self.channel1.dac_enabled, self.channel1.output_spec());
        let c2 = dac_level(self.channel2.dac_enabled, self.channel2.output_spec());
        let c3 = dac_level(self.channel3.dac_enabled, self.channel3.output_spec());
        let c4 = dac_level(self.channel4.dac_enabled, self.channel4.output_spec());
        let p = self.panning;
        (
            scaled(side_sum(p, 0x10, 0x20, 0x40, 0x80, c1, c2, c3, c4), self.left_volume),
            scaled(side_sum(p, 0x01, 0x02, 0x04, 0x08, c1, c2, c3, c4), self.right_volume),
        )
    }

    /// The state after one frame-sequencer step.
    pub open spec fn sequenced(self) -> ApuState {
        let s = self.frame_sequencer_step;
        let lengths = s == 0 || s == 2 || s == 4 || s == 6;
        let a = if lengths {
            ApuState {
                channel1: self.channel1.length_clocked(),
                channel2: self.channel2.length_clocked(),
                channel3: if self.channel3.length_enabled && self.channel3.length_counter > 0 {
                    WaveChannel {
                        length_counter: (self.channel3.length_counter - 1) as u16,
                        enabled: if self.channel3.length_counter == 1 { false } else { self.channel3.enabled },
                        ..self.channel3
                    }
                } else {
                    self.channel3
                },
                channel4: if self.channel4.length_enabled && self.channel4.length_counter > 0 {
                    NoiseChannel {
                        length_counter: (self.channel4.length_counter - 1) as u16,
                        enabled: if self.channel4.length_counter == 1 { false } else { self.channel4.enabled },
                        ..self.channel4
                    }
                } else {
                    self.channel4
                },
                ..self
            }
        } else {
            self
        };
        let b = if s == 2 || s == 6 { ApuState { channel1: a.channel1.sweep_clocked(), ..a } } else { a };
        let c = if s == 7 {
            ApuState {
                channel1: b.channel1.envelope_clocked(),
                channel2: b.channel2.envelope_clocked(),
                channel4: b.channel4.envelope_clocked(),
                ..b
            }
        } else {
            b
        };
        ApuState { frame_sequencer_step: ((s + 1) % 8) as u8, ..c }
    }

    /// The state one machine cycle later (before any sample is taken), and whether a sample is due.
    pub open spec fn ticked(self) -> (ApuState, bool) {
        if !self.power {
            (self, false)
        } else {
            let t = ApuState {
                channel1: self.channel1.ticked(),
                channel2: self.channel2.ticked(),
                channel3: self.channel3.ticked(),
                channel4: self.channel4.ticked(),
                ..self
            };
            let timer = (self.frame_sequencer_timer - 1) as u16;
            let u = if timer == 0 {
                ApuState { frame_sequencer_timer: 8192, ..t }.sequenced()
            } else {
                ApuState { frame_sequencer_timer: timer, ..t }
            };
            let d = self.downsample_counter + self.sample_rate;
            if d >= CPU_FREQUENCY {
                (ApuState { downsample_counter: (d - CPU_FREQUENCY) as u32, ..u }, true)
            } else {
                (ApuState { downsample_counter: d as u32, ..u }, false)
            }
        }
    }

    /// The state after power-off: channels reset with the wave table kept, master volume and panning cleared.
    pub open spec fn powered_off(self) -> ApuState {
        ApuState {
            channel1: PulseChannel::initial(true),
            channel2: PulseChannel::initial(false),
            channel3: WaveChannel {
                enabled: false,
                dac_enabled: false,
                length_counter: 0,
                length_enabled: false,
                output_level: 0,
                frequency: 0,
                frequency_timer: 0,
                sample_position: 0,
                sample_buffer: 0,
                ..self.channel3
            },
            channel4: NoiseChannel::initial(),
            vin_left: false,
            left_volume: 0,
            vin_right: false,
            right_volume: 0,
            panning: 0,
            ..self
        }
    }

    /// The state after a write to NR52.
    pub open spec fn after_nr52(self, value: u8) -> ApuState {
        let on = value & 0x80 != 0;
        if self.power && !on {
            ApuState { power: false, ..self.powered_off() }
        } else if !self.power && on {
            ApuState { power: true, frame_sequencer_step: 0, ..self }
        } else {
            ApuState { power: on, ..self }
        }
    }

    /// What a read of an APU register returns.
    pub open spec fn read_spec(&self, addr: u16) -> u8 {
        if !self.power && addr != 0xFF26 {
            if 0xFF30 <= addr <= 0xFF3F { self.channel3.wave_ram@[addr - 0xFF30] } else { 0xFF }
        } else if addr == 0xFF10 {
            0x80 | (self.channel1.sweep_period << 4) | (if self.channel1.sweep_negate { 0x08u8 } else { 0 })
                | self.channel1.sweep_shift
        } else if addr == 0xFF11 {
            (self.channel1.duty << 6) | 0x3F
        } else if addr == 0xFF12 {
            (self.channel1.envelope_initial << 4) | (if self.channel1.envelope_direction { 0x08u8 } else { 0 })
                | self.channel1.envelope_period
        } else if addr == 0xFF14 {
            0xBF | (if self.channel1.length_enabled { 0x40u8 } else { 0 })
        } else if addr == 0xFF16 {
            (self.channel2.duty << 6) | 0x3F
        } else if addr == 0xFF17 {
            (self.channel2.envelope_initial << 4) | (if self.channel2.envelope_direction { 0x08u8 } else { 0 })
                | self.channel2.envelope_period
        } else if addr == 0xFF19 {
            0xBF | (if self.channel2.length_enabled { 0x40u8 } else { 0 })
        } else if addr == 0xFF1A {
            0x7F | (if self.channel3.dac_enabled { 0x80u8 } else { 0 })
        } else if addr == 0xFF1C {
            0x9F | (self.channel3.output_level << 5)
        } else if addr == 0xFF1E {
            0xBF | (if self.channel3.length_enabled { 0x40u8 } else { 0 })
        } else if addr == 0xFF21 {
            (self.channel4.envelope_initial << 4) | (if self.channel4.envelope_direction { 0x08u8 } else { 0 })
                | self.channel4.envelope_period
        } else if addr == 0xFF22 {
            (self.channel4.clock_shift << 4) | (if self.channel4.width_mode { 0x08u8 } else { 0 })
                | self.channel4.divisor_code
        } else if addr == 0xFF23 {
            0xBF | (if self.channel4.length_enabled { 0x40u8 } else { 0 })
        } else if addr == 0xFF24 {
            (if self.vin_left { 0x80u8 } else { 0 }) | (self.left_volume << 4) | (if self.vin_right { 0x08u8 } else { 0 })
                | self.right_volume
        } else if addr == 0xFF25 {
            self.panning
        } else if addr == 0xFF26 {
            self.nr52()
        } else if 0xFF30 <= addr <= 0xFF3F {
            self.channel3.wave_ram@[addr - 0xFF30]
        } else {
            0xFF
        }
    }
}


/// A square channel after a write to its register `reg` (0 sweep, 1 length/duty, 2 envelope,
/// 3 frequency low, 4 frequency high with trigger).
pub open spec fn pulse_written(c: PulseChannel, reg: int, value: u8) -> PulseChannel {
    if reg == 0 {
        PulseChannel {
            sweep_period: (value >> 4) & 0x07,
            sweep_negate: value & 0x08 != 0,
            sweep_shift: value & 0x07,
            enabled: if c.sweep_negate && value & 0x08 == 0 && c.sweep_negate_used { false } else { c.enabled },
            ..c
        }
    } else if reg == 1 {
        PulseChannel { duty: (value >> 6) & 0x03, length_counter: (64 - (value & 0x3F)) as u16, ..c }
    } else if reg == 2 {
        PulseChannel {
            envelope_initial: (value >> 4) & 0x0F,
            envelope_direction: value & 0x08 != 0,
            envelope_period: value & 0x07,
            dac_enabled: value & 0xF8 != 0,
            enabled: if value & 0xF8 == 0 { false } else { c.enabled },
            ..c
        }
    } else if reg == 3 {
        PulseChannel { frequency: (c.frequency & 0x700) | value as u16, ..c }
    } else {
        let d = PulseChannel {
            length_enabled: value & 0x40 != 0,
            frequency: (c.frequency & 0x00FF) | ((value as u16 & 0x07) << 8),
            ..c
        };
        if value & 0x80 != 0 { d.triggered() } else { d }
    }
}

/// The wave channel after a write to its register `reg` (0 DAC, 1 length, 2 level,
/// 3 frequency low, 4 frequency high with trigger).
pub open spec fn wave_written(c: WaveChannel, reg: int, value: u8) -> WaveChannel {
    if reg == 0 {
        WaveChannel { dac_enabled: value & 0x80 != 0, enabled: if value & 0x80 == 0 { false } else { c.enabled }, ..c }
    } else if reg == 1 {
        WaveChannel { length_counter: (256 - value) as u16, ..c }
    } else if reg == 2 {
        WaveChannel { output_level: (value >> 5) & 0x03, ..c }
    } else if reg == 3 {
        WaveChannel { frequency: (c.frequency & 0x700) | value as u16, ..c }
    } else {
        let d = WaveChannel {
            length_enabled: value & 0x40 != 0,
            frequency: (c.frequency & 0x00FF) | ((value as u16 & 0x07) << 8),
            ..c
        };
        if value & 0x80 != 0 { d.triggered() } else { d }
    }
}

/// The noise channel after a write to its register `reg` (1 length, 2 envelope, 3 polynomial,
/// 4 control with trigger).
pub open spec fn noise_written(c: NoiseChannel, reg: int, value: u8) -> NoiseChannel {
    if reg == 1 {
        NoiseChannel { length_counter: (64 - (value & 0x3F)) as u16, ..c }
    } else if reg == 2 {
        NoiseChannel {
            envelope_initial: (value >> 4) & 0x0F,
            envelope_direction: value & 0x08 != 0,
            envelope_period: value & 0x07,
            dac_enabled: value & 0xF8 != 0,
            enabled: if value & 0xF8 == 0 { false } else { c.enabled },
            ..c
        }
    } else if reg == 3 {
        NoiseChannel {
            clock_shift: (value >> 4) & 0x0F,
            width_mode: value & 0x08 != 0,
            divisor_code: value & 0x07,
            ..c
        }
    } else {
        let d = NoiseChannel { length_enabled: value & 0x40 != 0, ..c };
        if value & 0x80 != 0 { d.triggered() } else { d }
    }
}

impl ApuState {
    /// The state after a write to a register other than the wave table.
    pub open spec fn written(self, addr: u16, value: u8) -> ApuState {
        if addr == 0xFF26 {
            self.after_nr52(value)
        } else if !self.power {
            if addr == 0xFF11 {
                ApuState { channel1: PulseChannel { length_counter: (64 - (value & 0x3F)) as u16, ..self.channel1 }, ..self }
            } else if addr == 0xFF16 {
                ApuState { channel2: PulseChannel { length_counter: (64 - (value & 0x3F)) as u16, ..self.channel2 }, ..self }
            } else if addr == 0xFF1B {
                ApuState { channel3: wave_written(self.channel3, 1, value), ..self }
            } else if addr == 0xFF20 {
                ApuState { channel4: noise_written(self.channel4, 1, value), ..self }
            } else {
                self
            }
        } else if 0xFF10 <= addr <= 0xFF14 {
            ApuState { channel1: pulse_written(self.channel1, addr - 0xFF10, value), ..self }
        } else if 0xFF16 <= addr <= 0xFF19 {
            ApuState { channel2: pulse_written(self.channel2, addr - 0xFF15, value), ..self }
        } else if 0xFF1A <= addr <= 0xFF1E {
            ApuState { channel3: wave_written(self.channel3, addr - 0xFF1A, value), ..self }
        } else if 0xFF20 <= addr <= 0xFF23 {
            ApuState { channel4: noise_written(self.channel4, addr - 0xFF1F, value), ..self }
        } else if addr == 0xFF24 {
            ApuState {
                vin_left: value & 0x80 != 0,
                left_volume: (value >> 4) & 0x07,
                vin_right: value & 0x08 != 0,
                right_volume: value & 0x07,
                ..self
            }
        } else if addr == 0xFF25 {
            ApuState { panning: value, ..self }
        } else {
            self
        }
    }
}

/// Writing 0 to bit 7 of NR52 leaves every channel disabled and the wave table as it was.
pub proof fn lemma_power_off_clears_channels(s: ApuState, value: u8)
    requires
        s.wf(),
        value & 0x80 == 0,
    ensures
        !s.after_nr52(value).channel1.enabled,
        !s.after_nr52(value).channel2.enabled,
        !s.after_nr52(value).channel3.enabled,
        !s.after_nr52(value).channel4.enabled,
        s.after_nr52(value).nr52() & 0x0F == 0,
        s.after_nr52(value).channel3.wave_ram == s.channel3.wave_ram,
{
    let t = s.after_nr52(value);
    assert(t.nr52() == 0x70u8 | 0u8 | 0u8 | 0u8 | 0u8 | 0u8);
    assert((0x70u8 | 0u8 | 0u8 | 0u8 | 0u8 | 0u8) & 0x0F == 0) by (bit_vector);
}

impl Apu {
    pub open spec fn state(&self) -> ApuState {
        ApuState {
            channel1: self.channel1,
            channel2: self.channel2,
            channel3: self.channel3,
            channel4: self.channel4,
            vin_left: self.vin_left,
            left_volume: self.left_volume,
            vin_right: self.vin_right,
            right_volume: self.right_volume,
            panning: self.panning,
            power: self.power,
            frame_sequencer_timer: self.frame_sequencer_timer,
            frame_sequencer_step: self.frame_sequencer_step,
            downsample_counter: self.downsample_counter,
            sample_rate: self.sample_rate,
        }
    }

    pub open spec fn wf(&self) -> bool {
        self.state().wf()
    }

    /// Powered off, all channels at their power-on state, 44.1 kHz output.
    pub fn new() -> (r: Self)
        ensures
            r.wf(),
            !r.power,
            r.channel1 == PulseChannel::initial(true),
            r.channel2 == PulseChannel::initial(false),
            r.channel4 == NoiseChannel::initial(),
            !r.channel3.enabled && !r.channel3.dac_enabled,
            r.left_volume == 0 && r.right_volume == 0 && r.panning == 0,
            r.sample_buffer@.len() == 0,
            r.sample_rate == 44100,
    {
        Apu {
            channel1: PulseChannel::new(true),
            channel2: PulseChannel::new(false),
            channel3: WaveChannel::new(),
            channel4: NoiseChannel::new(),
            vin_left: false,
            left_volume: 0,
            vin_right: false,
            right_volume: 0,
            panning: 0,
            power: false,
            frame_sequencer_timer: FRAME_SEQUENCER_PERIOD,
            frame_sequencer_step: 0,
            sample_buffer: Vec::new(),
            downsample_counter: 0,
            sample_rate: 44100,
        }
    }

    /// One machine cycle: channels, frame sequencer, and a mixed sample whenever the output rate is due.
    pub fn tick(&mut self)
        requires
            old(self).wf(),
        ensures
            final(self).wf(),
            ({
                let (s, due) = old(self).state().ticked();
                &&& final(self).state() == s
                &&& final(self).sample_buffer@ == if due {
                    old(self).sample_buffer@.push(s.mix().0 as i16).push(s.mix().1 as i16)
                } else {
                    old(self).sample_buffer@
                }
            }),
    {
        if !self.power {
            return;
        }
        self.channel1.tick();
        self.channel2.tick();
        self.channel3.tick();
        self.channel4.tick();
        self.frame_sequencer_timer = self.frame_sequencer_timer - 1;
        if self.frame_sequencer_timer == 0 {
            self.frame_sequencer_timer = FRAME_SEQUENCER_PERIOD;
            self.clock_frame_sequencer();
        }
        self.downsample_counter = self.downsample_counter + self.sample_rate;
        if self.downsample_counter >= CPU_FREQUENCY {
            self.downsample_counter = self.downsample_counter - CPU_FREQUENCY;
            self.generate_sample();
        }
    }

    /// Steps 0, 2, 4, 6 clock lengths; 2 and 6 also the sweep; 7 the envelopes.
    fn clock_frame_sequencer(&mut self)
        requires
            old(self).wf(),
        ensures
            final(self).wf(),
            final(self).state() == old(self).state().sequenced(),
            final(self).sample_buffer == old(self).sample_buffer,
    {
        let step = self.frame_sequencer_step;
        if step == 0 || step == 2 || step == 4 || step == 6 {
            self.channel1.clock_length();
            self.channel2.clock_length();
            self.channel3.clock_length();
            self.channel4.clock_length();
        }
        if step == 2 || step == 6 {
            self.channel1.clock_sweep();
        }
        if step == 7 {
            self.channel1.clock_envelope();
            self.channel2.clock_envelope();
            self.channel4.clock_envelope();
        }
        assert(step <= 7 ==> ((step + 1) as u8) & 0x07 == ((step + 1) % 8) as u8) by (bit_vector);
        self.frame_sequencer_step = (step + 1) & 0x07;
    }

    /// Mixes the four channels and appends one left/right pair.
    fn generate_sample(&mut self)
        requires
            old(self).wf(),
        ensures
            final(self).state() == old(self).state(),
            final(self).sample_buffer@ == old(self).sample_buffer@.push(old(self).state().mix().0 as i16).push(
                old(self).state().mix().1 as i16,
            ),
    {
        let (l, r) = self.mix_levels();
        self.sample_buffer.push(l);
        self.sample_buffer.push(r);
    }

    /// The current left and right mixed levels.
    fn mix_levels(&self) -> (r: (i16, i16))
        requires
            self.wf(),
        ensures
            r.0 as int == self.state().mix().0,
            r.1 as int == self.state().mix().1,
    {
        let (c1, c2, c3, c4) = self.levels();
        let p = self.panning;
        let left = Self::side(p, 0x10, 0x20, 0x40, 0x80, c1, c2, c3, c4);
        let right = Self::side(p, 0x01, 0x02, 0x04, 0x08, c1, c2, c3, c4);
        let l = Self::scale(left, self.left_volume);
        let r = Self::scale(right, self.right_volume);
        (l, r)
    }

    /// The DAC levels of the four channels.
    fn levels(&self) -> (r: (i16, i16, i16, i16))
        requires
            self.wf(),
        ensures
            r.0 == dac_level(self.channel1.dac_enabled, self.channel1.output_spec()),
            r.1 == dac_level(self.channel2.dac_enabled, self.channel2.output_spec()),
            r.2 == dac_level(self.channel3.dac_enabled, self.channel3.output_spec()),
            r.3 == dac_level(self.channel4.dac_enabled, self.channel4.output_spec()),
            -15 <= r.0 <= 15 && -15 <= r.1 <= 15 && -15 <= r.2 <= 15 && -15 <= r.3 <= 15,
    {
        let c1 = Self::dac(self.channel1.dac_enabled, self.channel1.output());
        let c2 = Self::dac(self.channel2.dac_enabled, self.channel2.output());
        let c3 = Self::dac(self.channel3.dac_enabled, self.channel3.output());
        let c4 = Self::dac(self.channel4.dac_enabled, self.channel4.output());
        (c1, c2, c3, c4)
    }

    /// The sum of the channel levels that a panning byte routes to one side.
    fn side(p: u8, m1: u8, m2: u8, m3: u8, m4: u8, c1: i16, c2: i16, c3: i16, c4: i16) -> (r: i16)
        requires
            -15 <= c1 <= 15,
            -15 <= c2 <= 15,
            -15 <= c3 <= 15,
            -15 <= c4 <= 15,
        ensures
            r == side_sum(p, m1, m2, m3, m4, c1 as int, c2 as int, c3 as int, c4 as int),
            -60 <= r <= 60,
    {
        reveal(side_sum);
        let mut sum: i16 = 0;
        if p & m1 != 0 {
            sum = sum + c1;
        }
        if p & m2 != 0 {
            sum = sum + c2;
        }
        if p & m3 != 0 {
            sum = sum + c3;
        }
        if p & m4 != 0 {
            sum = sum + c4;
        }
        sum
    }

    /// A side's sum times its master volume plus one.
    fn scale(sum: i16, volume: u8) -> (r: i16)
        requires
            -60 <= sum <= 60,
            volume <= 7,
        ensures
            r == scaled(sum as int, volume),
    {
        reveal(scaled);
        let v = volume as i16 + 1;
        assert(-480 <= sum * v <= 480) by (nonlinear_arith)
            requires
                -60 <= sum <= 60,
                1 <= v <= 8,
        ;
        sum * v
    }

    /// A channel's DAC level times 7.5.
    fn dac(dac_enabled: bool, v: u8) -> (r: i16)
        requires
            v <= 15,
        ensures
            r == dac_level(dac_enabled, v),
            -15 <= r <= 15,
    {
        if dac_enabled {
            2 * (v as i16) - 15
        } else {
            0
        }
    }

    /// Reads an APU register; while powered off only NR52 and the wave table read back.
    pub fn read(&self, addr: u16) -> (r: u8)
        requires
            self.wf(),
        ensures
            r == self.state().read_spec(addr),
    {
        if !self.power && addr != 0xFF26 {
            if 0xFF30 <= addr && addr <= 0xFF3F {
                return self.channel3.read_wave_ram(addr);
            }
            return 0xFF;
        }
        match addr {
            0xFF10 => self.channel1.read_sweep(),
            0xFF11 => self.channel1.read_length_duty(),
            0xFF12 => self.channel1.read_envelope(),
            0xFF14 => self.channel1.read_frequency_high(),
            0xFF16 => self.channel2.read_length_duty(),
            0xFF17 => self.channel2.read_envelope(),
            0xFF19 => self.channel2.read_frequency_high(),
            0xFF1A => self.channel3.read_dac(),
            0xFF1C => self.channel3.read_output_level(),
            0xFF1E => self.channel3.read_frequency_high(),
            0xFF21 => self.channel4.read_envelope(),
            0xFF22 => self.channel4.read_polynomial(),
            0xFF23 => self.channel4.read_control(),
            0xFF24 => self.read_nr50(),
            0xFF25 => self.panning,
            0xFF26 => self.read_nr52(),
            _ => {
                if 0xFF30 <= addr && addr <= 0xFF3F {
                    self.channel3.read_wave_ram(addr)
                } else {
                    0xFF
                }
            },
        }
    }

    fn read_nr50(&self) -> (r: u8)
        ensures
            r == (if self.vin_left { 0x80u8 } else { 0 }) | (self.left_volume << 4) | (if self.vin_right {
                0x08u8
            } else {
                0
            }) | self.right_volume,
    {
        (if self.vin_left { 0x80u8 } else { 0x00u8 }) | (self.left_volume << 4) | (if self.vin_right {
            0x08u8
        } else {
            0x00u8
        }) | self.right_volume
    }

    fn write_nr50(&mut self, value: u8)
        requires
            old(self).wf(),
        ensures
            final(self).wf(),
            final(self).state() == (ApuState {
                vin_left: value & 0x80 != 0,
                left_volume: (value >> 4) & 0x07,
                vin_right: value & 0x08 != 0,
                right_volume: value & 0x07,
                ..old(self).state()
            }),
            final(self).sample_buffer == old(self).sample_buffer,
    {
        proof {
            crate::bits::lemma_byte_fields(value);
        }
        self.vin_left = value & 0x80 != 0;
        self.left_volume = (value >> 4) & 0x07;
        self.vin_right = value & 0x08 != 0;
        self.right_volume = value & 0x07;
    }

    fn read_nr52(&self) -> (r: u8)
        ensures
            r == self.state().nr52(),
    {
        0x70 | (if self.power { 0x80u8 } else { 0x00u8 }) | (if self.channel4.enabled { 0x08u8 } else { 0x00u8 }) | (
        if self.channel3.enabled { 0x04u8 } else { 0x00u8 }) | (if self.channel2.enabled { 0x02u8 } else { 0x00u8 }) | (
        if self.channel1.enabled { 0x01u8 } else { 0x00u8 })
    }

    /// NR52: turning power off resets every channel but the wave table; turning it on restarts
    /// the frame sequencer.
    fn write_nr52(&mut self, value: u8)
        requires
            old(self).wf(),
        ensures
            final(self).wf(),
            final(self).state() == old(self).state().after_nr52(value),
            final(self).sample_buffer == old(self).sample_buffer,
    {
        let new_power = value & 0x80 != 0;
        if self.power && !new_power {
            self.power_off();
        } else if !self.power && new_power {
            self.frame_sequencer_step = 0;
        }
        self.power = new_power;
    }

    fn power_off(&mut self)
        requires
            old(self).wf(),
        ensures
            final(self).wf(),
            final(self).state() == old(self).state().powered_off(),
            final(self).sample_buffer == old(self).sample_buffer,
    {
        self.channel1 = PulseChannel::new(true);
        self.channel2 = PulseChannel::new(false);
        let wave_ram_backup = self.channel3.wave_ram;
        self.channel3 = WaveChannel::new();
        self.channel3.wave_ram = wave_ram_backup;
        self.channel4 = NoiseChannel::new();
        self.vin_left = false;
        self.left_volume = 0;
        self.vin_right = false;
        self.right_volume = 0;
        self.panning = 0;
    }

    /// Writes an APU register. The wave table is always writable; while powered off only NR52
    /// and the length registers take writes.
    pub fn write(&mut self, addr: u16, value: u8)
        requires
            old(self).wf(),
        ensures
            final(self).wf(),
            final(self).sample_buffer == old(self).sample_buffer,
            0xFF30 <= addr <= 0xFF3F ==> final(self).channel3.wave_ram@ == old(self).channel3.wave_ram@.update(
                addr - 0xFF30,
                value,
            ) && final(self).channel3.same_regs(&old(self).channel3) && final(self).state() == (ApuState {
                channel3: final(self).channel3,
                ..old(self).state()
            }),
            !(0xFF30 <= addr <= 0xFF3F) ==> final(self).state() == old(self).state().written(addr, value),
    {
        if 0xFF30 <= addr && addr <= 0xFF3F {
            self.channel3.write_wave_ram(addr, value);
            return;
        }
        if addr == 0xFF26 {
            self.write_nr52(value);
            return;
        }
        if !self.power {
            self.write_while_off(addr, value);
            return;
        }
        if 0xFF10 <= addr && addr <= 0xFF14 {
            self.write_square1(addr, value);
        } else if 0xFF16 <= addr && addr <= 0xFF19 {
            self.write_square2(addr, value);
        } else if 0xFF1A <= addr && addr <= 0xFF1E {
            self.write_wave(addr, value);
        } else if 0xFF20 <= addr && addr <= 0xFF23 {
            self.write_noise(addr, value);
        } else if addr == 0xFF24 {
            self.write_nr50(value);
        } else if addr == 0xFF25 {
            self.panning = value;
        }
    }

    /// While powered off only the length registers take writes, and of NR11/NR21 only the
    /// length bits.
    fn write_while_off(&mut self, addr: u16, value: u8)
        requires
            old(self).wf(),
            !old(self).power,
            addr != 0xFF26,
        ensures
            final(self).wf(),
            final(self).sample_buffer == old(self).sample_buffer,
            final(self).state() == old(self).state().written(addr, value),
    {
        proof {
            crate::bits::lemma_byte_fields(value);
        }
        if addr == 0xFF11 {
            self.channel1.write_length(value);
        } else if addr == 0xFF16 {
            self.channel2.write_length(value);
        } else if addr == 0xFF1B {
            self.channel3.write_length(value);
        } else if addr == 0xFF20 {
            self.channel4.write_length(value);
        }
    }

    #[verifier::rlimit(100)]
    fn write_square1(&mut self, addr: u16, value: u8)
        requires
            old(self).wf(),
            old(self).power,
            0xFF10 <= addr <= 0xFF14,
        ensures
            final(self).wf(),
            final(self).sample_buffer == old(self).sample_buffer,
            final(self).state() == old(self).state().written(addr, value),
    {
        if addr == 0xFF10 {
            self.channel1.write_sweep(value);
        } else if addr == 0xFF11 {
            self.channel1.write_length_duty(value);
        } else if addr == 0xFF12 {
            self.channel1.write_envelope(value);
        } else if addr == 0xFF13 {
            self.channel1.write_frequency_low(value);
        } else {
            self.channel1.write_frequency_high(value);
        }
    }

    #[verifier::rlimit(100)]
    fn write_square2(&mut self, addr: u16, value: u8)
        requires
            old(self).wf(),
            old(self).power,
            0xFF16 <= addr <= 0xFF19,
        ensures
            final(self).wf(),
            final(self).sample_buffer == old(self).sample_buffer,
            final(self).state() == old(self).state().written(addr, value),
    {
        if addr == 0xFF16 {
            self.channel2.write_length_duty(value);
        } else if addr == 0xFF17 {
            self.channel2.write_envelope(value);
        } else if addr == 0xFF18 {
            self.channel2.write_frequency_low(value);
        } else {
            self.channel2.write_frequency_high(value);
        }
    }

    fn write_wave(&mut self, addr: u16, value: u8)
        requires
            old(self).wf(),
            old(self).power,
            0xFF1A <= addr <= 0xFF1E,
        ensures
            final(self).wf(),
            final(self).sample_buffer == old(self).sample_buffer,
            final(self).state() == old(self).state().written(addr, value),
    {
        if addr == 0xFF1A {
            self.channel3.write_dac(value);
        } else if addr == 0xFF1B {
            self.channel3.write_length(value);
        } else if addr == 0xFF1C {
            self.channel3.write_output_level(value);
        } else if addr == 0xFF1D {
            self.channel3.write_frequency_low(value);
        } else {
            self.channel3.write_frequency_high(value);
        }
    }

    fn write_noise(&mut self, addr: u16, value: u8)
        requires
            old(self).wf(),
            old(self).power,
            0xFF20 <= addr <= 0xFF23,
        ensures
            final(self).wf(),
            final(self).sample_buffer == old(self).sample_buffer,
            final(self).state() == old(self).state().written(addr, value),
    {
        if addr == 0xFF20 {
            self.channel4.write_length(value);
        } else if addr == 0xFF21 {
            self.channel4.write_envelope(value);
        } else if addr == 0xFF22 {
            self.channel4.write_polynomial(value);
        } else {
            self.channel4.write_control(value);
        }
    }

    /// Takes the samples gathered so far, leaving the buffer empty.
    pub fn drain_samples(&mut self) -> (r: Vec<i16>)
        ensures
            r@ == old(self).sample_buffer@,
            final(self).sample_buffer@.len() == 0,
            final(self).state() == old(self).state(),
    {
        let mut out: Vec<i16> = Vec::new();
        core::mem::swap(&mut out, &mut self.sample_buffer);
        out
    }
}

} // verus!
