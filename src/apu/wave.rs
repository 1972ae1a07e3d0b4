use vstd::prelude::*;

use crate::bits::{lemma_byte_fields, lemma_frequency_bytes};

verus! {

/// The 4-bit sample at a position of the wave table: upper nibble first.
pub open spec fn wave_sample(ram: Seq<u8>, position: u8) -> u8 {
    if position % 2 == 0 {
        (ram[(position / 2) as int] >> 4) & 0x0F
    } else {
        ram[(position / 2) as int] & 0x0F
    }
}

/// The programmable wave channel (channel 3).
#[derive(Clone, Copy)]
pub struct WaveChannel {
    pub enabled: bool,
    pub dac_enabled: bool,
    pub length_counter: u16,
    pub length_enabled: bool,
    /// 0 mute, 1 full, 2 half, 3 quarter.
    pub output_level: u8,
    pub frequency: u16,
    pub frequency_timer: u16,
    /// 32 four-bit samples.
    pub wave_ram: [u8; 16],
    pub sample_position: u8,
    pub sample_buffer: u8,
}

impl WaveChannel {
    pub open spec fn wf(&self) -> bool {
        &&& self.length_counter <= 256
        &&& self.output_level <= 3
        &&& self.frequency <= 0x7FF
        &&& self.frequency_timer <= 4096
        &&& self.sample_position <= 31
        &&& self.sample_buffer <= 15
    }

    /// Everything but the wave table is as in `o`.
    pub open spec fn same_regs(&self, o: &WaveChannel) -> bool {
        &&& self.enabled == o.enabled
        &&& self.dac_enabled == o.dac_enabled
        &&& self.length_counter == o.length_counter
        &&& self.length_enabled == o.length_enabled
        &&& self.output_level == o.output_level
        &&& self.frequency == o.frequency
        &&& self.frequency_timer == o.frequency_timer
        &&& self.sample_position == o.sample_position
        &&& self.sample_buffer == o.sample_buffer
    }

    pub open spec fn output_spec(&self) -> u8 {
        if !self.enabled || !self.dac_enabled {
            0
        } else if self.output_level == 0 {
            0
        } else if self.output_level == 1 {
            self.sample_buffer
        } else if self.output_level == 2 {
            self.sample_buffer >> 1
        } else {
            self.sample_buffer >> 2
        }
    }

    pub fn new() -> (r: Self)
        ensures
            r.wf(),
            !r.enabled && !r.dac_enabled && r.length_counter == 0 && !r.length_enabled,
            r.output_level == 0 && r.frequency == 0 && r.frequency_timer == 0,
            r.sample_position == 0 && r.sample_buffer == 0,
            forall|i: int| 0 <= i < 16 ==> #[trigger] r.wave_ram@[i] == 0,
    {
        WaveChannel {
            enabled: false,
            dac_enabled: false,
            length_counter: 0,
            length_enabled: false,
            output_level: 0,
            frequency: 0,
            frequency_timer: 0,
            wave_ram: [0u8; 16],
            sample_position: 0,
            sample_buffer: 0,
        }
    }

    /// NR30: bit 7 is the DAC; the rest read 1.
    pub fn read_dac(&self) -> (r: u8)
        ensures
            r == 0x7F | (if self.dac_enabled { 0x80u8 } else { 0 }),
    {
        0x7F | (if self.dac_enabled { 0x80u8 } else { 0x00u8 })
    }

    pub fn write_dac(&mut self, value: u8)
        requires
            old(self).wf(),
        ensures
            final(self).wf(),
            *final(self) == (WaveChannel {
                dac_enabled: value & 0x80 != 0,
                enabled: if value & 0x80 == 0 { false } else { old(self).enabled },
                ..*old(self)
            }),
    {
        self.dac_enabled = value & 0x80 != 0;
        if !self.dac_enabled {
            self.enabled = false;
        }
    }

    /// NR31: length 256 minus the value.
    pub fn write_length(&mut self, value: u8)
        requires
            old(self).wf(),
        ensures
            final(self).wf(),
            *final(self) == (WaveChannel { length_counter: (256 - value) as u16, ..*old(self) }),
    {
        self.length_counter = 256 - value as u16;
    }

    pub fn read_output_level(&self) -> (r: u8)
        requires
            self.wf(),
        ensures
            r == 0x9F | (self.output_level << 5),
    {
        0x9F | (self.output_level << 5)
    }

    pub fn write_output_level(&mut self, value: u8)
        requires
            old(self).wf(),
        ensures
            final(self).wf(),
            *final(self) == (WaveChannel { output_level: (value >> 5) & 0x03, ..*old(self) }),
    {
        proof {
            lemma_byte_fields(value);
        }
        self.output_level = (value >> 5) & 0x03;
    }

    pub fn write_frequency_low(&mut self, value: u8)
        requires
            old(self).wf(),
        ensures
            final(self).wf(),
            *final(self) == (WaveChannel { frequency: (old(self).frequency & 0x700) | value as u16, ..*old(self) }),
    {
        let f = self.frequency;
        proof {
            lemma_frequency_bytes(f, value as u16);
        }
        self.frequency = (f & 0x700) | value as u16;
    }

    pub fn read_frequency_high(&self) -> (r: u8)
        ensures
            r == 0xBF | (if self.length_enabled { 0x40u8 } else { 0 }),
    {
        0xBF | (if self.length_enabled { 0x40u8 } else { 0x00u8 })
    }

    /// The channel after a trigger.
    pub open spec fn triggered(self) -> WaveChannel {
        WaveChannel {
            enabled: self.dac_enabled,
            length_counter: if self.length_counter == 0 { 256 } else { self.length_counter },
            frequency_timer: ((2048 - self.frequency) * 2) as u16,
            sample_position: 0,
            ..self
        }
    }

    pub fn write_frequency_high(&mut self, value: u8)
        requires
            old(self).wf(),
        ensures
            final(self).wf(),
            ({
                let c = WaveChannel {
                    length_enabled: value & 0x40 != 0,
                    frequency: (old(self).frequency & 0x00FF) | ((value as u16 & 0x07) << 8),
                    ..*old(self)
                };
                *final(self) == if value & 0x80 != 0 { c.triggered() } else { c }
            }),
    {
        self.length_enabled = value & 0x40 != 0;
        let f = self.frequency;
        let v = value as u16;
        proof {
            lemma_frequency_bytes(f, v);
        }
        self.frequency = (f & 0x00FF) | ((v & 0x07) << 8);
        if value & 0x80 != 0 {
            self.trigger();
        }
    }

    /// A wave-table byte at 0xFF30-0xFF3F; 0xFF beyond.
    pub fn read_wave_ram(&self, addr: u16) -> (r: u8)
        requires
            addr >= 0xFF30,
        ensures
            r == (if addr <= 0xFF3F { self.wave_ram@[addr - 0xFF30] } else { 0xFF }),
    {
        let index = (addr - 0xFF30) as usize;
        if index < 16 {
            self.wave_ram[index]
        } else {
            0xFF
        }
    }

    pub fn write_wave_ram(&mut self, addr: u16, value: u8)
        requires
            old(self).wf(),
            addr >= 0xFF30,
        ensures
            final(self).wf(),
            final(self).same_regs(old(self)),
            addr <= 0xFF3F ==> final(self).wave_ram@ == old(self).wave_ram@.update(addr - 0xFF30, value),
            addr > 0xFF3F ==> final(self).wave_ram@ == old(self).wave_ram@,
    {
        let index = (addr - 0xFF30) as usize;
        if index < 16 {
            self.wave_ram[index] = value;
        }
    }

    fn trigger(&mut self)
        requires
            old(self).wf(),
        ensures
            final(self).wf(),
            *final(self) == old(self).triggered(),
    {
        self.enabled = self.dac_enabled;
        if self.length_counter == 0 {
            self.length_counter = 256;
        }
        self.frequency_timer = (2048 - self.frequency) * 2;
        self.sample_position = 0;
    }

    pub fn clock_length(&mut self)
        requires
            old(self).wf(),
        ensures
            final(self).wf(),
            *final(self) == (if old(self).length_enabled && old(self).length_counter > 0 {
                WaveChannel {
                    length_counter: (old(self).length_counter - 1) as u16,
                    enabled: if old(self).length_counter == 1 { false } else { old(self).enabled },
                    ..*old(self)
                }
            } else {
                *old(self)
            }),
    {
        if self.length_enabled && self.length_counter > 0 {
            self.length_counter = self.length_counter - 1;
            if self.length_counter == 0 {
                self.enabled = false;
            }
        }
    }

    /// The channel one machine cycle later.
    pub open spec fn ticked(self) -> WaveChannel {
        let t: u16 = if self.frequency_timer > 0 { (self.frequency_timer - 1) as u16 } else { 0 };
        if t == 0 {
            let p = ((self.sample_position + 1) % 32) as u8;
            WaveChannel {
                frequency_timer: ((2048 - self.frequency) * 2) as u16,
                sample_position: p,
                sample_buffer: wave_sample(self.wave_ram@, p),
                ..self
            }
        } else {
            WaveChannel { frequency_timer: t, ..self }
        }
    }

    /// One machine cycle: on timer expiry the next sample is fetched.
    pub fn tick(&mut self)
        requires
            old(self).wf(),
        ensures
            final(self).wf(),
            *final(self) == old(self).ticked(),
    {
        if self.frequency_timer > 0 {
            self.frequency_timer = self.frequency_timer - 1;
        }
        if self.frequency_timer == 0 {
            self.frequency_timer = (2048 - self.frequency) * 2;
            let d = self.sample_position;
            assert(d <= 31 ==> ((d + 1) as u8) & 0x1F == ((d + 1) % 32) as u8) by (bit_vector);
            self.sample_position = (d + 1) & 0x1F;
            let byte_index = (self.sample_position / 2) as usize;
            let b = self.wave_ram[byte_index];
            assert((b >> 4) & 0x0F <= 15 && b & 0x0F <= 15) by (bit_vector);
            if self.sample_position & 1 == 0 {
                self.sample_buffer = (b >> 4) & 0x0F;
            } else {
                self.sample_buffer = b & 0x0F;
            }
            let sp = self.sample_position;
            assert((sp & 1 == 0) == (sp % 2 == 0)) by (bit_vector);
        }
    }

    /// The 4-bit output after the output-level shift.
    pub fn output(&self) -> (r: u8)
        requires
            self.wf(),
        ensures
            r == self.output_spec(),
            r <= 15,
    {
        if !self.enabled || !self.dac_enabled {
            return 0;
        }
        let sample = self.sample_buffer;
        assert(sample <= 15 ==> sample >> 1 <= 15 && sample >> 2 <= 15) by (bit_vector);
        match self.output_level {
            0 => 0,
            1 => sample,
            2 => sample >> 1,
            _ => sample >> 2,
        }
    }
}

} // verus!
