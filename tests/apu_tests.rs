use gameboy::apu::Apu;
use gameboy::memory_map::io_registers::{NR11, NR12, NR13, NR14, NR23, NR31, NR33, NR41, NR50, NR51, NR52, WAVE_RAM_START};

#[test]
fn test_apu_creation() {
    let apu = Apu::new();
    assert!(!apu.power);
    assert!(!apu.channel1.enabled);
    assert!(!apu.channel2.enabled);
    assert!(!apu.channel3.enabled);
    assert!(!apu.channel4.enabled);
}

#[test]
fn test_apu_power_on_off() {
    let mut apu = Apu::new();

    apu.write(NR52, 0x80);
    assert!(apu.power);

    apu.write(NR50, 0x77);
    assert_eq!(apu.left_volume, 7);
    assert_eq!(apu.right_volume, 7);

    apu.write(NR52, 0x00);
    assert!(!apu.power);
    assert_eq!(apu.left_volume, 0);
    assert_eq!(apu.right_volume, 0);
}

#[test]
fn test_apu_nr52_read() {
    let mut apu = Apu::new();
    apu.write(NR52, 0x80);

    let nr52 = apu.read(NR52);
    assert_eq!(nr52 & 0x80, 0x80);
    assert_eq!(nr52 & 0x0F, 0x00);
    assert_eq!(nr52 & 0x70, 0x70);
}

#[test]
fn test_apu_channel1_trigger() {
    let mut apu = Apu::new();
    apu.write(NR52, 0x80);

    apu.write(NR12, 0xF0);
    apu.write(NR14, 0x80);

    assert!(apu.channel1.enabled);
    let nr52 = apu.read(NR52);
    assert_eq!(nr52 & 0x01, 0x01);
}

#[test]
fn test_apu_nr50_register() {
    let mut apu = Apu::new();
    apu.write(NR52, 0x80);

    apu.write(NR50, 0xA5);
    assert!(apu.vin_left);
    assert_eq!(apu.left_volume, 2);
    assert!(!apu.vin_right);
    assert_eq!(apu.right_volume, 5);
    assert_eq!(apu.read(NR50), 0xA5);
}

#[test]
fn test_apu_nr51_panning() {
    let mut apu = Apu::new();
    apu.write(NR52, 0x80);

    apu.write(NR51, 0x12);
    assert_eq!(apu.panning, 0x12);
    assert_eq!(apu.read(NR51), 0x12);
}

#[test]
fn test_apu_power_off_preserves_wave_ram() {
    let mut apu = Apu::new();
    apu.write(NR52, 0x80);

    apu.write(WAVE_RAM_START, 0x12);
    apu.write(WAVE_RAM_START + 1, 0x34);

    apu.write(NR52, 0x00);

    assert_eq!(apu.read(WAVE_RAM_START), 0x12);
    assert_eq!(apu.read(WAVE_RAM_START + 1), 0x34);
}

#[test]
fn test_apu_wave_ram_accessible_when_off() {
    let mut apu = Apu::new();
    assert!(!apu.power);

    apu.write(WAVE_RAM_START, 0xAB);
    assert_eq!(apu.read(WAVE_RAM_START), 0xAB);
}

#[test]
fn test_apu_registers_locked_when_off() {
    let mut apu = Apu::new();
    apu.write(NR50, 0x77);
    assert_eq!(apu.left_volume, 0);

    apu.write(NR52, 0x80);
    assert!(apu.power);
}

#[test]
fn test_apu_tick_generates_samples() {
    let mut apu = Apu::new();
    apu.write(NR52, 0x80);

    for _ in 0..44100 {
        apu.tick();
    }

    let samples = apu.drain_samples();
    assert!(!samples.is_empty());
    assert_eq!(samples.len() % 2, 0);
}

#[test]
fn test_apu_no_tick_when_off() {
    let mut apu = Apu::new();
    for _ in 0..1000 {
        apu.tick();
    }
    let samples = apu.drain_samples();
    assert!(samples.is_empty());
}

#[test]
fn test_apu_read_write_only_registers() {
    let mut apu = Apu::new();
    apu.write(NR52, 0x80);

    assert_eq!(apu.read(NR13), 0xFF);
    assert_eq!(apu.read(NR23), 0xFF);
    assert_eq!(apu.read(NR31), 0xFF);
    assert_eq!(apu.read(NR33), 0xFF);
    assert_eq!(apu.read(NR41), 0xFF);
}

#[test]
fn test_frame_sequencer_length() {
    let mut apu = Apu::new();
    apu.write(NR52, 0x80);

    apu.write(NR12, 0xF0);
    apu.write(NR11, 0x3F);
    apu.write(NR14, 0xC0);

    assert!(apu.channel1.enabled);

    for _ in 0..8192 {
        apu.tick();
    }

    assert!(!apu.channel1.enabled);
}
