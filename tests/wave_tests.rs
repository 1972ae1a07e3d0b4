use gameboy::apu::wave::WaveChannel;

#[test]
fn test_wave_channel_creation() {
    let ch = WaveChannel::new();
    assert!(!ch.enabled);
    assert!(!ch.dac_enabled);
    assert_eq!(ch.output(), 0);
    assert_eq!(ch.wave_ram, [0; 16]);
}

#[test]
fn test_wave_dac_register() {
    let mut ch = WaveChannel::new();
    ch.write_dac(0x80);
    assert!(ch.dac_enabled);
    assert_eq!(ch.read_dac(), 0xFF);

    ch.write_dac(0x00);
    assert!(!ch.dac_enabled);
    assert_eq!(ch.read_dac(), 0x7F);
}

#[test]
fn test_wave_output_level() {
    let mut ch = WaveChannel::new();
    ch.write_output_level(0x40);
    assert_eq!(ch.output_level, 2);
    assert_eq!(ch.read_output_level() & 0x60, 0x40);
}

#[test]
fn test_wave_ram_read_write() {
    let mut ch = WaveChannel::new();
    ch.write_wave_ram(0xFF30, 0x12);
    ch.write_wave_ram(0xFF31, 0x34);
    ch.write_wave_ram(0xFF3F, 0xAB);

    assert_eq!(ch.read_wave_ram(0xFF30), 0x12);
    assert_eq!(ch.read_wave_ram(0xFF31), 0x34);
    assert_eq!(ch.read_wave_ram(0xFF3F), 0xAB);
}

#[test]
fn test_wave_trigger() {
    let mut ch = WaveChannel::new();
    ch.write_dac(0x80);
    ch.write_frequency_low(0x00);
    ch.write_frequency_high(0x80);

    assert!(ch.enabled);
    assert_eq!(ch.sample_position, 0);
}

#[test]
fn test_wave_length_counter() {
    let mut ch = WaveChannel::new();
    ch.write_dac(0x80);
    ch.write_length(254);
    ch.write_frequency_high(0xC0);

    assert!(ch.enabled);
    ch.clock_length();
    assert!(ch.enabled);
    ch.clock_length();
    assert!(!ch.enabled);
}

#[test]
fn test_wave_output_levels() {
    let mut ch = WaveChannel::new();
    ch.write_dac(0x80);
    ch.enabled = true;
    ch.sample_buffer = 0x0C;

    ch.write_output_level(0x20);
    assert_eq!(ch.output(), 12);

    ch.write_output_level(0x40);
    assert_eq!(ch.output(), 6);

    ch.write_output_level(0x60);
    assert_eq!(ch.output(), 3);

    ch.write_output_level(0x00);
    assert_eq!(ch.output(), 0);
}
