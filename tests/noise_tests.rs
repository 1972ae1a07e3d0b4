use gameboy::apu::noise::NoiseChannel;

#[test]
fn test_noise_channel_creation() {
    let ch = NoiseChannel::new();
    assert!(!ch.enabled);
    assert!(!ch.dac_enabled);
    assert_eq!(ch.lfsr, 0x7FFF);
    assert_eq!(ch.output(), 0);
}

#[test]
fn test_noise_length() {
    let mut ch = NoiseChannel::new();
    ch.write_length(62);
    assert_eq!(ch.length_counter, 2);
}

#[test]
fn test_noise_envelope_register() {
    let mut ch = NoiseChannel::new();
    ch.write_envelope(0xA5);
    assert_eq!(ch.envelope_initial, 10);
    assert!(!ch.envelope_direction);
    assert_eq!(ch.envelope_period, 5);
    assert!(ch.dac_enabled);
    assert_eq!(ch.read_envelope(), 0xA5);
}

#[test]
fn test_noise_polynomial_register() {
    let mut ch = NoiseChannel::new();
    ch.write_polynomial(0x63);
    assert_eq!(ch.clock_shift, 6);
    assert!(!ch.width_mode);
    assert_eq!(ch.divisor_code, 3);
    assert_eq!(ch.read_polynomial(), 0x63);
}

#[test]
fn test_noise_width_mode() {
    let mut ch = NoiseChannel::new();
    ch.write_polynomial(0x08);
    assert!(ch.width_mode);
}

#[test]
fn test_noise_trigger() {
    let mut ch = NoiseChannel::new();
    ch.write_envelope(0xF0);
    ch.write_control(0x80);

    assert!(ch.enabled);
    assert_eq!(ch.volume, 15);
    assert_eq!(ch.lfsr, 0x7FFF);
}

#[test]
fn test_noise_length_counter() {
    let mut ch = NoiseChannel::new();
    ch.write_envelope(0xF0);
    ch.write_length(63);
    ch.write_control(0xC0);

    assert!(ch.enabled);
    ch.clock_length();
    assert!(!ch.enabled);
}

#[test]
fn test_noise_lfsr_shift() {
    let mut ch = NoiseChannel::new();
    ch.write_envelope(0xF0);
    ch.write_polynomial(0x00);
    ch.write_control(0x80);

    let initial_lfsr = ch.lfsr;

    let period = 8u16;
    for _ in 0..period {
        ch.tick();
    }

    assert_ne!(ch.lfsr, initial_lfsr);
}
