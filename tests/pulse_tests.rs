use gameboy::apu::pulse::PulseChannel;

#[test]
fn test_pulse_channel_creation() {
    let ch = PulseChannel::new(false);
    assert!(!ch.enabled);
    assert!(!ch.dac_enabled);
    assert_eq!(ch.output(), 0);
}

#[test]
fn test_pulse_channel_with_sweep() {
    let ch = PulseChannel::new(true);
    assert!(ch.has_sweep);
}

#[test]
fn test_duty_register() {
    let mut ch = PulseChannel::new(false);
    ch.write_length_duty(0x80);
    assert_eq!(ch.duty, 2);
    assert_eq!(ch.length_counter, 64);
    assert_eq!(ch.read_length_duty() & 0xC0, 0x80);
}

#[test]
fn test_envelope_register() {
    let mut ch = PulseChannel::new(false);
    ch.write_envelope(0xF3);
    assert_eq!(ch.envelope_initial, 15);
    assert!(!ch.envelope_direction);
    assert_eq!(ch.envelope_period, 3);
    assert!(ch.dac_enabled);
    assert_eq!(ch.read_envelope(), 0xF3);
}

#[test]
fn test_envelope_dac_disable() {
    let mut ch = PulseChannel::new(false);
    ch.write_envelope(0x00);
    assert!(!ch.dac_enabled);
}

#[test]
fn test_trigger() {
    let mut ch = PulseChannel::new(false);
    ch.write_envelope(0xF0);
    ch.write_frequency_low(0x00);
    ch.write_frequency_high(0x80);

    assert!(ch.enabled);
    assert_eq!(ch.volume, 15);
}

#[test]
fn test_length_counter() {
    let mut ch = PulseChannel::new(false);
    ch.write_envelope(0xF0);
    ch.write_length_duty(0x3E);
    ch.write_frequency_high(0xC0);

    assert!(ch.enabled);
    assert_eq!(ch.length_counter, 2);

    ch.clock_length();
    assert!(ch.enabled);
    assert_eq!(ch.length_counter, 1);

    ch.clock_length();
    assert!(!ch.enabled);
    assert_eq!(ch.length_counter, 0);
}

#[test]
fn test_sweep_register() {
    let mut ch = PulseChannel::new(true);
    ch.write_sweep(0x7B);
    assert_eq!(ch.sweep_period, 7);
    assert!(ch.sweep_negate);
    assert_eq!(ch.sweep_shift, 3);
    assert_eq!(ch.read_sweep(), 0xFB);
}

#[test]
fn test_frequency_write() {
    let mut ch = PulseChannel::new(false);
    ch.write_frequency_low(0x73);
    ch.write_frequency_high(0x06);
    assert_eq!(ch.frequency, 0x673);
}

#[test]
fn test_envelope_clock() {
    let mut ch = PulseChannel::new(false);
    ch.write_envelope(0x71);
    ch.write_frequency_high(0x80);
    assert_eq!(ch.volume, 7);

    ch.clock_envelope();
    ch.clock_envelope();
}
