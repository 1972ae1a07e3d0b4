use gameboy::cpu::interrupts::{get_pending_interrupt, has_pending_interrupt, Interrupt};

#[test]
fn test_interrupt_masks() {
    assert_eq!(Interrupt::VBlank.mask(), 0x01);
    assert_eq!(Interrupt::Stat.mask(), 0x02);
    assert_eq!(Interrupt::Timer.mask(), 0x04);
    assert_eq!(Interrupt::Serial.mask(), 0x08);
    assert_eq!(Interrupt::Joypad.mask(), 0x10);
}

#[test]
fn test_interrupt_handler_addresses() {
    assert_eq!(Interrupt::VBlank.handler_address(), 0x0040);
    assert_eq!(Interrupt::Stat.handler_address(), 0x0048);
    assert_eq!(Interrupt::Timer.handler_address(), 0x0050);
    assert_eq!(Interrupt::Serial.handler_address(), 0x0058);
    assert_eq!(Interrupt::Joypad.handler_address(), 0x0060);
}

#[test]
fn test_get_pending_interrupt_priority() {
    let interrupt_flag = 0x05;
    let interrupt_enable = 0x05;
    assert_eq!(get_pending_interrupt(interrupt_flag, interrupt_enable), Some(Interrupt::VBlank));
}

#[test]
fn test_get_pending_interrupt_none() {
    assert_eq!(get_pending_interrupt(0x01, 0x00), None);
    assert_eq!(get_pending_interrupt(0x00, 0x01), None);
}

#[test]
fn test_get_pending_interrupt_ie_mask() {
    assert_eq!(get_pending_interrupt(0x05, 0x04), Some(Interrupt::Timer));
}

#[test]
fn test_has_pending_interrupt() {
    assert!(has_pending_interrupt(0x01, 0x01));
    assert!(!has_pending_interrupt(0x01, 0x00));
    assert!(!has_pending_interrupt(0x00, 0x01));
}
