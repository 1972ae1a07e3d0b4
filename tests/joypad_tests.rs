use gameboy::joypad::{Joypad, JoypadButton};

#[test]
fn test_joypad_creation() {
    let joypad = Joypad::new();
    assert_eq!(joypad.read() & 0x0F, 0x0F);
}

#[test]
fn test_direction_key_select() {
    let mut joypad = Joypad::new();

    joypad.write(0x20);

    assert_eq!(joypad.read() & 0x0F, 0x0F);

    joypad.press(JoypadButton::Right);
    assert_eq!(joypad.read() & 0x0F, 0x0E);

    joypad.press(JoypadButton::Up);
    assert_eq!(joypad.read() & 0x0F, 0x0A);
}

#[test]
fn test_button_key_select() {
    let mut joypad = Joypad::new();

    joypad.write(0x10);

    joypad.press(JoypadButton::A);
    assert_eq!(joypad.read() & 0x0F, 0x0E);

    joypad.press(JoypadButton::Start);
    assert_eq!(joypad.read() & 0x0F, 0x06);
}

#[test]
fn test_button_release() {
    let mut joypad = Joypad::new();
    joypad.write(0x20);

    joypad.press(JoypadButton::Right);
    assert_eq!(joypad.read() & 0x01, 0x00);

    joypad.release(JoypadButton::Right);
    assert_eq!(joypad.read() & 0x01, 0x01);
}

#[test]
fn test_group_isolation() {
    let mut joypad = Joypad::new();

    joypad.press(JoypadButton::A);

    joypad.write(0x20);
    assert_eq!(joypad.read() & 0x0F, 0x0F);

    joypad.write(0x10);
    assert_eq!(joypad.read() & 0x0F, 0x0E);
}

#[test]
fn test_interrupt_on_press() {
    let mut joypad = Joypad::new();
    joypad.write(0x20);

    assert!(!joypad.interrupt_request);
    joypad.press(JoypadButton::Right);
    assert!(joypad.interrupt_request);

    joypad.interrupt_request = false;
    joypad.release(JoypadButton::Right);
    assert!(!joypad.interrupt_request);
}

#[test]
fn test_both_groups_unselected() {
    let mut joypad = Joypad::new();
    joypad.write(0x30);

    joypad.press(JoypadButton::A);
    joypad.press(JoypadButton::Right);

    assert_eq!(joypad.read() & 0x0F, 0x0F);
}
