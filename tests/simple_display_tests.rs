use gameboy::simple_display::{gameboy_color_to_char, SimpleDisplay};

#[test]
fn test_simple_display_creation() {
    let display = SimpleDisplay::new();
    assert_eq!(display.width, 160);
    assert_eq!(display.height, 144);
}

#[test]
fn test_gameboy_color_conversion() {
    assert_eq!(gameboy_color_to_char(0), ' ');
    assert_eq!(gameboy_color_to_char(1), '░');
    assert_eq!(gameboy_color_to_char(2), '▒');
    assert_eq!(gameboy_color_to_char(3), '█');
}
