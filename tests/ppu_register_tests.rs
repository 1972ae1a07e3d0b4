use gameboy::ppu::registers::PpuRegisters;

#[test]
fn test_lcdc_flags() {
    let mut registers = PpuRegisters::new();

    assert!(registers.is_lcd_enabled());
    assert!(registers.is_bg_enabled());

    registers.lcdc = 0x00;
    assert!(!registers.is_lcd_enabled());
    assert!(!registers.is_bg_enabled());
}

#[test]
fn test_bg_palette() {
    let mut registers = PpuRegisters::new();
    registers.bgp = 0b11100100;

    assert_eq!(registers.get_bg_palette_color(0), 0);
    assert_eq!(registers.get_bg_palette_color(1), 1);
    assert_eq!(registers.get_bg_palette_color(2), 2);
    assert_eq!(registers.get_bg_palette_color(3), 3);
}
