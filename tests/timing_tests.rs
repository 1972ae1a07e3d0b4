use gameboy::ppu::timing::{get_expected_mode, CYCLES_DRAWING, CYCLES_HBLANK, CYCLES_OAM_SCAN, CYCLES_SCANLINE, SCANLINES_TOTAL, SCANLINES_VBLANK, SCANLINES_VISIBLE};
use gameboy::ppu::PpuMode;

#[test]
fn test_timing_constants() {
    assert_eq!(CYCLES_SCANLINE, CYCLES_OAM_SCAN + CYCLES_DRAWING + CYCLES_HBLANK);
    assert_eq!(SCANLINES_TOTAL, SCANLINES_VISIBLE + SCANLINES_VBLANK);
}

#[test]
fn test_mode_detection() {

    assert_eq!(get_expected_mode(0, 40), PpuMode::OamScan);
    assert_eq!(get_expected_mode(0, 120), PpuMode::Drawing);
    assert_eq!(get_expected_mode(0, 300), PpuMode::HBlank);

    assert_eq!(get_expected_mode(144, 0), PpuMode::VBlank);
    assert_eq!(get_expected_mode(150, 200), PpuMode::VBlank);
}
