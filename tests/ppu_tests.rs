use gameboy::ppu::{Ppu, PpuMode};

#[test]
fn test_ppu_creation() {
    let ppu = Ppu::new();
    assert_eq!(ppu.mode, PpuMode::OamScan);
    assert_eq!(ppu.cycles, 0);
    assert_eq!(ppu.scanline, 0);
}

#[test]
fn test_ppu_step_timing() {
    let mut ppu = Ppu::new();

    for _ in 0..79 {
        assert!(!ppu.step());
        assert_eq!(ppu.mode, PpuMode::OamScan);
    }

    assert!(!ppu.step());
    assert_eq!(ppu.mode, PpuMode::Drawing);
}
