use vstd::prelude::*;

use super::PpuMode;

verus! {

pub const CYCLES_OAM_SCAN: u32 = 80;
pub const CYCLES_DRAWING: u32 = 172;
pub const CYCLES_HBLANK: u32 = 204;
pub const CYCLES_SCANLINE: u32 = 456;
pub const SCANLINES_VISIBLE: u8 = 144;
pub const SCANLINES_TOTAL: u8 = 154;
pub const SCANLINES_VBLANK: u8 = 10;
pub const SCREEN_WIDTH: usize = 160;
pub const SCREEN_HEIGHT: usize = 144;

/// The mode of a scanline at a dot offset within it.
pub open spec fn mode_at(scanline: u8, cycle_in_line: u32) -> PpuMode {
    if scanline >= 144 {
        PpuMode::VBlank
    } else if cycle_in_line < 80 {
        PpuMode::OamScan
    } else if cycle_in_line < 252 {
        PpuMode::Drawing
    } else {
        PpuMode::HBlank
    }
}

pub fn get_expected_mode(scanline: u8, cycle_in_line: u32) -> (r: PpuMode)
    ensures
        r == mode_at(scanline, cycle_in_line),
{
    if scanline >= SCANLINES_VISIBLE {
        PpuMode::VBlank
    } else if cycle_in_line < CYCLES_OAM_SCAN {
        PpuMode::OamScan
    } else if cycle_in_line < CYCLES_OAM_SCAN + CYCLES_DRAWING {
        PpuMode::Drawing
    } else {
        PpuMode::HBlank
    }
}

} // verus!
