use vstd::prelude::*;

pub mod apu;
pub mod bits;
pub mod cartridge;
pub mod cpu;
pub mod joypad;
pub mod serial;
pub mod simple_display;
pub mod dma;
pub mod memory;
pub mod memory_map;
pub mod peripherals;
pub mod ppu;
pub mod text;

verus! {

} // verus!
