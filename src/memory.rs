use vstd::prelude::*;

pub mod bootrom;
pub mod hram;
pub mod wram;

pub use bootrom::BootRom;
pub use hram::HighRam;
pub use wram::WorkRam;

verus! {

} // verus!
