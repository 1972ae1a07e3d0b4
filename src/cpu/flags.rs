use vstd::prelude::*;

verus! {

/// Z: the last result was zero.
pub const ZERO: u8 = 0x80;

/// N: the last ALU operation was a subtraction.
pub const SUBTRACT: u8 = 0x40;

/// H: carry or borrow across the nibble boundary.
pub const HALF_CARRY: u8 = 0x20;

/// C: carry or borrow out of the top bit.
pub const CARRY: u8 = 0x10;

} // verus!
