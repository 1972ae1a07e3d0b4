use vstd::prelude::*;

verus! {

/// The character that draws a shade in text output.
pub open spec fn shade_char(color_id: u8) -> char {
    if color_id & 0x03 == 0 {
        ' '
    } else if color_id & 0x03 == 1 {
        '░'
    } else if color_id & 0x03 == 2 {
        '▒'
    } else {
        '█'
    }
}

/// Geometry of a text rendering of the screen.
pub struct SimpleDisplay {
    pub width: usize,
    pub height: usize,
    /// Characters per pixel side.
    pub scale: usize,
}

impl SimpleDisplay {
    pub fn new() -> (r: Self)
        ensures
            r.width == 160 && r.height == 144 && r.scale == 2,
    {
        SimpleDisplay { width: 160, height: 144, scale: 2 }
    }
}

/// The character that draws a shade.
pub fn gameboy_color_to_char(color_id: u8) -> (r: char)
    ensures
        r == shade_char(color_id),
{
    match color_id & 0x03 {
        0 => ' ',
        1 => '░',
        2 => '▒',
        _ => '█',
    }
}

} // verus!
