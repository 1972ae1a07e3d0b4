use vstd::prelude::*;

verus! {

/// The eight buttons.
#[derive(Debug, Clone, Copy, PartialEq, Eq, Structural)]
pub enum JoypadButton {
    Right,
    Left,
    Up,
    Down,
    A,
    B,
    Select,
    Start,
}

/// Whether a button belongs to the directional group.
pub open spec fn is_direction(b: JoypadButton) -> bool {
    match b {
        JoypadButton::Right | JoypadButton::Left | JoypadButton::Up | JoypadButton::Down => true,
        _ => false,
    }
}

/// The bit of a button within its group.
pub open spec fn button_bit(b: JoypadButton) -> u8 {
    match b {
        JoypadButton::Right | JoypadButton::A => 0x01,
        JoypadButton::Left | JoypadButton::B => 0x02,
        JoypadButton::Up | JoypadButton::Select => 0x04,
        JoypadButton::Down | JoypadButton::Start => 0x08,
    }
}

/// The low nibble seen through a select value: the AND of the selected groups (0 = pressed).
pub open spec fn selected_input(select: u8, direction_keys: u8, button_keys: u8) -> u8 {
    let d: u8 = if select & 0x10 == 0 { direction_keys } else { 0x0F };
    let b: u8 = if select & 0x20 == 0 { button_keys } else { 0x0F };
    0x0F & d & b
}

/// The button matrix: two active-low groups and a select register.
pub struct Joypad {
    pub button_keys: u8,
    pub direction_keys: u8,
    pub select: u8,
    pub interrupt_request: bool,
}

impl Joypad {
    /// Active-low state of the action buttons (A, B, Select, Start in bits 0-3).
    pub open spec fn buttons(&self) -> u8 {
        self.button_keys
    }

    /// Active-low state of the directions (Right, Left, Up, Down in bits 0-3).
    pub open spec fn directions(&self) -> u8 {
        self.direction_keys
    }

    /// The select bits (4 and 5) last written.
    pub open spec fn select_bits(&self) -> u8 {
        self.select
    }

    /// The current low nibble of the readable byte.
    pub open spec fn input(&self) -> u8 {
        selected_input(self.select_bits(), self.directions(), self.buttons())
    }

    pub open spec fn wf(&self) -> bool {
        self.buttons() & 0xF0 == 0 && self.directions() & 0xF0 == 0 && self.select_bits() & 0xCF == 0
    }

    /// No button pressed, neither group selected.
    pub fn new() -> (r: Self)
        ensures
            r.wf(),
            r.buttons() == 0x0F && r.directions() == 0x0F && r.select_bits() == 0x30,
            !r.interrupt_request,
    {
        assert(0x0Fu8 & 0xF0 == 0 && 0x30u8 & 0xCF == 0) by (bit_vector);
        Joypad { button_keys: 0x0F, direction_keys: 0x0F, select: 0x30, interrupt_request: false }
    }

    /// Bits 7-6 read 1, bits 5-4 are the select bits, bits 3-0 the selected input.
    pub fn read(&self) -> (r: u8)
        requires
            self.wf(),
        ensures
            r == 0xC0 | self.select_bits() | self.input(),
    {
        0xC0 | self.select | self.get_current_input()
    }

    /// Only bits 5 and 4 are writable.
    pub fn write(&mut self, value: u8)
        requires
            old(self).wf(),
        ensures
            final(self).wf(),
            final(self).select_bits() == value & 0x30,
            final(self).buttons() == old(self).buttons(),
            final(self).directions() == old(self).directions(),
            final(self).interrupt_request == old(self).interrupt_request,
    {
        self.select = value & 0x30;
        assert(value & 0x30 & 0xCF == 0) by (bit_vector);
    }

    /// Presses a button; a selected line that falls raises the interrupt.
    pub fn press(&mut self, button: JoypadButton)
        requires
            old(self).wf(),
        ensures
            final(self).wf(),
            final(self).select_bits() == old(self).select_bits(),
            is_direction(button) ==> final(self).directions() == old(self).directions() & !button_bit(button)
                && final(self).buttons() == old(self).buttons(),
            !is_direction(button) ==> final(self).buttons() == old(self).buttons() & !button_bit(button)
                && final(self).directions() == old(self).directions(),
            final(self).interrupt_request == (old(self).interrupt_request || old(self).input()
                & !final(self).input() != 0),
    {
        let old_state = self.get_current_input();
        let d = self.direction_keys;
        let b = self.button_keys;
        match button {
            JoypadButton::Right => self.direction_keys = d & !0x01u8,
            JoypadButton::Left => self.direction_keys = d & !0x02u8,
            JoypadButton::Up => self.direction_keys = d & !0x04u8,
            JoypadButton::Down => self.direction_keys = d & !0x08u8,
            JoypadButton::A => self.button_keys = b & !0x01u8,
            JoypadButton::B => self.button_keys = b & !0x02u8,
            JoypadButton::Select => self.button_keys = b & !0x04u8,
            JoypadButton::Start => self.button_keys = b & !0x08u8,
        }
        assert(forall|x: u8, m: u8| x & 0xF0 == 0 ==> #[trigger] (x & !m) & 0xF0 == 0) by (bit_vector);
        let new_state = self.get_current_input();
        if old_state & !new_state != 0 {
            self.interrupt_request = true;
        }
    }

    /// Releases a button.
    pub fn release(&mut self, button: JoypadButton)
        requires
            old(self).wf(),
        ensures
            final(self).wf(),
            final(self).select_bits() == old(self).select_bits(),
            is_direction(button) ==> final(self).directions() == old(self).directions() | button_bit(button)
                && final(self).buttons() == old(self).buttons(),
            !is_direction(button) ==> final(self).buttons() == old(self).buttons() | button_bit(button)
                && final(self).directions() == old(self).directions(),
            final(self).interrupt_request == old(self).interrupt_request,
    {
        let d = self.direction_keys;
        let b = self.button_keys;
        assert(d & 0xF0 == 0 ==> (d | 1) & 0xF0 == 0 && (d | 2) & 0xF0 == 0 && (d | 4) & 0xF0 == 0 && (d
            | 8) & 0xF0 == 0) by (bit_vector);
        assert(b & 0xF0 == 0 ==> (b | 1) & 0xF0 == 0 && (b | 2) & 0xF0 == 0 && (b | 4) & 0xF0 == 0 && (b
            | 8) & 0xF0 == 0) by (bit_vector);
        match button {
            JoypadButton::Right => self.direction_keys = d | 0x01,
            JoypadButton::Left => self.direction_keys = d | 0x02,
            JoypadButton::Up => self.direction_keys = d | 0x04,
            JoypadButton::Down => self.direction_keys = d | 0x08,
            JoypadButton::A => self.button_keys = b | 0x01,
            JoypadButton::B => self.button_keys = b | 0x02,
            JoypadButton::Select => self.button_keys = b | 0x04,
            JoypadButton::Start => self.button_keys = b | 0x08,
        }
    }

    fn get_current_input(&self) -> (r: u8)
        ensures
            r == self.input(),
    {
        let d: u8 = if self.select & 0x10 == 0 { self.direction_keys } else { 0x0F };
        let b: u8 = if self.select & 0x20 == 0 { self.button_keys } else { 0x0F };
        0x0F & d & b
    }
}

} // verus!
