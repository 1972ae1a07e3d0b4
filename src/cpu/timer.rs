use vstd::prelude::*;

verus! {

/// The bit of the internal counter whose falling edge clocks TIMA.
pub open spec fn clock_bit(tac: u8) -> u16 {
    if tac & 0x03 == 0 {
        9
    } else if tac & 0x03 == 1 {
        3
    } else if tac & 0x03 == 2 {
        5
    } else {
        7
    }
}

/// The counter one step later, wrapping at 16 bits.
pub open spec fn inc16(c: u16) -> u16 {
    if c == 0xFFFF { 0 } else { (c + 1) as u16 }
}

/// Whether bit `bit` of the counter falls from 1 to 0 as it steps from `c`.
pub open spec fn falls(c: u16, bit: u16) -> bool {
    (c >> bit) & 1 == 1 && (inc16(c) >> bit) & 1 == 0
}

/// DIV, TIMA, TMA and TAC over a 16-bit internal counter.
pub struct Timer {
    pub internal_counter: u16,
    pub tima: u8,
    pub tma: u8,
    pub tac: u8,
    /// Raised on TIMA overflow, for the bus to route to IF.
    pub interrupt_request: bool,
}

/// Ticking n + 1 times is ticking n times and then once more.
pub proof fn lemma_ticked_n_snoc(t: Timer, n: nat)
    ensures
        t.ticked_n(n + 1) == t.ticked_n(n).ticked(),
    decreases n,
{
    assert(t.ticked_n(n + 1) == t.ticked().ticked_n(n));
    if n > 0 {
        lemma_ticked_n_snoc(t.ticked(), (n - 1) as nat);
        assert(t.ticked_n(n) == t.ticked().ticked_n((n - 1) as nat));
    } else {
        assert(t.ticked_n(0) == t);
        assert(t.ticked().ticked_n(0) == t.ticked());
    }
}

/// With TAC bit 2 clear, TIMA never changes however long the timer runs.
pub proof fn lemma_disabled_timer_keeps_tima(t: Timer, n: nat)
    requires
        !t.enabled_spec(),
    ensures
        t.ticked_n(n).tima == t.tima,
        t.ticked_n(n).tac == t.tac,
    decreases n,
{
    if n > 0 {
        lemma_disabled_timer_keeps_tima(t.ticked(), (n - 1) as nat);
    }
}

/// Bit 3 of the counter falls exactly when the low four bits roll over.
proof fn lemma_bit3_falls(c: u16)
    ensures
        falls(c, 3) <==> c % 16 == 15,
{
    if c == 0xFFFF {
        assert((c >> 3) & 1 == 1 && (0u16 >> 3u16) & 1 == 0) by (bit_vector)
            requires
                c == 0xFFFF,
        ;
    } else {
        assert((((c >> 3) & 1 == 1 && (((c + 1) as u16) >> 3) & 1 == 0) <==> c % 16 == 15)) by (bit_vector)
            requires
                c < 0xFFFF,
        ;
    }
}

/// The first `k` (at most 15) cycles of an aligned mode-01 window only count.
proof fn lemma_window_prefix(t: Timer, k: nat)
    requires
        t.enabled_spec(),
        clock_bit(t.tac) == 3,
        t.internal_counter % 16 == 0,
        k <= 15,
    ensures
        t.ticked_n(k) == (Timer { internal_counter: (t.internal_counter + k) as u16, ..t }),
    decreases k,
{
    if k > 0 {
        lemma_window_prefix(t, (k - 1) as nat);
        lemma_ticked_n_snoc(t, (k - 1) as nat);
        lemma_bit3_falls((t.internal_counter + k - 1) as u16);
    }
}

/// In mode 01 (TAC = 0b101), a 16-cycle window starting on a multiple of 16 raises TIMA by
/// exactly one (from a value below 0xFF).
pub proof fn lemma_timer_mode01_window(t: Timer)
    requires
        t.tac & 0x07 == 0x05,
        t.internal_counter % 16 == 0,
        t.tima < 0xFF,
    ensures
        t.ticked_n(16).tima == t.tima + 1,
{
    let tac = t.tac;
    assert(tac & 0x04 != 0 && tac & 0x03 == 1) by (bit_vector)
        requires
            tac & 0x07 == 0x05,
    ;
    lemma_window_prefix(t, 15);
    lemma_ticked_n_snoc(t, 15);
    lemma_bit3_falls((t.internal_counter + 15) as u16);
}

impl Timer {
    /// Whether TAC bit 2 enables TIMA.
    pub open spec fn enabled_spec(&self) -> bool {
        self.tac & 0x04 != 0
    }

    /// The timer one machine cycle later.
    pub open spec fn ticked(self) -> Timer {
        let c = inc16(self.internal_counter);
        if self.enabled_spec() && falls(self.internal_counter, clock_bit(self.tac)) {
            if self.tima == 0xFF {
                Timer { internal_counter: c, tima: self.tma, interrupt_request: true, ..self }
            } else {
                Timer { internal_counter: c, tima: (self.tima + 1) as u8, ..self }
            }
        } else {
            Timer { internal_counter: c, ..self }
        }
    }

    /// The timer `n` machine cycles later.
    pub open spec fn ticked_n(self, n: nat) -> Timer
        decreases n,
    {
        if n == 0 {
            self
        } else {
            self.ticked().ticked_n((n - 1) as nat)
        }
    }

    pub fn new() -> (r: Self)
        ensures
            r.internal_counter == 0 && r.tima == 0 && r.tma == 0 && r.tac == 0,
            !r.interrupt_request,
    {
        Timer { internal_counter: 0, tima: 0, tma: 0, tac: 0, interrupt_request: false }
    }

    /// Advances one machine cycle.
    pub fn tick(&mut self)
        ensures
            *final(self) == old(self).ticked(),
    {
        let old_counter = self.internal_counter;
        self.internal_counter = self.internal_counter.wrapping_add(1);
        assert(self.internal_counter == inc16(old_counter));
        if self.is_enabled() {
            let bit = self.get_clock_bit();
            let old_bit = (old_counter >> bit) & 1;
            let new_bit = (self.internal_counter >> bit) & 1;
            assert((old_bit == 1 && new_bit == 0) == falls(old_counter, clock_bit(self.tac)));
            if old_bit == 1 && new_bit == 0 {
                if self.tima == 0xFF {
                    self.tima = self.tma;
                    self.interrupt_request = true;
                } else {
                    self.tima = self.tima + 1;
                }
            }
        }
    }

    /// DIV: the upper byte of the internal counter.
    pub fn read_div(&self) -> (r: u8)
        ensures
            r == (self.internal_counter >> 8) as u8,
    {
        (self.internal_counter >> 8) as u8
    }

    /// Any write to DIV clears the whole counter.
    pub fn write_div(&mut self)
        ensures
            *final(self) == (Timer { internal_counter: 0, ..*old(self) }),
    {
        self.internal_counter = 0;
    }

    fn is_enabled(&self) -> (r: bool)
        ensures
            r == self.enabled_spec(),
    {
        self.tac & 0x04 != 0
    }

    fn get_clock_bit(&self) -> (r: u16)
        ensures
            r == clock_bit(self.tac),
    {
        match self.tac & 0x03 {
            0 => 9,
            1 => 3,
            2 => 5,
            _ => 7,
        }
    }
}

} // verus!
