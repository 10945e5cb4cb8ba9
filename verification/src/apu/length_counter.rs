use vstd::prelude::*;

verus! {

/// The length table indexed by the upper five bits written to a channel's
/// fourth register.
pub open spec fn length_table(index: u8) -> u8 {
    let t = seq![
        10u8, 254, 20, 2, 40, 4, 80, 6, 160, 8, 60, 10, 14, 12, 26, 14,
        12, 16, 24, 18, 48, 20, 96, 22, 192, 24, 72, 26, 16, 28, 32, 30,
    ];
    t[index as int]
}

/// Looks up the length table.
pub fn length_table_value(index: u8) -> (v: u8)
    requires
        index < 32,
    ensures
        v == length_table(index),
{
    let t: [u8; 32] = [
        10, 254, 20, 2, 40, 4, 80, 6, 160, 8, 60, 10, 14, 12, 26, 14,
        12, 16, 24, 18, 48, 20, 96, 22, 192, 24, 72, 26, 16, 28, 32, 30,
    ];
    assert(t@ =~= seq![
        10u8, 254, 20, 2, 40, 4, 80, 6, 160, 8, 60, 10, 14, 12, 26, 14,
        12, 16, 24, 18, 48, 20, 96, 22, 192, 24, 72, 26, 16, 28, 32, 30,
    ]);
    t[index as usize]
}

/// The counter after a half-frame clock.
pub open spec fn lc_clocked(l: LengthCounter) -> LengthCounter {
    if !l.length_counter_halt && l.length_counter != 0 {
        LengthCounter { length_counter: (l.length_counter - 1) as u8, ..l }
    } else {
        l
    }
}

/// The counter after the channel is enabled or disabled.
pub open spec fn lc_with_enabled(l: LengthCounter, enabled: bool) -> LengthCounter {
    LengthCounter { enabled, length_counter: if enabled { l.length_counter } else { 0 }, ..l }
}

/// The counter after a load from the length table (ignored when disabled).
pub open spec fn lc_loaded(l: LengthCounter, value: u8) -> LengthCounter {
    if l.enabled { LengthCounter { length_counter: length_table(value), ..l } } else { l }
}

/// Counts down the remaining duration of a channel's note.
#[derive(Clone, Copy)]
pub struct LengthCounter {
    pub length_counter: u8,
    pub length_counter_halt: bool,
    pub enabled: bool,
}

impl LengthCounter {
    pub open spec fn new_spec() -> LengthCounter {
        LengthCounter { length_counter: 0, length_counter_halt: true, enabled: true }
    }

    pub fn new() -> (l: Self)
        ensures
            l == LengthCounter::new_spec(),
            l == (LengthCounter { length_counter: 0, length_counter_halt: true, enabled: true }),
    {
        LengthCounter { length_counter: 0, length_counter_halt: true, enabled: true }
    }

    /// Enables or disables the channel; disabling clears the counter.
    pub fn set_enabled(&mut self, enabled: bool)
        ensures
            *final(self) == lc_with_enabled(*old(self), enabled),
            final(self).enabled == enabled,
            final(self).length_counter_halt == old(self).length_counter_halt,
            final(self).length_counter == (if enabled { old(self).length_counter } else { 0 }),
    {
        if !enabled {
            self.length_counter = 0;
        }
        self.enabled = enabled;
    }

    pub fn set_lenght_counter_halt(&mut self, lenght_counter_halt: bool)
        ensures
            *final(self) == (LengthCounter { length_counter_halt: lenght_counter_halt, ..*old(self) }),
    {
        self.length_counter_halt = lenght_counter_halt;
    }

    /// Loads the counter from the length table, if the channel is enabled.
    pub fn set_length_counter(&mut self, value: u8)
        requires
            value < 32,
        ensures
            *final(self) == lc_loaded(*old(self), value),
            final(self).enabled == old(self).enabled,
            final(self).length_counter_halt == old(self).length_counter_halt,
            final(self).length_counter == (if old(self).enabled {
                length_table(value)
            } else {
                old(self).length_counter
            }),
    {
        if self.enabled {
            self.length_counter = length_table_value(value);
        }
    }

    pub fn is_channel_silenced(&self) -> (b: bool)
        ensures
            b == (self.length_counter == 0),
    {
        self.length_counter == 0
    }

    /// Decrements the counter unless it is halted or already zero.
    pub fn clock(&mut self)
        ensures
            *final(self) == lc_clocked(*old(self)),
            final(self).enabled == old(self).enabled,
            final(self).length_counter_halt == old(self).length_counter_halt,
            final(self).length_counter == (if !old(self).length_counter_halt
                && old(self).length_counter != 0 {
                (old(self).length_counter - 1) as u8
            } else {
                old(self).length_counter
            }),
    {
        if !self.length_counter_halt && self.length_counter != 0 {
            self.length_counter = self.length_counter - 1;
        }
    }
}

} // verus!
