use vstd::prelude::*;
use super::length_counter::{length_table, length_table_value};

verus! {

/// A bare length counter with halt flag, without enable control.
pub struct WaveForm {
    pub lenght_counter: u8,
    pub lenght_counter_halt: bool,
}

impl WaveForm {
    pub fn new() -> (w: Self)
        ensures
            w.lenght_counter == 0,
            w.lenght_counter_halt,
    {
        WaveForm { lenght_counter: 0, lenght_counter_halt: true }
    }

    pub fn set_lenght_counter_halt(&mut self, lenght_counter_halt: bool)
        ensures
            final(self).lenght_counter_halt == lenght_counter_halt,
            final(self).lenght_counter == old(self).lenght_counter,
    {
        self.lenght_counter_halt = lenght_counter_halt;
    }

    pub fn set_length_counter(&mut self, value: u8)
        requires
            value < 32,
        ensures
            final(self).lenght_counter == length_table(value),
            final(self).lenght_counter_halt == old(self).lenght_counter_halt,
    {
        self.lenght_counter = length_table_value(value);
    }

    pub fn is_channel_silenced(&self) -> (b: bool)
        ensures
            b == (self.lenght_counter == 0),
    {
        self.lenght_counter == 0
    }

    pub fn clock(&mut self)
        ensures
            final(self).lenght_counter_halt == old(self).lenght_counter_halt,
            final(self).lenght_counter == (if !old(self).lenght_counter_halt && old(self).lenght_counter != 0 {
                (old(self).lenght_counter - 1) as u8
            } else {
                old(self).lenght_counter
            }),
    {
        if !self.lenght_counter_halt {
            if self.lenght_counter != 0 {
                self.lenght_counter = self.lenght_counter - 1;
            }
        }
    }
}

} // verus!
