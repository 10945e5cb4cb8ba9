use vstd::prelude::*;

verus! {

/// Volume envelope shared by the pulse and noise channels.
#[derive(Clone, Copy)]
pub struct Envelope {
    pub constant: bool,
    pub volume: u8,
    pub divider: u8,
    pub delay_level_counter: u8,
    pub start_flag: bool,
    pub loop_flag: bool,
}

/// The envelope after one clock from the frame sequencer.
pub open spec fn envelope_after_clock(e: Envelope) -> Envelope {
    if e.start_flag {
        Envelope { start_flag: false, delay_level_counter: 15, divider: e.volume, ..e }
    } else if e.divider != 0 {
        Envelope { divider: (e.divider - 1) as u8, ..e }
    } else if e.delay_level_counter != 0 {
        Envelope { divider: e.volume, delay_level_counter: (e.delay_level_counter - 1) as u8, ..e }
    } else if e.loop_flag {
        Envelope { divider: e.volume, delay_level_counter: 15, ..e }
    } else {
        Envelope { divider: e.volume, ..e }
    }
}

/// The volume the envelope outputs.
pub open spec fn envelope_output(e: Envelope) -> u8 {
    if e.constant { e.volume } else { e.delay_level_counter }
}

impl Envelope {
    pub open spec fn new_spec() -> Envelope {
        Envelope {
            constant: false,
            volume: 0,
            divider: 0,
            delay_level_counter: 0,
            start_flag: false,
            loop_flag: false,
        }
    }

    pub fn new() -> (e: Self)
        ensures
            e == Envelope::new_spec(),
            e == (Envelope {
                constant: false,
                volume: 0,
                divider: 0,
                delay_level_counter: 0,
                start_flag: false,
                loop_flag: false,
            }),
    {
        Envelope {
            constant: false,
            volume: 0,
            divider: 0,
            delay_level_counter: 0,
            start_flag: false,
            loop_flag: false,
        }
    }

    pub fn set_volume(&mut self, constant: bool, volume: u8)
        ensures
            *final(self) == (Envelope { constant, volume, ..*old(self) }),
    {
        self.constant = constant;
        self.volume = volume;
    }

    pub fn clock(&mut self)
        ensures
            *final(self) == envelope_after_clock(*old(self)),
    {
        if self.start_flag {
            self.start_flag = false;
            self.delay_level_counter = 15;
            self.divider = self.volume;
        } else if self.divider != 0 {
            self.divider = self.divider - 1;
        } else {
            self.divider = self.volume;
            if self.delay_level_counter != 0 {
                self.delay_level_counter = self.delay_level_counter - 1;
            } else if self.loop_flag {
                self.delay_level_counter = 15;
            }
        }
    }

    pub fn get_output(&self) -> (v: u8)
        ensures
            v == envelope_output(*self),
    {
        if self.constant {
            self.volume
        } else {
            self.delay_level_counter
        }
    }
}

} // verus!
