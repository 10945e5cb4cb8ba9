use vstd::prelude::*;
use super::envelope::{Envelope, envelope_output};
use super::length_counter::LengthCounter;

verus! {

/// The timer periods selectable for the noise channel.
pub open spec fn noise_period(index: u8) -> u16 {
    let t = seq![4u16, 8, 16, 32, 64, 96, 128, 160, 202, 254, 380, 508, 762, 1016, 2034, 4068];
    t[index as int]
}

fn noise_period_value(index: u8) -> (v: u16)
    requires
        index < 16,
    ensures
        v == noise_period(index),
        v <= 4068,
{
    let t: [u16; 16] = [4, 8, 16, 32, 64, 96, 128, 160, 202, 254, 380, 508, 762, 1016, 2034, 4068];
    assert(t@ =~= seq![4u16, 8, 16, 32, 64, 96, 128, 160, 202, 254, 380, 508, 762, 1016, 2034, 4068]);
    t[index as usize]
}

/// The noise channel: a 15-bit linear feedback shift register.
#[derive(Clone, Copy)]
pub struct Noise {
    pub length_counter: LengthCounter,
    pub envelope: Envelope,
    pub shift: u16,
    pub mode: bool,
    pub timer: u16,
    pub period: u16,
}

/// The shift register after one step: the feedback bit is bit 0 xor bit 5
/// (mode set) or bit 1 (mode clear), and enters at bit 14.
pub open spec fn noise_shifted(shift: u16, mode: bool) -> u16 {
    let feedback: u16 = (shift & 0x0001) ^ (if mode { (shift & 0x0020) >> 5u16 } else { (shift & 0x0002) >> 1u16 });
    (shift >> 1u16) | (feedback << 14u16)
}

/// The sample the noise channel outputs.
pub open spec fn noise_output(n: Noise) -> u8 {
    if n.shift & 0x01 != 0 && n.length_counter.length_counter != 0 {
        envelope_output(n.envelope)
    } else {
        0
    }
}

/// The channel after a write to its control register.
pub open spec fn noise_with_control(n: Noise, value: u8) -> Noise {
    Noise {
        length_counter: LengthCounter { length_counter_halt: value & 0x20 != 0, ..n.length_counter },
        envelope: Envelope {
            loop_flag: value & 0x20 != 0,
            constant: value & 0x10 != 0,
            volume: value & 0x0F,
            ..n.envelope
        },
        ..n
    }
}

/// The channel after a write to its mode and period register.
pub open spec fn noise_with_period(n: Noise, value: u8) -> Noise {
    Noise { mode: value & 0x80 != 0, period: noise_period(value & 0x0F), ..n }
}

/// The channel after a write of its length index.
pub open spec fn noise_with_length(n: Noise, value: u8) -> Noise {
    Noise {
        length_counter: super::length_counter::lc_loaded(n.length_counter, (value & 0xF8) >> 3u8),
        envelope: Envelope { start_flag: true, ..n.envelope },
        ..n
    }
}

/// The channel after a timer clock.
pub open spec fn noise_clocked(n: Noise) -> Noise {
    if n.timer != 0 {
        Noise { timer: (n.timer - 1) as u16, ..n }
    } else {
        Noise { timer: (n.period + 1) as u16, shift: noise_shifted(n.shift, n.mode), ..n }
    }
}

impl Noise {
    /// The period comes from the period table.
    pub open spec fn wf(&self) -> bool {
        self.period <= 4068
    }

    pub fn new() -> (n: Self)
        ensures
            n.wf(),
            n == (Noise {
                length_counter: LengthCounter::new_spec(),
                envelope: Envelope::new_spec(),
                shift: 1,
                mode: false,
                timer: 0,
                period: 0,
            }),
    {
        Noise {
            length_counter: LengthCounter::new(),
            envelope: Envelope::new(),
            shift: 1,
            mode: false,
            timer: 0,
            period: 0,
        }
    }

    /// Writes the control register ($400C).
    pub fn set_control(&mut self, value: u8)
        requires
            old(self).wf(),
        ensures
            final(self).wf(),
            *final(self) == noise_with_control(*old(self), value),
            *final(self) == (Noise {
                length_counter: LengthCounter {
                    length_counter_halt: value & 0x20 != 0,
                    ..old(self).length_counter
                },
                envelope: Envelope {
                    loop_flag: value & 0x20 != 0,
                    constant: value & 0x10 != 0,
                    volume: value & 0x0F,
                    ..old(self).envelope
                },
                ..*old(self)
            }),
    {
        self.length_counter.set_lenght_counter_halt(value & 0x20 != 0);
        self.envelope.loop_flag = value & 0x20 != 0;
        self.envelope.set_volume(value & 0x10 != 0, value & 0x0F);
    }

    /// Writes the mode and period register ($400E).
    pub fn set_period(&mut self, value: u8)
        requires
            old(self).wf(),
        ensures
            final(self).wf(),
            *final(self) == noise_with_period(*old(self), value),
            *final(self) == (Noise {
                mode: value & 0x80 != 0,
                period: noise_period(value & 0x0F),
                ..*old(self)
            }),
    {
        self.mode = value & 0x80 != 0;
        proof { crate::bits::lemma_byte_masks(); }
        assert(value & 0x0F < 16);
        self.period = noise_period_value(value & 0x0F);
    }

    /// Loads the length counter ($400F) and restarts the envelope.
    pub fn set_length_counter(&mut self, value: u8)
        requires
            old(self).wf(),
        ensures
            final(self).wf(),
            *final(self) == noise_with_length(*old(self), value),
            final(self).length_counter.length_counter == (if old(self).length_counter.enabled {
                super::length_counter::length_table((value & 0xF8) >> 3u8)
            } else {
                old(self).length_counter.length_counter
            }),
            final(self).length_counter.enabled == old(self).length_counter.enabled,
            final(self).length_counter.length_counter_halt == old(self).length_counter.length_counter_halt,
            final(self).envelope == (Envelope { start_flag: true, ..old(self).envelope }),
            final(self).shift == old(self).shift,
            final(self).mode == old(self).mode,
            final(self).timer == old(self).timer,
            final(self).period == old(self).period,
    {
        proof { crate::bits::lemma_byte_masks(); }
        assert((value & 0xF8) >> 3u8 < 32);
        self.length_counter.set_length_counter((value & 0xF8) >> 3u8);
        self.envelope.start_flag = true;
    }

    fn clock_shift(&mut self)
        ensures
            *final(self) == (Noise { shift: noise_shifted(old(self).shift, old(self).mode), ..*old(self) }),
    {
        let feedback: u16 = (self.shift & 0x0001) ^ (if self.mode {
            (self.shift & 0x0020) >> 5u16
        } else {
            (self.shift & 0x0002) >> 1u16
        });
        self.shift = (self.shift >> 1u16) | (feedback << 14u16);
    }

    /// Clocks the timer; when it runs out, the shift register steps.
    pub fn clock(&mut self)
        requires
            old(self).wf(),
        ensures
            final(self).wf(),
            *final(self) == noise_clocked(*old(self)),
            old(self).timer != 0 ==> *final(self) == (Noise { timer: (old(self).timer - 1) as u16, ..*old(self) }),
            old(self).timer == 0 ==> *final(self) == (Noise {
                timer: (old(self).period + 1) as u16,
                shift: noise_shifted(old(self).shift, old(self).mode),
                ..*old(self)
            }),
    {
        if self.timer != 0 {
            self.timer = self.timer - 1;
        } else {
            self.timer = self.period + 1;
            self.clock_shift();
        }
    }

    pub fn get_output(&self) -> (v: u8)
        ensures
            v == noise_output(*self),
    {
        if self.shift & 0x01 != 0 && !self.length_counter.is_channel_silenced() {
            self.envelope.get_output()
        } else {
            0
        }
    }
}

} // verus!
