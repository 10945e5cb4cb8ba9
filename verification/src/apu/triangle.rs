use vstd::prelude::*;
use super::length_counter::LengthCounter;

verus! {

/// The 32-step triangle waveform: 15 down to 0, then 0 up to 15.
pub open spec fn triangle_step_value(step: int) -> u8 {
    if step < 16 { (15 - step) as u8 } else { (step - 16) as u8 }
}

fn triangle_step_lookup(step: usize) -> (v: u8)
    requires
        step < 32,
    ensures
        v == triangle_step_value(step as int),
{
    if step < 16 { (15 - step) as u8 } else { (step - 16) as u8 }
}

/// The triangle channel.
#[derive(Clone, Copy)]
pub struct Triangle {
    pub length_counter: LengthCounter,
    pub control: bool,
    pub linear_period: u8,
    pub linear_counter: u8,
    pub linear_reload: bool,
    pub timer: u16,
    pub period: u16,
    pub step: usize,
}

/// The sample the triangle channel outputs.
pub open spec fn triangle_output(t: Triangle) -> u8 {
    if t.length_counter.length_counter != 0 { triangle_step_value(t.step as int) } else { 0 }
}

/// The channel after a write to its linear counter register.
pub open spec fn triangle_with_linear(t: Triangle, value: u8) -> Triangle {
    Triangle {
        control: value & 0x80 != 0,
        length_counter: LengthCounter { length_counter_halt: value & 0x80 != 0, ..t.length_counter },
        linear_period: value & 0x7F,
        ..t
    }
}

/// The channel after a write of the low period byte.
pub open spec fn triangle_with_low_timer(t: Triangle, value: u8) -> Triangle {
    Triangle { period: (t.period & 0xFF00) | (value as u16), ..t }
}

/// The channel after a write of the high period bits and length index.
pub open spec fn triangle_with_high_timer(t: Triangle, value: u8) -> Triangle {
    Triangle {
        length_counter: super::length_counter::lc_loaded(t.length_counter, (value & 0xF8) >> 3u8),
        period: (t.period & 0x00FF) | (((value & 0x07) as u16) << 8u16),
        linear_reload: true,
        ..t
    }
}

/// The channel after a timer clock.
pub open spec fn triangle_clocked(t: Triangle) -> Triangle {
    if t.timer != 0 {
        Triangle { timer: (t.timer - 1) as u16, ..t }
    } else {
        Triangle {
            timer: (t.period + 1) as u16,
            step: if t.linear_counter != 0 && t.length_counter.length_counter != 0 {
                if t.step < 31 { (t.step + 1) as usize } else { 0 }
            } else {
                t.step
            },
            ..t
        }
    }
}

/// The channel after a linear counter clock.
pub open spec fn triangle_linear_clocked(t: Triangle) -> Triangle {
    Triangle {
        linear_counter: if t.linear_reload {
            t.linear_period
        } else if t.linear_counter != 0 {
            (t.linear_counter - 1) as u8
        } else {
            0
        },
        linear_reload: t.linear_reload && t.control,
        ..t
    }
}

impl Triangle {
    /// The period is an 11-bit value and the step indexes the waveform.
    pub open spec fn wf(&self) -> bool {
        self.period <= 0x7FF && self.step < 32
    }

    pub fn new() -> (t: Self)
        ensures
            t.wf(),
            t == (Triangle {
                length_counter: LengthCounter::new_spec(),
                control: false,
                linear_period: 0,
                linear_counter: 0,
                linear_reload: false,
                timer: 0,
                period: 0,
                step: 0,
            }),
    {
        Triangle {
            length_counter: LengthCounter::new(),
            control: false,
            linear_period: 0,
            linear_counter: 0,
            linear_reload: false,
            timer: 0,
            period: 0,
            step: 0,
        }
    }

    /// Restarts the waveform at its first step.
    pub fn reset(&mut self)
        requires
            old(self).wf(),
        ensures
            final(self).wf(),
            *final(self) == (Triangle { step: 0, ..*old(self) }),
    {
        self.step = 0;
    }

    /// Writes the linear counter register ($4008).
    pub fn set_linear_counter(&mut self, value: u8)
        requires
            old(self).wf(),
        ensures
            final(self).wf(),
            *final(self) == triangle_with_linear(*old(self), value),
            *final(self) == (Triangle {
                control: value & 0x80 != 0,
                length_counter: LengthCounter {
                    length_counter_halt: value & 0x80 != 0,
                    ..old(self).length_counter
                },
                linear_period: value & 0x7F,
                ..*old(self)
            }),
    {
        self.control = value & 0x80 != 0;
        self.length_counter.set_lenght_counter_halt(value & 0x80 != 0);
        self.linear_period = value & 0x7F;
    }

    /// Writes the low byte of the period ($400A).
    pub fn set_low_timer(&mut self, value: u8)
        requires
            old(self).wf(),
        ensures
            final(self).wf(),
            *final(self) == triangle_with_low_timer(*old(self), value),
    {
        let p: u16 = self.period;
        assert(p <= 0x7FF ==> (p & 0xFF00) | (value as u16) <= 0x7FF) by (bit_vector);
        self.period = (self.period & 0xFF00) | (value as u16);
    }

    /// Writes the high bits of the period and loads the length counter ($400B);
    /// sets the linear counter's reload flag.
    pub fn set_high_timer(&mut self, value: u8)
        requires
            old(self).wf(),
        ensures
            final(self).wf(),
            *final(self) == triangle_with_high_timer(*old(self), value),
            final(self).length_counter.length_counter == (if old(self).length_counter.enabled {
                super::length_counter::length_table((value & 0xF8) >> 3u8)
            } else {
                old(self).length_counter.length_counter
            }),
            final(self).length_counter.enabled == old(self).length_counter.enabled,
            final(self).length_counter.length_counter_halt == old(self).length_counter.length_counter_halt,
            final(self).period == (old(self).period & 0x00FF) | (((value & 0x07) as u16) << 8u16),
            final(self).linear_reload,
            final(self).control == old(self).control,
            final(self).linear_period == old(self).linear_period,
            final(self).linear_counter == old(self).linear_counter,
            final(self).timer == old(self).timer,
            final(self).step == old(self).step,
    {
        proof { crate::bits::lemma_byte_masks(); }
        assert((value & 0xF8) >> 3u8 < 32);
        self.length_counter.set_length_counter((value & 0xF8) >> 3u8);
        let p: u16 = self.period;
        assert((p & 0x00FF) | (((value & 0x07) as u16) << 8u16) <= 0x7FF) by (bit_vector);
        self.period = (self.period & 0x00FF) | (((value & 0x07) as u16) << 8u16);
        self.linear_reload = true;
    }

    fn clock_sequencer(&mut self)
        requires
            old(self).wf(),
        ensures
            final(self).wf(),
            *final(self) == (Triangle {
                step: if old(self).step < 31 { (old(self).step + 1) as usize } else { 0 },
                ..*old(self)
            }),
    {
        if self.step < 31 {
            self.step = self.step + 1;
        } else {
            self.step = 0;
        }
    }

    /// Clocks the timer; when it runs out and both counters are non-zero,
    /// the waveform advances one step.
    pub fn clock(&mut self)
        requires
            old(self).wf(),
        ensures
            final(self).wf(),
            *final(self) == triangle_clocked(*old(self)),
            old(self).timer != 0 ==> *final(self) == (Triangle { timer: (old(self).timer - 1) as u16, ..*old(self) }),
            old(self).timer == 0 ==> *final(self) == (Triangle {
                timer: (old(self).period + 1) as u16,
                step: if old(self).linear_counter != 0 && old(self).length_counter.length_counter != 0 {
                    if old(self).step < 31 { (old(self).step + 1) as usize } else { 0 }
                } else {
                    old(self).step
                },
                ..*old(self)
            }),
    {
        if self.timer != 0 {
            self.timer = self.timer - 1;
        } else {
            self.timer = self.period + 1;
            if self.linear_counter != 0 && !self.length_counter.is_channel_silenced() {
                self.clock_sequencer();
            }
        }
    }

    /// Clocks the linear counter (quarter frame).
    pub fn clock_linear_counter(&mut self)
        requires
            old(self).wf(),
        ensures
            final(self).wf(),
            *final(self) == triangle_linear_clocked(*old(self)),
            *final(self) == (Triangle {
                linear_counter: if old(self).linear_reload {
                    old(self).linear_period
                } else if old(self).linear_counter != 0 {
                    (old(self).linear_counter - 1) as u8
                } else {
                    0
                },
                linear_reload: old(self).linear_reload && old(self).control,
                ..*old(self)
            }),
    {
        if self.linear_reload {
            self.linear_counter = self.linear_period;
        } else {
            if self.linear_counter != 0 {
                self.linear_counter = self.linear_counter - 1;
            }
        }
        if !self.control {
            self.linear_reload = false;
        }
    }

    pub fn get_output(&self) -> (v: u8)
        requires
            self.wf(),
        ensures
            v == triangle_output(*self),
            v <= 15,
    {
        if !self.length_counter.is_channel_silenced() {
            triangle_step_lookup(self.step)
        } else {
            0
        }
    }
}

} // verus!
