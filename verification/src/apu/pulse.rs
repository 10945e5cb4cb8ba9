use vstd::prelude::*;
use super::envelope::{Envelope, envelope_output};
use super::length_counter::LengthCounter;
use super::sweep::SweepUnit;

verus! {

/// The four duty cycles of a pulse channel.
#[derive(Clone, Copy, PartialEq, Eq, Structural)]
pub enum Duty {
    Wave125,
    Wave250,
    Wave500,
    WaveInv250,
}

/// The 8-step waveform of a duty cycle.
pub open spec fn duty_sequence(d: Duty) -> u8 {
    match d {
        Duty::Wave125 => 0b0000_0001,
        Duty::Wave250 => 0b0000_0011,
        Duty::Wave500 => 0b0000_1111,
        Duty::WaveInv250 => 0b1111_1100,
    }
}

/// The duty selected by the two upper bits of a control byte.
pub open spec fn duty_of(value: u8) -> Duty {
    let d = (value & 0xC0) >> 6u8;
    if d == 0 {
        Duty::Wave125
    } else if d == 1 {
        Duty::Wave250
    } else if d == 2 {
        Duty::Wave500
    } else {
        Duty::WaveInv250
    }
}

fn duty_sequence_value(d: Duty) -> (s: u8)
    ensures
        s == duty_sequence(d),
{
    match d {
        Duty::Wave125 => 0b0000_0001,
        Duty::Wave250 => 0b0000_0011,
        Duty::Wave500 => 0b0000_1111,
        Duty::WaveInv250 => 0b1111_1100,
    }
}

/// A pulse (square wave) channel.
#[derive(Clone, Copy)]
pub struct Pulse {
    pub length_counter: LengthCounter,
    pub sweep: SweepUnit,
    pub envelope: Envelope,
    pub duty: Duty,
    pub sequence: u8,
    pub period: u16,
    pub timer: u16,
}

/// The sample a pulse channel outputs.
pub open spec fn pulse_output(p: Pulse) -> u8 {
    if p.sequence & 0x01 != 0 && !p.sweep.mute && p.length_counter.length_counter != 0
        && p.period >= 8 && p.period < 0x7FF {
        envelope_output(p.envelope)
    } else {
        0
    }
}

/// The channel after a write to its control register.
pub open spec fn pulse_with_control(p: Pulse, value: u8) -> Pulse {
    Pulse {
        duty: duty_of(value),
        sequence: duty_sequence(duty_of(value)),
        length_counter: LengthCounter { length_counter_halt: value & 0x20 != 0, ..p.length_counter },
        envelope: Envelope {
            loop_flag: value & 0x20 != 0,
            constant: value & 0x10 != 0,
            volume: value & 0x0F,
            ..p.envelope
        },
        ..p
    }
}

/// The channel after a write to its sweep register.
pub open spec fn pulse_with_sweep(p: Pulse, value: u8) -> Pulse {
    Pulse { sweep: super::sweep::sweep_with(p.sweep, value), ..p }
}

/// The channel after a write of the low period byte.
pub open spec fn pulse_with_low_timer(p: Pulse, value: u8) -> Pulse {
    Pulse { period: (p.period & 0xFF00) | (value as u16), ..p }
}

/// The channel after a write of the high period bits and length index.
pub open spec fn pulse_with_high_timer(p: Pulse, value: u8) -> Pulse {
    Pulse {
        length_counter: super::length_counter::lc_loaded(p.length_counter, (value & 0xF8) >> 3u8),
        period: (p.period & 0x00FF) | (((value & 0x07) as u16) << 8u16),
        sequence: duty_sequence(p.duty),
        envelope: Envelope { start_flag: true, ..p.envelope },
        ..p
    }
}

/// The channel after a timer clock.
pub open spec fn pulse_clocked(p: Pulse) -> Pulse {
    if p.timer != 0 {
        Pulse { timer: (p.timer - 1) as u16, ..p }
    } else {
        Pulse {
            timer: (p.period + 1) as u16,
            sequence: ((p.sequence & 0xFE) >> 1u8) | ((p.sequence & 0x01) << 7u8),
            ..p
        }
    }
}

/// The channel after a sweep clock.
pub open spec fn pulse_swept(p: Pulse) -> Pulse {
    Pulse {
        sweep: super::sweep::sweep_clocked(p.sweep, p.period),
        period: super::sweep::sweep_new_period(p.sweep, p.period),
        ..p
    }
}

impl Pulse {
    /// The period is an 11-bit value and the sweep shift is below 16.
    pub open spec fn wf(&self) -> bool {
        self.period <= 0x7FF && self.sweep.shift < 16
    }

    pub fn new(second: bool) -> (p: Self)
        ensures
            p.wf(),
            p.length_counter == LengthCounter::new_spec(),
            p.sweep == (SweepUnit {
                second,
                enabled: false,
                period: 0,
                divider: 0,
                negate: false,
                shift: 0,
                reload: false,
                mute: false,
            }),
            p.envelope == Envelope::new_spec(),
            p.duty == Duty::Wave125,
            p.sequence == 0,
            p.period == 0,
            p.timer == 0,
    {
        Pulse {
            length_counter: LengthCounter::new(),
            sweep: SweepUnit::new(second),
            envelope: Envelope::new(),
            duty: Duty::Wave125,
            sequence: 0,
            period: 0,
            timer: 0,
        }
    }

    /// Writes the control register ($4000 / $4004).
    pub fn set_control(&mut self, value: u8)
        requires
            old(self).wf(),
        ensures
            final(self).wf(),
            *final(self) == pulse_with_control(*old(self), value),
            final(self).duty == duty_of(value),
            final(self).sequence == duty_sequence(duty_of(value)),
            final(self).length_counter.length_counter_halt == (value & 0x20 != 0),
            final(self).length_counter.length_counter == old(self).length_counter.length_counter,
            final(self).length_counter.enabled == old(self).length_counter.enabled,
            final(self).envelope == (Envelope {
                loop_flag: value & 0x20 != 0,
                constant: value & 0x10 != 0,
                volume: value & 0x0F,
                ..old(self).envelope
            }),
            final(self).sweep == old(self).sweep,
            final(self).period == old(self).period,
            final(self).timer == old(self).timer,
    {
        let d: u8 = (value & 0xC0) >> 6u8;
        self.duty = if d == 0 {
            Duty::Wave125
        } else if d == 1 {
            Duty::Wave250
        } else if d == 2 {
            Duty::Wave500
        } else {
            Duty::WaveInv250
        };
        self.sequence = duty_sequence_value(self.duty);
        self.length_counter.set_lenght_counter_halt(value & 0x20 != 0);
        self.envelope.loop_flag = value & 0x20 != 0;
        self.envelope.set_volume(value & 0x10 != 0, value & 0x0F);
    }

    /// Writes the sweep register ($4001 / $4005).
    pub fn set_sweep(&mut self, value: u8)
        requires
            old(self).wf(),
        ensures
            final(self).wf(),
            *final(self) == pulse_with_sweep(*old(self), value),
            final(self).sweep == (SweepUnit {
                enabled: value & 0x80 != 0,
                period: (value & 0x70) >> 4u8,
                negate: value & 0x08 != 0,
                shift: value & 0x07,
                reload: true,
                ..old(self).sweep
            }),
            final(self).length_counter == old(self).length_counter,
            final(self).envelope == old(self).envelope,
            final(self).duty == old(self).duty,
            final(self).sequence == old(self).sequence,
            final(self).period == old(self).period,
            final(self).timer == old(self).timer,
    {
        self.sweep.set(value);
    }

    /// Writes the low byte of the period ($4002 / $4006).
    pub fn set_low_timer(&mut self, value: u8)
        requires
            old(self).wf(),
        ensures
            final(self).wf(),
            *final(self) == pulse_with_low_timer(*old(self), value),
    {
        let p: u16 = self.period;
        assert(p <= 0x7FF ==> (p & 0xFF00) | (value as u16) <= 0x7FF) by (bit_vector);
        self.period = (self.period & 0xFF00) | (value as u16);
    }

    /// Writes the high bits of the period and loads the length counter
    /// ($4003 / $4007); restarts the sequence and the envelope.
    pub fn set_high_timer(&mut self, value: u8)
        requires
            old(self).wf(),
        ensures
            final(self).wf(),
            *final(self) == pulse_with_high_timer(*old(self), value),
            final(self).length_counter.length_counter == (if old(self).length_counter.enabled {
                super::length_counter::length_table((value & 0xF8) >> 3u8)
            } else {
                old(self).length_counter.length_counter
            }),
            final(self).length_counter.enabled == old(self).length_counter.enabled,
            final(self).length_counter.length_counter_halt == old(self).length_counter.length_counter_halt,
            final(self).period == (old(self).period & 0x00FF) | (((value & 0x07) as u16) << 8u16),
            final(self).sequence == duty_sequence(old(self).duty),
            final(self).envelope == (Envelope { start_flag: true, ..old(self).envelope }),
            final(self).sweep == old(self).sweep,
            final(self).duty == old(self).duty,
            final(self).timer == old(self).timer,
    {
        proof { crate::bits::lemma_byte_masks(); }
        assert((value & 0xF8) >> 3u8 < 32);
        self.length_counter.set_length_counter((value & 0xF8) >> 3u8);
        let p: u16 = self.period;
        assert((p & 0x00FF) | (((value & 0x07) as u16) << 8u16) <= 0x7FF) by (bit_vector);
        self.period = (self.period & 0x00FF) | (((value & 0x07) as u16) << 8u16);
        self.sequence = duty_sequence_value(self.duty);
        self.envelope.start_flag = true;
    }

    /// Rotates the duty sequence one step right.
    fn clock_sequencer(&mut self)
        ensures
            *final(self) == (Pulse {
                sequence: ((old(self).sequence & 0xFE) >> 1u8) | ((old(self).sequence & 0x01) << 7u8),
                ..*old(self)
            }),
    {
        self.sequence = ((self.sequence & 0xFE) >> 1u8) | ((self.sequence & 0x01) << 7u8);
    }

    /// Clocks the sweep unit, which may change the period.
    pub fn clock_sweep(&mut self)
        requires
            old(self).wf(),
        ensures
            final(self).wf(),
            *final(self) == pulse_swept(*old(self)),
            final(self).period == (if old(self).sweep.divider == 0 && old(self).sweep.enabled
                && !super::sweep::sweep_mutes(super::sweep::sweep_target(old(self).sweep, old(self).period)) {
                super::sweep::sweep_target(old(self).sweep, old(self).period)
            } else {
                old(self).period
            }),
            final(self).sweep.mute == super::sweep::sweep_mutes(
                super::sweep::sweep_target(old(self).sweep, old(self).period),
            ),
            final(self).sweep.divider == (if old(self).sweep.divider == 0 || old(self).sweep.reload {
                old(self).sweep.period
            } else {
                (old(self).sweep.divider - 1) as u8
            }),
            !final(self).sweep.reload,
            final(self).sweep.second == old(self).sweep.second,
            final(self).sweep.enabled == old(self).sweep.enabled,
            final(self).sweep.period == old(self).sweep.period,
            final(self).sweep.negate == old(self).sweep.negate,
            final(self).sweep.shift == old(self).sweep.shift,
            final(self).length_counter == old(self).length_counter,
            final(self).envelope == old(self).envelope,
            final(self).duty == old(self).duty,
            final(self).sequence == old(self).sequence,
            final(self).timer == old(self).timer,
    {
        self.sweep.clock(&mut self.period);
    }

    /// Clocks the channel's timer; when it runs out, the sequencer steps.
    pub fn clock(&mut self)
        requires
            old(self).wf(),
        ensures
            final(self).wf(),
            *final(self) == pulse_clocked(*old(self)),
            old(self).timer != 0 ==> *final(self) == (Pulse { timer: (old(self).timer - 1) as u16, ..*old(self) }),
            old(self).timer == 0 ==> *final(self) == (Pulse {
                timer: (old(self).period + 1) as u16,
                sequence: ((old(self).sequence & 0xFE) >> 1u8) | ((old(self).sequence & 0x01) << 7u8),
                ..*old(self)
            }),
    {
        if self.timer != 0 {
            self.timer = self.timer - 1;
        } else {
            self.timer = self.period + 1;
            self.clock_sequencer();
        }
    }

    pub fn get_output(&self) -> (v: u8)
        ensures
            v == pulse_output(*self),
    {
        if self.sequence & 0x01 != 0 && !self.sweep.mute && !self.length_counter.is_channel_silenced()
            && self.period >= 8 && self.period < 0x7FF {
            self.envelope.get_output()
        } else {
            0
        }
    }
}

} // verus!
