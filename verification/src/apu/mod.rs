pub mod dmc;
pub mod envelope;
pub mod laws;
pub mod length_counter;
pub mod noise;
pub mod pulse;
pub mod state;
pub mod sweep;
pub mod triangle;
pub mod waveform;

use vstd::prelude::*;
use crate::errors::{InvalidAPURegisterReadError, InvalidAPURegisterWriteError};
use crate::state::Stateful;
use dmc::{Dmc, dmc_clocked};
use envelope::{Envelope, envelope_after_clock};
use length_counter::lc_clocked;
use noise::{Noise, noise_clocked, noise_output};
use pulse::{Pulse, pulse_clocked, pulse_output, pulse_swept};
use state::ApuState;
use triangle::{Triangle, triangle_clocked, triangle_linear_clocked, triangle_output};

verus! {

/// CPU cycles at which the frame sequencer acts.
pub const STEP_1: u64 = 7457;
pub const STEP_2: u64 = 14913;
pub const STEP_3: u64 = 22371;
pub const STEP_4: u64 = 29829;
pub const STEP_5: u64 = 37281;

/// The frame sequencer's mode.
#[derive(Clone, Copy, PartialEq, Eq, Structural)]
pub enum Mode {
    Step4,
    Step5,
}

/// The five channel outputs at the moment a sample is taken; the mixer
/// (non-linear, in floating point) combines them.
#[derive(Clone, Copy, PartialEq, Eq, Structural)]
pub struct MixerInput {
    pub pulse1: u8,
    pub pulse2: u8,
    pub triangle: u8,
    pub noise: u8,
    pub dmc: u8,
}

/// What one APU clock produced: interrupt requests for the CPU (the frame
/// sequencer's, then the delta modulation channel's) and, at the sample
/// rate, the channel outputs.
#[derive(Clone, Copy, PartialEq, Eq, Structural)]
pub struct ApuTick {
    pub frame_irq: bool,
    pub dmc_irq: bool,
    /// The sample channel was clocked: its memory reader may need a byte.
    pub dmc_clocked: bool,
    pub sample: Option<MixerInput>,
}

/// The audio processing unit: two pulse channels, a triangle, a noise and a
/// delta modulation channel driven by a frame sequencer.
pub struct Apu {
    pub pulse1: Pulse,
    pub pulse2: Pulse,
    pub triangle: Triangle,
    pub noise: Noise,
    pub dmc: Dmc,
    pub interrupt_inhibit: bool,
    pub frame_interrupt: bool,
    pub sample_rate: u64,
    pub frame_clock: u64,
    pub mode: Mode,
    pub instant_clock: bool,
    pub last_4017_value: u8,
}

/// Envelopes and the triangle's linear counter are clocked.
#[verifier::opaque]
pub open spec fn apu_quarter_frame(a: Apu) -> Apu {
    Apu {
        pulse1: Pulse { envelope: envelope_after_clock(a.pulse1.envelope), ..a.pulse1 },
        pulse2: Pulse { envelope: envelope_after_clock(a.pulse2.envelope), ..a.pulse2 },
        noise: Noise { envelope: envelope_after_clock(a.noise.envelope), ..a.noise },
        triangle: triangle_linear_clocked(a.triangle),
        ..a
    }
}

/// A quarter frame, then the length counters and the sweep units are clocked.
#[verifier::opaque]
pub open spec fn apu_half_frame(a: Apu) -> Apu {
    let q = apu_quarter_frame(a);
    Apu {
        pulse1: pulse_swept(Pulse { length_counter: lc_clocked(q.pulse1.length_counter), ..q.pulse1 }),
        pulse2: pulse_swept(Pulse { length_counter: lc_clocked(q.pulse2.length_counter), ..q.pulse2 }),
        noise: Noise { length_counter: lc_clocked(q.noise.length_counter), ..q.noise },
        triangle: Triangle { length_counter: lc_clocked(q.triangle.length_counter), ..q.triangle },
        ..q
    }
}

/// The channel outputs of a state.
pub open spec fn apu_mixer_input(a: Apu) -> MixerInput {
    MixerInput {
        pulse1: pulse_output(a.pulse1),
        pulse2: pulse_output(a.pulse2),
        triangle: triangle_output(a.triangle),
        noise: noise_output(a.noise),
        dmc: a.dmc.output_level,
    }
}

/// The frame sequencer part of a clock: the state after the quarter and half
/// frame events of the current frame clock, and whether the four-step
/// sequence raised its interrupt.
#[verifier::opaque]
pub open spec fn apu_sequenced(a: Apu) -> (Apu, bool) {
    let fc = a.frame_clock;
    let a1 = if fc == STEP_1 || fc == STEP_3 { apu_quarter_frame(a) } else { a };
    let a2 = if fc == STEP_2 { apu_half_frame(a1) } else { a1 };
    if fc == STEP_4 && a.mode == Mode::Step4 {
        let h = apu_half_frame(a2);
        (
            Apu {
                frame_interrupt: if !a.interrupt_inhibit { true } else { h.frame_interrupt },
                frame_clock: 0,
                ..h
            },
            !a.interrupt_inhibit,
        )
    } else if fc == STEP_5 && a.mode == Mode::Step5 {
        (Apu { frame_clock: 0, ..apu_half_frame(a2) }, false)
    } else {
        (a2, false)
    }
}

/// The channels clocked on even frame clocks.
#[verifier::opaque]
pub open spec fn apu_channels_clocked(a: Apu) -> Apu {
    if a.frame_clock % 2 == 0 {
        Apu {
            pulse1: pulse_clocked(a.pulse1),
            pulse2: pulse_clocked(a.pulse2),
            noise: noise_clocked(a.noise),
            dmc: dmc_clocked(a.dmc),
            ..a
        }
    } else {
        a
    }
}

/// The whole state after one APU clock (when no instant clock is pending).
pub open spec fn apu_clocked(a: Apu) -> Apu {
    let s = apu_channels_clocked(apu_sequenced(a).0);
    Apu {
        triangle: triangle_clocked(s.triangle),
        frame_clock: if s.frame_clock == u64::MAX { 0 } else { (s.frame_clock + 1) as u64 },
        ..s
    }
}

/// The status byte read from $4015: bits 0-3 tell which length counters are
/// running, bit 4 whether the sample has bytes left, bit 6 the frame
/// interrupt and bit 7 the sample interrupt.
/// The APU after a reset: the frame counter register is written again with
/// its last value, the channels are silenced through $4015, the triangle
/// restarts and the sample output level keeps only its lowest bit.
pub open spec fn apu_reset(a: Apu) -> Apu {
    let a1 = apu_written(a, 0x4017, a.last_4017_value);
    let a2 = apu_written(a1, 0x4015, 0);
    Apu {
        triangle: Triangle { step: 0, ..a2.triangle },
        dmc: Dmc { output_level: a2.dmc.output_level & 0x01, ..a2.dmc },
        ..a2
    }
}

/// One APU clock, and what it reports.
#[verifier::opaque]
pub open spec fn apu_ticked(a: Apu) -> (Apu, ApuTick) {
    if a.instant_clock {
        (Apu { instant_clock: false, ..apu_half_frame(a) },
            ApuTick { frame_irq: false, dmc_irq: false, dmc_clocked: false, sample: None })
    } else {
        let s = apu_sequenced(a);
        let after = apu_clocked(a);
        (after, ApuTick {
            frame_irq: s.1,
            dmc_irq: s.0.frame_clock % 2 == 0 && s.0.dmc.interrupt_flag,
            dmc_clocked: s.0.frame_clock % 2 == 0,
            sample: if after.frame_clock % a.sample_rate == 0 { Some(apu_mixer_input(after)) } else { None },
        })
    }
}

pub open spec fn apu_status(a: Apu) -> u8 {
    ((if a.pulse1.length_counter.length_counter != 0 { 0x01int } else { 0 })
        + (if a.pulse2.length_counter.length_counter != 0 { 0x02int } else { 0 })
        + (if a.triangle.length_counter.length_counter != 0 { 0x04int } else { 0 })
        + (if a.noise.length_counter.length_counter != 0 { 0x08int } else { 0 })
        + (if a.dmc.bytes_remaining > 0 { 0x10int } else { 0 })
        + (if a.frame_interrupt { 0x40int } else { 0 })
        + (if a.dmc.interrupt_flag { 0x80int } else { 0 })) as u8
}

/// The addresses the APU answers writes on.
pub open spec fn apu_writable(address: u16) -> bool {
    (0x4000 <= address && address <= 0x4013) || address == 0x4015 || address == 0x4017
}

/// A pulse channel after a write to its register `reg` (0 to 3).
pub open spec fn pulse_written(p: Pulse, reg: u16, value: u8) -> Pulse {
    if reg == 0 {
        pulse::pulse_with_control(p, value)
    } else if reg == 1 {
        pulse::pulse_with_sweep(p, value)
    } else if reg == 2 {
        pulse::pulse_with_low_timer(p, value)
    } else {
        pulse::pulse_with_high_timer(p, value)
    }
}

/// The triangle channel after a write to its register `reg` (0 to 3; 1 is unused).
pub open spec fn triangle_written(t: Triangle, reg: u16, value: u8) -> Triangle {
    if reg == 0 {
        triangle::triangle_with_linear(t, value)
    } else if reg == 2 {
        triangle::triangle_with_low_timer(t, value)
    } else if reg == 3 {
        triangle::triangle_with_high_timer(t, value)
    } else {
        t
    }
}

/// The noise channel after a write to its register `reg` (0 to 3; 1 is unused).
pub open spec fn noise_written(n: Noise, reg: u16, value: u8) -> Noise {
    if reg == 0 {
        noise::noise_with_control(n, value)
    } else if reg == 2 {
        noise::noise_with_period(n, value)
    } else if reg == 3 {
        noise::noise_with_length(n, value)
    } else {
        n
    }
}

/// The sample channel after a write to its register `reg` (0 to 3).
pub open spec fn dmc_written(d: Dmc, reg: u16, value: u8) -> Dmc {
    if reg == 0 {
        dmc::dmc_with_rate(d, value)
    } else if reg == 1 {
        Dmc { output_level: value & 0x7F, ..d }
    } else if reg == 2 {
        Dmc { sample_address: 0xC000u16 | ((value as u16) << 6u16), ..d }
    } else {
        Dmc { sample_length: ((value as u16) << 4u16) | 0x0001u16, ..d }
    }
}

/// The state after a write to $4015: channels are enabled or disabled.
#[verifier::opaque]
pub open spec fn apu_enabled_written(a: Apu, value: u8) -> Apu {
    Apu {
        pulse1: Pulse { length_counter: length_counter::lc_with_enabled(a.pulse1.length_counter, value & 0x01 != 0), ..a.pulse1 },
        pulse2: Pulse { length_counter: length_counter::lc_with_enabled(a.pulse2.length_counter, value & 0x02 != 0), ..a.pulse2 },
        triangle: Triangle { length_counter: length_counter::lc_with_enabled(a.triangle.length_counter, value & 0x04 != 0), ..a.triangle },
        noise: Noise { length_counter: length_counter::lc_with_enabled(a.noise.length_counter, value & 0x08 != 0), ..a.noise },
        dmc: dmc::dmc_with_enabled(a.dmc, value & 0x10 != 0),
        ..a
    }
}

/// The state after a write to $4017: sequencer mode and interrupt inhibit.
#[verifier::opaque]
pub open spec fn apu_frame_counter_written(a: Apu, value: u8) -> Apu {
    Apu {
        mode: if value & 0x80 != 0 { Mode::Step5 } else { Mode::Step4 },
        instant_clock: if value & 0x80 != 0 { true } else { a.instant_clock },
        interrupt_inhibit: value & 0x40 != 0,
        frame_interrupt: if value & 0x40 != 0 { false } else { a.frame_interrupt },
        last_4017_value: value,
        ..a
    }
}

/// The state after a write to one of the APU's registers.
#[verifier::opaque]
pub open spec fn apu_written(a: Apu, address: u16, value: u8) -> Apu {
    if 0x4000 <= address && address <= 0x4003 {
        Apu { pulse1: pulse_written(a.pulse1, (address - 0x4000) as u16, value), ..a }
    } else if 0x4004 <= address && address <= 0x4007 {
        Apu { pulse2: pulse_written(a.pulse2, (address - 0x4004) as u16, value), ..a }
    } else if 0x4008 <= address && address <= 0x400B {
        Apu { triangle: triangle_written(a.triangle, (address - 0x4008) as u16, value), ..a }
    } else if 0x400C <= address && address <= 0x400F {
        Apu { noise: noise_written(a.noise, (address - 0x400C) as u16, value), ..a }
    } else if 0x4010 <= address && address <= 0x4013 {
        Apu { dmc: dmc_written(a.dmc, (address - 0x4010) as u16, value), ..a }
    } else if address == 0x4015 {
        apu_enabled_written(a, value)
    } else if address == 0x4017 {
        apu_frame_counter_written(a, value)
    } else {
        a
    }
}

impl Apu {
    fn write_enabled(&mut self, value: u8)
        requires
            old(self).wf(),
        ensures
            final(self).wf(),
            *final(self) == apu_enabled_written(*old(self), value),
    {
        reveal(apu_enabled_written);
        self.pulse1.length_counter.set_enabled(value & 0x01 != 0);
        self.pulse2.length_counter.set_enabled(value & 0x02 != 0);
        self.triangle.length_counter.set_enabled(value & 0x04 != 0);
        self.noise.length_counter.set_enabled(value & 0x08 != 0);
        self.dmc.set_enabled(value & 0x10 != 0);
    }

    fn write_frame_counter(&mut self, value: u8)
        requires
            old(self).wf(),
        ensures
            final(self).wf(),
            *final(self) == apu_frame_counter_written(*old(self), value),
    {
        reveal(apu_frame_counter_written);
        if value & 0x80 != 0 {
            self.instant_clock = true;
            self.mode = Mode::Step5;
        } else {
            self.mode = Mode::Step4;
        }
        self.interrupt_inhibit = value & 0x40 != 0;
        if self.interrupt_inhibit {
            self.frame_interrupt = false;
        }
        self.last_4017_value = value;
    }

    fn sequence(&mut self) -> (irq: bool)
        requires
            old(self).wf(),
        ensures
            final(self).wf(),
            (*final(self), irq) == apu_sequenced(*old(self)),
            final(self).sample_rate == old(self).sample_rate,
    {
        reveal(apu_sequenced);
        let fc = self.frame_clock;
        if fc == STEP_1 || fc == STEP_3 {
            self.clock_quarter_frame();
        }
        if fc == STEP_2 {
            self.clock_half_frame();
        }
        let mut frame_irq = false;
        if fc == STEP_4 && self.mode == Mode::Step4 {
            self.clock_half_frame();
            if !self.interrupt_inhibit {
                self.frame_interrupt = true;
                frame_irq = true;
            }
            self.frame_clock = 0;
        } else if fc == STEP_5 && self.mode == Mode::Step5 {
            self.clock_half_frame();
            self.frame_clock = 0;
        }
        frame_irq
    }

    fn clock_channels(&mut self) -> (dmc_irq: bool)
        requires
            old(self).wf(),
        ensures
            final(self).wf(),
            *final(self) == apu_channels_clocked(*old(self)),
            final(self).interrupt_inhibit == old(self).interrupt_inhibit,
            final(self).frame_interrupt == old(self).frame_interrupt,
            final(self).sample_rate == old(self).sample_rate,
            final(self).frame_clock == old(self).frame_clock,
            final(self).mode == old(self).mode,
            final(self).instant_clock == old(self).instant_clock,
            final(self).last_4017_value == old(self).last_4017_value,
            dmc_irq == (old(self).frame_clock % 2 == 0 && old(self).dmc.interrupt_flag),
    {
        reveal(apu_channels_clocked);
        let mut dmc_irq = false;
        if self.frame_clock % 2 == 0 {
            self.pulse1.clock();
            self.pulse2.clock();
            self.noise.clock();
            dmc_irq = self.dmc.clock();
        }
        dmc_irq
    }
}

fn write_pulse(p: &mut Pulse, reg: u16, value: u8)
    requires
        old(p).wf(),
    ensures
        final(p).wf(),
        *final(p) == pulse_written(*old(p), reg, value),
{
    if reg == 0 {
        p.set_control(value);
    } else if reg == 1 {
        p.set_sweep(value);
    } else if reg == 2 {
        p.set_low_timer(value);
    } else {
        p.set_high_timer(value);
    }
}

fn write_triangle(t: &mut Triangle, reg: u16, value: u8)
    requires
        old(t).wf(),
    ensures
        final(t).wf(),
        *final(t) == triangle_written(*old(t), reg, value),
{
    if reg == 0 {
        t.set_linear_counter(value);
    } else if reg == 2 {
        t.set_low_timer(value);
    } else if reg == 3 {
        t.set_high_timer(value);
    }
}

fn write_noise(n: &mut Noise, reg: u16, value: u8)
    requires
        old(n).wf(),
    ensures
        final(n).wf(),
        *final(n) == noise_written(*old(n), reg, value),
{
    if reg == 0 {
        n.set_control(value);
    } else if reg == 2 {
        n.set_period(value);
    } else if reg == 3 {
        n.set_length_counter(value);
    }
}

fn write_dmc(d: &mut Dmc, reg: u16, value: u8)
    requires
        old(d).wf(),
    ensures
        final(d).wf(),
        *final(d) == dmc_written(*old(d), reg, value),
{
    if reg == 0 {
        d.set_rate(value);
    } else if reg == 1 {
        d.set_output_level(value);
    } else if reg == 2 {
        d.set_sample_address(value);
    } else {
        d.set_sample_length(value);
    }
}

impl Apu {
    /// Each channel is well formed and a sample is taken every few clocks.
    pub open spec fn wf(&self) -> bool {
        &&& self.pulse1.wf()
        &&& self.pulse2.wf()
        &&& self.triangle.wf()
        &&& self.noise.wf()
        &&& self.dmc.wf()
        &&& self.sample_rate >= 1
    }

    /// Whether the APU is well formed (timers and counters in range, a
    /// sample rate of at least one cycle).
    pub fn is_well_formed(&self) -> (b: bool)
        ensures
            b == self.wf(),
    {
        self.pulse1.period <= 0x7FF && self.pulse1.sweep.shift < 16 && self.pulse2.period <= 0x7FF
            && self.pulse2.sweep.shift < 16 && self.triangle.period <= 0x7FF && self.triangle.step < 32
            && self.noise.period <= 4068 && self.dmc.bits_remaining >= 1 && self.sample_rate >= 1
    }

    /// Creates the APU of a NES whose PPU runs at `ppu_clock_frequency` Hz;
    /// the CPU and APU run at a third of it, and samples are taken at about
    /// 44100 Hz.
    pub fn new(ppu_clock_frequency: u64) -> (a: Self)
        requires
            ppu_clock_frequency / 3 / 44_100 >= 1,
        ensures
            a.wf(),
            a == apu_power_up(ppu_clock_frequency / 3 / 44_100),
    {
        let clock_frequency = ppu_clock_frequency / 3;
        Apu {
            pulse1: Pulse::new(false),
            pulse2: Pulse::new(true),
            triangle: Triangle::new(),
            noise: Noise::new(),
            dmc: Dmc::new(),
            interrupt_inhibit: false,
            frame_interrupt: false,
            sample_rate: clock_frequency / 44_100,
            frame_clock: 0,
            mode: Mode::Step4,
            instant_clock: false,
            last_4017_value: 0,
        }
    }

    /// Builds an APU from a saved state.
    pub fn from_state(state: &ApuState, ppu_clock_frequency: u64) -> (a: Self)
        requires
            ppu_clock_frequency / 3 / 44_100 >= 1,
        ensures
            a.get_state_spec() == *state,
            a == apu_from_state(*state),
    {
        let mut apu = Apu::new(ppu_clock_frequency);
        apu.set_state(state);
        apu
    }

    /// Reads a register: only $4015 (status) can be read; reading it clears
    /// the frame interrupt flag.
    pub fn read_register(&mut self, address: u16) -> (r: Result<u8, InvalidAPURegisterReadError>)
        ensures
            address == 0x4015 ==> r == Ok::<u8, InvalidAPURegisterReadError>(apu_status(*old(self)))
                && *final(self) == (Apu { frame_interrupt: false, ..*old(self) }),
            address != 0x4015 ==> r == Err::<u8, InvalidAPURegisterReadError>(InvalidAPURegisterReadError(address))
                && *final(self) == *old(self),
    {
        if address == 0x4015 {
            let status = self.status();
            self.frame_interrupt = false;
            Ok(status)
        } else {
            Err(InvalidAPURegisterReadError(address))
        }
    }

    /// Reads a register without side effects.
    pub fn read_only_register(&self, address: u16) -> (r: Result<u8, InvalidAPURegisterReadError>)
        ensures
            address == 0x4015 ==> r == Ok::<u8, InvalidAPURegisterReadError>(apu_status(*self)),
            address != 0x4015 ==> r == Err::<u8, InvalidAPURegisterReadError>(InvalidAPURegisterReadError(address)),
    {
        if address == 0x4015 {
            Ok(self.status())
        } else {
            Err(InvalidAPURegisterReadError(address))
        }
    }

    fn status(&self) -> (s: u8)
        ensures
            s == apu_status(*self),
    {
        let mut status: u8 = 0;
        if !self.pulse1.length_counter.is_channel_silenced() {
            status = status + 0x01;
        }
        if !self.pulse2.length_counter.is_channel_silenced() {
            status = status + 0x02;
        }
        if !self.triangle.length_counter.is_channel_silenced() {
            status = status + 0x04;
        }
        if !self.noise.length_counter.is_channel_silenced() {
            status = status + 0x08;
        }
        if self.dmc.is_active() {
            status = status + 0x10;
        }
        if self.frame_interrupt {
            status = status + 0x40;
        }
        if self.dmc.interrupt_flag {
            status = status + 0x80;
        }
        status
    }

    /// Writes one of the APU's registers; other addresses are refused.
    pub fn write_register(&mut self, address: u16, value: u8) -> (r: Result<(), InvalidAPURegisterWriteError>)
        requires
            old(self).wf(),
        ensures
            final(self).wf(),
            apu_writable(address) ==> r is Ok,
            !apu_writable(address) ==> r == Err::<(), InvalidAPURegisterWriteError>(InvalidAPURegisterWriteError(address)),
            *final(self) == apu_written(*old(self), address, value),
    {
        reveal(apu_written);
        if 0x4000 <= address && address <= 0x4003 {
            write_pulse(&mut self.pulse1, address - 0x4000, value);
        } else if 0x4004 <= address && address <= 0x4007 {
            write_pulse(&mut self.pulse2, address - 0x4004, value);
        } else if 0x4008 <= address && address <= 0x400B {
            write_triangle(&mut self.triangle, address - 0x4008, value);
        } else if 0x400C <= address && address <= 0x400F {
            write_noise(&mut self.noise, address - 0x400C, value);
        } else if 0x4010 <= address && address <= 0x4013 {
            write_dmc(&mut self.dmc, address - 0x4010, value);
        } else if address == 0x4015 {
            self.write_enabled(value);
        } else if address == 0x4017 {
            self.write_frame_counter(value);
        } else {
            return Err(InvalidAPURegisterWriteError(address));
        }
        Ok(())
    }

    /// Resets the APU: the channels are silenced, the frame counter register
    /// is written again with its last value, the triangle restarts and the
    /// sample output level keeps only its lowest bit.
    pub fn reset(&mut self)
        requires
            old(self).wf(),
        ensures
            final(self).wf(),
            *final(self) == apu_reset(*old(self)),
    {
        let last = self.last_4017_value;
        let _ = self.write_register(0x4017, last);
        let _ = self.write_register(0x4015, 0);
        self.triangle.reset();
        self.dmc.reset();
    }

    fn clock_quarter_frame(&mut self)
        requires
            old(self).wf(),
        ensures
            final(self).wf(),
            *final(self) == apu_quarter_frame(*old(self)),
            final(self).interrupt_inhibit == old(self).interrupt_inhibit,
            final(self).frame_interrupt == old(self).frame_interrupt,
            final(self).sample_rate == old(self).sample_rate,
            final(self).frame_clock == old(self).frame_clock,
            final(self).mode == old(self).mode,
            final(self).instant_clock == old(self).instant_clock,
            final(self).last_4017_value == old(self).last_4017_value,
    {
        reveal(apu_quarter_frame);
        self.pulse1.envelope.clock();
        self.pulse2.envelope.clock();
        self.noise.envelope.clock();
        self.triangle.clock_linear_counter();
    }

    fn clock_half_frame(&mut self)
        requires
            old(self).wf(),
        ensures
            final(self).wf(),
            *final(self) == apu_half_frame(*old(self)),
            final(self).interrupt_inhibit == old(self).interrupt_inhibit,
            final(self).frame_interrupt == old(self).frame_interrupt,
            final(self).sample_rate == old(self).sample_rate,
            final(self).frame_clock == old(self).frame_clock,
            final(self).mode == old(self).mode,
            final(self).instant_clock == old(self).instant_clock,
            final(self).last_4017_value == old(self).last_4017_value,
    {
        reveal(apu_half_frame);
        self.clock_quarter_frame();
        self.pulse1.length_counter.clock();
        self.pulse2.length_counter.clock();
        self.noise.length_counter.clock();
        self.triangle.length_counter.clock();
        self.pulse1.clock_sweep();
        self.pulse2.clock_sweep();
    }

    /// The current outputs of the five channels.
    pub fn mixer_input(&self) -> (m: MixerInput)
        requires
            self.wf(),
        ensures
            m == apu_mixer_input(*self),
    {
        MixerInput {
            pulse1: self.pulse1.get_output(),
            pulse2: self.pulse2.get_output(),
            triangle: self.triangle.get_output(),
            noise: self.noise.get_output(),
            dmc: self.dmc.get_output(),
        }
    }

    /// Clocks the APU for one CPU cycle. A pending instant clock (after a
    /// five-step write to $4017) only runs a half frame. Otherwise the frame
    /// sequencer acts, the pulse, noise and sample channels are clocked on
    /// even cycles, the triangle on every cycle, and a sample is reported
    /// every `sample_rate` cycles.
    pub fn clock(&mut self) -> (t: ApuTick)
        requires
            old(self).wf(),
        ensures
            final(self).wf(),
            (*final(self), t) == apu_ticked(*old(self)),
            old(self).instant_clock ==> *final(self) == (Apu { instant_clock: false, ..apu_half_frame(*old(self)) })
                && t == (ApuTick { frame_irq: false, dmc_irq: false, dmc_clocked: false, sample: None }),
            !old(self).instant_clock ==> {
                &&& *final(self) == apu_clocked(*old(self))
                &&& t.frame_irq == apu_sequenced(*old(self)).1
                &&& t.dmc_irq == (apu_sequenced(*old(self)).0.frame_clock % 2 == 0
                    && apu_sequenced(*old(self)).0.dmc.interrupt_flag)
                &&& t.dmc_clocked == (apu_sequenced(*old(self)).0.frame_clock % 2 == 0)
                &&& t.sample == (if apu_clocked(*old(self)).frame_clock % old(self).sample_rate == 0 {
                    Some(apu_mixer_input(apu_clocked(*old(self))))
                } else {
                    None
                })
            },
    {
        proof { reveal(apu_ticked); }
        if self.instant_clock {
            self.clock_half_frame();
            self.instant_clock = false;
            return ApuTick { frame_irq: false, dmc_irq: false, dmc_clocked: false, sample: None };
        }
        let frame_irq = self.sequence();
        let dmc_clocked = self.frame_clock % 2 == 0;
        let dmc_irq = self.clock_channels();
        self.triangle.clock();
        self.frame_clock = self.frame_clock.wrapping_add(1);
        let sample = if self.frame_clock % self.sample_rate == 0 {
            Some(self.mixer_input())
        } else {
            None
        };
        ApuTick { frame_irq, dmc_irq, dmc_clocked, sample }
    }

    pub open spec fn get_state_spec(&self) -> ApuState {
        ApuState {
            pulse1: self.pulse1,
            pulse2: self.pulse2,
            triangle: self.triangle,
            noise: self.noise,
            dmc: self.dmc.get_state_spec(),
            interrupt_inhibit: self.interrupt_inhibit,
            frame_interrupt: self.frame_interrupt,
            sample_rate: self.sample_rate,
            frame_clock: self.frame_clock,
            mode: self.mode,
            instant_clock: self.instant_clock,
            last_4017_value: self.last_4017_value,
        }
    }
}

/// A pulse channel at power-up (`second` tells the second channel, whose
/// sweep negates differently).
pub open spec fn pulse_power_up(second: bool) -> Pulse {
    Pulse {
        length_counter: length_counter::LengthCounter::new_spec(),
        sweep: sweep::SweepUnit {
            second, enabled: false, period: 0, divider: 0, negate: false,
            shift: 0, reload: false, mute: false,
        },
        envelope: Envelope::new_spec(),
        duty: pulse::Duty::Wave125,
        sequence: 0,
        period: 0,
        timer: 0,
    }
}

/// The APU at power-up, sampling every `sample_rate` cycles.
pub open spec fn apu_power_up(sample_rate: u64) -> Apu {
    Apu {
        pulse1: pulse_power_up(false),
        pulse2: pulse_power_up(true),
        triangle: Triangle {
            length_counter: length_counter::LengthCounter::new_spec(),
            control: false,
            linear_period: 0,
            linear_counter: 0,
            linear_reload: false,
            timer: 0,
            period: 0,
            step: 0,
        },
        noise: Noise {
            length_counter: length_counter::LengthCounter::new_spec(),
            envelope: Envelope::new_spec(),
            shift: 1,
            mode: false,
            timer: 0,
            period: 0,
        },
        dmc: Dmc::new_spec(),
        interrupt_inhibit: false,
        frame_interrupt: false,
        sample_rate,
        frame_clock: 0,
        mode: Mode::Step4,
        instant_clock: false,
        last_4017_value: 0,
    }
}

/// The APU that a saved state describes.
pub open spec fn apu_from_state(s: ApuState) -> Apu {
    Apu {
        pulse1: s.pulse1,
        pulse2: s.pulse2,
        triangle: s.triangle,
        noise: s.noise,
        dmc: crate::apu::dmc::dmc_from_state(s.dmc),
        interrupt_inhibit: s.interrupt_inhibit,
        frame_interrupt: s.frame_interrupt,
        sample_rate: s.sample_rate,
        frame_clock: s.frame_clock,
        mode: s.mode,
        instant_clock: s.instant_clock,
        last_4017_value: s.last_4017_value,
    }
}

impl Stateful for Apu {
    type State = ApuState;

    fn get_state(&self) -> (s: ApuState)
        ensures
            s == self.get_state_spec(),
    {
        ApuState {
            pulse1: self.pulse1,
            pulse2: self.pulse2,
            triangle: self.triangle,
            noise: self.noise,
            dmc: self.dmc.get_state(),
            interrupt_inhibit: self.interrupt_inhibit,
            frame_interrupt: self.frame_interrupt,
            sample_rate: self.sample_rate,
            frame_clock: self.frame_clock,
            mode: self.mode,
            instant_clock: self.instant_clock,
            last_4017_value: self.last_4017_value,
        }
    }

    fn set_state(&mut self, state: &ApuState)
        ensures
            final(self).get_state_spec() == *state,
    {
        self.pulse1 = state.pulse1;
        self.pulse2 = state.pulse2;
        self.triangle = state.triangle;
        self.noise = state.noise;
        self.dmc = Dmc::from_state(&state.dmc);
        self.interrupt_inhibit = state.interrupt_inhibit;
        self.frame_interrupt = state.frame_interrupt;
        self.sample_rate = state.sample_rate;
        self.frame_clock = state.frame_clock;
        self.mode = state.mode;
        self.instant_clock = state.instant_clock;
        self.last_4017_value = state.last_4017_value;
    }
}

} // verus!
