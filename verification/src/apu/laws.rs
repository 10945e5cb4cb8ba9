//! What the CPU's writes to the APU registers select, how the frame
//! sequencer and the units of the channels step, and what the channels
//! output.

use vstd::prelude::*;
use super::{Apu, Mode, apu_written, apu_status, apu_sequenced, apu_quarter_frame, apu_half_frame};
use super::envelope::{Envelope, envelope_after_clock, envelope_output};
use super::noise::{noise_shifted, noise_output, Noise};
use super::pulse::{Pulse, pulse_output};
use super::sweep::{SweepUnit, sweep_target, sweep_mutes, sweep_new_period};
use super::triangle::{Triangle, triangle_output, triangle_clocked};
use super::pulse::pulse_clocked;
use super::length_counter::{LengthCounter, lc_clocked};

verus! {

/// The note lengths that the upper five bits of a channel's fourth register
/// select.
pub open spec fn length_of(index: int) -> u8 {
    seq![
        10u8, 254, 20, 2, 40, 4, 80, 6, 160, 8, 60, 10, 14, 12, 26, 14,
        12, 16, 24, 18, 48, 20, 96, 22, 192, 24, 72, 26, 16, 28, 32, 30,
    ][index]
}

/// The envelope and length-halt settings of a control byte: bits 0-3 the
/// volume, bit 4 constant volume, bit 5 loop and length halt.
pub open spec fn control_loaded(e: Envelope, halt: bool, value: u8) -> bool {
    &&& e.volume == value % 16
    &&& e.constant == (value % 32 >= 16)
    &&& e.loop_flag == (value % 64 >= 32)
    &&& halt == (value % 64 >= 32)
}

/// Writes to the pulse and noise channels: $4000/$4004/$400C set the
/// volume envelope; $4001/$4005 the sweep (bit 7 enable, bits 4-6 period,
/// bit 3 negate, bits 0-2 shift); $4002/$4006 and $4003/$4007 the low eight
/// and high three bits of the period, the latter also loading the length
/// counter from bits 3-7 when the channel is enabled and restarting the
/// envelope; $400E the noise mode (bit 7) and period (bits 0-3); $400F the
/// noise length.
pub proof fn law_pulse_and_noise_writes(a: Apu, value: u8)
    ensures
        control_loaded(apu_written(a, 0x4000, value).pulse1.envelope,
            apu_written(a, 0x4000, value).pulse1.length_counter.length_counter_halt, value),
        control_loaded(apu_written(a, 0x4004, value).pulse2.envelope,
            apu_written(a, 0x4004, value).pulse2.length_counter.length_counter_halt, value),
        control_loaded(apu_written(a, 0x400C, value).noise.envelope,
            apu_written(a, 0x400C, value).noise.length_counter.length_counter_halt, value),
        ({
            let s = apu_written(a, 0x4001, value).pulse1.sweep;
            &&& s.enabled == (value >= 128)
            &&& s.period == (value / 16) % 8
            &&& s.negate == (value % 16 >= 8)
            &&& s.shift == value % 8
            &&& s.reload
        }),
        apu_written(a, 0x4002, value).pulse1.period == (a.pulse1.period / 256) * 256 + value,
        ({
            let p = apu_written(a, 0x4003, value).pulse1;
            &&& p.period == (value % 8) * 256 + a.pulse1.period % 256
            &&& p.length_counter.length_counter
                == (if a.pulse1.length_counter.enabled { length_of(value as int / 8) } else { a.pulse1.length_counter.length_counter })
            &&& p.envelope.start_flag
        }),
        ({
            let p = apu_written(a, 0x4007, value).pulse2;
            &&& p.period == (value % 8) * 256 + a.pulse2.period % 256
            &&& p.length_counter.length_counter
                == (if a.pulse2.length_counter.enabled { length_of(value as int / 8) } else { a.pulse2.length_counter.length_counter })
        }),
        ({
            let n = apu_written(a, 0x400E, value).noise;
            &&& n.mode == (value >= 128)
            &&& n.period == seq![4u16, 8, 16, 32, 64, 96, 128, 160, 202, 254, 380, 508, 762, 1016, 2034, 4068][value as int % 16]
        }),
        ({
            let n = apu_written(a, 0x400F, value).noise;
            &&& n.length_counter.length_counter
                == (if a.noise.length_counter.enabled { length_of(value as int / 8) } else { a.noise.length_counter.length_counter })
            &&& n.envelope.start_flag
        }),
{
    reveal(apu_written);
    crate::bits::lemma_byte_values();
    lemma_apu_bits();
    lemma_high_period_bits();
    assert(value & 0x0F == value % 16 && (value & 0x10 != 0) == (value % 32 >= 16) && (value & 0x20 != 0) == (value % 64 >= 32)
        && (value & 0x80 != 0) == (value >= 128) && ((value & 0x70) >> 4u8) == (value / 16) % 8
        && (value & 0x08 != 0) == (value % 16 >= 8) && value & 0x07 == value % 8
        && ((value & 0xF8) >> 3u8) == value / 8);
    let p1 = a.pulse1.period;
    let p2 = a.pulse2.period;
    let v = value;
    assert(((p1 & 0xFF00) | (v as u16)) as int == (p1 / 256) * 256 + v
        && ((p1 & 0x00FF) | (((v & 0x07) as u16) << 8u16)) as int == (v % 8) * 256 + p1 % 256
        && ((p2 & 0x00FF) | (((v & 0x07) as u16) << 8u16)) as int == (v % 8) * 256 + p2 % 256);
}

/// Writes to the triangle and the sample channel: $4008 sets the control
/// flag and length halt (bit 7) and the linear counter reload value (bits
/// 0-6); $400A/$400B the period, $400B loading the length counter when the
/// channel is enabled; $4010 the sample interrupt (bit 7), loop (bit 6) and
/// rate (bits 0-3); $4012 the sample address $C000 + 64 * value; $4013 the
/// sample length 16 * value + 1.
pub proof fn law_triangle_and_sample_writes(a: Apu, value: u8)
    ensures
        ({
            let t = apu_written(a, 0x4008, value).triangle;
            t.control == (value >= 128) && t.length_counter.length_counter_halt == (value >= 128)
                && t.linear_period == value % 128
        }),
        apu_written(a, 0x400A, value).triangle.period == (a.triangle.period / 256) * 256 + value,
        ({
            let t = apu_written(a, 0x400B, value).triangle;
            &&& t.period == (value % 8) * 256 + a.triangle.period % 256
            &&& t.length_counter.length_counter
                == (if a.triangle.length_counter.enabled { length_of(value as int / 8) } else { a.triangle.length_counter.length_counter })
            &&& t.linear_reload
        }),
        ({
            let d = apu_written(a, 0x4010, value).dmc;
            &&& d.irq_enabled == (value >= 128)
            &&& d.loop_flag == (value % 128 >= 64)
            &&& d.rate == seq![428u16, 380, 340, 320, 286, 254, 226, 214, 190, 160, 142, 128, 106, 84, 72, 54][value as int % 16]
            &&& value < 128 ==> !d.interrupt_flag
        }),
        apu_written(a, 0x4012, value).dmc.sample_address == 0xC000 + 64 * value,
        apu_written(a, 0x4013, value).dmc.sample_length == 16 * value + 1,
{
    reveal(apu_written);
    crate::bits::lemma_byte_values();
    lemma_apu_bits();
    lemma_high_period_bits();
    let v = value;
    let tp = a.triangle.period;
    assert((v & 0x80 != 0) == (v >= 128) && v & 0x7F == v % 128 && (v & 0x40 != 0) == (v % 128 >= 64)
        && v & 0x0F == v % 16 && ((v & 0xF8) >> 3u8) == v / 8
        && ((tp & 0xFF00) | (v as u16)) as int == (tp / 256) * 256 + v
        && ((tp & 0x00FF) | (((v & 0x07) as u16) << 8u16)) as int == (v % 8) * 256 + tp % 256
        && (0xC000u16 | ((v as u16) << 6u16)) as int == 0xC000 + 64 * v
        && (((v as u16) << 4u16) | 0x0001u16) as int == 16 * v + 1);
}

/// $4015: bits 0-4 enable the pulse, triangle, noise and sample channels; a
/// disabled channel's length counter drops to 0 (the sample channel's bytes
/// left too) and the sample interrupt is cleared. $4017: bit 7 selects the
/// five-step sequence, bit 6 inhibits (and clears) the frame interrupt.
pub proof fn law_enable_and_frame_counter_writes(a: Apu, value: u8)
    ensures
        ({
            let b = apu_written(a, 0x4015, value);
            &&& b.pulse1.length_counter.enabled == (value % 2 == 1)
            &&& b.pulse2.length_counter.enabled == ((value / 2) % 2 == 1)
            &&& b.triangle.length_counter.enabled == ((value / 4) % 2 == 1)
            &&& b.noise.length_counter.enabled == ((value / 8) % 2 == 1)
            &&& value % 2 == 0 ==> b.pulse1.length_counter.length_counter == 0
            &&& (value / 4) % 2 == 0 ==> b.triangle.length_counter.length_counter == 0
            &&& (value / 8) % 2 == 0 ==> b.noise.length_counter.length_counter == 0
            &&& (value / 16) % 2 == 0 ==> b.dmc.bytes_remaining == 0
            &&& !b.dmc.interrupt_flag
        }),
        ({
            let b = apu_written(a, 0x4017, value);
            &&& (b.mode == Mode::Step5) == (value >= 128)
            &&& b.interrupt_inhibit == (value % 128 >= 64)
            &&& value % 128 >= 64 ==> !b.frame_interrupt
        }),
{
    reveal(apu_written);
    reveal(super::apu_enabled_written);
    reveal(super::apu_frame_counter_written);
    crate::bits::lemma_byte_values();
    let v = value;
    assert((v & 0x01 != 0) == (v % 2 == 1) && (v & 0x02 != 0) == ((v / 2) % 2 == 1) && (v & 0x04 != 0) == ((v / 4) % 2 == 1)
        && (v & 0x08 != 0) == ((v / 8) % 2 == 1) && (v & 0x10 != 0) == ((v / 16) % 2 == 1)
        && (v & 0x80 != 0) == (v >= 128) && (v & 0x40 != 0) == (v % 128 >= 64));
}

/// The status read at $4015: bit 0-3 whether the pulse, pulse, triangle and
/// noise length counters are running, bit 4 whether the sample has bytes
/// left, bit 6 the frame interrupt and bit 7 the sample interrupt; bit 5
/// reads 0.
pub proof fn law_status_bits(a: Apu)
    ensures
        ({
            let s = apu_status(a);
            &&& (s % 2 == 1) == (a.pulse1.length_counter.length_counter != 0)
            &&& ((s / 2) % 2 == 1) == (a.pulse2.length_counter.length_counter != 0)
            &&& ((s / 4) % 2 == 1) == (a.triangle.length_counter.length_counter != 0)
            &&& ((s / 8) % 2 == 1) == (a.noise.length_counter.length_counter != 0)
            &&& ((s / 16) % 2 == 1) == (a.dmc.bytes_remaining > 0)
            &&& (s / 32) % 2 == 0
            &&& ((s / 64) % 2 == 1) == a.frame_interrupt
            &&& (s >= 128) == a.dmc.interrupt_flag
        }),
{
}

/// The frame sequencer acts on five frame clocks: 7457 and 22371 clock the
/// envelopes and the linear counter (a quarter frame); 14913 a half frame
/// (lengths and sweeps too); 29829 ends the four-step sequence with a half
/// frame, restarting it and raising the frame interrupt unless inhibited;
/// 37281 ends the five-step sequence with a half frame. Every other clock
/// changes nothing here.
pub proof fn law_frame_sequencer(a: Apu)
    ensures
        ({
            let fc = a.frame_clock;
            let (b, irq) = apu_sequenced(a);
            &&& fc != 7457 && fc != 14913 && fc != 22371 && fc != 29829 && fc != 37281 ==> b == a && !irq
            &&& (fc == 7457 || fc == 22371) ==> b == apu_quarter_frame(a) && !irq
            &&& fc == 14913 ==> b == apu_half_frame(a) && !irq
            &&& fc == 29829 && a.mode == Mode::Step4 ==> irq == !a.interrupt_inhibit && b.frame_clock == 0
                && b == (Apu { frame_interrupt: b.frame_interrupt, frame_clock: 0, ..apu_half_frame(a) })
                && (!a.interrupt_inhibit ==> b.frame_interrupt)
            &&& fc == 29829 && a.mode == Mode::Step5 ==> b == a && !irq
            &&& fc == 37281 && a.mode == Mode::Step5 ==> b == (Apu { frame_clock: 0, ..apu_half_frame(a) }) && !irq
            &&& fc == 37281 && a.mode == Mode::Step4 ==> b == a && !irq
        }),
{
    reveal(apu_sequenced);
}

/// The volume envelope outputs its volume when constant and its decay level
/// otherwise. A clock after a restart sets the decay level to 15 and
/// reloads the divider from the volume; otherwise the divider counts down,
/// and when it is at 0 it is reloaded and the decay level goes down by one,
/// from 0 back to 15 only when looping.
pub proof fn law_envelope(e: Envelope)
    ensures
        envelope_output(e) == if e.constant { e.volume } else { e.delay_level_counter },
        ({
            let f = envelope_after_clock(e);
            &&& e.start_flag ==> !f.start_flag && f.delay_level_counter == 15 && f.divider == e.volume
            &&& !e.start_flag && e.divider > 0 ==> f.divider == e.divider - 1 && f.delay_level_counter == e.delay_level_counter
            &&& !e.start_flag && e.divider == 0 ==> f.divider == e.volume && f.delay_level_counter == (
                if e.delay_level_counter > 0 { e.delay_level_counter - 1 } else if e.loop_flag { 15 } else { 0 })
        }),
{
}

/// The sweep unit's target period: the period plus the period shifted
/// right by the shift count, or minus it when negating (minus one more on
/// the first pulse channel), wrapping as a 16-bit value. A target below 8
/// or above $7FF mutes the channel (periods are 11-bit values); otherwise, when the divider is at 0 and
/// the unit enabled, the period becomes the target.
pub proof fn law_sweep(s: SweepUnit, period: u16)
    ensures
        ({
            let change = period as int / seq![1int, 2, 4, 8, 16, 32, 64, 128][s.shift as int];
            let raw = if !s.negate { period + change } else if s.second { period - change } else { period - change - 1 };
            let target = sweep_target(s, period);
            &&& s.shift < 8 && period <= 0x7FF ==> target == (raw + 65536) % 65536
            &&& sweep_mutes(target) == (target < 8 || target > 0x7FF)
            &&& sweep_new_period(s, period) == if s.divider == 0 && s.enabled && 8 <= target <= 0x7FF { target } else { period }
        }),
{
    let sh = s.shift;
    lemma_apu_bits();
    let d = seq![1int, 2, 4, 8, 16, 32, 64, 128];
    assert(period >> sh == period >> sh);
    if sh == 0 { assert(d[0] == 1); } else if sh == 1 { assert(d[1] == 2); } else if sh == 2 { assert(d[2] == 4); }
    else if sh == 3 { assert(d[3] == 8); } else if sh == 4 { assert(d[4] == 16); } else if sh == 5 { assert(d[5] == 32); }
    else if sh == 6 { assert(d[6] == 64); } else if sh == 7 { assert(d[7] == 128); }
}

/// The channel outputs: a pulse channel plays its envelope volume while the
/// current step of its duty sequence (bit 0) is high, its length counter
/// runs, the sweep does not mute it and its period is within [8, $7FE]; the
/// noise channel while bit 0 of its shift register is set and its length
/// counter runs; the triangle its 32-step waveform (15 down to 0, then 0 up
/// to 15) while its length counter runs. Otherwise they output 0.
pub proof fn law_channel_outputs(p: Pulse, n: Noise, t: Triangle)
    ensures
        pulse_output(p) == if p.sequence % 2 == 1 && !p.sweep.mute && p.length_counter.length_counter != 0
            && 8 <= p.period <= 0x7FE { envelope_output(p.envelope) } else { 0 },
        noise_output(n) == if n.shift % 2 == 1 && n.length_counter.length_counter != 0 { envelope_output(n.envelope) } else { 0 },
        t.step < 32 ==> triangle_output(t) == if t.length_counter.length_counter != 0 {
            seq![15u8, 14, 13, 12, 11, 10, 9, 8, 7, 6, 5, 4, 3, 2, 1, 0, 0, 1, 2, 3, 4, 5, 6, 7, 8, 9, 10, 11, 12, 13, 14, 15][t.step as int]
        } else {
            0
        },
{
    crate::bits::lemma_byte_values();
    lemma_apu_bits();
    let q = p.sequence;
    let sh = n.shift;
    assert((q & 0x01 != 0) == (q % 2 == 1) && (sh & 0x01 != 0) == (sh % 2 == 1));
}

/// The noise shift register steps right by one; the new bit 14 is bit 0
/// xor bit 5 (mode set) or bit 1 (mode clear) of the old value.
pub proof fn law_noise_shift(shift: u16, mode: bool)
    ensures
        ({
            let other = if mode { (shift / 32) % 2 } else { (shift / 2) % 2 };
            let feedback = if shift % 2 == other { 0int } else { 1int };
            shift < 0x8000 ==> noise_shifted(shift, mode) == shift / 2 + 0x4000 * feedback
        }),
{
    lemma_apu_bits();
    assert(noise_shifted(shift, mode) == noise_shifted(shift, mode));
}

/// Register-field arithmetic of the channels.
proof fn lemma_apu_bits()
    by (bit_vector)
    ensures
        forall|p: u16, v: u8| (#[trigger] ((p & 0xFF00) | (v as u16))) as int == (p / 256) * 256 + v,
        forall|v: u8| (#[trigger] (0xC000u16 | ((v as u16) << 6u16))) as int == 0xC000 + 64 * v,
        forall|v: u8| (#[trigger] (((v as u16) << 4u16) | 0x0001u16)) as int == 16 * v + 1,
        forall|p: u16, k: u8| (k == 0 ==> #[trigger] (p >> k) == p) && (k == 1 ==> p >> k == p / 2)
            && (k == 2 ==> p >> k == p / 4) && (k == 3 ==> p >> k == p / 8) && (k == 4 ==> p >> k == p / 16)
            && (k == 5 ==> p >> k == p / 32) && (k == 6 ==> p >> k == p / 64) && (k == 7 ==> p >> k == p / 128),
        forall|x: u16| ((#[trigger] (x & 0x0001)) != 0) == (x % 2 == 1),
        forall|shift: u16, mode: bool| shift < 0x8000 ==> (#[trigger] noise_shifted(shift, mode)) as int == shift / 2 + 0x4000 * (
            if shift % 2 == (if mode { (shift / 32) % 2 } else { (shift / 2) % 2 }) { 0int } else { 1int }),
{
}

/// The high period bits of a channel's fourth register.
proof fn lemma_high_period_bits()
    by (bit_vector)
    ensures
        forall|q: u16, w: u8| (#[trigger] ((q & 0x00FF) | (((w & 0x07) as u16) << 8u16))) as int == (w % 8) * 256 + q % 256,
{
}

/// The channel timers: a pulse channel's timer counts down, and from 0 it
/// reloads with the period plus one and rotates the duty sequence one step
/// right (bit 0 wraps to bit 7); the triangle's timer likewise, stepping
/// through its 32 steps (after 31 back to 0) while both its linear and its
/// length counter run. A length counter counts down on each half frame
/// unless halted or already 0.
pub proof fn law_channel_timers(p: Pulse, t: Triangle, l: LengthCounter)
    requires
        p.period < 0xFFFF,
        t.period < 0xFFFF,
        t.step < 32,
    ensures
        p.timer != 0 ==> pulse_clocked(p) == (Pulse { timer: (p.timer - 1) as u16, ..p }),
        p.timer == 0 ==> pulse_clocked(p).timer == p.period + 1
            && pulse_clocked(p).sequence == p.sequence / 2 + 128 * (p.sequence % 2),
        t.timer != 0 ==> triangle_clocked(t) == (Triangle { timer: (t.timer - 1) as u16, ..t }),
        t.timer == 0 ==> triangle_clocked(t).timer == t.period + 1 && triangle_clocked(t).step == (
            if t.linear_counter != 0 && t.length_counter.length_counter != 0 { (t.step + 1) % 32 } else { t.step as int }),
        lc_clocked(l).length_counter == if !l.length_counter_halt && l.length_counter > 0 { l.length_counter - 1 } else {
            l.length_counter as int },
{
    lemma_rotate_bits();
}

/// The duty sequence's rotation.
proof fn lemma_rotate_bits()
    by (bit_vector)
    ensures
        forall|x: u8| (#[trigger] (((x & 0xFE) >> 1u8) | ((x & 0x01) << 7u8))) as int == x / 2 + 128 * (x % 2),
{
}

} // verus!
