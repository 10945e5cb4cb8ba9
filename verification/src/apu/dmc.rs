use vstd::prelude::*;
use crate::state::Stateful;
use super::state::DmcState;

verus! {

/// The timer periods selectable for the delta modulation channel.
pub open spec fn dmc_rate(index: u8) -> u16 {
    let t = seq![428u16, 380, 340, 320, 286, 254, 226, 214, 190, 160, 142, 128, 106, 84, 72, 54];
    t[index as int]
}

fn dmc_rate_value(index: u8) -> (v: u16)
    requires
        index < 16,
    ensures
        v == dmc_rate(index),
{
    let t: [u16; 16] = [428, 380, 340, 320, 286, 254, 226, 214, 190, 160, 142, 128, 106, 84, 72, 54];
    assert(t@ =~= seq![428u16, 380, 340, 320, 286, 254, 226, 214, 190, 160, 142, 128, 106, 84, 72, 54]);
    t[index as usize]
}

/// The delta modulation channel. The sample bytes it plays come from the CPU
/// bus: `pending_read` tells which address to read and `load_sample` hands
/// the byte back.
#[derive(Clone, Copy)]
pub struct Dmc {
    pub interrupt_flag: bool,
    pub irq_enabled: bool,
    pub loop_flag: bool,
    pub sample_address: u16,
    pub sample_length: u16,
    pub sample_buffer: Option<u8>,
    pub current_address: u16,
    pub bytes_remaining: u16,
    pub silence_flag: bool,
    pub output_shift_register: u8,
    pub bits_remaining: u8,
    pub timer: u16,
    pub rate: u16,
    pub output_level: u8,
}

/// The output unit after one step: the level moves by two towards the next
/// bit of the shift register (staying within 0..=127), and a new byte is
/// taken from the sample buffer every eight steps.
pub open spec fn dmc_output_stepped(d: Dmc) -> Dmc {
    let d1 = if !d.silence_flag {
        Dmc {
            output_level: if d.output_shift_register & 0x01 != 0 {
                if d.output_level <= 125 { (d.output_level + 2) as u8 } else { d.output_level }
            } else if d.output_level >= 2 {
                (d.output_level - 2) as u8
            } else {
                d.output_level
            },
            output_shift_register: d.output_shift_register >> 1u8,
            ..d
        }
    } else {
        d
    };
    let bits = (d1.bits_remaining - 1) as u8;
    if bits == 0 {
        match d1.sample_buffer {
            Some(b) => Dmc {
                bits_remaining: 8,
                silence_flag: false,
                output_shift_register: b,
                sample_buffer: None,
                ..d1
            },
            None => Dmc { bits_remaining: 8, silence_flag: true, ..d1 },
        }
    } else {
        Dmc { bits_remaining: bits, ..d1 }
    }
}

/// The channel after its timer is clocked (the memory reader excepted).
pub open spec fn dmc_clocked(d: Dmc) -> Dmc {
    if d.timer != 0 {
        Dmc { timer: (d.timer - 1) as u16, ..d }
    } else {
        dmc_output_stepped(Dmc { timer: d.rate, ..d })
    }
}

/// The address the memory reader fetches next, if it needs a byte.
pub open spec fn dmc_pending_read(d: Dmc) -> Option<u16> {
    if d.sample_buffer is None && d.bytes_remaining > 0 { Some(d.current_address) } else { None }
}

/// The channel after the memory reader receives the byte it asked for.
pub open spec fn dmc_sample_loaded(d: Dmc, data: u8) -> Dmc {
    let addr: u16 = if d.current_address < 0xFFFF { (d.current_address + 1) as u16 } else { 0x8000 };
    let left = (d.bytes_remaining - 1) as u16;
    let d1 = Dmc { sample_buffer: Some(data), current_address: addr, bytes_remaining: left, ..d };
    if left == 0 {
        if d.loop_flag {
            Dmc { current_address: d.sample_address, bytes_remaining: d.sample_length, ..d1 }
        } else if d.irq_enabled {
            Dmc { interrupt_flag: true, ..d1 }
        } else {
            d1
        }
    } else {
        d1
    }
}

/// The channel after a write to its flags and rate register.
pub open spec fn dmc_with_rate(d: Dmc, value: u8) -> Dmc {
    Dmc {
        irq_enabled: value & 0x80 != 0,
        interrupt_flag: if value & 0x80 != 0 { d.interrupt_flag } else { false },
        loop_flag: value & 0x40 != 0,
        rate: dmc_rate(value & 0x0F),
        ..d
    }
}

/// The channel after it is enabled or disabled through $4015.
pub open spec fn dmc_with_enabled(d: Dmc, enabled: bool) -> Dmc {
    if !enabled {
        Dmc { interrupt_flag: false, bytes_remaining: 0, ..d }
    } else if d.bytes_remaining == 0 {
        Dmc { interrupt_flag: false, current_address: d.sample_address, bytes_remaining: d.sample_length, ..d }
    } else {
        Dmc { interrupt_flag: false, ..d }
    }
}

impl Dmc {
    /// The output unit always has a bit left to play.
    pub open spec fn wf(&self) -> bool {
        self.bits_remaining >= 1
    }

    pub open spec fn new_spec() -> Dmc {
        Dmc {
            interrupt_flag: false,
            irq_enabled: false,
            loop_flag: false,
            sample_address: 0,
            sample_length: 0,
            sample_buffer: None,
            current_address: 0,
            bytes_remaining: 0,
            silence_flag: false,
            output_shift_register: 0,
            bits_remaining: 1,
            timer: 0,
            rate: 0,
            output_level: 0,
        }
    }

    pub fn new() -> (d: Self)
        ensures
            d == Dmc::new_spec(),
            d.wf(),
    {
        Dmc {
            interrupt_flag: false,
            irq_enabled: false,
            loop_flag: false,
            sample_address: 0,
            sample_length: 0,
            sample_buffer: None,
            current_address: 0,
            bytes_remaining: 0,
            silence_flag: false,
            output_shift_register: 0,
            bits_remaining: 1,
            timer: 0,
            rate: 0,
            output_level: 0,
        }
    }

    /// Builds a channel from a saved state.
    pub fn from_state(state: &DmcState) -> (d: Self)
        ensures
            d.get_state_spec() == *state,
            d == dmc_from_state(*state),
    {
        let mut dmc = Dmc::new();
        dmc.set_state(state);
        dmc
    }

    /// On reset, the output level keeps only its lowest bit.
    pub fn reset(&mut self)
        ensures
            *final(self) == (Dmc { output_level: old(self).output_level & 0x01, ..*old(self) }),
    {
        self.output_level = self.output_level & 0x01;
    }

    /// Enables or disables the channel ($4015 bit 4); clears the interrupt flag.
    pub fn set_enabled(&mut self, enabled: bool)
        ensures
            *final(self) == dmc_with_enabled(*old(self), enabled),
            *final(self) == (if !enabled {
                Dmc { interrupt_flag: false, bytes_remaining: 0, ..*old(self) }
            } else if old(self).bytes_remaining == 0 {
                Dmc {
                    interrupt_flag: false,
                    current_address: old(self).sample_address,
                    bytes_remaining: old(self).sample_length,
                    ..*old(self)
                }
            } else {
                Dmc { interrupt_flag: false, ..*old(self) }
            }),
    {
        self.interrupt_flag = false;
        if !enabled {
            self.bytes_remaining = 0;
        } else if self.bytes_remaining == 0 {
            self.current_address = self.sample_address;
            self.bytes_remaining = self.sample_length;
        }
    }

    pub fn is_active(&self) -> (b: bool)
        ensures
            b == (self.bytes_remaining > 0),
    {
        self.bytes_remaining > 0
    }

    /// Writes the flags and rate register ($4010).
    pub fn set_rate(&mut self, value: u8)
        ensures
            *final(self) == dmc_with_rate(*old(self), value),
            *final(self) == (Dmc {
                irq_enabled: value & 0x80 != 0,
                interrupt_flag: if value & 0x80 != 0 { old(self).interrupt_flag } else { false },
                loop_flag: value & 0x40 != 0,
                rate: dmc_rate(value & 0x0F),
                ..*old(self)
            }),
    {
        self.irq_enabled = value & 0x80 != 0;
        if !self.irq_enabled {
            self.interrupt_flag = false;
        }
        self.loop_flag = value & 0x40 != 0;
        proof { crate::bits::lemma_byte_masks(); }
        assert(value & 0x0F < 16);
        self.rate = dmc_rate_value(value & 0x0F);
    }

    /// Writes the direct load register ($4011).
    pub fn set_output_level(&mut self, value: u8)
        ensures
            *final(self) == (Dmc { output_level: value & 0x7F, ..*old(self) }),
    {
        self.output_level = value & 0x7F;
    }

    /// Writes the sample address register ($4012): address = $C000 + value * 64.
    pub fn set_sample_address(&mut self, value: u8)
        ensures
            *final(self) == (Dmc { sample_address: 0xC000u16 | ((value as u16) << 6u16), ..*old(self) }),
            final(self).sample_address == 0xC000 + value * 64,
    {
        let v: u16 = value as u16;
        assert(v < 256 ==> 0xC000u16 | (v << 6u16) == 0xC000 + v * 64) by (bit_vector);
        self.sample_address = 0xC000u16 | ((value as u16) << 6u16);
    }

    /// Writes the sample length register ($4013): length = value * 16 + 1.
    pub fn set_sample_length(&mut self, value: u8)
        ensures
            *final(self) == (Dmc { sample_length: ((value as u16) << 4u16) | 0x0001u16, ..*old(self) }),
            final(self).sample_length == value * 16 + 1,
    {
        let v: u16 = value as u16;
        assert(v < 256 ==> (v << 4u16) | 0x0001u16 == v * 16 + 1) by (bit_vector);
        self.sample_length = ((value as u16) << 4u16) | 0x0001u16;
    }

    /// The address the memory reader needs a byte from, if any.
    pub fn pending_read(&self) -> (r: Option<u16>)
        ensures
            r == dmc_pending_read(*self),
    {
        if self.sample_buffer.is_none() && self.bytes_remaining > 0 {
            Some(self.current_address)
        } else {
            None
        }
    }

    /// Hands the memory reader the byte it asked for; the sample advances and
    /// loops or raises its interrupt when it ends.
    pub fn load_sample(&mut self, data: u8)
        requires
            dmc_pending_read(*old(self)) is Some,
        ensures
            *final(self) == dmc_sample_loaded(*old(self), data),
    {
        self.sample_buffer = Some(data);
        if self.current_address < 0xFFFF {
            self.current_address = self.current_address + 1;
        } else {
            self.current_address = 0x8000;
        }
        self.bytes_remaining = self.bytes_remaining - 1;
        if self.bytes_remaining == 0 {
            if self.loop_flag {
                self.current_address = self.sample_address;
                self.bytes_remaining = self.sample_length;
            } else if self.irq_enabled {
                self.interrupt_flag = true;
            }
        }
    }

    fn clock_output(&mut self)
        requires
            old(self).wf(),
        ensures
            final(self).wf(),
            *final(self) == dmc_output_stepped(*old(self)),
    {
        if !self.silence_flag {
            if self.output_shift_register & 0x01 != 0 {
                if self.output_level <= 125 {
                    self.output_level = self.output_level + 2;
                }
            } else if self.output_level >= 2 {
                self.output_level = self.output_level - 2;
            }
            self.output_shift_register = self.output_shift_register >> 1u8;
        }
        self.bits_remaining = self.bits_remaining - 1;
        if self.bits_remaining == 0 {
            self.bits_remaining = 8;
            match self.sample_buffer {
                Some(buffer) => {
                    self.silence_flag = false;
                    self.output_shift_register = buffer;
                    self.sample_buffer = None;
                },
                None => {
                    self.silence_flag = true;
                },
            }
        }
    }

    /// Clocks the channel's timer and output unit. Returns whether the
    /// channel's interrupt is pending, which asks the CPU for an IRQ.
    pub fn clock(&mut self) -> (irq: bool)
        requires
            old(self).wf(),
        ensures
            final(self).wf(),
            irq == old(self).interrupt_flag,
            *final(self) == dmc_clocked(*old(self)),
    {
        let irq = self.interrupt_flag;
        if self.timer != 0 {
            self.timer = self.timer - 1;
        } else {
            self.timer = self.rate;
            self.clock_output();
        }
        irq
    }

    pub fn get_output(&self) -> (v: u8)
        ensures
            v == self.output_level,
    {
        self.output_level
    }

    pub open spec fn get_state_spec(&self) -> DmcState {
        DmcState {
            interrupt_flag: self.interrupt_flag,
            irq_enabled: self.irq_enabled,
            loop_flag: self.loop_flag,
            sample_address: self.sample_address,
            sample_length: self.sample_length,
            sample_buffer: self.sample_buffer,
            current_address: self.current_address,
            bytes_remaining: self.bytes_remaining,
            silence_flag: self.silence_flag,
            output_shift_register: self.output_shift_register,
            bits_remaining: self.bits_remaining,
            timer: self.timer,
            rate: self.rate,
            output_level: self.output_level,
        }
    }
}

/// The channel that a saved state describes.
pub open spec fn dmc_from_state(s: DmcState) -> Dmc {
    Dmc {
        interrupt_flag: s.interrupt_flag,
        irq_enabled: s.irq_enabled,
        loop_flag: s.loop_flag,
        sample_address: s.sample_address,
        sample_length: s.sample_length,
        sample_buffer: s.sample_buffer,
        current_address: s.current_address,
        bytes_remaining: s.bytes_remaining,
        silence_flag: s.silence_flag,
        output_shift_register: s.output_shift_register,
        bits_remaining: s.bits_remaining,
        timer: s.timer,
        rate: s.rate,
        output_level: s.output_level,
    }
}

impl Stateful for Dmc {
    type State = DmcState;

    fn get_state(&self) -> (s: DmcState)
        ensures
            s == self.get_state_spec(),
    {
        DmcState {
            interrupt_flag: self.interrupt_flag,
            irq_enabled: self.irq_enabled,
            loop_flag: self.loop_flag,
            sample_address: self.sample_address,
            sample_length: self.sample_length,
            sample_buffer: self.sample_buffer,
            current_address: self.current_address,
            bytes_remaining: self.bytes_remaining,
            silence_flag: self.silence_flag,
            output_shift_register: self.output_shift_register,
            bits_remaining: self.bits_remaining,
            timer: self.timer,
            rate: self.rate,
            output_level: self.output_level,
        }
    }

    fn set_state(&mut self, state: &DmcState)
        ensures
            final(self).get_state_spec() == *state,
    {
        self.interrupt_flag = state.interrupt_flag;
        self.irq_enabled = state.irq_enabled;
        self.loop_flag = state.loop_flag;
        self.sample_address = state.sample_address;
        self.sample_length = state.sample_length;
        self.sample_buffer = state.sample_buffer;
        self.current_address = state.current_address;
        self.bytes_remaining = state.bytes_remaining;
        self.silence_flag = state.silence_flag;
        self.output_shift_register = state.output_shift_register;
        self.bits_remaining = state.bits_remaining;
        self.timer = state.timer;
        self.rate = state.rate;
        self.output_level = state.output_level;
    }
}

} // verus!
