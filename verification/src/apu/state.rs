use vstd::prelude::*;
use super::noise::Noise;
use super::pulse::Pulse;
use super::triangle::Triangle;
use super::Mode;

verus! {

/// The saved state of the delta modulation channel.
#[derive(Clone, Copy, PartialEq, Eq)]
pub struct DmcState {
    pub interrupt_flag: bool,
    pub irq_enabled: bool,
    pub loop_flag: bool,
    pub sample_address: u16,
    pub sample_length: u16,
    pub sample_buffer: Option<u8>,
    pub current_address: u16,
    pub bytes_remaining: u16,
    pub silence_flag: bool,
    pub output_shift_register: u8,
    pub bits_remaining: u8,
    pub timer: u16,
    pub rate: u16,
    pub output_level: u8,
}

/// The saved state of the APU.
#[derive(Clone, Copy)]
pub struct ApuState {
    pub pulse1: Pulse,
    pub pulse2: Pulse,
    pub triangle: Triangle,
    pub noise: Noise,
    pub dmc: DmcState,
    pub interrupt_inhibit: bool,
    pub frame_interrupt: bool,
    pub sample_rate: u64,
    pub frame_clock: u64,
    pub mode: Mode,
    pub instant_clock: bool,
    pub last_4017_value: u8,
}

} // verus!
