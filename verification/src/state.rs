use vstd::prelude::*;
use crate::apu::state::ApuState;
use crate::bus::BusState;
use crate::cartridge::cartridge::MapperState;
use crate::cpu::state::CpuState;
use crate::ppu::state::PpuState;

verus! {

/// A component whose state can be captured and restored.
pub trait Stateful {
    type State;

    fn get_state(&self) -> Self::State;

    fn set_state(&mut self, state: &Self::State);
}

/// The saved state of the whole console.
pub struct NesState {
    pub bus: BusState,
    pub cpu: CpuState,
    pub ppu: PpuState,
    pub apu: ApuState,
    pub mapper: MapperState,
    pub total_clock: u64,
    pub dma_started: bool,
    pub dma_hi_address: u8,
    pub dma_base_address: u8,
    pub dma_address_offset: u8,
    pub dma_data: u8,
    pub add_samples: bool,
}

} // verus!
