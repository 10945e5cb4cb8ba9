//! A NES emulator core: CPU, PPU, APU, cartridge mappers and the buses that
//! connect them, with each component's behaviour stated as a contract.

use vstd::prelude::*;

pub mod apu;
pub mod bits;
pub mod bus;
pub mod cartridge;
pub mod controllers;
pub mod cpu;
pub mod errors;
pub mod laws;
pub mod nes;
pub mod ppu;
pub mod state;
pub mod utils;

verus! {

/// Configuration to pass to the emulator.
#[derive(Clone)]
pub struct Config {
    pub palette_path: Option<String>,
    pub display_cpu_logs: bool,
}

impl Config {
    /// Create a new configuration for the NES emulator.
    /// The `palette_path` argument should lead to a valid .pal file.
    pub fn new(palette_path: Option<&str>, display_cpu_logs: bool) -> (c: Self)
        ensures
            c.display_cpu_logs == display_cpu_logs,
            c.palette_path is Some <==> palette_path is Some,
            palette_path is Some ==> c.palette_path.unwrap()@ == palette_path.unwrap()@,
    {
        let palette_path = match palette_path {
            Some(p) => Some(p.to_string()),
            None => None,
        };
        Config { palette_path, display_cpu_logs }
    }

    /// Generate a default configuration for the NES emulator.
    pub fn default() -> (c: Self)
        ensures
            c.palette_path is None,
            !c.display_cpu_logs,
    {
        Config { palette_path: None, display_cpu_logs: false }
    }
}

} // verus!
