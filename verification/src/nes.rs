use vstd::prelude::*;
use crate::Config;
use crate::apu::{Apu, MixerInput, apu_ticked, apu_reset, apu_from_state, apu_power_up};
use crate::apu::dmc::{dmc_pending_read, dmc_sample_loaded};
use crate::bus::{Bus, BusState, BusView, bus_read, uses_cartridge};
use crate::cartridge::cartridge::{
    Cartridge, CartridgeError, CartridgeView, MapperState, mapper_state_accepted, mapper_state_applied,
    rom_accepted, rom_cartridge, rom_header, saved_header, cartridge_header,
};
use crate::cartridge::mapper::header_mapper_number;
use crate::cartridge::mapper::PersistentMemoryError;
use crate::cpu::{Cpu, fetches_invalid_opcode, interrupt_taken};
use crate::cpu::instructions::{Operation, instruction};
use crate::cpu::enums::Interrupt;
use crate::cpu::semantics::cpu_clocked;
use crate::ppu::{Ppu, PpuView, ppu_power_up, ppu_written, FRAME_PIXELS};
use crate::controllers::Controller;
use crate::ppu::palette::Palette;
use crate::ppu::registers::Registers;
use crate::ppu::render::ppu_clocked;
use crate::state::{NesState, Stateful};
use crate::utils::ARGBColor;

verus! {

/// Frequency at which the PPU of a NTSC NES is clocked (Hz).
pub const PPU_CLOCK_FREQUENCY: u64 = 5_369_318;

/// Why a request to the console was refused.
#[derive(Debug, Clone, Copy, PartialEq, Eq, Structural)]
pub enum NesError {
    /// A debug palette id above 7.
    InvalidPaletteId(u8),
    /// A controller id other than 0 and 1.
    InvalidControllerId(usize),
    /// A pattern table number other than 0 and 1.
    InvalidPatternTable(u16),
    /// The request needs a cartridge and none is inserted.
    NoCartridge,
    /// The ROM image could not be read.
    Cartridge(CartridgeError),
    /// The save could not be loaded or made.
    PersistentMemory(PersistentMemoryError),
    /// A saved state that does not fit the console.
    InvalidState,
}

/// The console: CPU, bus (PPU, APU, controllers, cartridge), the OAM DMA
/// unit, and the samples produced for the audio output.
pub struct NES {
    pub bus: Bus,
    pub cpu: Cpu,
    pub total_clock: u64,
    pub dma_started: bool,
    pub dma_hi_address: u8,
    pub dma_base_address: u8,
    pub dma_address_offset: u8,
    pub dma_data: u8,
    pub add_samples: bool,
    pub samples: Vec<MixerInput>,
    pub config: Config,
}

/// The state of the console, as values.
pub struct NesView {
    pub bus: BusView,
    pub cpu: Cpu,
    pub total_clock: u64,
    pub dma_started: bool,
    pub dma_hi_address: u8,
    pub dma_base_address: u8,
    pub dma_address_offset: u8,
    pub dma_data: u8,
    pub add_samples: bool,
    pub samples: Seq<MixerInput>,
}

impl View for NES {
    type V = NesView;

    open spec fn view(&self) -> NesView {
        NesView {
            bus: self.bus@,
            cpu: self.cpu,
            total_clock: self.total_clock,
            dma_started: self.dma_started,
            dma_hi_address: self.dma_hi_address,
            dma_base_address: self.dma_base_address,
            dma_address_offset: self.dma_address_offset,
            dma_data: self.dma_data,
            add_samples: self.add_samples,
            samples: self.samples@,
        }
    }
}

/// One cycle of OAM DMA: the transfer starts on an odd cycle from page
/// $4014 to the OAM address; then even cycles read a byte and odd cycles
/// write it to $2004, 256 times.
#[verifier::opaque]
pub open spec fn dma_stepped(n: NesView) -> NesView {
    if !n.dma_started {
        if n.total_clock % 2 == 1 {
            NesView {
                dma_hi_address: n.bus.ppu.registers.oam_dma,
                dma_base_address: n.bus.ppu.registers.oam_addr,
                dma_address_offset: 0,
                dma_started: true,
                ..n
            }
        } else {
            n
        }
    } else if n.total_clock % 2 == 0 {
        let (b, v) = bus_read(n.bus, (n.dma_address_offset as u16 + n.dma_hi_address as u16 * 256) as u16);
        NesView { bus: b, dma_data: v, ..n }
    } else {
        let (p, c) = ppu_written(n.bus.ppu, n.bus.cartridge.unwrap(), 0x2004, n.dma_data);
        let offset: u8 = if n.dma_address_offset < 255 { (n.dma_address_offset + 1) as u8 } else { 0 };
        let p2 = if offset == 0 { PpuView { registers: Registers { perform_dma: false, ..p.registers }, ..p } } else { p };
        NesView {
            bus: BusView { ppu: p2, cartridge: Some(c), ..n.bus },
            dma_address_offset: offset,
            dma_started: if offset == 0 { false } else { n.dma_started },
            ..n
        }
    }
}

/// The console after the CPU takes an interrupt.
pub open spec fn interrupt_delivered(n: NesView, kind: Interrupt) -> NesView {
    let (c, b) = interrupt_taken(n.cpu, n.bus, kind);
    NesView { cpu: c, bus: b, ..n }
}

/// The CPU runs for one cycle, unless an OAM DMA halts it and runs instead.
#[verifier::opaque]
pub open spec fn cpu_or_dma_stepped(n: NesView) -> NesView {
    if n.bus.ppu.registers.perform_dma {
        dma_stepped(n)
    } else {
        let (c, b) = cpu_clocked(n.cpu, n.bus);
        NesView { cpu: c, bus: b, ..n }
    }
}

/// The sample reader gets the byte it needs, when the sample channel was
/// clocked.
#[verifier::opaque]
pub open spec fn dmc_served(n: NesView, clocked: bool) -> NesView {
    if clocked && dmc_pending_read(n.bus.apu.dmc) is Some {
        let (b, v) = bus_read(n.bus, dmc_pending_read(n.bus.apu.dmc).unwrap());
        NesView { bus: BusView { apu: Apu { dmc: dmc_sample_loaded(b.apu.dmc, v), ..b.apu }, ..b }, ..n }
    } else {
        n
    }
}

/// The interrupts that the APU asks for go to the CPU: the frame one, then
/// the sample channel's.
#[verifier::opaque]
pub open spec fn apu_interrupts_delivered(n: NesView, frame_irq: bool, dmc_irq: bool) -> NesView {
    let n1 = if frame_irq { interrupt_delivered(n, Interrupt::Irq) } else { n };
    if dmc_irq { interrupt_delivered(n1, Interrupt::Irq) } else { n1 }
}

/// A sample is kept when samples are being produced.
#[verifier::opaque]
pub open spec fn sample_kept(n: NesView, sample: Option<MixerInput>) -> NesView {
    if sample is Some && n.add_samples {
        NesView { samples: n.samples.push(sample.unwrap()), ..n }
    } else {
        n
    }
}

/// The APU runs for one cycle: its frame and sample interrupts go to the
/// CPU, its sample reader gets the byte it needs, and its sample is kept when
/// samples are being produced.
pub open spec fn apu_stepped(n: NesView) -> NesView {
    let (apu, tick) = apu_ticked(n.bus.apu);
    let n1 = NesView { bus: BusView { apu, ..n.bus }, ..n };
    let n2 = apu_interrupts_delivered(n1, tick.frame_irq, tick.dmc_irq);
    sample_kept(dmc_served(n2, tick.dmc_clocked), tick.sample)
}

/// The CPU-rate work of a clock: the CPU (or the DMA), then the APU.
pub open spec fn cpu_apu_stepped(n: NesView) -> NesView {
    apu_stepped(cpu_or_dma_stepped(n))
}

/// A pending NMI of the PPU goes to the CPU.
#[verifier::opaque]
pub open spec fn nmi_delivered(n: NesView) -> NesView {
    if n.bus.ppu.registers.emit_nmi {
        let p = PpuView { registers: Registers { emit_nmi: false, ..n.bus.ppu.registers }, ..n.bus.ppu };
        interrupt_delivered(NesView { bus: BusView { ppu: p, ..n.bus }, ..n }, Interrupt::Nmi)
    } else {
        n
    }
}

/// Whether the next clock of the console makes the CPU start an instruction
/// whose opcode no instruction has (a JAM opcode, on which the CPU stops).
pub open spec fn nes_fetches_invalid_opcode(n: NesView) -> bool {
    n.total_clock % 3 == 0 && !n.bus.ppu.registers.perform_dma && fetches_invalid_opcode(n.cpu, n.bus)
}

/// One clock of the console: every third one the CPU and the APU run; the
/// PPU runs every time, after a pending NMI is delivered.
#[verifier::opaque]
pub open spec fn nes_clocked(n: NesView) -> NesView {
    let n1 = if n.total_clock % 3 == 0 { cpu_apu_stepped(n) } else { n };
    let n2 = nmi_delivered(n1);
    let n3 = NesView { bus: BusView { ppu: ppu_clocked(n2.bus.ppu, n2.bus.cartridge.unwrap()), ..n2.bus }, ..n2 };
    NesView { total_clock: vstd::wrapping::u64_specs::wrapping_add(n3.total_clock, 1), ..n3 }
}

impl NES {
    pub open spec fn wf(&self) -> bool {
        self.bus.wf()
    }

    pub open spec fn has_cartridge(&self) -> bool {
        self.bus.has_cartridge()
    }

    /// A console with the default configuration and palette.
    pub fn new() -> (nes: Self)
        ensures
            nes.wf(),
            nes@ == console_power_up(false, nes.bus.ppu.palette),
            forall|e: u8| e < 8 ==> #[trigger] nes.bus.ppu.palette.table(e) == crate::ppu::palette::default_table(),
            nes.config.palette_path is None,
            !nes.config.display_cpu_logs,
    {
        NES::from_config(Config::default(), Palette::default())
    }

    /// A console with a configuration, drawing with `palette`.
    pub fn from_config(config: Config, palette: Palette) -> (nes: Self)
        requires
            palette.wf(),
        ensures
            nes.wf(),
            nes@ == console_power_up(config.display_cpu_logs, palette),
            nes.bus.ppu.palette == palette,
            nes.config == config,
    {
        let ppu = Ppu::new(palette);
        let apu = Apu::new(PPU_CLOCK_FREQUENCY);
        let bus = Bus::new(ppu, apu);
        let cpu = Cpu::new(config.display_cpu_logs);
        NES {
            bus,
            cpu,
            total_clock: 0,
            dma_started: false,
            dma_hi_address: 0,
            dma_base_address: 0,
            dma_address_offset: 0,
            dma_data: 0,
            add_samples: true,
            samples: Vec::new(),
            config,
        }
    }

    /// Restarts the console: a new one with the same configuration and
    /// palette, and no cartridge.
    pub fn restart(&mut self)
        requires
            old(self).wf(),
        ensures
            final(self).wf(),
            final(self)@ == console_power_up(old(self).config.display_cpu_logs, old(self).bus.ppu.palette),
            final(self).config == old(self).config,
    {
        let mut palette = Palette::default();
        std::mem::swap(&mut palette, &mut self.bus.ppu.palette);
        let palette_path = match &self.config.palette_path {
            Some(p) => Some(p.clone()),
            None => None,
        };
        let config = Config { palette_path, display_cpu_logs: self.config.display_cpu_logs };
        *self = NES::from_config(config, palette);
    }

    /// Inserts the cartridge of a ROM image in the iNES format, then resets
    /// the console.
    pub fn insert_cartdrige(&mut self, rom: &Vec<u8>, path_to_rom: &str) -> (r: Result<(), NesError>)
        requires
            old(self).wf(),
            crate::cartridge::cartridge::rom_supported(rom@),
        ensures
            final(self).wf(),
            r is Ok <==> crate::cartridge::cartridge::rom_accepted(rom@),
            r is Err ==> (r matches Err(NesError::Cartridge(_))) && final(self)@ == old(self)@,
            r is Ok ==> final(self)@ == nes_reset(NesView {
                bus: BusView { cartridge: Some(rom_cartridge(rom@)), ..old(self)@.bus },
                ..old(self)@
            }),
            r is Ok ==> final(self).has_cartridge() && final(self).cpu.cycles == 7,
    {
        let _ = rom.len();
        match Cartridge::from_bytes(rom, path_to_rom) {
            Ok(cart) => {
                self.bus.set_mapper(cart);
                self.reset();
                Ok(())
            },
            Err(e) => Err(NesError::Cartridge(e)),
        }
    }

    /// Resets the console: a reset interrupt for the CPU and a reset of the
    /// APU.
    pub fn reset(&mut self)
        requires
            old(self).wf(),
            old(self).has_cartridge(),
        ensures
            final(self).wf(),
            final(self).has_cartridge(),
            final(self).cpu.cycles == 7,
            final(self)@ == nes_reset(old(self)@),
    {
        self.cpu.reset(&mut self.bus);
        self.bus.apu.reset();
    }

    /// The CPU reads `address` (with the side effects of a read).
    pub fn read_memory_at(&mut self, address: u16) -> (v: u8)
        requires
            old(self).wf(),
            uses_cartridge(address) ==> old(self).has_cartridge(),
        ensures
            final(self).wf(),
            final(self).has_cartridge() == old(self).has_cartridge(),
            (final(self)@.bus, v) == bus_read(old(self)@.bus, address),
            final(self)@ == (NesView { bus: final(self)@.bus, ..old(self)@ }),
    {
        self.bus.read(address)
    }

    /// Moves the CPU's program counter.
    pub fn set_program_counter_at(&mut self, address: u16)
        ensures
            final(self).cpu == (Cpu { pc: address, ..old(self).cpu }),
            final(self)@ == (NesView { cpu: final(self).cpu, ..old(self)@ }),
    {
        self.cpu.set_program_counter_at(address);
    }

    /// Chooses the palette (0-7) used to draw the pattern tables.
    pub fn set_debug_palette_id(&mut self, debug_palette_id: u8) -> (r: Result<(), NesError>)
        requires
            old(self).wf(),
        ensures
            final(self).wf(),
            debug_palette_id > 7 ==> r == Err::<(), NesError>(NesError::InvalidPaletteId(debug_palette_id)) && final(self)@ == old(self)@,
            debug_palette_id <= 7 ==> r is Ok && final(self)@ == (NesView {
                bus: BusView { ppu: PpuView { debug_palette_id, ..old(self)@.bus.ppu }, ..old(self)@.bus },
                ..old(self)@
            }),
    {
        if debug_palette_id > 7 {
            return Err(NesError::InvalidPaletteId(debug_palette_id));
        }
        self.bus.ppu.set_debug_palette_id(debug_palette_id);
        Ok(())
    }

    /// Whether the samples of the APU are kept.
    pub fn is_producing_samples(&self) -> (b: bool)
        ensures
            b == self.add_samples,
    {
        self.add_samples
    }

    /// Chooses whether the samples of the APU are kept.
    pub fn produce_samples(&mut self, produce: bool)
        ensures
            final(self)@ == (NesView { add_samples: produce, ..old(self)@ }),
    {
        self.add_samples = produce;
    }

    /// Takes the samples kept since the last call.
    pub fn get_samples(&mut self) -> (s: Vec<MixerInput>)
        ensures
            s@ == old(self)@.samples,
            final(self)@ == (NesView { samples: Seq::empty(), ..old(self)@ }),
    {
        let s = self.samples.clone();
        self.samples = Vec::new();
        proof {
            assert(s@ =~= old(self)@.samples);
        }
        s
    }

    /// The duration of a frame at 60 frames per second, in microseconds.
    pub fn get_one_frame_duration(&self) -> (micros: u64)
        ensures
            micros == 1_000_000u64 / 60,
    {
        1_000_000 / 60
    }

    /// Takes the frame when a whole one was drawn since the last one was
    /// taken.
    pub fn get_frame_buffer(&mut self) -> (f: Option<Vec<ARGBColor>>)
        requires
            old(self).wf(),
        ensures
            final(self).wf(),
            final(self).has_cartridge() == old(self).has_cartridge(),
            old(self).bus.ppu.is_frame_ready ==> f is Some && f->Some_0@ == old(self)@.bus.ppu.frame
                && final(self)@ == (NesView {
                    bus: BusView { ppu: PpuView { is_frame_ready: false, ..old(self)@.bus.ppu }, ..old(self)@.bus },
                    ..old(self)@
                }),
            !old(self).bus.ppu.is_frame_ready ==> f is None && final(self)@ == old(self)@,
    {
        if self.bus.ppu.is_frame_ready() {
            Some(self.bus.ppu.get_frame_buffer())
        } else {
            None
        }
    }

    /// Sets the buttons held on controller `id` (0 or 1).
    pub fn input(&mut self, id: usize, input: u8) -> (r: Result<(), NesError>)
        requires
            old(self).wf(),
        ensures
            final(self).wf(),
            final(self).has_cartridge() == old(self).has_cartridge(),
            id > 1 ==> r == Err::<(), NesError>(NesError::InvalidControllerId(id)) && final(self)@ == old(self)@,
            id <= 1 ==> r is Ok && final(self)@ == (NesView {
                bus: BusView {
                    controllers: old(self)@.bus.controllers.update(id as int,
                        crate::controllers::Controller { buffer: input, ..old(self)@.bus.controllers[id as int] }),
                    ..old(self)@.bus
                },
                ..old(self)@
            }),
    {
        if id > 1 {
            return Err(NesError::InvalidControllerId(id));
        }
        self.bus.set_input(id, input);
        Ok(())
    }

    /// Loads a save (the contents of a ".sav" file) into the cartridge's
    /// battery-backed memory.
    pub fn load_save(&mut self, save: &Vec<u8>) -> (r: Result<(), NesError>)
        requires
            old(self).wf(),
        ensures
            final(self).wf(),
            final(self).has_cartridge() == old(self).has_cartridge(),
            (final(self)@, r) == save_loaded(old(self)@, save@),
    {
        let taken = self.bus.cartridge.take();
        match taken {
            Some(mut cart) => {
                let r = cart.load_persistent_memory(save);
                self.bus.cartridge = Some(cart);
                match r {
                    Ok(()) => Ok(()),
                    Err(e) => Err(NesError::PersistentMemory(e)),
                }
            },
            None => Err(NesError::NoCartridge),
        }
    }

    /// The contents of the cartridge's battery-backed memory, for a ".sav"
    /// file.
    pub fn save(&self) -> (r: Result<Vec<u8>, NesError>)
        ensures
            match r {
                Ok(v) => save_result(self@) == Ok::<Seq<u8>, NesError>(v@),
                Err(e) => save_result(self@) == Err::<Seq<u8>, NesError>(e),
            },
    {
        match &self.bus.cartridge {
            Some(cart) => match cart.save_persistent_memory() {
                Ok(v) => Ok(v),
                Err(e) => Err(NesError::PersistentMemory(e)),
            },
            None => Err(NesError::NoCartridge),
        }
    }

    /// The picture of pattern table `number` (0 or 1), drawn with the debug
    /// palette.
    pub fn get_pattern_table(&self, number: u16) -> (r: Result<Vec<ARGBColor>, NesError>)
        requires
            self.wf(),
        ensures
            number > 1 ==> r == Err::<Vec<ARGBColor>, NesError>(NesError::InvalidPatternTable(number)),
            number <= 1 && !self.has_cartridge() ==> r == Err::<Vec<ARGBColor>, NesError>(NesError::NoCartridge),
            number <= 1 && self.has_cartridge() ==> r is Ok && ({
                let pixels = r->Ok_0@;
                &&& pixels.len() == crate::ppu::PATTERN_TABLE_PIXELS
                &&& forall|y: int, x: int| 0 <= y < 128 && 0 <= x < 128 ==> #[trigger] pixels[y * 128 + x]
                    == crate::ppu::pixel_color(self@.bus.ppu, self@.bus.cartridge.unwrap(), self.bus.ppu.debug_palette_id,
                        crate::ppu::pattern_pixel_value(self@.bus.ppu.bus, self@.bus.cartridge.unwrap(), number, y, x))
            }),
    {
        if number > 1 {
            return Err(NesError::InvalidPatternTable(number));
        }
        match &self.bus.cartridge {
            Some(cart) => Ok(self.bus.ppu.get_pattern_table(cart, number)),
            None => Err(NesError::NoCartridge),
        }
    }

    /// The colours of the 32 palette RAM entries.
    pub fn get_palette(&self) -> (r: Result<Vec<ARGBColor>, NesError>)
        requires
            self.wf(),
        ensures
            !self.has_cartridge() ==> r == Err::<Vec<ARGBColor>, NesError>(NesError::NoCartridge),
            self.has_cartridge() ==> r is Ok && r->Ok_0@ == Seq::new(32,
                |i: int| crate::ppu::palette_ram_color(self@.bus.ppu, self@.bus.cartridge.unwrap(), (0x3F00 + i) as u16)),
    {
        match &self.bus.cartridge {
            Some(cart) => Ok(self.bus.ppu.get_palette(cart)),
            None => Err(NesError::NoCartridge),
        }
    }

    fn perform_dma(&mut self)
        requires
            old(self).wf(),
            old(self).has_cartridge(),
        ensures
            final(self).wf(),
            final(self).has_cartridge(),
            final(self)@ == dma_stepped(old(self)@),
            final(self).cpu == old(self).cpu,
    {
        proof { reveal(dma_stepped); }
        if !self.dma_started {
            if self.total_clock % 2 == 1 {
                self.dma_hi_address = self.bus.ppu.registers.oam_dma;
                self.dma_base_address = self.bus.ppu.registers.oam_addr;
                self.dma_address_offset = 0;
                self.dma_started = true;
            }
        } else if self.total_clock % 2 == 0 {
            let address: u16 = self.dma_address_offset as u16 + self.dma_hi_address as u16 * 256;
            self.dma_data = self.bus.read(address);
        } else {
            let _ = self.bus.ppu.write_register(&mut self.bus.cartridge, 0x2004, self.dma_data);
            if self.dma_address_offset < 255 {
                self.dma_address_offset = self.dma_address_offset + 1;
            } else {
                self.dma_address_offset = 0;
            }
            if self.dma_address_offset == 0 {
                self.dma_started = false;
                self.bus.ppu.registers.perform_dma = false;
            }
        }
    }

    fn deliver_interrupt(&mut self, kind: Interrupt)
        requires
            old(self).wf(),
            old(self).has_cartridge(),
        ensures
            final(self).wf(),
            final(self).has_cartridge(),
            final(self)@ == interrupt_delivered(old(self)@, kind),
    {
        self.cpu.interrupt(&mut self.bus, kind);
    }

    fn clock_cpu_or_dma(&mut self)
        requires
            old(self).wf(),
            old(self).has_cartridge(),
            !old(self).bus.ppu.registers.perform_dma ==> !fetches_invalid_opcode(old(self).cpu, old(self)@.bus),
        ensures
            final(self).wf(),
            final(self).has_cartridge(),
            final(self)@ == cpu_or_dma_stepped(old(self)@),
    {
        proof { reveal(cpu_or_dma_stepped); }
        if self.bus.ppu.registers.perform_dma {
            self.perform_dma();
        } else {
            self.cpu.clock(&mut self.bus);
        }
    }

    fn serve_dmc(&mut self, clocked: bool)
        requires
            old(self).wf(),
            old(self).has_cartridge(),
        ensures
            final(self).wf(),
            final(self).has_cartridge(),
            final(self)@ == dmc_served(old(self)@, clocked),
    {
        proof { reveal(dmc_served); }
        if clocked {
            if let Some(address) = self.bus.apu.dmc.pending_read() {
                let v = self.bus.read(address);
                self.bus.apu.dmc.load_sample(v);
            }
        }
    }

    fn deliver_apu_interrupts(&mut self, frame_irq: bool, dmc_irq: bool)
        requires
            old(self).wf(),
            old(self).has_cartridge(),
        ensures
            final(self).wf(),
            final(self).has_cartridge(),
            final(self)@ == apu_interrupts_delivered(old(self)@, frame_irq, dmc_irq),
    {
        proof { reveal(apu_interrupts_delivered); }
        if frame_irq {
            self.deliver_interrupt(Interrupt::Irq);
        }
        if dmc_irq {
            self.deliver_interrupt(Interrupt::Irq);
        }
    }

    fn keep_sample(&mut self, sample: Option<MixerInput>)
        ensures
            final(self).bus == old(self).bus,
            final(self).cpu == old(self).cpu,
            final(self)@ == sample_kept(old(self)@, sample),
    {
        proof { reveal(sample_kept); }
        if let Some(s) = sample {
            if self.add_samples {
                self.samples.push(s);
            }
        }
    }

    fn clock_apu(&mut self)
        requires
            old(self).wf(),
            old(self).has_cartridge(),
        ensures
            final(self).wf(),
            final(self).has_cartridge(),
            final(self)@ == apu_stepped(old(self)@),
    {
        let tick = self.bus.apu.clock();
        self.deliver_apu_interrupts(tick.frame_irq, tick.dmc_irq);
        self.serve_dmc(tick.dmc_clocked);
        self.keep_sample(tick.sample);
    }

    fn deliver_nmi(&mut self)
        requires
            old(self).wf(),
            old(self).has_cartridge(),
        ensures
            final(self).wf(),
            final(self).has_cartridge(),
            final(self)@ == nmi_delivered(old(self)@),
    {
        proof { reveal(nmi_delivered); }
        if self.bus.ppu.registers.emit_nmi {
            self.bus.ppu.registers.emit_nmi = false;
            self.deliver_interrupt(Interrupt::Nmi);
        }
    }

    /// Runs one PPU clock of the console; the CPU and the APU run every third
    /// one. It runs with a cartridge inserted: the PPU's clock reads the
    /// cartridge's pattern tables and mirroring, and the RAM of a console
    /// without one starts with a BRK, whose vector lies in cartridge space.
    pub fn clock(&mut self)
        requires
            old(self).wf(),
            old(self).has_cartridge(),
            !nes_fetches_invalid_opcode(old(self)@),
        ensures
            final(self).wf(),
            final(self).has_cartridge(),
            final(self)@ == nes_clocked(old(self)@),
    {
        proof { reveal(nes_clocked); }
        if self.total_clock % 3 == 0 {
            self.clock_cpu_or_dma();
            self.clock_apu();
        }
        self.deliver_nmi();
        match &self.bus.cartridge {
            Some(cart) => self.bus.ppu.clock(cart),
            None => {},
        }
        self.total_clock = self.total_clock.wrapping_add(1);
    }
}

/// Whether a saved state fits the console: its memories have the right
/// sizes and its counters are in range.
pub open spec fn state_fits(state: &NesState) -> bool {
    &&& state.bus.cpu_ram@.len() == 0x800
    &&& state.bus.controllers@.len() == 2
    &&& state.ppu.valid()
}

/// The picture of a PPU that has drawn nothing yet.
pub open spec fn black_frame() -> Seq<ARGBColor> {
    Seq::new(FRAME_PIXELS as nat, |i: int| ARGBColor { alpha: 255, red: 0, green: 0, blue: 0 })
}

/// The iNES mapper number of a cartridge.
pub open spec fn cartridge_mapper_number(c: CartridgeView) -> u8 {
    match c {
        CartridgeView::Nrom { .. } => 0,
        CartridgeView::Mmc1 { .. } => 1,
        CartridgeView::Unrom { .. } => 2,
        CartridgeView::Cnrom { .. } => 3,
    }
}

/// Whether a saved mapper state fits the cartridge of a ROM image: it is of
/// the image's mapper and its memories have sizes that mapper can hold.
pub open spec fn mapper_state_fits_rom(rom: Seq<u8>, s: MapperState) -> bool {
    let n = header_mapper_number(rom_header(rom));
    match s {
        MapperState::Nrom => n == 0,
        MapperState::Mmc1(m) => n == 1 && m.ram@.len() == 0x2000 && m.chr_rom@.len() % 0x1000 == 0
            && m.n_bit_loaded < 5,
        MapperState::Unrom(_) => n == 2,
        MapperState::Cnrom(m) => n == 3 && m.chr_rom@.len() >= 0x2000 && m.chr_rom@.len() % 0x2000 == 0,
    }
}

/// The console at power-up: RAM cleared, no cartridge, the PPU (drawing
/// with `palette`), the APU and the CPU (with the given logging choice) at
/// power-up, samples being produced and none taken yet.
pub open spec fn console_power_up(display_logs: bool, palette: Palette) -> NesView {
    NesView {
        bus: BusView {
            ram: Seq::new(0x800, |i: int| 0u8),
            cartridge: None,
            ppu: ppu_power_up(palette),
            apu: apu_power_up(PPU_CLOCK_FREQUENCY / 3 / 44_100),
            controllers: seq![Controller { buffer: 0, shifter: 0 }, Controller { buffer: 0, shifter: 0 }],
            cartridge_missed: false,
        },
        cpu: Cpu::new_spec(display_logs),
        total_clock: 0,
        dma_started: false,
        dma_hi_address: 0,
        dma_base_address: 0,
        dma_address_offset: 0,
        dma_data: 0,
        add_samples: true,
        samples: Seq::empty(),
    }
}

/// What a save of the battery-backed memory gives: the memory of an MMC1
/// cartridge that has a battery; an error without a cartridge or a battery.
pub open spec fn save_result(n: NesView) -> Result<Seq<u8>, NesError> {
    match n.bus.cartridge {
        None => Err(NesError::NoCartridge),
        Some(CartridgeView::Mmc1 { persistent: true, ram, .. }) => Ok(ram),
        Some(_) => Err(NesError::PersistentMemory(PersistentMemoryError::NoPersistentMemory)),
    }
}

/// The console after loading a save into the battery-backed memory, and the
/// result: a save of the memory's size (8 KB) replaces it; without a
/// cartridge or a battery, or with a save of another size, nothing changes.
pub open spec fn save_loaded(n: NesView, save: Seq<u8>) -> (NesView, Result<(), NesError>) {
    match n.bus.cartridge {
        None => (n, Err(NesError::NoCartridge)),
        Some(CartridgeView::Mmc1 { persistent: true, prg, chr, ram, regs }) => if save.len() == 0x2000 {
            (NesView {
                bus: BusView {
                    cartridge: Some(CartridgeView::Mmc1 { persistent: true, prg, chr, ram: save, regs }),
                    ..n.bus
                },
                ..n
            }, Ok(()))
        } else {
            (n, Err(NesError::PersistentMemory(PersistentMemoryError::InvalidSaveSize)))
        },
        Some(_) => (n, Err(NesError::PersistentMemory(PersistentMemoryError::NoPersistentMemory))),
    }
}

/// The cartridge of a ROM image with a saved mapper state applied.
pub open spec fn restored_cartridge(rom: Seq<u8>, s: MapperState) -> CartridgeView {
    mapper_state_applied(rom_cartridge(rom), s)
}

/// The console after a reset: the CPU takes the reset interrupt and the APU
/// is reset.
pub open spec fn nes_reset(n: NesView) -> NesView {
    let (c, b) = interrupt_taken(n.cpu, n.bus, Interrupt::Reset);
    NesView { cpu: c, bus: BusView { apu: apu_reset(b.apu), ..b }, ..n }
}

/// The console after a saved state is restored with the cartridge of `n`
/// left in.
pub open spec fn state_applied_keeping_cartridge(n: NesView, state: &NesState) -> NesView {
    let a = state_applied(n, state);
    NesView { bus: BusView { cartridge: n.bus.cartridge, ..a.bus }, ..a }
}

/// Whether a saved state can be loaded with a ROM image: it fits the
/// console, the image is accepted, the mapper state fits the image's
/// cartridge and the saved APU is well formed.
pub open spec fn state_loadable(state: &NesState, rom: Seq<u8>) -> bool {
    &&& state_fits(state)
    &&& rom_accepted(rom)
    &&& mapper_state_fits_rom(rom, state.mapper)
    &&& apu_from_state(state.apu).wf()
}

/// The components that a saved state describes, without a cartridge; the
/// palette, the samples and the logging choice are those of `n`, the frame
/// is black and the debug palette is the first.
pub open spec fn state_applied(n: NesView, state: &NesState) -> NesView {
    NesView {
        bus: BusView {
            ram: state.bus.cpu_ram@,
            cartridge: None,
            ppu: state.ppu.restored(black_frame(), n.bus.ppu.palette, 0),
            apu: apu_from_state(state.apu),
            controllers: state.bus.controllers@,
            cartridge_missed: false,
        },
        cpu: Cpu::from_state_spec(&state.cpu, n.cpu.display_logs),
        total_clock: state.total_clock,
        dma_started: state.dma_started,
        dma_hi_address: state.dma_hi_address,
        dma_base_address: state.dma_base_address,
        dma_address_offset: state.dma_address_offset,
        dma_data: state.dma_data,
        add_samples: state.add_samples,
        samples: n.samples,
    }
}

/// The console `n` after loading a saved state with a ROM image: the
/// components the state describes, and the image's cartridge with the saved
/// mapper state applied.
pub open spec fn state_loaded(n: NesView, state: &NesState, rom: Seq<u8>) -> NesView {
    let a = state_applied(n, state);
    NesView { bus: BusView { cartridge: Some(restored_cartridge(rom, state.mapper)), ..a.bus }, ..a }
}

/// What `get_state` captures of a console: the RAM, the controllers, the
/// CPU (all but the logging choice), the PPU (all but the frame, the palette
/// and the debug palette), the APU, the DMA unit, the clock and whether
/// samples are produced; of the cartridge, the mapper state, which gives the
/// cartridge back when applied to it (a console without a cartridge saves
/// the state of a mapper without registers).
pub open spec fn state_captured(s: &NesState, n: NesView) -> bool {
    &&& s.bus.cpu_ram@ == n.bus.ram
    &&& s.bus.controllers@ == n.bus.controllers
    &&& Cpu::from_state_spec(&s.cpu, n.cpu.display_logs) == n.cpu
    &&& s.ppu.restored(n.bus.ppu.frame, n.bus.ppu.palette, n.bus.ppu.debug_palette_id) == n.bus.ppu
    &&& s.apu == n.bus.apu.get_state_spec()
    &&& (n.bus.cartridge matches Some(c) ==> mapper_state_applied(c, s.mapper) == c)
    &&& (n.bus.cartridge is None ==> s.mapper is Nrom)
    &&& s.total_clock == n.total_clock
    &&& s.dma_started == n.dma_started
    &&& s.dma_hi_address == n.dma_hi_address
    &&& s.dma_base_address == n.dma_base_address
    &&& s.dma_address_offset == n.dma_address_offset
    &&& s.dma_data == n.dma_data
    &&& s.add_samples == n.add_samples
}

impl NES {
    /// The trace line of the instruction that the next clock runs, when the
    /// next clock runs one (a CPU cycle, no DMA, no cycle left to wait).
    pub fn cpu_log(&self) -> (log: Option<crate::cpu::CpuLog>)
        requires
            self.wf(),
        ensures
            log is Some <==> (self.total_clock % 3 == 0 && !self.bus.ppu.registers.perform_dma && self.cpu.cycles == 0),
            log is Some ==> crate::cpu::log_describes(log->Some_0, self.cpu, self@.bus),
    {
        if self.total_clock % 3 == 0 && !self.bus.ppu.registers.perform_dma && self.cpu.cycles == 0 {
            Some(self.cpu.log_state(&self.bus))
        } else {
            None
        }
    }

    /// Whether the next clock would make the CPU start an instruction whose
    /// opcode no instruction has (a JAM opcode, on which the CPU stops).
    pub fn fetches_invalid_opcode(&self) -> (b: bool)
        requires
            self.wf(),
            self.has_cartridge(),
        ensures
            b == nes_fetches_invalid_opcode(self@),
    {
        self.total_clock % 3 == 0 && !self.bus.ppu.registers.perform_dma && self.cpu.cycles == 0
            && matches!(instruction(self.bus.read_value(self.cpu.pc)).operation, Operation::Jam)
    }

    /// Whether a saved state fits the console.
    pub fn state_fits(&self, state: &NesState) -> (b: bool)
        ensures
            b == state_fits(state),
    {
        state.bus.cpu_ram.len() == 0x800 && state.bus.controllers.len() == 2 && state.ppu.is_valid()
    }

    /// Restores a saved state and inserts the cartridge of the ROM image it
    /// was saved with, with the mapper state of the save. When the image is
    /// refused, the state is restored all the same and the cartridge already
    /// inserted stays.
    pub fn load_state(&mut self, state: &NesState, rom: &Vec<u8>, path_to_rom: &str) -> (r: Result<(), NesError>)
        requires
            old(self).wf(),
            crate::cartridge::cartridge::rom_supported(rom@),
        ensures
            final(self).wf(),
            r is Ok <==> state_loadable(state, rom@),
            r is Ok ==> final(self)@ == state_loaded(old(self)@, state, rom@),
            !state_fits(state) ==> r == Err::<(), NesError>(NesError::InvalidState),
            state_fits(state) && !rom_accepted(rom@) ==> r matches Err(NesError::Cartridge(_)),
            state_fits(state) && !rom_accepted(rom@) && apu_from_state(state.apu).wf()
                ==> final(self)@ == state_applied_keeping_cartridge(old(self)@, state),
            state_fits(state) && rom_accepted(rom@) && !state_loadable(state, rom@)
                ==> r == Err::<(), NesError>(NesError::InvalidState),
            r is Err && !(state_fits(state) && !rom_accepted(rom@) && apu_from_state(state.apu).wf())
                ==> final(self)@ == old(self)@,
    {
        if !self.state_fits(state) {
            return Err(NesError::InvalidState);
        }
        let _ = rom.len();
        match Cartridge::from_bytes(rom, path_to_rom) {
            Ok(mut cart) => {
                let ghost fresh = cart@;
                proof {
                    assert(mapper_state_accepted(fresh, state.mapper) == mapper_state_fits_rom(rom@, state.mapper));
                }
                if !cart.set_mapper_state(&state.mapper) {
                    return Err(NesError::InvalidState);
                }
                assert(cart@ == restored_cartridge(rom@, state.mapper));
                let applied = self.apply_state(state);
                if !applied {
                    return Err(NesError::InvalidState);
                }
                self.bus.set_mapper(cart);
                Ok(())
            },
            Err(e) => {
                let kept = self.bus.cartridge.take();
                let _ = self.apply_state(state);
                self.bus.cartridge = kept;
                Err(NesError::Cartridge(e))
            },
        }
    }

    /// Replaces the components with the ones of a saved state (no cartridge
    /// is inserted); returns false, changing nothing, when the saved APU is
    /// not well formed.
    fn apply_state(&mut self, state: &NesState) -> (applied: bool)
        requires
            old(self).bus.ppu.palette.wf(),
            state_fits(state),
        ensures
            applied == apu_from_state(state.apu).wf(),
            applied ==> final(self).wf(),
            applied ==> final(self)@ == state_applied(old(self)@, state),
            !applied ==> final(self)@ == old(self)@,
    {
        let apu = Apu::from_state(&state.apu, PPU_CLOCK_FREQUENCY);
        if !apu.is_well_formed() {
            return false;
        }
        let mut palette = Palette::default();
        std::mem::swap(&mut palette, &mut self.bus.ppu.palette);
        let ppu = Ppu::from_state(&state.ppu, palette);
        self.bus = Bus::from_state(&state.bus, ppu, apu);
        self.cpu = Cpu::from_state(&state.cpu, self.cpu.display_logs);
        self.total_clock = state.total_clock;
        self.dma_started = state.dma_started;
        self.dma_hi_address = state.dma_hi_address;
        self.dma_base_address = state.dma_base_address;
        self.dma_address_offset = state.dma_address_offset;
        self.dma_data = state.dma_data;
        self.add_samples = state.add_samples;
        assert(self@.bus.ppu.frame == black_frame());
        true
    }
}

impl Stateful for NES {
    type State = NesState;

    /// The state of the console; without a cartridge the mapper state is
    /// the one of a mapper without registers.
    fn get_state(&self) -> (s: NesState)
        ensures
            state_captured(&s, self@),
            self.wf() ==> state_fits(&s) && apu_from_state(s.apu).wf(),
            self.wf() && self.has_cartridge() ==> mapper_state_accepted(self@.bus.cartridge.unwrap(), s.mapper),
            self.bus.cartridge matches Some(c) ==> (saved_header(s.mapper) matches Some(h) ==> h.same_as(cartridge_header(c))),
    {
        NesState {
            bus: self.bus.get_state(),
            cpu: self.cpu.get_state(),
            ppu: self.bus.ppu.get_state(),
            apu: self.bus.apu.get_state(),
            mapper: match &self.bus.cartridge {
                Some(c) => c.get_mapper_state(),
                None => MapperState::Nrom,
            },
            total_clock: self.total_clock,
            dma_started: self.dma_started,
            dma_hi_address: self.dma_hi_address,
            dma_base_address: self.dma_base_address,
            dma_address_offset: self.dma_address_offset,
            dma_data: self.dma_data,
            add_samples: self.add_samples,
        }
    }

    /// Replaces the components with the ones of a saved state; the
    /// cartridge is removed, as a new bus is built. A state that does not fit
    /// leaves the console as it is.
    fn set_state(&mut self, state: &NesState)
        ensures
            old(self).wf() ==> final(self).wf(),
            old(self).bus.ppu.palette.wf() && state_fits(state) && apu_from_state(state.apu).wf()
                ==> final(self)@ == state_applied(old(self)@, state),
            !(old(self).bus.ppu.palette.wf() && state_fits(state) && apu_from_state(state.apu).wf())
                ==> final(self)@ == old(self)@,
    {
        if self.bus.ppu.palette.is_well_formed() && self.state_fits(state) {
            let _ = self.apply_state(state);
        }
    }
}

} // verus!
