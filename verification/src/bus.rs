use vstd::prelude::*;
use crate::apu::{Apu, apu_status, apu_written};
use crate::cartridge::cartridge::{Cartridge, CartridgeView, cart_prg_read, cart_prg_written, cart_slot, slot_cart};
use crate::controllers::Controller;
use crate::ppu::{Ppu, PpuView, ppu_read, ppu_written};
use crate::ppu::registers::ppu_register_peek;
use crate::state::Stateful;

verus! {

/// Where the 6502 stack lives: page 1.
pub const STACK_OFFSET: u16 = 0x100;

/// The CPU bus: 2 KB of RAM (mirrored up to $1FFF), the PPU registers
/// (mirrored up to $3FFF), the APU and controller ports, and the cartridge
/// from $4021 on.
pub struct Bus {
    pub cpu_ram: Vec<u8>,
    pub cartridge: Option<Cartridge>,
    pub ppu: Ppu,
    pub apu: Apu,
    pub controllers: Vec<Controller>,
}

/// The devices on the CPU bus, as values.
pub struct BusView {
    pub ram: Seq<u8>,
    pub cartridge: Option<CartridgeView>,
    pub ppu: PpuView,
    pub apu: Apu,
    pub controllers: Seq<Controller>,
    /// An access that needs the cartridge was made with none inserted. The
    /// bus itself never gets there: its operations, and the CPU's, require
    /// that no such access is made.
    pub cartridge_missed: bool,
}

impl View for Bus {
    type V = BusView;

    open spec fn view(&self) -> BusView {
        BusView {
            ram: self.cpu_ram@,
            cartridge: cart_slot(self.cartridge),
            ppu: self.ppu@,
            apu: self.apu,
            controllers: self.controllers@,
            cartridge_missed: false,
        }
    }
}

/// The addresses whose devices need the cartridge: the PPU's data register
/// $2007 and its mirrors (the PPU bus reaches the pattern tables and the
/// nametable mirroring) and the cartridge space from $4021 on.
pub open spec fn uses_cartridge(address: u16) -> bool {
    (0x2000 <= address && address <= 0x3FFF && address & 0x2007 == 0x2007) || address >= 0x4021
}

/// Whether an access to `address` needs a cartridge and none is inserted.
pub open spec fn misses_cartridge(b: BusView, address: u16) -> bool {
    uses_cartridge(address) && b.cartridge is None
}

/// Where a CPU RAM address lands in the 2 KB of RAM.
pub open spec fn ram_index(address: u16) -> int {
    (address & 0x07FF) as int
}

/// The PPU register that an address of $2000-$3FFF selects.
pub open spec fn ppu_register_address(address: u16) -> u16 {
    if address <= 0x3FFF { address & 0x2007 } else { address }
}

/// A controller port after a read: the bit read and the shifted register.
pub open spec fn controller_read(c: Controller) -> (Controller, u8) {
    (Controller { shifter: c.shifter << 1u8, ..c }, if c.shifter & 0x80 != 0 { 1u8 } else { 0u8 })
}

/// The bus after the CPU reads `address`, and what it reads. Reads that a
/// device refuses give 0.
#[verifier::opaque]
pub open spec fn bus_read(b: BusView, address: u16) -> (BusView, u8) {
    if misses_cartridge(b, address) {
        (BusView { cartridge_missed: true, ..b }, 0)
    } else if address <= 0x1FFF {
        (b, b.ram[ram_index(address)])
    } else if address <= 0x3FFF {
        let (p, r) = ppu_read(b.ppu, slot_cart(b.cartridge), ppu_register_address(address));
        (BusView { ppu: p, ..b }, match r { Ok(v) => v, Err(_) => 0 })
    } else if address == 0x4015 {
        (BusView { apu: Apu { frame_interrupt: false, ..b.apu }, ..b }, apu_status(b.apu))
    } else if address == 0x4016 {
        let (c, v) = controller_read(b.controllers[0]);
        (BusView { controllers: b.controllers.update(0, c), ..b }, v)
    } else if address == 0x4017 {
        let (c, v) = controller_read(b.controllers[1]);
        (BusView { controllers: b.controllers.update(1, c), ..b }, v)
    } else if address <= 0x4020 {
        (b, 0)
    } else {
        (b, match cart_prg_read(b.cartridge.unwrap(), address) { Ok(v) => v, Err(_) => 0 })
    }
}

/// What a side-effect-free read of `address` gives.
pub open spec fn bus_peek(b: BusView, address: u16) -> u8 {
    if address <= 0x1FFF {
        b.ram[ram_index(address)]
    } else if address <= 0x3FFF || address == 0x4014 {
        match ppu_register_peek(b.ppu.registers, ppu_register_address(address)) { Ok(v) => v, Err(_) => 0 }
    } else if address == 0x4015 {
        apu_status(b.apu)
    } else if address <= 0x4020 {
        0
    } else {
        match b.cartridge {
            Some(c) => match cart_prg_read(c, address) { Ok(v) => v, Err(_) => 0 },
            None => 0,
        }
    }
}

/// A controller port after a write to it: bit 0 latches the buttons.
pub open spec fn controller_strobed(c: Controller, value: u8) -> Controller {
    if value & 0x01 != 0 { Controller { shifter: c.buffer, ..c } } else { c }
}

/// The bus after the CPU writes `value` to `address`. Writes that a device
/// refuses change nothing.
#[verifier::opaque]
pub open spec fn bus_written(b: BusView, address: u16, value: u8) -> BusView {
    if misses_cartridge(b, address) {
        BusView { cartridge_missed: true, ..b }
    } else if address <= 0x1FFF {
        BusView { ram: b.ram.update(ram_index(address), value), ..b }
    } else if address <= 0x3FFF || address == 0x4014 {
        let (p, c) = ppu_written(b.ppu, slot_cart(b.cartridge), ppu_register_address(address), value);
        BusView { ppu: p, cartridge: match b.cartridge { Some(_) => Some(c), None => None }, ..b }
    } else if address <= 0x4013 || address == 0x4015 {
        BusView { apu: apu_written(b.apu, address, value), ..b }
    } else if address == 0x4016 {
        BusView { controllers: b.controllers.update(0, controller_strobed(b.controllers[0], value)), ..b }
    } else if address == 0x4017 {
        BusView {
            apu: apu_written(b.apu, address, value),
            controllers: b.controllers.update(1, controller_strobed(b.controllers[1], value)),
            ..b
        }
    } else if address <= 0x4020 {
        b
    } else {
        BusView { cartridge: Some(cart_prg_written(b.cartridge.unwrap(), address, value)), ..b }
    }
}

/// A read keeps the cartridge, and notes a cartridge access made without one.
pub broadcast proof fn lemma_read_tracks_cartridge(b: BusView, address: u16)
    ensures
        (#[trigger] bus_read(b, address)).0.cartridge == b.cartridge,
        bus_read(b, address).0.cartridge_missed == (b.cartridge_missed || misses_cartridge(b, address)),
{
    reveal(bus_read);
}

/// A write keeps whether a cartridge is inserted, and notes a cartridge
/// access made without one.
pub broadcast proof fn lemma_write_tracks_cartridge(b: BusView, address: u16, value: u8)
    ensures
        (#[trigger] bus_written(b, address, value)).cartridge is Some == b.cartridge is Some,
        bus_written(b, address, value).cartridge_missed == (b.cartridge_missed || misses_cartridge(b, address)),
{
    reveal(bus_written);
}

/// What a read or a write does to the cartridge slot.
pub broadcast group group_cartridge_tracking {
    lemma_read_tracks_cartridge,
    lemma_write_tracks_cartridge,
}

/// The saved state of the bus: the RAM and the controllers.
pub struct BusState {
    pub cpu_ram: Vec<u8>,
    pub controllers: Vec<Controller>,
}

impl Bus {
    pub open spec fn wf(&self) -> bool {
        &&& self.cpu_ram@.len() == 0x800
        &&& self.controllers@.len() == 2
        &&& self.ppu.wf()
        &&& self.apu.wf()
        &&& (self.cartridge matches Some(c) ==> c.wf())
    }

    /// Whether a cartridge is inserted.
    pub open spec fn has_cartridge(&self) -> bool {
        self.cartridge is Some
    }

    /// A bus with cleared RAM, no cartridge, and the given PPU and APU.
    pub fn new(ppu: Ppu, apu: Apu) -> (b: Self)
        requires
            ppu.wf(),
            apu.wf(),
        ensures
            b.wf(),
            b@.ram == Seq::new(0x800, |i: int| 0u8),
            b@.cartridge is None,
            b@.ppu == ppu@,
            b@.apu == apu,
            b@.controllers == seq![Controller { buffer: 0, shifter: 0 }, Controller { buffer: 0, shifter: 0 }],
    {
        let mut controllers: Vec<Controller> = Vec::new();
        controllers.push(Controller::new());
        controllers.push(Controller::new());
        let b = Bus {
            cpu_ram: crate::cartridge::mapper_000::vec_of_zeros(0x800),
            cartridge: None,
            ppu,
            apu,
            controllers,
        };
        assert(b@.controllers =~= seq![Controller { buffer: 0, shifter: 0 }, Controller { buffer: 0, shifter: 0 }]);
        b
    }

    /// A bus restored from a saved state, with the given PPU and APU.
    pub fn from_state(state: &BusState, ppu: Ppu, apu: Apu) -> (b: Self)
        requires
            state.cpu_ram@.len() == 0x800,
            state.controllers@.len() == 2,
            ppu.wf(),
            apu.wf(),
        ensures
            b.wf(),
            b@.ram == state.cpu_ram@,
            b@.controllers == state.controllers@,
            b@.cartridge is None,
            b@.ppu == ppu@,
            b@.apu == apu,
    {
        let mut bus = Bus::new(ppu, apu);
        bus.set_state(state);
        bus
    }

    /// Inserts a cartridge.
    pub fn set_mapper(&mut self, cartridge: Cartridge)
        requires
            old(self).wf(),
            cartridge.wf(),
        ensures
            final(self).wf(),
            final(self)@ == (BusView { cartridge: Some(cartridge@), ..old(self)@ }),
    {
        self.cartridge = Some(cartridge);
    }

    pub fn get_scanline(&self) -> (s: u16)
        ensures
            s == self.ppu.scanline,
    {
        self.ppu.get_scanline()
    }

    pub fn get_cycles(&self) -> (c: u16)
        ensures
            c == self.ppu.cycles,
    {
        self.ppu.get_cycles()
    }

    /// Sets the buttons held on controller `id` (0 or 1).
    pub fn set_input(&mut self, id: usize, input: u8)
        requires
            old(self).wf(),
            id < 2,
        ensures
            final(self).wf(),
            final(self)@ == (BusView {
                controllers: old(self)@.controllers.update(id as int, Controller { buffer: input, ..old(self)@.controllers[id as int] }),
                ..old(self)@
            }),
    {
        let mut c = self.controllers[id];
        c.buffer = input;
        self.controllers.set(id, c);
    }

    /// The CPU reads `address`.
    pub fn read(&mut self, address: u16) -> (v: u8)
        requires
            old(self).wf(),
            uses_cartridge(address) ==> old(self).has_cartridge(),
        ensures
            final(self).wf(),
            final(self).has_cartridge() == old(self).has_cartridge(),
            (final(self)@, v) == bus_read(old(self)@, address),
            final(self)@.apu.dmc == old(self)@.apu.dmc,
    {
        proof { reveal(bus_read); }
        if address <= 0x1FFF {
            proof { crate::bits::lemma_word_masks(); }
            assert(address & 0x07FF < 0x800);
            self.cpu_ram[(address & 0x07FF) as usize]
        } else if address <= 0x3FFF {
            let a = address & 0x2007;
            match self.ppu.read_register(&self.cartridge, a) {
                Ok(v) => v,
                Err(_) => 0,
            }
        } else if address == 0x4015 {
            match self.apu.read_register(address) {
                Ok(v) => v,
                Err(_) => 0,
            }
        } else if address == 0x4016 || address == 0x4017 {
            let i: usize = if address == 0x4016 { 0 } else { 1 };
            let mut c = self.controllers[i];
            let v = c.check_shifter();
            self.controllers.set(i, c);
            v
        } else if address <= 0x4020 {
            0
        } else {
            match &self.cartridge {
                Some(c) => match c.prg_rom_read(address) {
                    Ok(v) => v,
                    Err(_) => 0,
                },
                None => 0,
            }
        }
    }

    /// The value that a read of `address` would give, without doing the
    /// read.
    pub fn read_value(&self, address: u16) -> (v: u8)
        requires
            self.wf(),
            uses_cartridge(address) ==> self.has_cartridge(),
        ensures
            v == bus_read(self@, address).1,
    {
        proof { reveal(bus_read); }
        if address <= 0x1FFF {
            proof { crate::bits::lemma_word_masks(); }
            assert(address & 0x07FF < 0x800);
            self.cpu_ram[(address & 0x07FF) as usize]
        } else if address <= 0x3FFF {
            match self.ppu.read_register_value(&self.cartridge, address & 0x2007) {
                Ok(v) => v,
                Err(_) => 0,
            }
        } else if address == 0x4015 {
            match self.apu.read_only_register(address) {
                Ok(v) => v,
                Err(_) => 0,
            }
        } else if address == 0x4016 || address == 0x4017 {
            let i: usize = if address == 0x4016 { 0 } else { 1 };
            if self.controllers[i].shifter & 0x80 != 0 { 1 } else { 0 }
        } else if address <= 0x4020 {
            0
        } else {
            match &self.cartridge {
                Some(c) => match c.prg_rom_read(address) {
                    Ok(v) => v,
                    Err(_) => 0,
                },
                None => 0,
            }
        }
    }

    /// Reads `address` without side effects (the controllers read as 0).
    pub fn read_only(&self, address: u16) -> (v: u8)
        requires
            self.wf(),
        ensures
            v == bus_peek(self@, address),
    {
        if address <= 0x1FFF {
            proof { crate::bits::lemma_word_masks(); }
            assert(address & 0x07FF < 0x800);
            self.cpu_ram[(address & 0x07FF) as usize]
        } else if address <= 0x3FFF || address == 0x4014 {
            let a = if address <= 0x3FFF { address & 0x2007 } else { address };
            match self.ppu.read_only_register(a) {
                Ok(v) => v,
                Err(_) => 0,
            }
        } else if address == 0x4015 {
            match self.apu.read_only_register(address) {
                Ok(v) => v,
                Err(_) => 0,
            }
        } else if address <= 0x4020 {
            0
        } else {
            match &self.cartridge {
                Some(c) => match c.prg_rom_read(address) {
                    Ok(v) => v,
                    Err(_) => 0,
                },
                None => 0,
            }
        }
    }

    /// The CPU writes `value` to `address`.
    pub fn write(&mut self, address: u16, value: u8)
        requires
            old(self).wf(),
            uses_cartridge(address) ==> old(self).has_cartridge(),
        ensures
            final(self).wf(),
            final(self).has_cartridge() == old(self).has_cartridge(),
            final(self)@ == bus_written(old(self)@, address, value),
    {
        proof { reveal(bus_written); }
        if address <= 0x1FFF {
            proof { crate::bits::lemma_word_masks(); }
            assert(address & 0x07FF < 0x800);
            self.cpu_ram.set((address & 0x07FF) as usize, value);
        } else if address <= 0x3FFF || address == 0x4014 {
            let a = if address <= 0x3FFF { address & 0x2007 } else { address };
            let _ = self.ppu.write_register(&mut self.cartridge, a, value);
        } else if address <= 0x4013 || address == 0x4015 {
            let _ = self.apu.write_register(address, value);
        } else if address == 0x4016 {
            if value & 0x01 != 0 {
                let mut c = self.controllers[0];
                c.update_shifter();
                self.controllers.set(0, c);
            }
            assert(self@.controllers =~= old(self)@.controllers.update(0, controller_strobed(old(self)@.controllers[0], value)));
        } else if address == 0x4017 {
            let _ = self.apu.write_register(address, value);
            if value & 0x01 != 0 {
                let mut c = self.controllers[1];
                c.update_shifter();
                self.controllers.set(1, c);
            }
            assert(self@.controllers =~= old(self)@.controllers.update(1, controller_strobed(old(self)@.controllers[1], value)));
        } else if address <= 0x4020 {
        } else {
            let taken = self.cartridge.take();
            if let Some(mut c) = taken {
                let _ = c.prg_rom_write(address, value);
                self.cartridge = Some(c);
            }
        }
    }
}

impl Stateful for Bus {
    type State = BusState;

    fn get_state(&self) -> (s: BusState)
        ensures
            s.cpu_ram@ == self.cpu_ram@,
            s.controllers@ == self.controllers@,
    {
        BusState { cpu_ram: self.cpu_ram.clone(), controllers: self.controllers.clone() }
    }

    /// Restores the RAM and the controllers; a state with memories of the
    /// wrong size leaves the bus as it is.
    fn set_state(&mut self, state: &BusState)
        ensures
            state.cpu_ram@.len() == 0x800 && state.controllers@.len() == 2 ==> final(self)@ == (BusView {
                ram: state.cpu_ram@,
                controllers: state.controllers@,
                ..old(self)@
            }),
            !(state.cpu_ram@.len() == 0x800 && state.controllers@.len() == 2) ==> final(self)@ == old(self)@,
            old(self).wf() ==> final(self).wf(),
    {
        if state.cpu_ram.len() == 0x800 && state.controllers.len() == 2 {
            self.cpu_ram = state.cpu_ram.clone();
            self.controllers = state.controllers.clone();
        }
    }
}

} // verus!
