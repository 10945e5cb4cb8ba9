use vstd::prelude::*;
use crate::cartridge::cartridge::{Cartridge, CartridgeView, cart_chr_read, cart_chr_written, cart_mirroring};
use crate::cartridge::mapper::Mirroring;
use crate::errors::{InvalidMapperReadError, InvalidPPUBusReadError, InvalidPPUBusWriteError};
use crate::state::Stateful;
use super::enums::{VRAMAddressMask, vram_mask, vram_shift};

verus! {

/// The PPU's VRAM address register (15 bits: fine Y, nametable, coarse Y,
/// coarse X).
#[derive(Debug, Clone, Copy, PartialEq, Eq, Structural)]
pub struct VRAMAddress {
    pub address: u16,
}

/// The value of a field of a VRAM address.
pub open spec fn address_part(address: u16, mask: VRAMAddressMask) -> u16 {
    match mask {
        VRAMAddressMask::FW2006 => 0,
        VRAMAddressMask::SW2006 => 0,
        _ => (address & vram_mask(mask)) >> vram_shift(mask),
    }
}

/// A VRAM address with a field replaced by `value` (shifted into place).
pub open spec fn with_address_part(address: u16, mask: VRAMAddressMask, value: u16) -> u16 {
    (address & !vram_mask(mask)) | (value << vram_shift(mask))
}

impl VRAMAddress {
    pub fn new() -> (v: Self)
        ensures
            v.address == 0,
    {
        VRAMAddress { address: 0 }
    }

    /// Reads a field of the address (the two $2006 halves read as 0).
    pub fn get_address_part(&self, mask: VRAMAddressMask) -> (v: u16)
        ensures
            v == address_part(self.address, mask),
    {
        match mask {
            VRAMAddressMask::FW2006 => 0,
            VRAMAddressMask::SW2006 => 0,
            _ => (self.address & mask.mask()) >> mask.shift(),
        }
    }

    /// Replaces a field of the address.
    pub fn set_address_part(&mut self, mask: VRAMAddressMask, value: u16)
        ensures
            final(self).address == with_address_part(old(self).address, mask, value),
    {
        self.address = (self.address & !mask.mask()) | (value << mask.shift());
    }
}

/// Why the PPU bus could not be read.
#[derive(Debug, Clone, Copy, PartialEq, Eq, Structural)]
pub enum PPUBusReadError {
    Bus(InvalidPPUBusReadError),
    Mapper(InvalidMapperReadError),
}

/// The PPU's address space: pattern tables (in the cartridge), two
/// nametables and the palette.
pub struct PPUBus {
    /// Two nametables of 0x400 bytes.
    pub name_tables: Vec<u8>,
    pub palette_table: Vec<u8>,
    pub vram_address: VRAMAddress,
    pub tmp_vram_address: VRAMAddress,
}

/// The contents of the PPU bus.
pub struct PPUBusView {
    pub name_tables: Seq<u8>,
    pub palette_table: Seq<u8>,
    pub vram_address: u16,
    pub tmp_vram_address: u16,
}

impl View for PPUBus {
    type V = PPUBusView;

    open spec fn view(&self) -> PPUBusView {
        PPUBusView {
            name_tables: self.name_tables@,
            palette_table: self.palette_table@,
            vram_address: self.vram_address.address,
            tmp_vram_address: self.tmp_vram_address.address,
        }
    }
}

/// Where a nametable address ($2000-$2FFF) lands in the two physical
/// nametables under a mirroring; four-screen mirroring is not served.
pub open spec fn nametable_index(m: Mirroring, address: u16) -> Option<int> {
    let offset = (address & 0x03FF) as int;
    match m {
        Mirroring::Horizontal => if address <= 0x27FF { Some(offset) } else { Some(0x400 + offset) },
        Mirroring::Vertical => if address <= 0x23FF || (0x2800 <= address && address <= 0x2BFF) {
            Some(offset)
        } else {
            Some(0x400 + offset)
        },
        Mirroring::OneScreenLower => Some(offset),
        Mirroring::OneScreenUpper => Some(0x400 + offset),
        Mirroring::FourScreens => None,
    }
}

/// Palette entries $10, $14, $18 and $1C mirror $00, $04, $08 and $0C.
pub open spec fn palette_index(address: u16) -> int {
    let a = address & 0x001F;
    if a == 0x10 || a == 0x14 || a == 0x18 || a == 0x1C { (a - 0x10) as int } else { a as int }
}

/// What the PPU reads at `address`.
pub open spec fn ppu_bus_read(b: PPUBusView, c: CartridgeView, address: u16) -> Result<u8, PPUBusReadError> {
    if address <= 0x1FFF {
        match cart_chr_read(c, address) {
            Ok(v) => Ok(v),
            Err(e) => Err(PPUBusReadError::Mapper(e)),
        }
    } else if address <= 0x3EFF {
        let a = if address <= 0x2FFF { address } else { address & 0x2FFF };
        match nametable_index(cart_mirroring(c), a) {
            Some(i) => Ok(b.name_tables[i]),
            None => Err(PPUBusReadError::Bus(InvalidPPUBusReadError(a))),
        }
    } else if address <= 0x3FFF {
        Ok(b.palette_table[palette_index(address)])
    } else {
        Err(PPUBusReadError::Bus(InvalidPPUBusReadError(address)))
    }
}

/// The nametables and palette after the PPU writes `value` at `address`.
pub open spec fn ppu_bus_written(b: PPUBusView, c: CartridgeView, address: u16, value: u8) -> PPUBusView {
    if 0x2000 <= address && address <= 0x3EFF {
        let a = if address <= 0x2FFF { address } else { address & 0x2FFF };
        let m = cart_mirroring(c);
        let offset = (a & 0x03FF) as int;
        match m {
            Mirroring::OneScreenLower => PPUBusView {
                name_tables: b.name_tables.update(offset, value).update(0x400 + offset, value),
                ..b
            },
            Mirroring::OneScreenUpper => PPUBusView {
                name_tables: b.name_tables.update(offset, value).update(0x400 + offset, value),
                ..b
            },
            _ => match nametable_index(m, a) {
                Some(i) => PPUBusView { name_tables: b.name_tables.update(i, value), ..b },
                None => b,
            },
        }
    } else if 0x3F00 <= address && address <= 0x3FFF {
        PPUBusView { palette_table: b.palette_table.update(palette_index(address), value), ..b }
    } else {
        b
    }
}

/// The cartridge after the PPU writes `value` at `address`.
pub open spec fn ppu_bus_cart_written(c: CartridgeView, address: u16, value: u8) -> CartridgeView {
    if address <= 0x1FFF { cart_chr_written(c, address, value) } else { c }
}

/// Whether the PPU write is refused (an address past $3FFF, or a nametable
/// write under four-screen mirroring).
pub open spec fn ppu_bus_write_refused(c: CartridgeView, address: u16) -> bool {
    address > 0x3FFF || (0x2000 <= address && address <= 0x3EFF && cart_mirroring(c) == Mirroring::FourScreens)
}

/// The saved state of the PPU bus.
pub struct PpuBusState {
    pub name_tables: Vec<u8>,
    pub palette_table: Vec<u8>,
    pub vram_address: VRAMAddress,
    pub tmp_vram_address: VRAMAddress,
}

impl PPUBus {
    pub open spec fn wf(&self) -> bool {
        self.name_tables@.len() == 0x800 && self.palette_table@.len() == 0x20
    }

    pub fn new() -> (b: Self)
        ensures
            b.wf(),
            b@.name_tables == Seq::new(0x800, |i: int| 0u8),
            b@.palette_table == Seq::new(0x20, |i: int| 0u8),
            b@.vram_address == 0,
            b@.tmp_vram_address == 0,
    {
        PPUBus {
            name_tables: crate::cartridge::mapper_000::vec_of_zeros(0x800),
            palette_table: crate::cartridge::mapper_000::vec_of_zeros(0x20),
            vram_address: VRAMAddress::new(),
            tmp_vram_address: VRAMAddress::new(),
        }
    }

    /// Builds a bus from a saved state; one with memories of the wrong size
    /// gives an empty bus.
    pub fn from_state(state: &PpuBusState) -> (b: Self)
        ensures
            b.wf(),
            state.name_tables@.len() == 0x800 && state.palette_table@.len() == 0x20 ==> b@ == (PPUBusView {
                name_tables: state.name_tables@,
                palette_table: state.palette_table@,
                vram_address: state.vram_address.address,
                tmp_vram_address: state.tmp_vram_address.address,
            }),
    {
        let mut bus = PPUBus::new();
        bus.set_state(state);
        bus
    }

    /// Reads the PPU address space: pattern tables from the cartridge,
    /// nametables under the cartridge's mirroring (with $3000-$3EFF mirroring
    /// $2000-$2EFF) and the palette.
    pub fn read(&self, cart: &Cartridge, address: u16) -> (r: Result<u8, PPUBusReadError>)
        requires
            self.wf(),
            cart.wf(),
        ensures
            r == ppu_bus_read(self@, cart@, address),
    {
        if address <= 0x1FFF {
            match cart.chr_rom_read(address) {
                Ok(v) => Ok(v),
                Err(e) => Err(PPUBusReadError::Mapper(e)),
            }
        } else if address <= 0x3EFF {
            let a = if address <= 0x2FFF { address } else { address & 0x2FFF };
            proof { crate::bits::lemma_word_masks(); }
            assert(0x3000 <= address <= 0x3EFF ==> 0x2000 <= address & 0x2FFF && address & 0x2FFF <= 0x2FFF);
            match self.name_table_index(cart, a) {
                Some(i) => Ok(self.name_tables[i]),
                None => Err(PPUBusReadError::Bus(InvalidPPUBusReadError(a))),
            }
        } else if address <= 0x3FFF {
            Ok(self.palette_table[self.palette_index(address)])
        } else {
            Err(PPUBusReadError::Bus(InvalidPPUBusReadError(address)))
        }
    }

    fn name_table_index(&self, cart: &Cartridge, address: u16) -> (r: Option<usize>)
        requires
            self.wf(),
            0x2000 <= address <= 0x2FFF,
        ensures
            r is Some == nametable_index(cart_mirroring(cart@), address) is Some,
            r matches Some(i) ==> nametable_index(cart_mirroring(cart@), address) == Some(i as int) && i < 0x800,
    {
        let offset: usize = (address & 0x03FF) as usize;
        proof { crate::bits::lemma_word_masks(); }
        assert(address & 0x03FF < 0x400);
        match cart.get_mirroring() {
            Mirroring::Horizontal => if address <= 0x27FF { Some(offset) } else { Some(0x400 + offset) },
            Mirroring::Vertical => if address <= 0x23FF || (0x2800 <= address && address <= 0x2BFF) {
                Some(offset)
            } else {
                Some(0x400 + offset)
            },
            Mirroring::OneScreenLower => Some(offset),
            Mirroring::OneScreenUpper => Some(0x400 + offset),
            Mirroring::FourScreens => None,
        }
    }

    fn palette_index(&self, address: u16) -> (i: usize)
        ensures
            i == palette_index(address),
            i < 0x20,
    {
        let a: u16 = address & 0x001F;
        proof { crate::bits::lemma_word_masks(); }
        assert(address & 0x001F < 0x20);
        if a == 0x10 || a == 0x14 || a == 0x18 || a == 0x1C {
            (a - 0x10) as usize
        } else {
            a as usize
        }
    }

    /// Writes the PPU address space; pattern table writes go to the
    /// cartridge.
    pub fn write(&mut self, cart: &mut Cartridge, address: u16, value: u8) -> (r: Result<(), InvalidPPUBusWriteError>)
        requires
            old(self).wf(),
            old(cart).wf(),
        ensures
            final(self).wf(),
            final(cart).wf(),
            final(self)@ == ppu_bus_written(old(self)@, old(cart)@, address, value),
            final(cart)@ == ppu_bus_cart_written(old(cart)@, address, value),
            ppu_bus_write_refused(old(cart)@, address) ==> r is Err,
            !ppu_bus_write_refused(old(cart)@, address) && address > 0x1FFF ==> r is Ok,
    {
        if address <= 0x1FFF {
            let _ = cart.chr_rom_write(address, value);
            Ok(())
        } else if address <= 0x3EFF {
            let a = if address <= 0x2FFF { address } else { address & 0x2FFF };
            proof { crate::bits::lemma_word_masks(); }
            assert(0x3000 <= address <= 0x3EFF ==> 0x2000 <= address & 0x2FFF && address & 0x2FFF <= 0x2FFF);
            let offset: usize = (a & 0x03FF) as usize;
            proof { crate::bits::lemma_word_masks(); }
            assert(a & 0x03FF < 0x400);
            match cart.get_mirroring() {
                Mirroring::OneScreenLower => {
                    self.name_tables.set(offset, value);
                    self.name_tables.set(0x400 + offset, value);
                    Ok(())
                },
                Mirroring::OneScreenUpper => {
                    self.name_tables.set(offset, value);
                    self.name_tables.set(0x400 + offset, value);
                    Ok(())
                },
                _ => match self.name_table_index(cart, a) {
                    Some(i) => {
                        self.name_tables.set(i, value);
                        Ok(())
                    },
                    None => Err(InvalidPPUBusWriteError(a)),
                },
            }
        } else if address <= 0x3FFF {
            let i = self.palette_index(address);
            self.palette_table.set(i, value);
            Ok(())
        } else {
            Err(InvalidPPUBusWriteError(address))
        }
    }
}

impl Stateful for PPUBus {
    type State = PpuBusState;

    fn get_state(&self) -> (s: PpuBusState)
        ensures
            s.name_tables@ == self.name_tables@,
            s.palette_table@ == self.palette_table@,
            s.vram_address == self.vram_address,
            s.tmp_vram_address == self.tmp_vram_address,
    {
        PpuBusState {
            name_tables: self.name_tables.clone(),
            palette_table: self.palette_table.clone(),
            vram_address: self.vram_address,
            tmp_vram_address: self.tmp_vram_address,
        }
    }

    /// Restores a saved state; memories of the wrong size leave them as
    /// they are.
    fn set_state(&mut self, state: &PpuBusState)
        ensures
            old(self).wf() ==> final(self).wf(),
            state.name_tables@.len() == 0x800 && state.palette_table@.len() == 0x20 ==> final(self)@ == (PPUBusView {
                name_tables: state.name_tables@,
                palette_table: state.palette_table@,
                vram_address: state.vram_address.address,
                tmp_vram_address: state.tmp_vram_address.address,
            }),
    {
        if state.name_tables.len() == 0x800 && state.palette_table.len() == 0x20 {
            self.name_tables = state.name_tables.clone();
            self.palette_table = state.palette_table.clone();
        }
        self.vram_address = state.vram_address;
        self.tmp_vram_address = state.tmp_vram_address;
    }
}

} // verus!
