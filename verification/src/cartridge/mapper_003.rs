use vstd::prelude::*;
use crate::errors::{InvalidMapperReadError, InvalidMapperWriteError};
use super::mapper::{INesHeader, Mapper, Mirroring};
use super::mapper_000::last_bank_byte;

verus! {

/// Mapper 3 (CNROM): fixed PRG ROM and a switchable 8 KB CHR bank.
pub struct Mapper3 {
    pub header: INesHeader,
    pub selected_chr_rom: usize,
    /// PRG ROM, in 16 KB banks.
    pub prg_rom: Vec<u8>,
    /// CHR memory, in 8 KB banks.
    pub chr_rom: Vec<u8>,
}

/// The saved state of a CNROM.
pub struct Mapper3State {
    pub header: INesHeader,
    pub selected_chr_rom: usize,
    pub chr_rom: Vec<u8>,
}

impl Mapper3 {
    pub open spec fn prg_read_spec(&self, address: u16) -> Result<u8, InvalidMapperReadError> {
        if address <= 0x7FFF || self.prg_rom@.len() == 0 {
            Err(InvalidMapperReadError(address))
        } else if address <= 0xBFFF {
            Ok(self.prg_rom@[(address & 0x3FFF) as int])
        } else {
            Ok(last_bank_byte(self.prg_rom@, address))
        }
    }

    /// The CHR byte at `address` of the selected bank, if that bank exists.
    pub open spec fn chr_read_spec(&self, address: u16) -> Result<u8, InvalidMapperReadError> {
        if (self.selected_chr_rom + 1) * 0x2000 <= self.chr_rom@.len() {
            Ok(self.chr_rom@[self.selected_chr_rom * 0x2000 + address as int])
        } else {
            Err(InvalidMapperReadError(address))
        }
    }

    pub fn new(prg_rom: Vec<u8>, chr_rom: Vec<u8>, header: INesHeader) -> (m: Self)
        requires
            prg_rom@.len() % 0x4000 == 0,
            chr_rom@.len() >= 0x2000,
            chr_rom@.len() % 0x2000 == 0,
        ensures
            m.wf(),
            m.selected_chr_rom == 0,
            m.prg_rom@ == prg_rom@,
            m.chr_rom@ == chr_rom@,
            m.header == header,
    {
        Mapper3 { header, selected_chr_rom: 0, prg_rom, chr_rom }
    }

    pub fn get_state(&self) -> (s: Mapper3State)
        ensures
            s.selected_chr_rom == self.selected_chr_rom,
            s.chr_rom@ == self.chr_rom@,
            s.header.same_as(self.header),
    {
        Mapper3State {
            header: self.header.duplicate(),
            selected_chr_rom: self.selected_chr_rom,
            chr_rom: self.chr_rom.clone(),
        }
    }

    /// Restores a saved state; CHR memory of another size is refused and
    /// leaves the mapper unchanged.
    pub fn set_state(&mut self, state: &Mapper3State) -> (accepted: bool)
        requires
            old(self).wf(),
        ensures
            final(self).wf(),
            accepted == (state.chr_rom@.len() >= 0x2000 && state.chr_rom@.len() % 0x2000 == 0),
            accepted ==> final(self).selected_chr_rom == state.selected_chr_rom
                && final(self).chr_rom@ == state.chr_rom@
                && final(self).header.same_as(state.header),
            !accepted ==> final(self).selected_chr_rom == old(self).selected_chr_rom
                && final(self).chr_rom@ == old(self).chr_rom@
                && final(self).header.same_as(old(self).header),
            final(self).prg_rom@ == old(self).prg_rom@,
    {
        if !(state.chr_rom.len() >= 0x2000 && state.chr_rom.len() % 0x2000 == 0) {
            return false;
        }
        self.header = state.header.duplicate();
        self.selected_chr_rom = state.selected_chr_rom;
        self.chr_rom = state.chr_rom.clone();
        true
    }
}

impl Mapper for Mapper3 {
    open spec fn wf(&self) -> bool {
        &&& self.prg_rom@.len() % 0x4000 == 0
        &&& self.chr_rom@.len() >= 0x2000
        &&& self.chr_rom@.len() % 0x2000 == 0
    }

    /// $8000-$BFFF is the first bank and $C000-$FFFF the last bank.
    fn prg_rom_read(&self, address: u16) -> (r: Result<u8, InvalidMapperReadError>)
        ensures
            r == self.prg_read_spec(address),
    {
        if address <= 0x7FFF || self.prg_rom.len() == 0 {
            Err(InvalidMapperReadError(address))
        } else if address <= 0xBFFF {
            proof { crate::bits::lemma_word_masks(); }
            assert(address & 0x3FFF < 0x4000);
            Ok(self.prg_rom[(address & 0x3FFF) as usize])
        } else {
            proof { crate::bits::lemma_word_masks(); }
            assert(address & 0x3FFF < 0x4000);
            Ok(self.prg_rom[self.prg_rom.len() - 0x4000 + (address & 0x3FFF) as usize])
        }
    }

    /// A write to $8000-$FFFF selects the CHR bank (low two bits).
    fn prg_rom_write(&mut self, address: u16, value: u8) -> (r: Result<(), InvalidMapperWriteError>)
        ensures
            address <= 0x7FFF ==> r == Err::<(), InvalidMapperWriteError>(InvalidMapperWriteError(address))
                && final(self).selected_chr_rom == old(self).selected_chr_rom,
            address >= 0x8000 ==> r is Ok && final(self).selected_chr_rom == (value & 0x03) as usize,
            final(self).prg_rom@ == old(self).prg_rom@,
            final(self).chr_rom@ == old(self).chr_rom@,
            final(self).header.mirroring == old(self).header.mirroring,
    {
        if address <= 0x7FFF {
            Err(InvalidMapperWriteError(address))
        } else {
            self.selected_chr_rom = (value & 0x03) as usize;
            Ok(())
        }
    }

    /// Reads the selected bank; a bank number beyond the CHR ROM is refused.
    fn chr_rom_read(&self, address: u16) -> (r: Result<u8, InvalidMapperReadError>)
        ensures
            r == self.chr_read_spec(address),
    {
        let banks = self.chr_rom.len() / 0x2000;
        let bank = self.selected_chr_rom;
        if bank < banks {
            assert((bank + 1) * 0x2000 <= self.chr_rom@.len()) by (nonlinear_arith)
                requires bank < banks, banks == self.chr_rom@.len() / 0x2000;
            Ok(self.chr_rom[bank * 0x2000 + address as usize])
        } else {
            assert(!((bank + 1) * 0x2000 <= self.chr_rom@.len())) by (nonlinear_arith)
                requires bank >= banks, banks == self.chr_rom@.len() / 0x2000;
            Err(InvalidMapperReadError(address))
        }
    }

    /// Writes land in the first 8 KB bank whatever bank is selected.
    fn chr_rom_write(&mut self, address: u16, value: u8) -> (r: Result<(), InvalidMapperWriteError>)
        ensures
            address <= 0x1FFF ==> r is Ok
                && final(self).chr_rom@ == old(self).chr_rom@.update(address as int, value),
            address > 0x1FFF ==> r == Err::<(), InvalidMapperWriteError>(InvalidMapperWriteError(address))
                && final(self).chr_rom@ == old(self).chr_rom@,
            final(self).prg_rom@ == old(self).prg_rom@,
            final(self).selected_chr_rom == old(self).selected_chr_rom,
            final(self).header.mirroring == old(self).header.mirroring,
    {
        if address <= 0x1FFF {
            self.chr_rom.set(address as usize, value);
            Ok(())
        } else {
            Err(InvalidMapperWriteError(address))
        }
    }

    fn get_mirroring(&self) -> (m: Mirroring)
        ensures
            m == self.header.mirroring,
    {
        self.header.mirroring
    }
}

} // verus!
