use vstd::prelude::*;
use crate::errors::{InvalidMapperReadError, InvalidMapperWriteError};
use super::mapper::{INesHeader, Mapper, Mirroring};
use super::mapper_001::prg_bank_byte;

verus! {

/// Mapper 2 (UNROM): a switchable 16 KB bank at $8000, the last bank fixed at
/// $C000, and 8 KB of CHR RAM.
pub struct Mapper2 {
    pub header: INesHeader,
    pub lo_prg_rom: usize,
    /// PRG ROM, in 16 KB banks.
    pub prg_rom: Vec<u8>,
    /// CHR memory, in 8 KB banks.
    pub chr_rom: Vec<u8>,
}

/// The saved state of a UNROM.
pub struct Mapper2State {
    pub header: INesHeader,
    pub lo_prg_rom: usize,
}

impl Mapper2 {
    pub open spec fn prg_read_spec(&self, address: u16) -> Result<u8, InvalidMapperReadError> {
        let offset = (address & 0x3FFF) as int;
        if address <= 0x7FFF {
            Err(InvalidMapperReadError(address))
        } else if address <= 0xBFFF {
            prg_bank_byte(self.prg_rom@, self.lo_prg_rom as int, offset, address)
        } else {
            prg_bank_byte(self.prg_rom@, self.prg_rom@.len() / 0x4000 - 1, offset, address)
        }
    }

    pub fn new(prg_rom: Vec<u8>, chr_rom: Vec<u8>, header: INesHeader) -> (m: Self)
        requires
            prg_rom@.len() % 0x4000 == 0,
            chr_rom@.len() >= 0x2000,
        ensures
            m.wf(),
            m.lo_prg_rom == 0,
            m.prg_rom@ == prg_rom@,
            m.chr_rom@ == chr_rom@,
            m.header == header,
    {
        Mapper2 { header, lo_prg_rom: 0, prg_rom, chr_rom }
    }

    fn read_prg_bank(&self, bank: usize, address: u16) -> (r: Result<u8, InvalidMapperReadError>)
        requires
            self.wf(),
        ensures
            r == prg_bank_byte(self.prg_rom@, bank as int, (address & 0x3FFF) as int, address),
    {
        let banks = self.prg_rom.len() / 0x4000;
        if bank < banks {
            proof { crate::bits::lemma_word_masks(); }
            assert(address & 0x3FFF < 0x4000);
            assert((bank + 1) * 0x4000 <= self.prg_rom@.len()) by (nonlinear_arith)
                requires bank < banks, banks == self.prg_rom@.len() / 0x4000;
            Ok(self.prg_rom[bank * 0x4000 + (address & 0x3FFF) as usize])
        } else {
            assert(!((bank + 1) * 0x4000 <= self.prg_rom@.len())) by (nonlinear_arith)
                requires bank >= banks, banks == self.prg_rom@.len() / 0x4000;
            Err(InvalidMapperReadError(address))
        }
    }

    pub fn get_state(&self) -> (s: Mapper2State)
        ensures
            s.lo_prg_rom == self.lo_prg_rom,
            s.header.same_as(self.header),
    {
        Mapper2State { header: self.header.duplicate(), lo_prg_rom: self.lo_prg_rom }
    }

    pub fn set_state(&mut self, state: &Mapper2State)
        requires
            old(self).wf(),
        ensures
            final(self).wf(),
            final(self).lo_prg_rom == state.lo_prg_rom,
            final(self).header.same_as(state.header),
            final(self).prg_rom@ == old(self).prg_rom@,
            final(self).chr_rom@ == old(self).chr_rom@,
    {
        self.header = state.header.duplicate();
        self.lo_prg_rom = state.lo_prg_rom;
    }
}

impl Mapper for Mapper2 {
    open spec fn wf(&self) -> bool {
        &&& self.prg_rom@.len() % 0x4000 == 0
        &&& self.chr_rom@.len() >= 0x2000
    }

    /// $8000-$BFFF is the selected bank and $C000-$FFFF the last bank; a
    /// bank number beyond the ROM is refused.
    fn prg_rom_read(&self, address: u16) -> (r: Result<u8, InvalidMapperReadError>)
        ensures
            r == self.prg_read_spec(address),
    {
        if address <= 0x7FFF {
            Err(InvalidMapperReadError(address))
        } else if address <= 0xBFFF {
            self.read_prg_bank(self.lo_prg_rom, address)
        } else if self.prg_rom.len() == 0 {
            assert(!(0 <= self.prg_rom@.len() / 0x4000 - 1));
            Err(InvalidMapperReadError(address))
        } else {
            self.read_prg_bank(self.prg_rom.len() / 0x4000 - 1, address)
        }
    }

    /// A write to $8000-$FFFF selects the bank at $8000 (low four bits).
    fn prg_rom_write(&mut self, address: u16, value: u8) -> (r: Result<(), InvalidMapperWriteError>)
        ensures
            address <= 0x7FFF ==> r == Err::<(), InvalidMapperWriteError>(InvalidMapperWriteError(address))
                && final(self).lo_prg_rom == old(self).lo_prg_rom,
            address >= 0x8000 ==> r is Ok && final(self).lo_prg_rom == (value & 0x0F) as usize,
            final(self).prg_rom@ == old(self).prg_rom@,
            final(self).chr_rom@ == old(self).chr_rom@,
            final(self).header.mirroring == old(self).header.mirroring,
    {
        if address <= 0x7FFF {
            Err(InvalidMapperWriteError(address))
        } else {
            self.lo_prg_rom = (value & 0x0F) as usize;
            Ok(())
        }
    }

    fn chr_rom_read(&self, address: u16) -> (r: Result<u8, InvalidMapperReadError>)
        ensures
            r == Ok::<u8, InvalidMapperReadError>(self.chr_rom@[address as int]),
    {
        Ok(self.chr_rom[address as usize])
    }

    fn chr_rom_write(&mut self, address: u16, value: u8) -> (r: Result<(), InvalidMapperWriteError>)
        ensures
            address <= 0x1FFF ==> r is Ok
                && final(self).chr_rom@ == old(self).chr_rom@.update(address as int, value),
            address > 0x1FFF ==> r == Err::<(), InvalidMapperWriteError>(InvalidMapperWriteError(address))
                && final(self).chr_rom@ == old(self).chr_rom@,
            final(self).prg_rom@ == old(self).prg_rom@,
            final(self).lo_prg_rom == old(self).lo_prg_rom,
            final(self).header.mirroring == old(self).header.mirroring,
    {
        if address <= 0x1FFF {
            self.chr_rom.set(address as usize, value);
            Ok(())
        } else {
            Err(InvalidMapperWriteError(address))
        }
    }

    fn get_mirroring(&self) -> (m: Mirroring)
        ensures
            m == self.header.mirroring,
    {
        self.header.mirroring
    }
}

} // verus!
