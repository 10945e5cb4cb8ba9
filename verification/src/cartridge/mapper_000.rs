use vstd::prelude::*;
use crate::errors::{InvalidMapperReadError, InvalidMapperWriteError};
use super::mapper::{INesHeader, Mapper, Mirroring};

verus! {

/// Mapper 0 (NROM): one or two fixed 16 KB PRG banks, one 8 KB CHR bank and
/// 8 KB of RAM at $6000.
pub struct Mapper0 {
    pub header: INesHeader,
    pub prg_rom: Vec<u8>,
    pub chr_rom: Vec<u8>,
    pub ram: Vec<u8>,
}

/// The byte at `address` of the last 16 KB bank of `prg` (`prg` holds whole
/// banks).
pub open spec fn last_bank_byte(prg: Seq<u8>, address: u16) -> u8 {
    prg[prg.len() - 0x4000 + (address & 0x3FFF) as int]
}

impl Mapper0 {
    pub open spec fn prg_read_spec(&self, address: u16) -> Result<u8, InvalidMapperReadError> {
        if address <= 0x5FFF {
            Err(InvalidMapperReadError(address))
        } else if address <= 0x7FFF {
            Ok(self.ram@[(address & 0x1FFF) as int])
        } else if self.prg_rom@.len() == 0 {
            Err(InvalidMapperReadError(address))
        } else if address <= 0xBFFF {
            Ok(self.prg_rom@[(address & 0x3FFF) as int])
        } else {
            Ok(last_bank_byte(self.prg_rom@, address))
        }
    }

    pub fn new(prg_rom: Vec<u8>, chr_rom: Vec<u8>, header: INesHeader) -> (m: Self)
        requires
            prg_rom@.len() % 0x4000 == 0,
            chr_rom@.len() >= 0x2000,
        ensures
            m.wf(),
            m.prg_rom@ == prg_rom@,
            m.chr_rom@ == chr_rom@,
            m.ram@ == Seq::new(0x2000, |i: int| 0u8),
            m.header == header,
    {
        Mapper0 { header, prg_rom, chr_rom, ram: vec_of_zeros(0x2000) }
    }
}

/// A vector of `n` zero bytes.
pub fn vec_of_zeros(n: usize) -> (v: Vec<u8>)
    ensures
        v@ == Seq::new(n as nat, |i: int| 0u8),
{
    let mut v: Vec<u8> = Vec::with_capacity(n);
    let mut i: usize = 0;
    while i < n
        invariant
            i <= n,
            v@ == Seq::new(i as nat, |j: int| 0u8),
        decreases n - i,
    {
        v.push(0);
        i = i + 1;
    }
    v
}

impl Mapper for Mapper0 {
    open spec fn wf(&self) -> bool {
        &&& self.prg_rom@.len() % 0x4000 == 0
        &&& self.chr_rom@.len() >= 0x2000
        &&& self.ram@.len() == 0x2000
    }

    /// $6000-$7FFF is RAM, $8000-$BFFF the first bank and $C000-$FFFF the
    /// last bank; lower addresses are not served.
    fn prg_rom_read(&self, address: u16) -> (r: Result<u8, InvalidMapperReadError>)
        ensures
            r == self.prg_read_spec(address),
    {
        if address <= 0x5FFF {
            Err(InvalidMapperReadError(address))
        } else if address <= 0x7FFF {
            let a: u16 = address & 0x1FFF;
            proof { crate::bits::lemma_word_masks(); }
            assert(address & 0x1FFF < 0x2000);
            Ok(self.ram[a as usize])
        } else if self.prg_rom.len() == 0 {
            Err(InvalidMapperReadError(address))
        } else if address <= 0xBFFF {
            proof { crate::bits::lemma_word_masks(); }
            assert(address & 0x3FFF < 0x4000);
            Ok(self.prg_rom[(address & 0x3FFF) as usize])
        } else {
            proof { crate::bits::lemma_word_masks(); }
            assert(address & 0x3FFF < 0x4000);
            Ok(self.prg_rom[self.prg_rom.len() - 0x4000 + (address & 0x3FFF) as usize])
        }
    }

    /// Only the RAM at $6000-$7FFF can be written.
    fn prg_rom_write(&mut self, address: u16, value: u8) -> (r: Result<(), InvalidMapperWriteError>)
        ensures
            0x6000 <= address <= 0x7FFF ==> r is Ok
                && final(self).ram@ == old(self).ram@.update((address & 0x1FFF) as int, value),
            !(0x6000 <= address <= 0x7FFF) ==> r == Err::<(), InvalidMapperWriteError>(InvalidMapperWriteError(address))
                && final(self).ram@ == old(self).ram@,
            final(self).prg_rom@ == old(self).prg_rom@,
            final(self).chr_rom@ == old(self).chr_rom@,
            final(self).header.mirroring == old(self).header.mirroring,
    {
        if 0x6000 <= address && address <= 0x7FFF {
            proof { crate::bits::lemma_word_masks(); }
            assert(address & 0x1FFF < 0x2000);
            self.ram.set((address & 0x1FFF) as usize, value);
            Ok(())
        } else {
            Err(InvalidMapperWriteError(address))
        }
    }

    fn chr_rom_read(&self, address: u16) -> (r: Result<u8, InvalidMapperReadError>)
        ensures
            r == Ok::<u8, InvalidMapperReadError>(self.chr_rom@[address as int]),
    {
        Ok(self.chr_rom[address as usize])
    }

    fn chr_rom_write(&mut self, address: u16, value: u8) -> (r: Result<(), InvalidMapperWriteError>)
        ensures
            address <= 0x1FFF ==> r is Ok
                && final(self).chr_rom@ == old(self).chr_rom@.update(address as int, value),
            address > 0x1FFF ==> r == Err::<(), InvalidMapperWriteError>(InvalidMapperWriteError(address))
                && final(self).chr_rom@ == old(self).chr_rom@,
            final(self).prg_rom@ == old(self).prg_rom@,
            final(self).ram@ == old(self).ram@,
            final(self).header.mirroring == old(self).header.mirroring,
    {
        if address <= 0x1FFF {
            self.chr_rom.set(address as usize, value);
            Ok(())
        } else {
            Err(InvalidMapperWriteError(address))
        }
    }

    fn get_mirroring(&self) -> (m: Mirroring)
        ensures
            m == self.header.mirroring,
    {
        self.header.mirroring
    }
}

} // verus!
