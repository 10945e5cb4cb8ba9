use vstd::prelude::*;
use crate::errors::{InvalidMapperReadError, InvalidMapperWriteError};
use super::mapper::{INesHeader, Mapper, Mirroring, PersistentMemoryError};
use super::mapper_000::vec_of_zeros;

verus! {

/// How the 32 KB of PRG address space is banked.
#[derive(Debug, Clone, Copy, PartialEq, Eq, Structural)]
pub enum PrgRomBankMode {
    Switch32,
    Switch16FirstFixed,
    Switch16LastFixed,
}

/// How the 8 KB of CHR address space is banked.
#[derive(Debug, Clone, Copy, PartialEq, Eq, Structural)]
pub enum ChrRomBankMode {
    Switch8,
    Switch4,
}

/// The PRG banking mode selected by bits 2-3 of the control register.
pub open spec fn prg_mode_of(control: u8) -> PrgRomBankMode {
    let m = (control & 0x0C) >> 2u8;
    if m == 0 || m == 1 {
        PrgRomBankMode::Switch32
    } else if m == 2 {
        PrgRomBankMode::Switch16FirstFixed
    } else {
        PrgRomBankMode::Switch16LastFixed
    }
}

/// The CHR banking mode selected by bit 4 of the control register.
pub open spec fn chr_mode_of(control: u8) -> ChrRomBankMode {
    if (control & 0x10) >> 4u8 == 0 { ChrRomBankMode::Switch8 } else { ChrRomBankMode::Switch4 }
}

/// The mirroring selected by bits 0-1 of the control register.
pub open spec fn mirroring_of(control: u8) -> Mirroring {
    let m = control & 0x03;
    if m == 0 {
        Mirroring::OneScreenLower
    } else if m == 1 {
        Mirroring::OneScreenUpper
    } else if m == 2 {
        Mirroring::Vertical
    } else {
        Mirroring::Horizontal
    }
}

/// Mapper 1 (MMC1): registers loaded serially through a 5-bit shift register
/// select PRG and CHR banks, the banking modes and the mirroring.
pub struct Mapper1 {
    pub header: INesHeader,
    pub lo_prg_rom: usize,
    pub hi_prg_rom: usize,
    pub lo_chr_rom: usize,
    pub hi_chr_rom: usize,
    /// PRG ROM, in 16 KB banks.
    pub prg_rom: Vec<u8>,
    /// CHR memory, in 4 KB banks (at least 32 of them).
    pub chr_rom: Vec<u8>,
    pub ram: Vec<u8>,
    pub ram_disabled: bool,
    pub shift_register: u8,
    pub n_bit_loaded: u8,
    pub control_register: u8,
}

/// The byte at `offset` of 16 KB bank `bank` of `prg`, if the bank exists.
pub open spec fn prg_bank_byte(prg: Seq<u8>, bank: int, offset: int, address: u16) -> Result<u8, InvalidMapperReadError> {
    if 0 <= bank && (bank + 1) * 0x4000 <= prg.len() {
        Ok(prg[bank * 0x4000 + offset])
    } else {
        Err(InvalidMapperReadError(address))
    }
}

/// The position of byte `offset` of 4 KB bank `bank`, if the bank exists.
pub open spec fn chr_bank_index(chr: Seq<u8>, bank: int, offset: int) -> Option<int> {
    if 0 <= bank && (bank + 1) * 0x1000 <= chr.len() { Some(bank * 0x1000 + offset) } else { None }
}

/// The register state after a write of `value` to $8000-$FFFF.
pub open spec fn mmc1_after_serial_write(m: Mapper1Regs, address: u16, value: u8) -> Mapper1Regs {
    if value & 0x80 != 0 {
        Mapper1Regs {
            shift_register: 0,
            n_bit_loaded: 0,
            control_register: m.control_register | 0x0C,
            ..m
        }
    } else {
        let shift = (m.shift_register >> 1u8) | ((value & 0x01) << 4u8);
        if m.n_bit_loaded + 1 == 5 {
            let action = (address & 0x6000) >> 13u16;
            let loaded = if action == 0 {
                Mapper1Regs { control_register: shift & 0x1F, ..m }
            } else if action == 1 {
                Mapper1Regs {
                    lo_chr_rom: (if chr_mode_of(m.control_register) == ChrRomBankMode::Switch8 {
                        shift & 0x1E
                    } else {
                        shift & 0x1F
                    }) as usize,
                    ..m
                }
            } else if action == 2 {
                Mapper1Regs { hi_chr_rom: (shift & 0x1F) as usize, ..m }
            } else {
                let r = Mapper1Regs { ram_disabled: shift & 0x10 != 0, ..m };
                match prg_mode_of(m.control_register) {
                    PrgRomBankMode::Switch32 => Mapper1Regs { lo_prg_rom: (shift & 0x0E) as usize, ..r },
                    PrgRomBankMode::Switch16FirstFixed => Mapper1Regs { hi_prg_rom: (shift & 0x0F) as usize, ..r },
                    PrgRomBankMode::Switch16LastFixed => Mapper1Regs { lo_prg_rom: (shift & 0x0F) as usize, ..r },
                }
            };
            Mapper1Regs { shift_register: 0, n_bit_loaded: 0, ..loaded }
        } else {
            Mapper1Regs { shift_register: shift, n_bit_loaded: (m.n_bit_loaded + 1) as u8, ..m }
        }
    }
}

/// The registers of an MMC1.
#[derive(Clone, Copy, PartialEq, Eq, Structural)]
pub struct Mapper1Regs {
    pub lo_prg_rom: usize,
    pub hi_prg_rom: usize,
    pub lo_chr_rom: usize,
    pub hi_chr_rom: usize,
    pub ram_disabled: bool,
    pub shift_register: u8,
    pub n_bit_loaded: u8,
    pub control_register: u8,
}

/// What the CPU reads from an MMC1 with PRG ROM `prg`, RAM `ram` and
/// registers `r`: $6000-$7FFF is RAM; $8000-$FFFF maps PRG banks according to
/// the banking mode; a bank number beyond the ROM is refused.
pub open spec fn mmc1_prg_read(prg: Seq<u8>, ram: Seq<u8>, r: Mapper1Regs, address: u16) -> Result<u8, InvalidMapperReadError> {
    let offset = (address & 0x3FFF) as int;
    if address <= 0x5FFF {
        Err(InvalidMapperReadError(address))
    } else if address <= 0x7FFF {
        Ok(ram[(address & 0x1FFF) as int])
    } else if address <= 0xBFFF {
        match prg_mode_of(r.control_register) {
            PrgRomBankMode::Switch16FirstFixed => prg_bank_byte(prg, 0, offset, address),
            _ => prg_bank_byte(prg, r.lo_prg_rom as int, offset, address),
        }
    } else {
        match prg_mode_of(r.control_register) {
            PrgRomBankMode::Switch32 => prg_bank_byte(prg, r.lo_prg_rom + 1, offset, address),
            PrgRomBankMode::Switch16FirstFixed => prg_bank_byte(prg, r.hi_prg_rom as int, offset, address),
            PrgRomBankMode::Switch16LastFixed => prg_bank_byte(prg, prg.len() / 0x4000 - 1, offset, address),
        }
    }
}

/// Where a CHR address lands in the 4 KB banks `chr` of an MMC1 with
/// registers `r`: in 8 KB mode both halves come from consecutive banks
/// starting at CHR bank 0; in 4 KB mode each half has its own bank.
pub open spec fn mmc1_chr_index(chr: Seq<u8>, r: Mapper1Regs, address: u16) -> Option<int> {
    if address <= 0x0FFF {
        chr_bank_index(chr, r.lo_chr_rom as int, address as int)
    } else if address <= 0x1FFF {
        match chr_mode_of(r.control_register) {
            ChrRomBankMode::Switch8 => chr_bank_index(chr, r.lo_chr_rom + 1, (address & 0x0FFF) as int),
            ChrRomBankMode::Switch4 => chr_bank_index(chr, r.hi_chr_rom as int, (address & 0x0FFF) as int),
        }
    } else {
        None
    }
}

/// The saved state of an MMC1.
pub struct Mapper1State {
    pub header: INesHeader,
    pub lo_prg_rom: usize,
    pub hi_prg_rom: usize,
    pub lo_chr_rom: usize,
    pub hi_chr_rom: usize,
    pub ram: Vec<u8>,
    pub ram_disabled: bool,
    pub shift_register: u8,
    pub n_bit_loaded: u8,
    pub control_register: u8,
    pub chr_rom: Vec<u8>,
}

impl Mapper1 {
    /// The registers of this mapper.
    pub open spec fn regs(&self) -> Mapper1Regs {
        Mapper1Regs {
            lo_prg_rom: self.lo_prg_rom,
            hi_prg_rom: self.hi_prg_rom,
            lo_chr_rom: self.lo_chr_rom,
            hi_chr_rom: self.hi_chr_rom,
            ram_disabled: self.ram_disabled,
            shift_register: self.shift_register,
            n_bit_loaded: self.n_bit_loaded,
            control_register: self.control_register,
        }
    }

    pub open spec fn prg_read_spec(&self, address: u16) -> Result<u8, InvalidMapperReadError> {
        mmc1_prg_read(self.prg_rom@, self.ram@, self.regs(), address)
    }

    /// Where a CHR address lands in `chr_rom`, if the bank it selects exists.
    pub open spec fn chr_index_spec(&self, address: u16) -> Option<int> {
        mmc1_chr_index(self.chr_rom@, self.regs(), address)
    }

    /// Splits the CHR ROM into 4 KB banks, padded with empty banks up to 32.
    pub fn new(prg_rom: Vec<u8>, chr_rom: Vec<u8>, header: INesHeader) -> (m: Self)
        requires
            prg_rom@.len() % 0x4000 == 0,
            prg_rom@.len() >= 0x4000,
            chr_rom@.len() % 0x2000 == 0,
        ensures
            m.wf(),
            m.prg_rom@ == prg_rom@,
            m.chr_rom@.len() == (if chr_rom@.len() >= 0x20000 { chr_rom@.len() } else { 0x20000 }),
            m.chr_rom@.subrange(0, chr_rom@.len() as int) == chr_rom@,
            forall|i: int| chr_rom@.len() <= i < m.chr_rom@.len() ==> m.chr_rom@[i] == 0,
            m.ram@ == Seq::new(0x2000, |i: int| 0u8),
            m.regs() == (Mapper1Regs {
                lo_prg_rom: 0,
                hi_prg_rom: (prg_rom@.len() / 0x4000 - 1) as usize,
                lo_chr_rom: 0,
                hi_chr_rom: 1,
                ram_disabled: false,
                shift_register: 0,
                n_bit_loaded: 0,
                control_register: 0x1C,
            }),
            m.header == header,
    {
        let mut converted = chr_rom;
        let ghost given = converted@;
        while converted.len() < 0x20000
            invariant
                converted@.len() <= (if given.len() >= 0x20000 { given.len() } else { 0x20000 }),
                converted@.len() >= given.len(),
                converted@.subrange(0, given.len() as int) == given,
                forall|i: int| given.len() <= i < converted@.len() ==> converted@[i] == 0,
            decreases 0x20000 - converted@.len(),
        {
            converted.push(0);
        }
        let banks = prg_rom.len() / 0x4000;
        Mapper1 {
            header,
            lo_prg_rom: 0,
            hi_prg_rom: banks - 1,
            lo_chr_rom: 0,
            hi_chr_rom: 1,
            prg_rom,
            chr_rom: converted,
            ram: vec_of_zeros(0x2000),
            ram_disabled: false,
            shift_register: 0,
            n_bit_loaded: 0,
            control_register: 0x1C,
        }
    }

    pub fn get_prg_rom_bank_mode(&self) -> (m: PrgRomBankMode)
        ensures
            m == prg_mode_of(self.control_register),
    {
        let m: u8 = (self.control_register & 0x0C) >> 2u8;
        if m == 0 || m == 1 {
            PrgRomBankMode::Switch32
        } else if m == 2 {
            PrgRomBankMode::Switch16FirstFixed
        } else {
            PrgRomBankMode::Switch16LastFixed
        }
    }

    pub fn get_chr_rom_bank_mode(&self) -> (m: ChrRomBankMode)
        ensures
            m == chr_mode_of(self.control_register),
    {
        if (self.control_register & 0x10) >> 4u8 == 0 {
            ChrRomBankMode::Switch8
        } else {
            ChrRomBankMode::Switch4
        }
    }

    fn read_prg_bank(&self, bank: usize, address: u16) -> (r: Result<u8, InvalidMapperReadError>)
        requires
            self.wf(),
        ensures
            r == prg_bank_byte(self.prg_rom@, bank as int, (address & 0x3FFF) as int, address),
    {
        let banks = self.prg_rom.len() / 0x4000;
        if bank < banks {
            proof { crate::bits::lemma_word_masks(); }
            assert(address & 0x3FFF < 0x4000);
            assert((bank + 1) * 0x4000 <= self.prg_rom@.len()) by (nonlinear_arith)
                requires bank < banks, banks == self.prg_rom@.len() / 0x4000;
            Ok(self.prg_rom[bank * 0x4000 + (address & 0x3FFF) as usize])
        } else {
            assert(!((bank + 1) * 0x4000 <= self.prg_rom@.len())) by (nonlinear_arith)
                requires bank >= banks, banks == self.prg_rom@.len() / 0x4000;
            Err(InvalidMapperReadError(address))
        }
    }

    fn chr_index(&self, bank: usize, offset: u16) -> (r: Option<usize>)
        requires
            self.wf(),
            offset < 0x1000,
        ensures
            r is Some == chr_bank_index(self.chr_rom@, bank as int, offset as int) is Some,
            r matches Some(i) ==> chr_bank_index(self.chr_rom@, bank as int, offset as int) == Some(i as int)
                && i < self.chr_rom@.len(),
    {
        let banks = self.chr_rom.len() / 0x1000;
        if bank < banks {
            assert((bank + 1) * 0x1000 <= self.chr_rom@.len()) by (nonlinear_arith)
                requires bank < banks, banks == self.chr_rom@.len() / 0x1000;
            Some(bank * 0x1000 + offset as usize)
        } else {
            assert(!((bank + 1) * 0x1000 <= self.chr_rom@.len())) by (nonlinear_arith)
                requires bank >= banks, banks == self.chr_rom@.len() / 0x1000;
            None
        }
    }

    fn chr_address_index(&self, address: u16) -> (r: Option<usize>)
        requires
            self.wf(),
        ensures
            r is Some == self.chr_index_spec(address) is Some,
            r matches Some(i) ==> self.chr_index_spec(address) == Some(i as int) && i < self.chr_rom@.len(),
    {
        proof { crate::bits::lemma_word_masks(); }
        assert(address & 0x0FFF < 0x1000);
        if address <= 0x0FFF {
            self.chr_index(self.lo_chr_rom, address)
        } else if address <= 0x1FFF {
            match self.get_chr_rom_bank_mode() {
                ChrRomBankMode::Switch8 => {
                    if self.lo_chr_rom < usize::MAX {
                        self.chr_index(self.lo_chr_rom + 1, address & 0x0FFF)
                    } else {
                        let len = self.chr_rom.len();
                        let ghost lo = self.lo_chr_rom;
                        assert(!((lo + 2) * 0x1000 <= len)) by (nonlinear_arith)
                            requires lo == usize::MAX, len <= usize::MAX;
                        None
                    }
                },
                ChrRomBankMode::Switch4 => self.chr_index(self.hi_chr_rom, address & 0x0FFF),
            }
        } else {
            None
        }
    }

    /// Loads a save into the battery-backed RAM.
    pub fn load_persistent_memory(&mut self, save: &Vec<u8>) -> (r: Result<(), PersistentMemoryError>)
        requires
            old(self).wf(),
        ensures
            final(self).wf(),
            !old(self).header.has_persistent_memory ==> r == Err::<(), PersistentMemoryError>(PersistentMemoryError::NoPersistentMemory)
                && final(self).ram@ == old(self).ram@,
            old(self).header.has_persistent_memory && save@.len() != 0x2000 ==> r == Err::<(), PersistentMemoryError>(PersistentMemoryError::InvalidSaveSize)
                && final(self).ram@ == old(self).ram@,
            old(self).header.has_persistent_memory && save@.len() == 0x2000 ==> r is Ok && final(self).ram@ == save@,
            final(self).prg_rom@ == old(self).prg_rom@,
            final(self).chr_rom@ == old(self).chr_rom@,
            final(self).regs() == old(self).regs(),
            final(self).header.has_persistent_memory == old(self).header.has_persistent_memory,
    {
        if !self.header.has_persistent_memory {
            return Err(PersistentMemoryError::NoPersistentMemory);
        }
        if save.len() != 0x2000 {
            return Err(PersistentMemoryError::InvalidSaveSize);
        }
        self.ram = save.clone();
        Ok(())
    }

    /// The content of the battery-backed RAM, to be saved.
    pub fn save_persistent_memory(&self) -> (r: Result<Vec<u8>, PersistentMemoryError>)
        ensures
            !self.header.has_persistent_memory ==> r == Err::<Vec<u8>, PersistentMemoryError>(PersistentMemoryError::NoPersistentMemory),
            self.header.has_persistent_memory ==> r is Ok && r->Ok_0@ == self.ram@,
    {
        if !self.header.has_persistent_memory {
            return Err(PersistentMemoryError::NoPersistentMemory);
        }
        Ok(self.ram.clone())
    }

    pub fn get_state(&self) -> (s: Mapper1State)
        ensures
            s.lo_prg_rom == self.lo_prg_rom,
            s.hi_prg_rom == self.hi_prg_rom,
            s.lo_chr_rom == self.lo_chr_rom,
            s.hi_chr_rom == self.hi_chr_rom,
            s.ram@ == self.ram@,
            s.ram_disabled == self.ram_disabled,
            s.shift_register == self.shift_register,
            s.n_bit_loaded == self.n_bit_loaded,
            s.control_register == self.control_register,
            s.chr_rom@ == self.chr_rom@,
            s.header.same_as(self.header),
    {
        Mapper1State {
            header: self.header.duplicate(),
            lo_prg_rom: self.lo_prg_rom,
            hi_prg_rom: self.hi_prg_rom,
            lo_chr_rom: self.lo_chr_rom,
            hi_chr_rom: self.hi_chr_rom,
            ram: self.ram.clone(),
            ram_disabled: self.ram_disabled,
            shift_register: self.shift_register,
            n_bit_loaded: self.n_bit_loaded,
            control_register: self.control_register,
            chr_rom: self.chr_rom.clone(),
        }
    }

    /// Restores a saved state; a state whose memory sizes do not fit this
    /// cartridge is refused and leaves the mapper unchanged.
    pub fn set_state(&mut self, state: &Mapper1State) -> (accepted: bool)
        requires
            old(self).wf(),
        ensures
            final(self).wf(),
            accepted == (state.ram@.len() == 0x2000 && state.chr_rom@.len() % 0x1000 == 0
                && state.n_bit_loaded < 5),
            accepted ==> {
                &&& final(self).lo_prg_rom == state.lo_prg_rom
                &&& final(self).hi_prg_rom == state.hi_prg_rom
                &&& final(self).lo_chr_rom == state.lo_chr_rom
                &&& final(self).hi_chr_rom == state.hi_chr_rom
                &&& final(self).ram@ == state.ram@
                &&& final(self).ram_disabled == state.ram_disabled
                &&& final(self).shift_register == state.shift_register
                &&& final(self).n_bit_loaded == state.n_bit_loaded
                &&& final(self).control_register == state.control_register
                &&& final(self).chr_rom@ == state.chr_rom@
                &&& final(self).prg_rom@ == old(self).prg_rom@
                &&& final(self).header.same_as(state.header)
            },
            !accepted ==> final(self).header.same_as(old(self).header),
            !accepted ==> final(self).regs() == old(self).regs() && final(self).ram@ == old(self).ram@
                && final(self).chr_rom@ == old(self).chr_rom@ && final(self).prg_rom@ == old(self).prg_rom@,
    {
        if !(state.ram.len() == 0x2000 && state.chr_rom.len() % 0x1000 == 0 && state.n_bit_loaded < 5) {
            return false;
        }
        self.header = state.header.duplicate();
        self.lo_prg_rom = state.lo_prg_rom;
        self.hi_prg_rom = state.hi_prg_rom;
        self.lo_chr_rom = state.lo_chr_rom;
        self.hi_chr_rom = state.hi_chr_rom;
        self.ram = state.ram.clone();
        self.ram_disabled = state.ram_disabled;
        self.shift_register = state.shift_register;
        self.n_bit_loaded = state.n_bit_loaded;
        self.control_register = state.control_register;
        self.chr_rom = state.chr_rom.clone();
        true
    }
}

impl Mapper for Mapper1 {
    open spec fn wf(&self) -> bool {
        &&& self.prg_rom@.len() % 0x4000 == 0
        &&& self.prg_rom@.len() >= 0x4000
        &&& self.chr_rom@.len() % 0x1000 == 0
        &&& self.ram@.len() == 0x2000
        &&& self.n_bit_loaded < 5
    }

    /// $6000-$7FFF is RAM; $8000-$FFFF maps PRG banks according to the
    /// banking mode. A bank number beyond the ROM is refused.
    fn prg_rom_read(&self, address: u16) -> (r: Result<u8, InvalidMapperReadError>)
        ensures
            r == self.prg_read_spec(address),
    {
        if address <= 0x5FFF {
            Err(InvalidMapperReadError(address))
        } else if address <= 0x7FFF {
            proof { crate::bits::lemma_word_masks(); }
            assert(address & 0x1FFF < 0x2000);
            Ok(self.ram[(address & 0x1FFF) as usize])
        } else if address <= 0xBFFF {
            match self.get_prg_rom_bank_mode() {
                PrgRomBankMode::Switch16FirstFixed => self.read_prg_bank(0, address),
                _ => self.read_prg_bank(self.lo_prg_rom, address),
            }
        } else {
            match self.get_prg_rom_bank_mode() {
                PrgRomBankMode::Switch32 => {
                    if self.lo_prg_rom < usize::MAX {
                        self.read_prg_bank(self.lo_prg_rom + 1, address)
                    } else {
                        let len = self.prg_rom.len();
                        let ghost lo = self.lo_prg_rom;
                        assert(!((lo + 2) * 0x4000 <= len)) by (nonlinear_arith)
                            requires lo == usize::MAX, len <= usize::MAX;
                        Err(InvalidMapperReadError(address))
                    }
                },
                PrgRomBankMode::Switch16FirstFixed => self.read_prg_bank(self.hi_prg_rom, address),
                PrgRomBankMode::Switch16LastFixed => self.read_prg_bank(self.prg_rom.len() / 0x4000 - 1, address),
            }
        }
    }

    /// $6000-$7FFF writes RAM. Writes to $8000-$FFFF shift bit 0 of the value
    /// into the shift register (a set bit 7 resets it and fixes the last
    /// bank); the fifth write loads the register that address bits 13-14
    /// select: control, CHR bank 0, CHR bank 1 or PRG bank.
    fn prg_rom_write(&mut self, address: u16, value: u8) -> (r: Result<(), InvalidMapperWriteError>)
        ensures
            address <= 0x5FFF ==> r == Err::<(), InvalidMapperWriteError>(InvalidMapperWriteError(address))
                && final(self).ram@ == old(self).ram@ && final(self).regs() == old(self).regs(),
            0x6000 <= address <= 0x7FFF ==> r is Ok
                && final(self).ram@ == old(self).ram@.update((address & 0x1FFF) as int, value)
                && final(self).regs() == old(self).regs(),
            address >= 0x8000 ==> r is Ok && final(self).ram@ == old(self).ram@
                && final(self).regs() == mmc1_after_serial_write(old(self).regs(), address, value),
            final(self).prg_rom@ == old(self).prg_rom@,
            final(self).chr_rom@ == old(self).chr_rom@,
            final(self).header.has_persistent_memory == old(self).header.has_persistent_memory,
    {
        if address <= 0x5FFF {
            return Err(InvalidMapperWriteError(address));
        }
        if address <= 0x7FFF {
            proof { crate::bits::lemma_word_masks(); }
            assert(address & 0x1FFF < 0x2000);
            self.ram.set((address & 0x1FFF) as usize, value);
            return Ok(());
        }
        if value & 0x80 != 0 {
            self.shift_register = 0;
            self.n_bit_loaded = 0;
            self.control_register = self.control_register | 0x0C;
        } else {
            self.shift_register = (self.shift_register >> 1u8) | ((value & 0x01) << 4u8);
            self.n_bit_loaded = self.n_bit_loaded + 1;
            if self.n_bit_loaded == 5 {
                let action: u16 = (address & 0x6000) >> 13u16;
                if action == 0 {
                    self.control_register = self.shift_register & 0x1F;
                } else if action == 1 {
                    match self.get_chr_rom_bank_mode() {
                        ChrRomBankMode::Switch8 => self.lo_chr_rom = (self.shift_register & 0x1E) as usize,
                        ChrRomBankMode::Switch4 => self.lo_chr_rom = (self.shift_register & 0x1F) as usize,
                    }
                } else if action == 2 {
                    self.hi_chr_rom = (self.shift_register & 0x1F) as usize;
                } else {
                    self.ram_disabled = (self.shift_register & 0x10) != 0;
                    match self.get_prg_rom_bank_mode() {
                        PrgRomBankMode::Switch32 => self.lo_prg_rom = (self.shift_register & 0x0E) as usize,
                        PrgRomBankMode::Switch16FirstFixed => self.hi_prg_rom = (self.shift_register & 0x0F) as usize,
                        PrgRomBankMode::Switch16LastFixed => self.lo_prg_rom = (self.shift_register & 0x0F) as usize,
                    }
                }
                self.shift_register = 0;
                self.n_bit_loaded = 0;
            }
        }
        Ok(())
    }

    /// In 8 KB mode both halves come from consecutive banks starting at CHR
    /// bank 0; in 4 KB mode each half has its own bank.
    fn chr_rom_read(&self, address: u16) -> (r: Result<u8, InvalidMapperReadError>)
        ensures
            r == (match self.chr_index_spec(address) {
                Some(i) => Ok::<u8, InvalidMapperReadError>(self.chr_rom@[i]),
                None => Err(InvalidMapperReadError(address)),
            }),
    {
        match self.chr_address_index(address) {
            Some(i) => Ok(self.chr_rom[i]),
            None => Err(InvalidMapperReadError(address)),
        }
    }

    fn chr_rom_write(&mut self, address: u16, value: u8) -> (r: Result<(), InvalidMapperWriteError>)
        ensures
            r == (match old(self).chr_index_spec(address) {
                Some(i) => Ok::<(), InvalidMapperWriteError>(()),
                None => Err(InvalidMapperWriteError(address)),
            }),
            final(self).chr_rom@ == (match old(self).chr_index_spec(address) {
                Some(i) => old(self).chr_rom@.update(i, value),
                None => old(self).chr_rom@,
            }),
            final(self).prg_rom@ == old(self).prg_rom@,
            final(self).ram@ == old(self).ram@,
            final(self).regs() == old(self).regs(),
            final(self).header.has_persistent_memory == old(self).header.has_persistent_memory,
    {
        match self.chr_address_index(address) {
            Some(i) => {
                self.chr_rom.set(i, value);
                Ok(())
            },
            None => Err(InvalidMapperWriteError(address)),
        }
    }

    fn get_mirroring(&self) -> (m: Mirroring)
        ensures
            m == mirroring_of(self.control_register),
    {
        let m: u8 = self.control_register & 0x03;
        if m == 0 {
            Mirroring::OneScreenLower
        } else if m == 1 {
            Mirroring::OneScreenUpper
        } else if m == 2 {
            Mirroring::Vertical
        } else {
            Mirroring::Horizontal
        }
    }
}

} // verus!
