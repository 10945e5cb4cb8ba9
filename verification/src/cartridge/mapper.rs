use vstd::prelude::*;
use crate::errors::{InvalidMapperReadError, InvalidMapperWriteError};

verus! {

/// How the two physical nametables are mapped onto the four logical ones.
#[derive(Debug, Clone, Copy, PartialEq, Eq, Structural)]
pub enum Mirroring {
    Horizontal,
    Vertical,
    OneScreenLower,
    OneScreenUpper,
    FourScreens,
}

/// Why the header of a ROM image was refused.
#[derive(Debug, Clone, Copy, PartialEq, Eq, Structural)]
pub enum HeaderError {
    /// The first four bytes are not "NES" followed by 0x1A.
    InvalidFormat,
}

/// The header of the iNES format.
#[derive(Debug, Clone)]
pub struct INesHeader {
    pub path_to_rom: String,
    pub n_prg_rom: u8,
    pub n_chr_rom: u8,
    pub mapper_number: u8,
    pub mirroring: Mirroring,
    pub has_persistent_memory: bool,
}

/// Whether 16 header bytes start with the iNES magic number "NES\x1A".
pub open spec fn has_ines_magic(buffer: Seq<u8>) -> bool {
    buffer[0] == 0x4E && buffer[1] == 0x45 && buffer[2] == 0x53 && buffer[3] == 0x1A
}

/// The mapper number: the high nibble of byte 7, then the high nibble of byte 6.
pub open spec fn header_mapper_number(buffer: Seq<u8>) -> u8 {
    ((buffer[6] >> 4u8) + ((buffer[7] >> 4u8) << 4u8)) as u8
}

/// The mirroring: bit 3 of byte 6 selects four screens, otherwise bit 0
/// selects vertical (set) or horizontal (clear).
pub open spec fn header_mirroring(buffer: Seq<u8>) -> Mirroring {
    if buffer[6] & 0x08 != 0 {
        Mirroring::FourScreens
    } else if buffer[6] & 0x01 != 0 {
        Mirroring::Vertical
    } else {
        Mirroring::Horizontal
    }
}

impl INesHeader {
    /// Whether this header is the one that 16 header bytes describe, for a
    /// ROM read from `path`: the bank counts are bytes 4 and 5, and the
    /// mapper number, the mirroring and the battery flag come from bytes 6
    /// and 7.
    pub open spec fn parsed_from(&self, buffer: Seq<u8>, path: Seq<char>) -> bool {
        &&& self.path_to_rom@ == path
        &&& self.n_prg_rom == buffer[4]
        &&& self.n_chr_rom == buffer[5]
        &&& self.mapper_number == header_mapper_number(buffer)
        &&& self.mirroring == header_mirroring(buffer)
        &&& self.has_persistent_memory == (buffer[6] & 0x02 != 0)
    }

    /// Whether two headers hold the same fields.
    pub open spec fn same_as(&self, other: INesHeader) -> bool {
        &&& self.path_to_rom@ == other.path_to_rom@
        &&& self.n_prg_rom == other.n_prg_rom
        &&& self.n_chr_rom == other.n_chr_rom
        &&& self.mapper_number == other.mapper_number
        &&& self.mirroring == other.mirroring
        &&& self.has_persistent_memory == other.has_persistent_memory
    }

    /// A copy of this header.
    pub fn duplicate(&self) -> (h: Self)
        ensures
            h.same_as(*self),
    {
        INesHeader {
            path_to_rom: self.path_to_rom.clone(),
            n_prg_rom: self.n_prg_rom,
            n_chr_rom: self.n_chr_rom,
            mapper_number: self.mapper_number,
            mirroring: self.mirroring,
            has_persistent_memory: self.has_persistent_memory,
        }
    }

    /// Parses the 16 bytes of an iNES header.
    pub fn new(buffer: [u8; 16], path_to_rom: &str) -> (r: Result<Self, HeaderError>)
        ensures
            !has_ines_magic(buffer@) ==> r == Err::<INesHeader, HeaderError>(HeaderError::InvalidFormat),
            has_ines_magic(buffer@) ==> r is Ok && r->Ok_0.parsed_from(buffer@, path_to_rom@),
    {
        if !(buffer[0] == 0x4E && buffer[1] == 0x45 && buffer[2] == 0x53 && buffer[3] == 0x1A) {
            return Err(HeaderError::InvalidFormat);
        }
        let b6: u8 = buffer[6];
        let b7: u8 = buffer[7];
        assert((b6 >> 4u8) + ((b7 >> 4u8) << 4u8) < 256) by (bit_vector);
        let mapper_number: u8 = (b6 >> 4u8) + ((b7 >> 4u8) << 4u8);
        let mirroring = if b6 & 0x08 != 0 {
            Mirroring::FourScreens
        } else if b6 & 0x01 != 0 {
            Mirroring::Vertical
        } else {
            Mirroring::Horizontal
        };
        Ok(INesHeader {
            path_to_rom: path_to_rom.to_string(),
            n_prg_rom: buffer[4],
            n_chr_rom: buffer[5],
            mapper_number,
            mirroring,
            has_persistent_memory: b6 & 0x02 != 0,
        })
    }
}

/// Why a cartridge's persistent memory could not be loaded or saved.
#[derive(Debug, Clone, Copy, PartialEq, Eq, Structural)]
pub enum PersistentMemoryError {
    /// The cartridge has no battery-backed memory.
    NoPersistentMemory,
    /// A save does not have the size of the cartridge's memory.
    InvalidSaveSize,
}

/// The memory of a cartridge as seen from the CPU (PRG) and PPU (CHR) buses.
pub trait Mapper {
    /// The mapper's internal invariant.
    spec fn wf(&self) -> bool;

    fn prg_rom_read(&self, address: u16) -> Result<u8, InvalidMapperReadError>
        requires
            self.wf(),
    ;

    fn prg_rom_write(&mut self, address: u16, value: u8) -> (r: Result<(), InvalidMapperWriteError>)
        requires
            old(self).wf(),
        ensures
            final(self).wf(),
    ;

    fn chr_rom_read(&self, address: u16) -> Result<u8, InvalidMapperReadError>
        requires
            self.wf(),
            address < 0x2000,
    ;

    fn chr_rom_write(&mut self, address: u16, value: u8) -> (r: Result<(), InvalidMapperWriteError>)
        requires
            old(self).wf(),
        ensures
            final(self).wf(),
    ;

    fn get_mirroring(&self) -> Mirroring;
}

} // verus!
