use vstd::prelude::*;
use crate::errors::{InvalidMapperReadError, InvalidMapperWriteError};
use super::mapper::{
    has_ines_magic, header_mapper_number, header_mirroring, HeaderError, INesHeader, Mapper, Mirroring,
    PersistentMemoryError,
};
use super::mapper_000::{last_bank_byte, vec_of_zeros, Mapper0};
use super::mapper_001::{
    mirroring_of, mmc1_after_serial_write, mmc1_chr_index, mmc1_prg_read, Mapper1, Mapper1Regs, Mapper1State,
};
use super::mapper_002::{Mapper2, Mapper2State};
use super::mapper_003::{Mapper3, Mapper3State};
use super::mapper_001::prg_bank_byte;

verus! {

/// A cartridge: one of the supported mappers with its memories.
pub enum Cartridge {
    Nrom(Mapper0),
    Mmc1(Mapper1),
    Unrom(Mapper2),
    Cnrom(Mapper3),
}

/// The contents of a cartridge.
pub enum CartridgeView {
    Nrom { mirroring: Mirroring, prg: Seq<u8>, chr: Seq<u8>, ram: Seq<u8> },
    Mmc1 { persistent: bool, prg: Seq<u8>, chr: Seq<u8>, ram: Seq<u8>, regs: Mapper1Regs },
    Unrom { mirroring: Mirroring, prg: Seq<u8>, chr: Seq<u8>, bank: usize },
    Cnrom { mirroring: Mirroring, prg: Seq<u8>, chr: Seq<u8>, bank: usize },
}

impl View for Cartridge {
    type V = CartridgeView;

    open spec fn view(&self) -> CartridgeView {
        match self {
            Cartridge::Nrom(m) => CartridgeView::Nrom {
                mirroring: m.header.mirroring,
                prg: m.prg_rom@,
                chr: m.chr_rom@,
                ram: m.ram@,
            },
            Cartridge::Mmc1(m) => CartridgeView::Mmc1 {
                persistent: m.header.has_persistent_memory,
                prg: m.prg_rom@,
                chr: m.chr_rom@,
                ram: m.ram@,
                regs: m.regs(),
            },
            Cartridge::Unrom(m) => CartridgeView::Unrom {
                mirroring: m.header.mirroring,
                prg: m.prg_rom@,
                chr: m.chr_rom@,
                bank: m.lo_prg_rom,
            },
            Cartridge::Cnrom(m) => CartridgeView::Cnrom {
                mirroring: m.header.mirroring,
                prg: m.prg_rom@,
                chr: m.chr_rom@,
                bank: m.selected_chr_rom,
            },
        }
    }
}

/// What the CPU reads from a cartridge at `address`.
pub open spec fn cart_prg_read(c: CartridgeView, address: u16) -> Result<u8, InvalidMapperReadError> {
    match c {
        CartridgeView::Nrom { prg, ram, .. } => {
            if address <= 0x5FFF {
                Err(InvalidMapperReadError(address))
            } else if address <= 0x7FFF {
                Ok(ram[(address & 0x1FFF) as int])
            } else if prg.len() == 0 {
                Err(InvalidMapperReadError(address))
            } else if address <= 0xBFFF {
                Ok(prg[(address & 0x3FFF) as int])
            } else {
                Ok(last_bank_byte(prg, address))
            }
        },
        CartridgeView::Mmc1 { prg, ram, regs, .. } => mmc1_prg_read(prg, ram, regs, address),
        CartridgeView::Unrom { prg, bank, .. } => {
            let offset = (address & 0x3FFF) as int;
            if address <= 0x7FFF {
                Err(InvalidMapperReadError(address))
            } else if address <= 0xBFFF {
                prg_bank_byte(prg, bank as int, offset, address)
            } else {
                prg_bank_byte(prg, prg.len() / 0x4000 - 1, offset, address)
            }
        },
        CartridgeView::Cnrom { prg, .. } => {
            if address <= 0x7FFF || prg.len() == 0 {
                Err(InvalidMapperReadError(address))
            } else if address <= 0xBFFF {
                Ok(prg[(address & 0x3FFF) as int])
            } else {
                Ok(last_bank_byte(prg, address))
            }
        },
    }
}

/// The cartridge after the CPU writes `value` at `address`.
pub open spec fn cart_prg_written(c: CartridgeView, address: u16, value: u8) -> CartridgeView {
    match c {
        CartridgeView::Nrom { mirroring, prg, chr, ram } => {
            if 0x6000 <= address <= 0x7FFF {
                CartridgeView::Nrom { mirroring, prg, chr, ram: ram.update((address & 0x1FFF) as int, value) }
            } else {
                c
            }
        },
        CartridgeView::Mmc1 { persistent, prg, chr, ram, regs } => {
            if address <= 0x5FFF {
                c
            } else if address <= 0x7FFF {
                CartridgeView::Mmc1 { persistent, prg, chr, ram: ram.update((address & 0x1FFF) as int, value), regs }
            } else {
                CartridgeView::Mmc1 { persistent, prg, chr, ram, regs: mmc1_after_serial_write(regs, address, value) }
            }
        },
        CartridgeView::Unrom { mirroring, prg, chr, bank } => {
            if address >= 0x8000 {
                CartridgeView::Unrom { mirroring, prg, chr, bank: (value & 0x0F) as usize }
            } else {
                c
            }
        },
        CartridgeView::Cnrom { mirroring, prg, chr, bank } => {
            if address >= 0x8000 {
                CartridgeView::Cnrom { mirroring, prg, chr, bank: (value & 0x03) as usize }
            } else {
                c
            }
        },
    }
}

/// Whether the CPU write is served by the cartridge.
pub open spec fn cart_prg_write_ok(c: CartridgeView, address: u16) -> bool {
    match c {
        CartridgeView::Nrom { .. } => 0x6000 <= address <= 0x7FFF,
        CartridgeView::Mmc1 { .. } => address >= 0x6000,
        CartridgeView::Unrom { .. } => address >= 0x8000,
        CartridgeView::Cnrom { .. } => address >= 0x8000,
    }
}

/// What the PPU reads from a cartridge at `address` (below $2000).
pub open spec fn cart_chr_read(c: CartridgeView, address: u16) -> Result<u8, InvalidMapperReadError> {
    match c {
        CartridgeView::Nrom { chr, .. } => Ok(chr[address as int]),
        CartridgeView::Mmc1 { chr, regs, .. } => match mmc1_chr_index(chr, regs, address) {
            Some(i) => Ok(chr[i]),
            None => Err(InvalidMapperReadError(address)),
        },
        CartridgeView::Unrom { chr, .. } => Ok(chr[address as int]),
        CartridgeView::Cnrom { chr, bank, .. } => {
            if (bank + 1) * 0x2000 <= chr.len() {
                Ok(chr[bank * 0x2000 + address as int])
            } else {
                Err(InvalidMapperReadError(address))
            }
        },
    }
}

/// The cartridge after the PPU writes `value` at `address` (below $2000).
pub open spec fn cart_chr_written(c: CartridgeView, address: u16, value: u8) -> CartridgeView {
    match c {
        CartridgeView::Nrom { mirroring, prg, chr, ram } => CartridgeView::Nrom {
            mirroring, prg, chr: chr.update(address as int, value), ram,
        },
        CartridgeView::Mmc1 { persistent, prg, chr, ram, regs } => match mmc1_chr_index(chr, regs, address) {
            Some(i) => CartridgeView::Mmc1 { persistent, prg, chr: chr.update(i, value), ram, regs },
            None => c,
        },
        CartridgeView::Unrom { mirroring, prg, chr, bank } => CartridgeView::Unrom {
            mirroring, prg, chr: chr.update(address as int, value), bank,
        },
        CartridgeView::Cnrom { mirroring, prg, chr, bank } => CartridgeView::Cnrom {
            mirroring, prg, chr: chr.update(address as int, value), bank,
        },
    }
}

/// The nametable mirroring a cartridge selects.
pub open spec fn cart_mirroring(c: CartridgeView) -> Mirroring {
    match c {
        CartridgeView::Nrom { mirroring, .. } => mirroring,
        CartridgeView::Mmc1 { regs, .. } => mirroring_of(regs.control_register),
        CartridgeView::Unrom { mirroring, .. } => mirroring,
        CartridgeView::Cnrom { mirroring, .. } => mirroring,
    }
}

/// The saved state of a cartridge's mapper.
pub enum MapperState {
    Nrom,
    Mmc1(Mapper1State),
    Unrom(Mapper2State),
    Cnrom(Mapper3State),
}

/// The iNES header that a cartridge's mapper keeps.
pub open spec fn cartridge_header(c: Cartridge) -> INesHeader {
    match c {
        Cartridge::Nrom(m) => m.header,
        Cartridge::Mmc1(m) => m.header,
        Cartridge::Unrom(m) => m.header,
        Cartridge::Cnrom(m) => m.header,
    }
}

/// The header that a saved mapper state holds (an NROM state holds none).
pub open spec fn saved_header(s: MapperState) -> Option<INesHeader> {
    match s {
        MapperState::Nrom => None,
        MapperState::Mmc1(st) => Some(st.header),
        MapperState::Unrom(st) => Some(st.header),
        MapperState::Cnrom(st) => Some(st.header),
    }
}

/// The view of a cartridge slot.
pub open spec fn cart_slot(c: Option<Cartridge>) -> Option<CartridgeView> {
    match c {
        Some(x) => Some(x@),
        None => None,
    }
}

/// The cartridge in a slot; any cartridge when the slot is empty (for what
/// does not depend on the cartridge).
pub open spec fn slot_cart(c: Option<CartridgeView>) -> CartridgeView {
    match c {
        Some(x) => x,
        None => vstd::pervasive::arbitrary(),
    }
}

/// The cartridge in a slot, if any, is well formed.
pub open spec fn slot_wf(c: Option<Cartridge>) -> bool {
    c matches Some(x) ==> x.wf()
}

/// The MMC1 registers that a saved MMC1 state holds.
pub open spec fn mapper1_state_regs(m: Mapper1State) -> Mapper1Regs {
    Mapper1Regs {
        lo_prg_rom: m.lo_prg_rom,
        hi_prg_rom: m.hi_prg_rom,
        lo_chr_rom: m.lo_chr_rom,
        hi_chr_rom: m.hi_chr_rom,
        ram_disabled: m.ram_disabled,
        shift_register: m.shift_register,
        n_bit_loaded: m.n_bit_loaded,
        control_register: m.control_register,
    }
}

/// Whether a cartridge takes a saved mapper state: the state is of the
/// cartridge's mapper and its memories have sizes the mapper can hold.
pub open spec fn mapper_state_accepted(c: CartridgeView, s: MapperState) -> bool {
    match (c, s) {
        (CartridgeView::Nrom { .. }, MapperState::Nrom) => true,
        (CartridgeView::Mmc1 { .. }, MapperState::Mmc1(m)) =>
            m.ram@.len() == 0x2000 && m.chr_rom@.len() % 0x1000 == 0 && m.n_bit_loaded < 5,
        (CartridgeView::Unrom { .. }, MapperState::Unrom(_)) => true,
        (CartridgeView::Cnrom { .. }, MapperState::Cnrom(m)) =>
            m.chr_rom@.len() >= 0x2000 && m.chr_rom@.len() % 0x2000 == 0,
        _ => false,
    }
}

/// A cartridge with a saved mapper state applied: the registers and the
/// memories that the state holds replace the cartridge's; the PRG ROM (and
/// what the state does not hold) stays.
pub open spec fn mapper_state_applied(c: CartridgeView, s: MapperState) -> CartridgeView {
    match (c, s) {
        (CartridgeView::Mmc1 { prg, .. }, MapperState::Mmc1(m)) => CartridgeView::Mmc1 {
            persistent: m.header.has_persistent_memory,
            prg,
            chr: m.chr_rom@,
            ram: m.ram@,
            regs: mapper1_state_regs(m),
        },
        (CartridgeView::Unrom { prg, chr, .. }, MapperState::Unrom(m)) => CartridgeView::Unrom {
            mirroring: m.header.mirroring,
            prg,
            chr,
            bank: m.lo_prg_rom,
        },
        (CartridgeView::Cnrom { prg, .. }, MapperState::Cnrom(m)) => CartridgeView::Cnrom {
            mirroring: m.header.mirroring,
            prg,
            chr: m.chr_rom@,
            bank: m.selected_chr_rom,
        },
        _ => c,
    }
}

/// Why a ROM image could not be turned into a cartridge.
#[derive(Debug, Clone, Copy, PartialEq, Eq, Structural)]
pub enum CartridgeError {
    /// The header does not start with the iNES magic number.
    InvalidFormat,
}

/// How many bytes a read of up to `size` bytes at `pos` obtains from a file of
/// `len` bytes.
pub open spec fn read_count(len: int, pos: int, size: int) -> int {
    if len - pos <= 0 { 0 } else if len - pos < size { len - pos } else { size }
}

/// The buffer after a read at `pos`: the bytes obtained replace its start and
/// the rest keeps what it held.
pub open spec fn read_into(rom: Seq<u8>, pos: int, prev: Seq<u8>) -> Seq<u8> {
    let n = read_count(rom.len() as int, pos, prev.len() as int);
    if n == 0 { prev } else { rom.subrange(pos, pos + n) + prev.subrange(n, prev.len() as int) }
}

/// The concatenation of `k` banks read one after the other from `pos` into
/// the same buffer, which holds `prev` before the first read.
pub open spec fn read_banks(rom: Seq<u8>, pos: int, k: nat, prev: Seq<u8>) -> Seq<u8>
    decreases k,
{
    if k == 0 {
        Seq::empty()
    } else {
        let b = read_into(rom, pos, prev);
        b + read_banks(rom, pos + read_count(rom.len() as int, pos, prev.len() as int), (k - 1) as nat, b)
    }
}

/// The file position after those `k` reads.
pub open spec fn read_banks_end(len: int, pos: int, k: nat, size: int) -> int
    decreases k,
{
    if k == 0 { pos } else { read_banks_end(len, pos + read_count(len, pos, size), (k - 1) as nat, size) }
}

pub open spec fn zeros(n: nat) -> Seq<u8> {
    Seq::new(n, |i: int| 0u8)
}

/// The 16 header bytes read from the start of a ROM image.
/// Whether a ROM image gives a cartridge: an iNES header, a supported
/// mapper (0-3), and PRG ROM for an MMC1.
pub open spec fn rom_accepted(rom: Seq<u8>) -> bool {
    let h = rom_header(rom);
    has_ines_magic(h) && header_mapper_number(h) <= 3 && !(header_mapper_number(h) == 1 && h[4] == 0)
}

/// Whether the library can build a cartridge from a ROM image, or tell it
/// is not one: an image with an iNES header must use mapper 0, 1, 2 or 3,
/// and an MMC1 image must hold PRG ROM.
pub open spec fn rom_supported(rom: Seq<u8>) -> bool {
    has_ines_magic(rom_header(rom)) ==> rom_accepted(rom)
}

pub open spec fn rom_header(rom: Seq<u8>) -> Seq<u8> {
    read_into(rom, 0, zeros(16))
}

/// The PRG ROM of a ROM image: `n_prg` banks of 16 KB after the header.
pub open spec fn rom_prg(rom: Seq<u8>) -> Seq<u8> {
    let h = rom_header(rom);
    read_banks(rom, read_count(rom.len() as int, 0, 16), h[4] as nat, zeros(0x4000))
}

/// The CHR ROM of a ROM image: `n_chr` banks of 8 KB after the PRG ROM, or
/// one empty bank when there are none.
pub open spec fn rom_chr(rom: Seq<u8>) -> Seq<u8> {
    let h = rom_header(rom);
    let start = read_banks_end(rom.len() as int, read_count(rom.len() as int, 0, 16), h[4] as nat, 0x4000);
    if h[5] == 0 { zeros(0x2000) } else { read_banks(rom, start, h[5] as nat, zeros(0x2000)) }
}

/// CHR memory of at least 128 KB: the image's CHR, followed by zeros when it
/// is shorter (an MMC1 addresses that much).
pub open spec fn chr_of_at_least_128k(chr: Seq<u8>) -> Seq<u8> {
    if chr.len() >= 0x20000 { chr } else { chr + zeros((0x20000 - chr.len()) as nat) }
}

/// The cartridge that an accepted ROM image gives, as it is inserted.
pub open spec fn rom_cartridge(rom: Seq<u8>) -> CartridgeView {
    let h = rom_header(rom);
    let n = header_mapper_number(h);
    if n == 1 {
        CartridgeView::Mmc1 {
            persistent: h[6] & 0x02 != 0,
            prg: rom_prg(rom),
            chr: chr_of_at_least_128k(rom_chr(rom)),
            ram: zeros(0x2000),
            regs: Mapper1Regs {
                lo_prg_rom: 0,
                hi_prg_rom: (h[4] - 1) as usize,
                lo_chr_rom: 0,
                hi_chr_rom: 1,
                ram_disabled: false,
                shift_register: 0,
                n_bit_loaded: 0,
                control_register: 0x1C,
            },
        }
    } else if n == 2 {
        CartridgeView::Unrom { mirroring: header_mirroring(h), prg: rom_prg(rom), chr: rom_chr(rom), bank: 0 }
    } else if n == 3 {
        CartridgeView::Cnrom { mirroring: header_mirroring(h), prg: rom_prg(rom), chr: rom_chr(rom), bank: 0 }
    } else {
        CartridgeView::Nrom { mirroring: header_mirroring(h), prg: rom_prg(rom), chr: rom_chr(rom), ram: zeros(0x2000) }
    }
}

/// Reads up to `buf.len()` bytes of `rom` at `pos` into the start of `buf`.
fn read_into_buffer(rom: &Vec<u8>, pos: usize, buf: &mut Vec<u8>) -> (count: usize)
    ensures
        final(buf)@ == read_into(rom@, pos as int, old(buf)@),
        count == read_count(rom@.len() as int, pos as int, old(buf)@.len() as int),
{
    let size = buf.len();
    let rom_len = rom.len();
    let count: usize = if rom.len() <= pos {
        0
    } else if rom.len() - pos < size {
        rom.len() - pos
    } else {
        size
    };
    let ghost prev = buf@;
    let mut i: usize = 0;
    while i < count
        invariant
            i <= count,
            count <= size,
            size == prev.len(),
            count == read_count(rom@.len() as int, pos as int, size as int),
            count > 0 ==> pos + count <= rom.len(),
            buf@.len() == size,
            forall|j: int| 0 <= j < i ==> buf@[j] == rom@[pos + j],
            forall|j: int| i <= j < size ==> buf@[j] == prev[j],
        decreases count - i,
    {
        buf.set(i, rom[pos + i]);
        i = i + 1;
    }
    if count == 0 {
        assert(buf@ =~= prev);
    } else {
        assert(buf@ =~= rom@.subrange(pos as int, pos + count) + prev.subrange(count as int, size as int));
    }
    count
}

proof fn lemma_read_count_bounds(len: int, pos: int, size: int)
    requires
        0 <= pos,
        0 <= size,
    ensures
        0 <= read_count(len, pos, size) <= size,
        pos <= len ==> pos + read_count(len, pos, size) <= len,
{
}

/// Reads `k` banks of `size` bytes from `pos`, starting from an empty buffer.
fn read_banks_exec(rom: &Vec<u8>, pos: usize, k: u8, size: usize) -> (r: (Vec<u8>, usize))
    requires
        size <= 0x4000,
        pos <= rom@.len(),
    ensures
        r.0@ == read_banks(rom@, pos as int, k as nat, zeros(size as nat)),
        r.1 == read_banks_end(rom@.len() as int, pos as int, k as nat, size as int),
        r.0@.len() == k * size,
{
    let mut out: Vec<u8> = Vec::new();
    let mut buf = vec_of_zeros(size);
    let mut p = pos;
    let mut left = k;
    assert(out@ + read_banks(rom@, pos as int, k as nat, zeros(size as nat)) =~= read_banks(rom@, pos as int, k as nat, zeros(size as nat)));
    while left > 0
        invariant
            buf@.len() == size,
            size <= 0x4000,
            p <= rom@.len(),
            left <= k,
            out@.len() == (k - left) * size,
            out@ + read_banks(rom@, p as int, left as nat, buf@) == read_banks(rom@, pos as int, k as nat, zeros(size as nat)),
            read_banks_end(rom@.len() as int, p as int, left as nat, size as int)
                == read_banks_end(rom@.len() as int, pos as int, k as nat, size as int),
        decreases left,
    {
        let ghost before = buf@;
        let ghost out0 = out@;
        let count = read_into_buffer(rom, p, &mut buf);
        proof {
            lemma_read_count_bounds(rom@.len() as int, p as int, size as int);
            assert(read_banks(rom@, p as int, left as nat, before)
                == buf@ + read_banks(rom@, p + count, (left - 1) as nat, buf@));
        }
        let mut i: usize = 0;
        while i < size
            invariant
                i <= size,
                buf@.len() == size,
                out@ == out0 + buf@.subrange(0, i as int),
            decreases size - i,
        {
            out.push(buf[i]);
            i = i + 1;
            assert(out@ =~= out0 + buf@.subrange(0, i as int));
        }
        assert(buf@.subrange(0, size as int) =~= buf@);
        assert((out0 + buf@) + read_banks(rom@, p + count, (left - 1) as nat, buf@)
            =~= out0 + (buf@ + read_banks(rom@, p + count, (left - 1) as nat, buf@)));
        assert(p + count <= rom.len());
        p = p + count;
        left = left - 1;
        assert(out@.len() == (k - left) * size) by (nonlinear_arith)
            requires out@.len() == out0.len() + size, out0.len() == (k - (left + 1)) * size;
    }
    assert(out@ + read_banks(rom@, p as int, 0, buf@) =~= out@);
    (out, p)
}

impl Cartridge {
    pub open spec fn wf(&self) -> bool {
        match self {
            Cartridge::Nrom(m) => m.wf(),
            Cartridge::Mmc1(m) => m.wf(),
            Cartridge::Unrom(m) => m.wf(),
            Cartridge::Cnrom(m) => m.wf(),
        }
    }

    /// Whether the library can build a cartridge from `rom`, or tell it is
    /// not one (see `rom_supported`).
    pub fn is_supported(rom: &Vec<u8>) -> (b: bool)
        ensures
            b == rom_supported(rom@),
    {
        let mut hbuf = vec_of_zeros(16);
        let _ = read_into_buffer(rom, 0, &mut hbuf);
        let buffer: [u8; 16] = [
            hbuf[0], hbuf[1], hbuf[2], hbuf[3], hbuf[4], hbuf[5], hbuf[6], hbuf[7],
            hbuf[8], hbuf[9], hbuf[10], hbuf[11], hbuf[12], hbuf[13], hbuf[14], hbuf[15],
        ];
        assert(buffer@ =~= rom_header(rom@));
        match INesHeader::new(buffer, "") {
            Ok(h) => h.mapper_number <= 3 && !(h.mapper_number == 1 && h.n_prg_rom == 0),
            Err(_) => true,
        }
    }

    /// Builds a cartridge from a ROM image in the iNES format, read as a file
    /// would be: each bank is read into the same buffer, so a short image
    /// leaves the end of a bank with what the previous bank held.
    pub fn from_bytes(rom: &Vec<u8>, path_to_rom: &str) -> (r: Result<Cartridge, CartridgeError>)
        requires
            rom@.len() <= usize::MAX,
            rom_supported(rom@),
        ensures
            r is Ok <==> rom_accepted(rom@),
            !has_ines_magic(rom_header(rom@)) ==> r == Err::<Cartridge, CartridgeError>(CartridgeError::InvalidFormat),
            r is Ok ==> has_ines_magic(rom_header(rom@)) && r->Ok_0.wf(),
            r matches Ok(c) ==> c@ == rom_cartridge(rom@),
            r matches Ok(c) ==> cartridge_header(c).parsed_from(rom_header(rom@), path_to_rom@),
    {
        let mut hbuf = vec_of_zeros(16);
        let hcount = read_into_buffer(rom, 0, &mut hbuf);
        let buffer: [u8; 16] = [
            hbuf[0], hbuf[1], hbuf[2], hbuf[3], hbuf[4], hbuf[5], hbuf[6], hbuf[7],
            hbuf[8], hbuf[9], hbuf[10], hbuf[11], hbuf[12], hbuf[13], hbuf[14], hbuf[15],
        ];
        assert(buffer@ =~= rom_header(rom@));
        let header = match INesHeader::new(buffer, path_to_rom) {
            Ok(h) => h,
            Err(HeaderError::InvalidFormat) => return Err(CartridgeError::InvalidFormat),
        };
        proof {
            lemma_read_count_bounds(rom@.len() as int, 0, 16);
        }
        let (prg_rom, after_prg) = read_banks_exec(rom, hcount, header.n_prg_rom, 0x4000);
        proof {
            lemma_banks_end_bounds(rom@.len() as int, hcount as int, header.n_prg_rom as nat, 0x4000);
        }
        let chr_rom = if header.n_chr_rom == 0 {
            vec_of_zeros(0x2000)
        } else {
            let (c, _) = read_banks_exec(rom, after_prg, header.n_chr_rom, 0x2000);
            c
        };
        assert(prg_rom@.len() % 0x4000 == 0) by (nonlinear_arith)
            requires prg_rom@.len() == header.n_prg_rom * 0x4000;
        assert(chr_rom@.len() % 0x2000 == 0 && chr_rom@.len() >= 0x2000) by (nonlinear_arith)
            requires chr_rom@.len() == (if header.n_chr_rom == 0 { 1 } else { header.n_chr_rom as int }) * 0x2000;
        let number = header.mapper_number;
        if number == 0 {
            Ok(Cartridge::Nrom(Mapper0::new(prg_rom, chr_rom, header)))
        } else if number == 1 {
            assert(prg_rom@.len() >= 0x4000) by (nonlinear_arith)
                requires prg_rom@.len() == header.n_prg_rom * 0x4000, header.n_prg_rom >= 1;
            assert(prg_rom@.len() / 0x4000 == header.n_prg_rom) by (nonlinear_arith)
                requires prg_rom@.len() == header.n_prg_rom * 0x4000;
            let ghost chr = chr_rom@;
            let m = Mapper1::new(prg_rom, chr_rom, header);
            assert(m.chr_rom@ =~= chr_of_at_least_128k(chr));
            Ok(Cartridge::Mmc1(m))
        } else if number == 2 {
            Ok(Cartridge::Unrom(Mapper2::new(prg_rom, chr_rom, header)))
        } else {
            Ok(Cartridge::Cnrom(Mapper3::new(prg_rom, chr_rom, header)))
        }
    }

    /// What the CPU reads at `address` (an error where the cartridge does not
    /// answer).
    pub fn prg_rom_read(&self, address: u16) -> (r: Result<u8, InvalidMapperReadError>)
        requires
            self.wf(),
        ensures
            r == cart_prg_read(self@, address),
    {
        match self {
            Cartridge::Nrom(m) => m.prg_rom_read(address),
            Cartridge::Mmc1(m) => m.prg_rom_read(address),
            Cartridge::Unrom(m) => m.prg_rom_read(address),
            Cartridge::Cnrom(m) => m.prg_rom_read(address),
        }
    }

    pub fn prg_rom_write(&mut self, address: u16, value: u8) -> (r: Result<(), InvalidMapperWriteError>)
        requires
            old(self).wf(),
        ensures
            final(self).wf(),
            final(self)@ == cart_prg_written(old(self)@, address, value),
            cart_prg_write_ok(old(self)@, address) ==> r is Ok,
            !cart_prg_write_ok(old(self)@, address) ==> r == Err::<(), InvalidMapperWriteError>(InvalidMapperWriteError(address)),
    {
        match self {
            Cartridge::Nrom(m) => m.prg_rom_write(address, value),
            Cartridge::Mmc1(m) => m.prg_rom_write(address, value),
            Cartridge::Unrom(m) => m.prg_rom_write(address, value),
            Cartridge::Cnrom(m) => m.prg_rom_write(address, value),
        }
    }

    /// What the PPU reads at `address`.
    pub fn chr_rom_read(&self, address: u16) -> (r: Result<u8, InvalidMapperReadError>)
        requires
            self.wf(),
            address < 0x2000,
        ensures
            r == cart_chr_read(self@, address),
    {
        match self {
            Cartridge::Nrom(m) => m.chr_rom_read(address),
            Cartridge::Mmc1(m) => m.chr_rom_read(address),
            Cartridge::Unrom(m) => m.chr_rom_read(address),
            Cartridge::Cnrom(m) => m.chr_rom_read(address),
        }
    }

    pub fn chr_rom_write(&mut self, address: u16, value: u8) -> (r: Result<(), InvalidMapperWriteError>)
        requires
            old(self).wf(),
            address < 0x2000,
        ensures
            final(self).wf(),
            final(self)@ == cart_chr_written(old(self)@, address, value),
    {
        match self {
            Cartridge::Nrom(m) => m.chr_rom_write(address, value),
            Cartridge::Mmc1(m) => m.chr_rom_write(address, value),
            Cartridge::Unrom(m) => m.chr_rom_write(address, value),
            Cartridge::Cnrom(m) => m.chr_rom_write(address, value),
        }
    }

    pub fn get_mirroring(&self) -> (m: Mirroring)
        ensures
            m == cart_mirroring(self@),
    {
        match self {
            Cartridge::Nrom(m) => m.get_mirroring(),
            Cartridge::Mmc1(m) => m.get_mirroring(),
            Cartridge::Unrom(m) => m.get_mirroring(),
            Cartridge::Cnrom(m) => m.get_mirroring(),
        }
    }

    /// Loads a save into battery-backed RAM; only MMC1 cartridges with a
    /// battery have it.
    pub fn load_persistent_memory(&mut self, save: &Vec<u8>) -> (r: Result<(), PersistentMemoryError>)
        requires
            old(self).wf(),
        ensures
            final(self).wf(),
            !(old(self)@ matches CartridgeView::Mmc1 { persistent, .. } && persistent)
                ==> r == Err::<(), PersistentMemoryError>(PersistentMemoryError::NoPersistentMemory)
                && final(self)@ == old(self)@,
            old(self)@ matches CartridgeView::Mmc1 { persistent, prg, chr, ram, regs } ==> (persistent ==>
                if save@.len() == 0x2000 {
                    r is Ok && final(self)@ == (CartridgeView::Mmc1 { persistent, prg, chr, ram: save@, regs })
                } else {
                    r == Err::<(), PersistentMemoryError>(PersistentMemoryError::InvalidSaveSize)
                        && final(self)@ == old(self)@
                }),
    {
        match self {
            Cartridge::Mmc1(m) => m.load_persistent_memory(save),
            _ => Err(PersistentMemoryError::NoPersistentMemory),
        }
    }

    /// The content of battery-backed RAM, to be saved.
    pub fn save_persistent_memory(&self) -> (r: Result<Vec<u8>, PersistentMemoryError>)
        ensures
            !(self@ matches CartridgeView::Mmc1 { persistent, .. } && persistent)
                ==> r == Err::<Vec<u8>, PersistentMemoryError>(PersistentMemoryError::NoPersistentMemory),
            self@ matches CartridgeView::Mmc1 { persistent, ram, .. } ==> (persistent ==> r is Ok && r->Ok_0@ == ram),
    {
        match self {
            Cartridge::Mmc1(m) => m.save_persistent_memory(),
            _ => Err(PersistentMemoryError::NoPersistentMemory),
        }
    }

    pub fn get_mapper_state(&self) -> (s: MapperState)
        ensures
            self.wf() ==> mapper_state_accepted(self@, s),
            mapper_state_applied(self@, s) == self@,
            (self matches Cartridge::Nrom(_)) == (s matches MapperState::Nrom),
            (self matches Cartridge::Mmc1(_)) == (s matches MapperState::Mmc1(_)),
            (self matches Cartridge::Unrom(_)) == (s matches MapperState::Unrom(_)),
            (self matches Cartridge::Cnrom(_)) == (s matches MapperState::Cnrom(_)),
            saved_header(s) matches Some(h) ==> h.same_as(cartridge_header(*self)),
    {
        match self {
            Cartridge::Nrom(_) => MapperState::Nrom,
            Cartridge::Mmc1(m) => MapperState::Mmc1(m.get_state()),
            Cartridge::Unrom(m) => MapperState::Unrom(m.get_state()),
            Cartridge::Cnrom(m) => MapperState::Cnrom(m.get_state()),
        }
    }

    /// Restores a mapper state; a state for another mapper, or one whose
    /// memories do not fit, is refused and leaves the cartridge unchanged.
    pub fn set_mapper_state(&mut self, state: &MapperState) -> (accepted: bool)
        requires
            old(self).wf(),
        ensures
            final(self).wf(),
            accepted == mapper_state_accepted(old(self)@, *state),
            accepted ==> final(self)@ == mapper_state_applied(old(self)@, *state),
            !accepted ==> final(self)@ == old(self)@,
            (old(self) matches Cartridge::Nrom(_)) && (state matches MapperState::Nrom) ==> accepted,
            (old(self) matches Cartridge::Unrom(_)) && (state matches MapperState::Unrom(_)) ==> accepted,
            !((old(self) matches Cartridge::Nrom(_)) && (state matches MapperState::Nrom))
                && !((old(self) matches Cartridge::Mmc1(_)) && (state matches MapperState::Mmc1(_)))
                && !((old(self) matches Cartridge::Unrom(_)) && (state matches MapperState::Unrom(_)))
                && !((old(self) matches Cartridge::Cnrom(_)) && (state matches MapperState::Cnrom(_))) ==> !accepted,
            accepted ==> (saved_header(*state) matches Some(h) ==> cartridge_header(*final(self)).same_as(h)),
            !accepted || saved_header(*state) is None ==> cartridge_header(*final(self)).same_as(cartridge_header(*old(self))),
    {
        match (self, state) {
            (Cartridge::Nrom(_), MapperState::Nrom) => true,
            (Cartridge::Mmc1(m), MapperState::Mmc1(s)) => m.set_state(s),
            (Cartridge::Unrom(m), MapperState::Unrom(s)) => {
                m.set_state(s);
                true
            },
            (Cartridge::Cnrom(m), MapperState::Cnrom(s)) => m.set_state(s),
            _ => false,
        }
    }
}

proof fn lemma_banks_end_bounds(len: int, pos: int, k: nat, size: int)
    requires
        0 <= pos <= len,
        0 <= size,
    ensures
        pos <= read_banks_end(len, pos, k, size) <= len,
    decreases k,
{
    if k > 0 {
        lemma_read_count_bounds(len, pos, size);
        lemma_banks_end_bounds(len, pos + read_count(len, pos, size), (k - 1) as nat, size);
    }
}

} // verus!
