//! What the mappers do with the CPU's writes, and where the reads that
//! follow land in the PRG and CHR memories.

use vstd::prelude::*;
use super::cartridge::{CartridgeView, cart_chr_read, cart_prg_read, cart_prg_written};
use super::mapper_001::{Mapper1Regs, mmc1_after_serial_write};

verus! {

/// Byte `address % $4000` of 16 KB bank `bank` of `prg`, when that bank
/// exists.
pub open spec fn bank_byte_16k(prg: Seq<u8>, bank: int, address: u16) -> Option<u8> {
    if 0 <= bank && (bank + 1) * 0x4000 <= prg.len() {
        Some(prg[bank * 0x4000 + address % 0x4000])
    } else {
        None
    }
}

/// A read result as an option.
pub open spec fn read_value<E>(r: Result<u8, E>) -> Option<u8> {
    match r {
        Ok(v) => Some(v),
        Err(_) => None,
    }
}

/// UNROM: a write anywhere in $8000-$FFFF selects the 16 KB bank of
/// $8000-$BFFF by its four low bits; $C000-$FFFF always shows the last bank.
pub proof fn law_unrom_banks(prg: Seq<u8>, chr: Seq<u8>, m: super::mapper::Mirroring, bank: usize,
    at: u16, value: u8, address: u16)
    requires
        at >= 0x8000,
        address >= 0x8000,
        prg.len() >= 0x4000,
        prg.len() % 0x4000 == 0,
    ensures
        ({
            let c = cart_prg_written(CartridgeView::Unrom { mirroring: m, prg, chr, bank }, at, value);
            let r = read_value(cart_prg_read(c, address));
            &&& address <= 0xBFFF ==> r == bank_byte_16k(prg, (value % 16) as int, address)
            &&& address >= 0xC000 ==> r == bank_byte_16k(prg, prg.len() / 0x4000 - 1, address)
        }),
{
    crate::bits::lemma_byte_values();
    crate::bits::lemma_word_values();
    assert((value & 0x0F) as int == value % 16);
    assert((address & 0x3FFF) as int == address % 0x4000);
}

/// CNROM: a write anywhere in $8000-$FFFF selects the 8 KB CHR bank by its
/// two low bits; the PPU then reads byte `address` of that bank. The PRG
/// ROM is fixed: $8000-$BFFF the first 16 KB, $C000-$FFFF the last.
pub proof fn law_cnrom_banks(prg: Seq<u8>, chr: Seq<u8>, m: super::mapper::Mirroring, bank: usize,
    at: u16, value: u8, address: u16)
    requires
        at >= 0x8000,
        address < 0x2000,
        chr.len() >= 4 * 0x2000,
        prg.len() >= 0x4000,
    ensures
        ({
            let c = cart_prg_written(CartridgeView::Cnrom { mirroring: m, prg, chr, bank }, at, value);
            &&& read_value(cart_chr_read(c, address)) == Some(chr[(value % 4) * 0x2000 + address])
            &&& read_value(cart_prg_read(c, (0x8000 + address) as u16)) == Some(prg[address as int])
            &&& read_value(cart_prg_read(c, (0xC000 + address) as u16)) == Some(prg[prg.len() - 0x4000 + address])
        }),
{
    crate::bits::lemma_byte_values();
    crate::bits::lemma_word_values();
    assert((value & 0x03) as int == value % 4);
    let a8 = (0x8000 + address) as u16;
    let ac = (0xC000 + address) as u16;
    assert((a8 & 0x3FFF) as int == a8 % 16384 && (ac & 0x3FFF) as int == ac % 16384);
}

/// MMC1 reads: the PRG mode (control bits 2-3) maps $8000-$BFFF and
/// $C000-$FFFF: modes 0 and 1 a 32 KB pair of banks from the PRG bank
/// register; mode 2 the first bank fixed at $8000 and the register's bank at
/// $C000; mode 3 the register's bank at $8000 and the last bank fixed at
/// $C000. The CHR mode (control bit 4) maps $0000-$1FFF: clear, an 8 KB
/// pair of 4 KB banks from the first CHR register; set, the two registers'
/// 4 KB banks.
pub proof fn law_mmc1_banks(persistent: bool, prg: Seq<u8>, chr: Seq<u8>, ram: Seq<u8>, r: Mapper1Regs, address: u16)
    ensures
        ({
            let c = CartridgeView::Mmc1 { persistent, prg, chr, ram, regs: r };
            let mode = (r.control_register / 4) % 4;
            let v = read_value(cart_prg_read(c, address));
            let lo = r.lo_prg_rom as int;
            let hi = r.hi_prg_rom as int;
            &&& 0x8000 <= address <= 0xBFFF ==> v == bank_byte_16k(prg, if mode == 2 { 0 } else { lo }, address)
            &&& address >= 0xC000 ==> v == bank_byte_16k(prg,
                if mode <= 1 { lo + 1 } else if mode == 2 { hi } else { prg.len() / 0x4000 - 1 }, address)
        }),
        ({
            let c = CartridgeView::Mmc1 { persistent, prg, chr, ram, regs: r };
            let bank = if address < 0x1000 {
                r.lo_chr_rom as int
            } else if r.control_register & 0x10 == 0 {
                r.lo_chr_rom + 1
            } else {
                r.hi_chr_rom as int
            };
            address < 0x2000 && 0 <= bank && (bank + 1) * 0x1000 <= chr.len()
                ==> read_value(cart_chr_read(c, address)) == Some(chr[bank * 0x1000 + address % 0x1000])
        }),
{
    let ctl = r.control_register;
    crate::bits::lemma_byte_values();
    crate::bits::lemma_word_values();
    assert(((ctl & 0x0C) >> 2u8) as int == (ctl / 4) % 4);
    assert((ctl & 0x10 != 0) == ((ctl / 16) % 2 == 1) && ((ctl & 0x10) >> 4u8) == (ctl / 16) % 2);
    assert(((ctl & 0x10) >> 4u8 == 0) == (ctl & 0x10 == 0));
    assert((address & 0x3FFF) as int == address % 0x4000 && (address & 0x0FFF) as int == address % 0x1000);
}

/// One serial bit of `v` per write, lowest first.
pub open spec fn serial_bit(v: u8, i: u8) -> u8 {
    (v >> i) & 0x01
}

/// The MMC1 registers after five serial writes to `address` of the bits
/// of `v`.
pub open spec fn serially_loaded(r: Mapper1Regs, address: u16, v: u8) -> Mapper1Regs {
    let r1 = mmc1_after_serial_write(r, address, serial_bit(v, 0));
    let r2 = mmc1_after_serial_write(r1, address, serial_bit(v, 1));
    let r3 = mmc1_after_serial_write(r2, address, serial_bit(v, 2));
    let r4 = mmc1_after_serial_write(r3, address, serial_bit(v, 3));
    mmc1_after_serial_write(r4, address, serial_bit(v, 4))
}

/// MMC1 writes: a write with bit 7 set empties the shift register and sets
/// the PRG mode to 3 (control bits 2-3), leaving the other control bits.
/// From an empty shift register, five writes load their bit 0 (lowest
/// first) into the register that the last write's address selects:
/// $8000-$9FFF control, $A000-$BFFF the first CHR bank (bit 0 ignored in
/// 8 KB CHR mode), $C000-$DFFF the second CHR bank, $E000-$FFFF the PRG
/// bank (bit 0 ignored in 32 KB mode; bit 4 disables the PRG RAM). The
/// shift register is then empty again and no other register changes.
#[verifier::rlimit(100)]
#[verifier::spinoff_prover]
pub proof fn law_mmc1_serial_load(r: Mapper1Regs, address: u16, v: u8, reset: u8)
    requires
        address >= 0x8000,
    ensures
        reset & 0x80 != 0 ==> ({
            let r0 = mmc1_after_serial_write(r, address, reset);
            &&& r0.shift_register == 0 && r0.n_bit_loaded == 0
            &&& (r0.control_register / 4) % 4 == 3
            &&& r0.control_register % 4 == r.control_register % 4
            &&& r0.control_register / 16 == r.control_register / 16
            &&& r0 == (Mapper1Regs { shift_register: 0, n_bit_loaded: 0, control_register: r0.control_register, ..r })
        }),
        r.shift_register == 0 && r.n_bit_loaded == 0 ==> ({
            let r5 = serially_loaded(r, address, v);
            let action = (address / 0x2000) % 4;
            let mode = (r.control_register / 4) % 4;
            &&& r5.shift_register == 0 && r5.n_bit_loaded == 0
            &&& action == 0 ==> r5 == (Mapper1Regs { control_register: v % 32, ..r })
            &&& action == 1 ==> r5 == (Mapper1Regs {
                lo_chr_rom: (if r.control_register & 0x10 == 0 { (v % 32) / 2 * 2 } else { (v % 32) as int }) as usize,
                ..r
            })
            &&& action == 2 ==> r5 == (Mapper1Regs { hi_chr_rom: (v % 32) as usize, ..r })
            &&& action == 3 && mode <= 1 ==> r5 == (Mapper1Regs {
                lo_prg_rom: ((v % 16) / 2 * 2) as usize, ram_disabled: v % 32 >= 16, ..r
            })
            &&& action == 3 && mode == 2 ==> r5 == (Mapper1Regs { hi_prg_rom: (v % 16) as usize, ram_disabled: v % 32 >= 16, ..r })
            &&& action == 3 && mode == 3 ==> r5 == (Mapper1Regs { lo_prg_rom: (v % 16) as usize, ram_disabled: v % 32 >= 16, ..r })
        }),
{
    let c = r.control_register;
    lemma_serial_facts(v, c, address);
    let b0 = serial_bit(v, 0);
    let b1 = serial_bit(v, 1);
    let b2 = serial_bit(v, 2);
    let b3 = serial_bit(v, 3);
    let b4 = serial_bit(v, 4);
    let s1 = (r.shift_register >> 1u8) | ((b0 & 0x01) << 4u8);
    let s2 = (s1 >> 1u8) | ((b1 & 0x01) << 4u8);
    let s3 = (s2 >> 1u8) | ((b2 & 0x01) << 4u8);
    let s4 = (s3 >> 1u8) | ((b3 & 0x01) << 4u8);
    let s5 = (s4 >> 1u8) | ((b4 & 0x01) << 4u8);
    let s0 = r.shift_register;
    assert(b0 & 0x80 == 0 && b1 & 0x80 == 0 && b2 & 0x80 == 0 && b3 & 0x80 == 0 && b4 & 0x80 == 0
        && (s0 == 0 ==> s5 == v & 0x1F)) by (bit_vector)
        requires
                b0 == (v >> 0u8) & 0x01, b1 == (v >> 1u8) & 0x01, b2 == (v >> 2u8) & 0x01, b3 == (v >> 3u8) & 0x01,
                b4 == (v >> 4u8) & 0x01,
                s1 == (s0 >> 1u8) | ((b0 & 0x01) << 4u8),
                s2 == (s1 >> 1u8) | ((b1 & 0x01) << 4u8),
                s3 == (s2 >> 1u8) | ((b2 & 0x01) << 4u8),
                s4 == (s3 >> 1u8) | ((b3 & 0x01) << 4u8),
                s5 == (s4 >> 1u8) | ((b4 & 0x01) << 4u8);
}

/// The field arithmetic of a serial load.
proof fn lemma_serial_facts(v: u8, c: u8, address: u16)
    ensures
        ((c | 0x0C) / 4) % 4 == 3 && (c | 0x0C) % 4 == c % 4 && (c | 0x0C) / 16 == c / 16,
        (v & 0x1F) as int == v % 32,
        ((v & 0x1F) & 0x1E) as int == (v % 32) / 2 * 2,
        ((v & 0x1F) & 0x1F) as int == v % 32,
        ((v & 0x1F) & 0x0E) as int == (v % 16) / 2 * 2,
        ((v & 0x1F) & 0x0F) as int == v % 16,
        (((v & 0x1F) & 0x10) != 0) == (v % 32 >= 16),
        ((address & 0x6000) >> 13u16) as int == (address / 0x2000) % 4,
        ((c & 0x0C) >> 2u8) as int == (c / 4) % 4,
        (((c & 0x10) >> 4u8) == 0) == (c & 0x10 == 0),
{
    crate::bits::lemma_byte_values();
    crate::bits::lemma_word_values();
    let w = v & 0x1F;
    assert(w as int == v % 32);
    assert((w & 0x1E) as int == (w % 32) / 2 * 2 && (w & 0x1F) as int == w % 32 && (w & 0x0E) as int == (w % 16) / 2 * 2
        && (w & 0x0F) as int == w % 16);
    assert((w & 0x10 != 0) == ((w / 16) % 2 == 1));
    assert(((address & 0x6000) >> 13u16) as int == (address / 0x2000) % 4);
    assert(((c & 0x0C) >> 2u8) as int == (c / 4) % 4);
    assert((c & 0x10 != 0) == ((c / 16) % 2 == 1) && ((c & 0x10) >> 4u8) == (c / 16) % 2);
}

} // verus!
