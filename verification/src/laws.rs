//! Properties of the console that span several operations, proved over the
//! same models that the operations' contracts use.

use vstd::prelude::*;
use crate::apu::{Apu, apu_written, apu_from_state};
use crate::apu::dmc::{Dmc, dmc_clocked};
use crate::bus::{BusView, bus_read, bus_written, controller_read, ppu_register_address, ram_index};
use crate::cartridge::cartridge::{CartridgeView, cart_prg_read, mapper_state_accepted, rom_accepted, rom_header, rom_prg};
use crate::cartridge::mapper::header_mapper_number;
use crate::cartridge::mapper::Mirroring;
use crate::cartridge::mapper::PersistentMemoryError;
use crate::nes::{
    NES, NesError, NesView, black_frame, cartridge_mapper_number, restored_cartridge, save_loaded, save_result,
    state_captured, state_fits, state_loadable, state_loaded,
};
use crate::state::NesState;
use crate::nes::{
    apu_interrupts_delivered, cpu_or_dma_stepped, dma_stepped, dmc_served, nes_clocked, nmi_delivered,
    sample_kept,
};
use crate::controllers::Controller;
use crate::cpu::Cpu;
use crate::cpu::enums::{AdressingMode, Flag, flag_bit};
use crate::ppu::render::first_opaque_sprite;
use crate::cpu::semantics::{
    added, compared, flag_set, nmi_taken, op_jsr, op_php, op_plp, op_rol, op_ror, op_rti, op_rts, popped, pushed,
    subtracted, wadd16, wsub16, with_flag, zn,
};
use crate::ppu::PpuView;
use crate::ppu::bus::{PPUBusView, address_part, nametable_index, palette_index, ppu_bus_read, ppu_bus_written, with_address_part};
use crate::ppu::enums::VRAMAddressMask;
use crate::ppu::oam::{sprite_byte, sprite_with_byte};
use crate::ppu::registers::{Registers, bus_value, ppu_register_read, ppu_register_written};
use crate::ppu::render::{
    background_fetched, background_loaded, decay_advanced, evaluation_started, extra_name_table_read,
    odd_frame_skipped, pixel_drawn, ppu_clocked, scanline_fetched, secondary_byte_cleared, shifters_updated, show_background,
    sprite_data_cleared, sprite_evaluated, sprite_fetched, sprites_latched, time_advanced, tmp_x_copied,
    tmp_y_copied, vbl_read_applied, vblank_updated, x_incremented, y_incremented,
};
use crate::ppu::sprite::Sprite;

verus! {

/// A write to CPU RAM is read back at the same address and at each of its
/// mirrors (the 2 KB repeat every $800 bytes up to $1FFF), and the read
/// changes nothing.
pub proof fn law_ram_read_after_write(b: BusView, address: u16, mirror: u16, value: u8)
    requires
        b.ram.len() == 0x800,
        address <= 0x1FFF,
        mirror <= 0x1FFF,
        address & 0x07FF == mirror & 0x07FF,
    ensures
        bus_read(bus_written(b, address, value), mirror) == (bus_written(b, address, value), value),
{
    reveal(bus_read);
    reveal(bus_written);
    crate::bits::lemma_word_masks();
    assert(address & 0x07FF < 0x800);
    assert(ram_index(address) == ram_index(mirror));
}

/// A pull after a push gives back the pushed byte and the stack pointer.
pub proof fn law_pull_after_push(c: Cpu, b: BusView, value: u8)
    requires
        b.ram.len() == 0x800,
    ensures
        ({
            let (c1, b1) = pushed(c, b, value);
            popped(c1, b1) == (c, b1, value)
        }),
{
    let (c1, b1) = pushed(c, b, value);
    let sp = c.sp;
    assert(vstd::wrapping::u8_specs::wrapping_add(vstd::wrapping::u8_specs::wrapping_sub(sp, 1), 1) == sp);
    let address = (0x100 + sp) as u16;
    crate::bits::lemma_word_values();
    assert(address & 0x07FF == address);
    law_ram_read_after_write(b, address, address, value);
}

proof fn lemma_single_bits(p: u8, m: u8, n: u8, v: bool)
    by (bit_vector)
    requires
        m == 1 || m == 2 || m == 4 || m == 8 || m == 16 || m == 32 || m == 64 || m == 128,
        n == 1 || n == 2 || n == 4 || n == 8 || n == 16 || n == 32 || n == 64 || n == 128,
    ensures
        (((if v { p | m } else { p & !m }) & m) != 0) == v,
        m != n ==> ((((if v { p | m } else { p & !m }) & n) != 0) == ((p & n) != 0)),
{
}

/// Setting a flag of the status register sets that flag and leaves the
/// others as they were.
pub proof fn law_flag_set_get(p: u8, f: Flag, g: Flag, v: bool)
    ensures
        flag_set(with_flag(p, f, v), f) == v,
        f != g ==> flag_set(with_flag(p, f, v), g) == flag_set(p, g),
{
    lemma_single_bits(p, flag_bit(f), flag_bit(g), v);
}

/// A compare sets Z when the register equals the operand, C when it is at
/// least the operand, and keeps the flags it does not compute.
pub proof fn law_compare_flags(p: u8, reg: u8, m: u8)
    ensures
        flag_set(compared(p, reg, m), Flag::Zero) == (reg == m),
        flag_set(compared(p, reg, m), Flag::Carry) == (reg >= m),
        flag_set(compared(p, reg, m), Flag::Overflow) == flag_set(p, Flag::Overflow),
        flag_set(compared(p, reg, m), Flag::InterruptDisable) == flag_set(p, Flag::InterruptDisable),
{
    let d = vstd::wrapping::u8_specs::wrapping_sub(reg, m);
    let p1 = with_flag(p, Flag::Zero, d == 0);
    let p2 = with_flag(p1, Flag::Carry, reg >= m);
    law_flag_set_get(p, Flag::Zero, Flag::Carry, d == 0);
    law_flag_set_get(p, Flag::Zero, Flag::Overflow, d == 0);
    law_flag_set_get(p, Flag::Zero, Flag::InterruptDisable, d == 0);
    law_flag_set_get(p1, Flag::Carry, Flag::Zero, reg >= m);
    law_flag_set_get(p1, Flag::Carry, Flag::Overflow, reg >= m);
    law_flag_set_get(p1, Flag::Carry, Flag::InterruptDisable, reg >= m);
    law_flag_set_get(p2, Flag::Negative, Flag::Zero, d & 0x80 != 0);
    law_flag_set_get(p2, Flag::Negative, Flag::Carry, d & 0x80 != 0);
    law_flag_set_get(p2, Flag::Negative, Flag::Overflow, d & 0x80 != 0);
    law_flag_set_get(p2, Flag::Negative, Flag::InterruptDisable, d & 0x80 != 0);
}

/// SBC is ADC of the operand's complement: A - M - (1 - C) gives the same
/// accumulator and flags as A + !M + C.
pub proof fn law_subtract_is_add_of_complement(c: Cpu, m: u8)
    ensures
        subtracted(c, m) == added(c, m ^ 0xFF, m ^ 0xFF),
{
    let a = c.a;
    let sum = c.a + (m ^ 0xFF) + crate::cpu::semantics::carry_in(c.p);
    let r = crate::cpu::semantics::low_byte(sum);
    assert(((a ^ m) & (a ^ r) & 0x80 == 0x80) == ((a ^ (m ^ 0xFF)) & 0x80 == 0 && (a ^ r) & 0x80 == 0x80))
        by (bit_vector);
}

/// A field of a VRAM address reads back the value it was set to (when the
/// value fits the field), and setting it leaves the other fields alone.
pub proof fn law_vram_field_roundtrip(a: u16, v: u16)
    ensures
        v <= 31 ==> address_part(with_address_part(a, VRAMAddressMask::CoarseXScroll, v), VRAMAddressMask::CoarseXScroll) == v,
        v <= 31 ==> address_part(with_address_part(a, VRAMAddressMask::CoarseYScroll, v), VRAMAddressMask::CoarseYScroll) == v,
        v <= 3 ==> address_part(with_address_part(a, VRAMAddressMask::NametableSelect, v), VRAMAddressMask::NametableSelect) == v,
        v <= 7 ==> address_part(with_address_part(a, VRAMAddressMask::FineY, v), VRAMAddressMask::FineY) == v,
        address_part(with_address_part(a, VRAMAddressMask::CoarseXScroll, v), VRAMAddressMask::CoarseYScroll)
            == address_part(a, VRAMAddressMask::CoarseYScroll) || v > 31,
        address_part(with_address_part(a, VRAMAddressMask::FineY, v), VRAMAddressMask::CoarseXScroll)
            == address_part(a, VRAMAddressMask::CoarseXScroll) || v > 7,
{
    assert((v <= 31 ==> (((a & !0x001Fu16) | (v << 0u16)) & 0x001F) >> 0u16 == v)
        && (v <= 31 ==> (((a & !0x03E0u16) | (v << 5u16)) & 0x03E0) >> 5u16 == v)
        && (v <= 3 ==> (((a & !0x0C00u16) | (v << 10u16)) & 0x0C00) >> 10u16 == v)
        && (v <= 7 ==> (((a & !0x7000u16) | (v << 12u16)) & 0x7000) >> 12u16 == v)
        && (v <= 31 ==> (((a & !0x001Fu16) | (v << 0u16)) & 0x03E0) >> 5u16 == (a & 0x03E0) >> 5u16)
        && (v <= 7 ==> (((a & !0x7000u16) | (v << 12u16)) & 0x001F) >> 0u16 == (a & 0x001F) >> 0u16)) by (bit_vector);
}

/// A byte written into a sprite of the OAM is the byte read back there.
pub proof fn law_oam_byte_roundtrip(s: Sprite, address: u8, data: u8)
    ensures
        sprite_byte(sprite_with_byte(s, address, data), address) == data,
{
}

/// Palette RAM entries $3F10, $3F14, $3F18 and $3F1C are $3F00, $3F04,
/// $3F08 and $3F0C: a write to an entry is read back at every address that
/// selects the same entry.
pub proof fn law_palette_mirroring(b: PPUBusView, c: CartridgeView, address: u16, mirror: u16, value: u8)
    requires
        b.palette_table.len() == 0x20,
        0x3F00 <= address <= 0x3FFF,
        0x3F00 <= mirror <= 0x3FFF,
        palette_index(address) == palette_index(mirror),
    ensures
        ppu_bus_read(ppu_bus_written(b, c, address, value), c, mirror) == Ok::<u8, crate::ppu::bus::PPUBusReadError>(value),
{
    crate::bits::lemma_word_masks();
    assert((address & 0x001F) < 0x20);
}

/// Under horizontal or vertical mirroring, a nametable write is read back
/// at every address of the nametable area ($2000-$3EFF) that lands on the
/// same byte.
pub proof fn law_nametable_mirroring(b: PPUBusView, c: CartridgeView, address: u16, mirror: u16, value: u8)
    requires
        b.name_tables.len() == 0x800,
        crate::cartridge::cartridge::cart_mirroring(c) == Mirroring::Horizontal
            || crate::cartridge::cartridge::cart_mirroring(c) == Mirroring::Vertical,
        0x2000 <= address <= 0x2FFF,
        0x2000 <= mirror <= 0x2FFF,
        nametable_index(crate::cartridge::cartridge::cart_mirroring(c), address)
            == nametable_index(crate::cartridge::cartridge::cart_mirroring(c), mirror),
    ensures
        ppu_bus_read(ppu_bus_written(b, c, address, value), c, mirror) == Ok::<u8, crate::ppu::bus::PPUBusReadError>(value),
{
    crate::bits::lemma_word_masks();
    assert((address & 0x03FF) < 0x400);
}

/// The k-th read of a controller after its buttons are latched gives
/// button bit 7 - k (A first, then B, Select, Start, Up, Down, Left,
/// Right).
pub proof fn law_controller_serial_read(buttons: u8, k: u8)
    requires
        k < 8,
    ensures
        controller_read(Controller { buffer: buttons, shifter: buttons << k }).1 == (buttons >> (7 - k) as u8) & 1,
        controller_read(Controller { buffer: buttons, shifter: buttons << k }).0.shifter == buttons << (k + 1) as u8,
{
    assert(((buttons << k) & 0x80 != 0) == ((buttons >> (7 - k) as u8) & 1 == 1)
        && (buttons >> (7 - k) as u8) & 1 <= 1 && (buttons << k) << 1u8 == buttons << (k + 1) as u8) by (bit_vector)
        requires k < 8;
}

/// The dot counter of the PPU runs through 341 x 262 positions: each clock
/// moves it one step, wrapping after the last dot of scanline 261, where a
/// frame becomes ready and the frame parity flips.
pub proof fn law_frame_timing(v: PpuView)
    requires
        v.cycles <= 340,
        v.scanline <= 261,
    ensures
        time_advanced(v).scanline * 341 + time_advanced(v).cycles == (v.scanline * 341 + v.cycles + 1) % 89342,
        time_advanced(v).is_frame_ready == (v.is_frame_ready || v.scanline * 341 + v.cycles == 89341),
        time_advanced(v).odd_frame == (v.odd_frame != (v.scanline * 341 + v.cycles == 89341)),
{
    reveal(time_advanced);
}

/// The PPU's data lines keep the last value written to any of its
/// registers, and a read of a write-only register gives it back.
pub proof fn law_open_bus(r: Registers, b: PPUBusView, c: CartridgeView, o: crate::ppu::oam::OamView, written: u16, read: u16, value: u8)
    requires
        0x2000 <= written <= 0x2007 || written == 0x4014,
        read == 0x2000 || read == 0x2001 || read == 0x2003 || read == 0x2005 || read == 0x2006,
    ensures
        ({
            let (r1, b1) = ppu_register_written(r, b, c, written, value);
            ppu_register_read(r1, b1, o, c, read).2 == Ok::<u8, crate::errors::InvalidPPURegisterReadError>(value)
        }),
{
}

/// A read of $2002 clears the vertical blank flag by the next PPU clock.
pub proof fn law_status_read_clears_vblank(v: PpuView, c: CartridgeView)
    ensures
        ({
            let (r1, b1, _) = ppu_register_read(v.registers, v.bus, v.oam, c, 0x2002);
            vbl_read_applied(PpuView { registers: r1, bus: b1, ..v }).registers.status & 0x80 == 0
        }),
{
    reveal(vbl_read_applied);
    let (r1, _, _) = ppu_register_read(v.registers, v.bus, v.oam, c, 0x2002);
    let s = r1.status;
    crate::bits::lemma_bitset();
    assert(s & !0x80u8 == crate::bits::bitset(s, 0x80, false));
    assert((s & !0x80u8) & 0x80 == 0);
}

/// Reads of $2007 below the palette are delayed by one: the second of two
/// reads gives the byte at the address of the first (when the second is
/// below the palette too).
pub proof fn law_buffered_data_read(r: Registers, b: PPUBusView, o: crate::ppu::oam::OamView, c: CartridgeView)
    requires
        b.vram_address < 0x3EE0,
    ensures
        ({
            let (r1, b1, _) = ppu_register_read(r, b, o, c, 0x2007);
            ppu_register_read(r1, b1, o, c, 0x2007).2 == Ok::<u8, crate::errors::InvalidPPURegisterReadError>(bus_value(b, c, b.vram_address))
        }),
{
}

/// Clearing a channel's bit in $4015 silences it: its length counter drops
/// to 0, and so does its status bit.
pub proof fn law_disable_silences(a: Apu, value: u8)
    ensures
        value & 0x01 == 0 ==> apu_written(a, 0x4015, value).pulse1.length_counter.length_counter == 0,
        value & 0x02 == 0 ==> apu_written(a, 0x4015, value).pulse2.length_counter.length_counter == 0,
        value & 0x04 == 0 ==> apu_written(a, 0x4015, value).triangle.length_counter.length_counter == 0,
        value & 0x08 == 0 ==> apu_written(a, 0x4015, value).noise.length_counter.length_counter == 0,
        value & 0x10 == 0 ==> apu_written(a, 0x4015, value).dmc.bytes_remaining == 0,
{
    reveal(apu_written);
    reveal(crate::apu::apu_enabled_written);
}

/// An NROM cartridge with one 16 KB bank shows it twice: $8000-$BFFF and
/// $C000-$FFFF read the same bytes.
pub proof fn law_nrom_mirrors_single_bank(c: CartridgeView, offset: u16)
    requires
        c matches CartridgeView::Nrom { prg, .. } && prg.len() == 0x4000,
        offset <= 0x3FFF,
    ensures
        cart_prg_read(c, (0x8000 + offset) as u16) == cart_prg_read(c, (0xC000 + offset) as u16),
{
    let a = (0x8000 + offset) as u16;
    let b = (0xC000 + offset) as u16;
    crate::bits::lemma_word_values();
    assert(a & 0x3FFF == offset && b & 0x3FFF == offset);
}

/// A saved state loads back. Loading, with the ROM image the cartridge was
/// made from, the state that `get_state` captured of a console gives that
/// console back, but for what a state does not hold: the frame being drawn
/// (black again) and the debug palette (the first again), and the palette,
/// the samples not yet taken and the logging choice, which stay those of the
/// console that loads. The cartridge comes back with its mapper registers
/// and the memories its mapper state holds, its ROM read again from the
/// image; an MMC1 or CNROM cartridge whose PRG ROM is the image's comes back
/// whole. The loaded console captures the same state again: saving right
/// after loading gives back the state that was loaded.
pub proof fn law_state_round_trip(n: NES, s: NesState, m: NesView, rom: Seq<u8>)
    requires
        n.wf(),
        n.has_cartridge(),
        state_captured(&s, n@),
        state_fits(&s),
        apu_from_state(s.apu).wf(),
        mapper_state_accepted(n@.bus.cartridge.unwrap(), s.mapper),
        rom_accepted(rom),
        cartridge_mapper_number(n@.bus.cartridge.unwrap()) == header_mapper_number(rom_header(rom)),
    ensures
        state_loadable(&s, rom),
        state_loaded(m, &s, rom) == (NesView {
            bus: BusView {
                cartridge: Some(restored_cartridge(rom, s.mapper)),
                ppu: PpuView { frame: black_frame(), palette: m.bus.ppu.palette, debug_palette_id: 0, ..n@.bus.ppu },
                ..n@.bus
            },
            cpu: Cpu { display_logs: m.cpu.display_logs, ..n.cpu },
            samples: m.samples,
            ..n@
        }),
        (n@.bus.cartridge.unwrap() matches CartridgeView::Mmc1 { prg, .. } && prg == rom_prg(rom))
            ==> restored_cartridge(rom, s.mapper) == n@.bus.cartridge.unwrap(),
        (n@.bus.cartridge.unwrap() matches CartridgeView::Cnrom { prg, .. } && prg == rom_prg(rom))
            ==> restored_cartridge(rom, s.mapper) == n@.bus.cartridge.unwrap(),
        state_captured(&s, state_loaded(m, &s, rom)),
{
    assert(n.bus.apu == apu_from_state(n.bus.apu.get_state_spec()));
}

/// A loaded save is what saving gives back: on a console whose MMC1
/// cartridge has battery-backed memory, loading an 8 KB save succeeds and a
/// save then gives that save; and loading what a save gave changes nothing.
pub proof fn law_save_round_trip(n: NesView, save: Seq<u8>)
    requires
        n.bus.cartridge matches Some(CartridgeView::Mmc1 { persistent, ram, .. }) && persistent && ram.len() == 0x2000,
        save.len() == 0x2000,
    ensures
        save_loaded(n, save).1 is Ok,
        save_result(save_loaded(n, save).0) == Ok::<Seq<u8>, NesError>(save),
        save_loaded(n, save_result(n)->Ok_0) == (n, Ok::<(), NesError>(())),
{
}

/// Only a battery-backed MMC1 cartridge keeps saves: any other cartridge,
/// the battery bit of its header set or not, refuses to save and to load a
/// save, and stays as it was.
pub proof fn law_saves_need_battery_backed_mmc1(n: NesView, save: Seq<u8>)
    requires
        n.bus.cartridge is Some,
        !(n.bus.cartridge matches Some(CartridgeView::Mmc1 { persistent, .. }) && persistent),
    ensures
        save_result(n) == Err::<Seq<u8>, NesError>(NesError::PersistentMemory(PersistentMemoryError::NoPersistentMemory)),
        save_loaded(n, save) == (n, Err::<(), NesError>(NesError::PersistentMemory(PersistentMemoryError::NoPersistentMemory))),
{
}

/// The eight PPU registers repeat every eight bytes from $2000 to $3FFF: a
/// read or a write at an address acts as at any other address of that range
/// with the same three low bits.
pub proof fn law_ppu_registers_mirror(b: BusView, address: u16, mirror: u16, value: u8)
    requires
        0x2000 <= address <= 0x3FFF,
        0x2000 <= mirror <= 0x3FFF,
        address % 8 == mirror % 8,
    ensures
        bus_read(b, address) == bus_read(b, mirror),
        bus_written(b, address, value) == bus_written(b, mirror, value),
{
    reveal(bus_read);
    reveal(bus_written);
    assert(address & 0x2007 == mirror & 0x2007) by (bit_vector)
        requires
            0x2000 <= address <= 0x3FFF,
            0x2000 <= mirror <= 0x3FFF,
            address % 8 == mirror % 8;
    assert(ppu_register_address(address) == ppu_register_address(mirror));
}

/// A write to CPU RAM leaves the other RAM cells as they were: a read at an
/// address that is neither the written one nor one of its mirrors gives
/// what it gave before the write.
pub proof fn law_ram_write_elsewhere(b: BusView, address: u16, other: u16, value: u8)
    requires
        b.ram.len() == 0x800,
        address <= 0x1FFF,
        other <= 0x1FFF,
        address & 0x07FF != other & 0x07FF,
    ensures
        bus_read(bus_written(b, address, value), other) == (bus_written(b, address, value), bus_read(b, other).1),
{
    reveal(bus_read);
    reveal(bus_written);
    crate::bits::lemma_word_masks();
    assert(address & 0x07FF < 0x800);
    assert(other & 0x07FF < 0x800);
}

/// The stack address of a stack pointer is a RAM address that is its own
/// index, and two different stack pointers give two different cells.
proof fn lemma_stack_cell(sp: u8, other: u8)
    ensures
        ((0x100 + sp) as u16) <= 0x1FFF,
        ((0x100 + sp) as u16) & 0x07FF == (0x100 + sp) as u16,
        sp != other ==> ((0x100 + sp) as u16) & 0x07FF != ((0x100 + other) as u16) & 0x07FF,
{
    let a = (0x100 + sp) as u16;
    let o = (0x100 + other) as u16;
    crate::bits::lemma_word_values();
    assert(a & 0x07FF == a && o & 0x07FF == o);
}

/// A push leaves 2 KB of RAM.
proof fn lemma_push_keeps_ram(c: Cpu, b: BusView, v: u8)
    requires
        b.ram.len() == 0x800,
    ensures
        pushed(c, b, v).1.ram.len() == 0x800,
{
    reveal(bus_written);
    lemma_stack_cell(c.sp, c.sp);
}

/// Pulls after pushes: with `x` pushed, then `y`, a pull gives `y` and the
/// next pull gives `x`, the stack pointer back where it was.
proof fn lemma_two_pulls(c: Cpu, b: BusView, x: u8, y: u8)
    requires
        b.ram.len() == 0x800,
    ensures
        ({
            let (c1, b1) = pushed(c, b, x);
            let (c2, b2) = pushed(c1, b1, y);
            let (c3, b3, v3) = popped(c2, b2);
            let (c4, b4, v4) = popped(c3, b3);
            &&& c3 == c1 && v3 == y && b3 == b2
            &&& c4 == c && v4 == x && b4 == b2
        }),
{
    let (c1, b1) = pushed(c, b, x);
    let (c2, b2) = pushed(c1, b1, y);
    lemma_push_keeps_ram(c, b, x);
    law_pull_after_push(c1, b1, y);
    law_pull_after_push(c, b, x);
    lemma_stack_cell(c.sp, c1.sp);
    assert(c1.sp != c.sp);
    law_ram_write_elsewhere(b1, (0x100 + c1.sp) as u16, (0x100 + c.sp) as u16, y);
    assert(vstd::wrapping::u8_specs::wrapping_add(c1.sp, 1) == c.sp);
}

/// RTS returns from a JSR: after JSR $hhll at PC and RTS, PC is PC + 2, the
/// last byte of the JSR (the clock then moves it to the next instruction),
/// and the stack pointer and the registers are as before.
pub proof fn law_rts_after_jsr(c: Cpu, b: BusView)
    requires
        b.ram.len() == 0x800,
    ensures
        ({
            let (c1, b1) = op_jsr(c, b, AdressingMode::Absolute);
            let (c2, b2) = op_rts(c1, b1, AdressingMode::Implicit);
            c2 == Cpu { pc: wadd16(wadd16(c.pc, 1), 1), page_crossed: false, ..c }
        }),
{
    reveal(op_jsr);
    reveal(op_rts);
    reveal(crate::cpu::semantics::fetched);
    reveal(bus_read);
    let pc2 = wadd16(wadd16(c.pc, 1), 1);
    let (c1, b1, address) = crate::cpu::semantics::fetched(c, b, AdressingMode::Absolute);
    assert(c1 == Cpu { pc: pc2, page_crossed: false, ..c });
    assert(b1.ram.len() == 0x800);
    lemma_two_pulls(c1, b1, (c1.pc >> 8u16) as u8, (c1.pc % 256) as u8);
    assert(crate::cpu::semantics::word((pc2 % 256) as u8, (pc2 >> 8u16) as u8) == pc2) by (bit_vector)
        requires true;
}

/// RTI returns from an NMI: after the interrupt and RTI, the stack pointer
/// and the registers are back, the status with its unused bit set, and PC
/// is one before the interrupted instruction (the clock then moves it
/// there).
pub proof fn law_rti_after_nmi(c: Cpu, b: BusView)
    requires
        b.ram.len() == 0x800,
    ensures
        ({
            let (c1, b1) = nmi_taken(c, b);
            let (c2, b2) = op_rti(c1, b1, AdressingMode::Implicit);
            c2 == Cpu { pc: wsub16(c.pc, 1), p: c.p | 0x20, cycles: 7, ..c }
        }),
{
    reveal(nmi_taken);
    reveal(op_rti);
    reveal(bus_read);
    let hi = (c.pc >> 8u16) as u8;
    let lo = (c.pc & 0x00FF) as u8;
    let (c1, b1) = pushed(c, b, hi);
    let (c2, b2) = pushed(c1, b1, lo);
    let (c3, b3) = pushed(c2, b2, c.p);
    lemma_push_keeps_ram(c, b, hi);
    lemma_push_keeps_ram(c1, b1, lo);
    lemma_push_keeps_ram(c2, b2, c.p);
    lemma_two_pulls(c1, b1, lo, c.p);
    lemma_two_pulls(c, b, hi, lo);
    let p = with_flag(c3.p, Flag::InterruptDisable, true);
    let (b4, vlo) = bus_read(b3, 0xFFFA);
    let (b5, vhi) = bus_read(b4, 0xFFFB);
    let ci = Cpu { p, pc: crate::cpu::semantics::word(vlo, vhi), cycles: 7, ..c3 };
    assert(b5.ram == b3.ram);
    assert(b5.ram.len() == 0x800);
    // the pulls read RAM, which the vector reads left as it was
    let (d1, e1, s) = popped(ci, b5);
    let (d2, e2, pl) = popped(Cpu { p: crate::cpu::semantics::pulled_status(d1.p, s), ..d1 }, e1);
    let (d3, e3, ph) = popped(d2, e2);
    assert(s == c.p);
    assert(pl == lo);
    lemma_stack_cell(c2.sp, c.sp);
    law_ram_write_elsewhere(b2, (0x100 + c2.sp) as u16, (0x100 + c.sp) as u16, c.p);
    assert(ph == hi);
    let pc = c.pc;
    let cp = c.p;
    assert(crate::cpu::semantics::word((pc & 0x00FF) as u8, (pc >> 8u16) as u8) == pc
        && crate::cpu::semantics::pulled_status(cp | 0x04, cp) == cp | 0x20) by (bit_vector)
        requires true;
}

/// PLP after PHP gives back the status, with the unused bit set; the break
/// bit keeps its value (PHP pushes it set, PLP does not load it).
pub proof fn law_plp_after_php(c: Cpu, b: BusView)
    requires
        b.ram.len() == 0x800,
    ensures
        ({
            let (c1, b1) = op_php(c, b, AdressingMode::Implicit);
            let (c2, b2) = op_plp(c1, b1, AdressingMode::Implicit);
            c2 == Cpu { p: c.p | 0x20, ..c }
        }),
{
    reveal(op_php);
    reveal(op_plp);
    let v = c.p | flag_bit(Flag::Break) | flag_bit(Flag::Unused);
    law_pull_after_push(c, b, v);
    let cp = c.p;
    assert(crate::cpu::semantics::pulled_status(cp, cp | 0x10 | 0x20) == cp | 0x20) by (bit_vector)
        requires true;
}

/// ROR undoes ROL on the accumulator: A and the carry come back, Z and N
/// follow A, the other flags and registers stay, and RAM is untouched.
pub proof fn law_ror_undoes_rol(c: Cpu, b: BusView)
    requires
        b.ram.len() == 0x800,
    ensures
        ({
            let (c1, b1) = op_rol(c, b, AdressingMode::Accumulator);
            let (c2, b2) = op_ror(c1, b1, AdressingMode::Accumulator);
            &&& c2 == Cpu { p: zn(c.p, c.a), page_crossed: false, ..c }
            &&& b2 == b
        }),
{
    reveal(op_rol);
    reveal(op_ror);
    reveal(crate::cpu::semantics::fetched);
    reveal(bus_read);
    let a = c.a;
    let p = c.p;
    assert(({
        let r1 = (((a << 1u8) as int) + (if p & 0x01 != 0 { 1int } else { 0int })) as u8;
        let p1 = (if a & 0x80 != 0 { p | 0x01 } else { p & !0x01u8 });
        let p2 = (if r1 == 0 { p1 | 0x02 } else { p1 & !0x02u8 });
        let p3 = (if r1 & 0x80 != 0 { p2 | 0x80 } else { p2 & !0x80u8 });
        let r2 = (((r1 >> 1u8) as int) + (if p3 & 0x01 != 0 { 1int } else { 0int }) * 0x80) as u8;
        let q1 = (if r1 & 0x01 != 0 { p3 | 0x01 } else { p3 & !0x01u8 });
        let q2 = (if r2 == 0 { q1 | 0x02 } else { q1 & !0x02u8 });
        let q3 = (if r2 & 0x80 != 0 { q2 | 0x80 } else { q2 & !0x80u8 });
        let z2 = (if a == 0 { p | 0x02 } else { p & !0x02u8 });
        let z3 = (if a & 0x80 != 0 { z2 | 0x80 } else { z2 & !0x80u8 });
        r2 == a && q3 == z3
    })) by (bit_vector);
}

/// Whether two PPU states are at the same raster position of the same
/// frame parity.
pub open spec fn same_raster(a: PpuView, b: PpuView) -> bool {
    a.cycles == b.cycles && a.scanline == b.scanline && a.odd_frame == b.odd_frame
}

/// The fetch steps of a dot (background tiles, sprite evaluation and sprite
/// fetches) leave the raster position and the frame parity alone: only the
/// clock's own step moves them.
pub proof fn law_fetches_keep_raster(v: PpuView, c: CartridgeView)
    ensures
        same_raster(scanline_fetched(v, c), v),
{
    reveal(scanline_fetched);
    reveal(background_fetched);
    reveal(shifters_updated);
    reveal(x_incremented);
    reveal(y_incremented);
    reveal(background_loaded);
    reveal(tmp_x_copied);
    reveal(extra_name_table_read);
    reveal(sprites_latched);
    reveal(secondary_byte_cleared);
    reveal(evaluation_started);
    reveal(sprite_evaluated);
    reveal(sprite_data_cleared);
    reveal(sprite_fetched);
}

/// The raster position over a whole PPU clock: the dot counter runs through
/// 341 x 262 positions, one step per clock, wrapping after the last dot of
/// scanline 261, where the frame parity flips; on an odd frame with the
/// background shown, the first dot of scanline 0 is skipped (the clock at
/// (0, 0) goes to (0, 2)).
pub proof fn law_ppu_raster(v: PpuView, c: CartridgeView)
    requires
        v.cycles <= 340,
        v.scanline <= 261,
    ensures
        ({
            let w = ppu_clocked(v, c);
            let skip = v.scanline == 0 && v.cycles == 0 && v.odd_frame && show_background(v);
            let p = if skip { 1int } else { v.scanline * 341 + v.cycles };
            &&& w.scanline * 341 + w.cycles == (p + 1) % 89342
            &&& w.odd_frame == (v.odd_frame != (p == 89341))
            &&& w.cycles <= 340 && w.scanline <= 261
        }),
{
    reveal(ppu_clocked);
    reveal(vbl_read_applied);
    reveal(odd_frame_skipped);
    reveal(vblank_updated);
    reveal(tmp_y_copied);
    reveal(pixel_drawn);
    reveal(decay_advanced);
    reveal(time_advanced);
    let v1 = odd_frame_skipped(vbl_read_applied(v));
    law_fetches_keep_raster(v1, c);
}

/// The CPU-rate work of a clock keeps whether samples are produced, and
/// adds at most one sample, after the ones already kept, and only when
/// samples are produced.
proof fn lemma_cpu_apu_samples(n: NesView)
    ensures
        ({
            let m = crate::nes::cpu_apu_stepped(n);
            &&& m.add_samples == n.add_samples
            &&& n.samples.len() <= m.samples.len() <= n.samples.len() + 1
            &&& m.samples.subrange(0, n.samples.len() as int) == n.samples
            &&& !n.add_samples ==> m.samples == n.samples
        }),
{
    reveal(cpu_or_dma_stepped);
    reveal(dma_stepped);
    reveal(dmc_served);
    reveal(apu_interrupts_delivered);
    reveal(sample_kept);
    let m = crate::nes::cpu_apu_stepped(n);
    assert(m.samples.subrange(0, n.samples.len() as int) =~= n.samples);
}

/// Samples come out in the order the APU produced them: a clock of the
/// console keeps the samples already kept, adds at most one after them, and
/// none when samples are not produced; whether samples are produced does
/// not change.
pub proof fn law_samples_in_order(n: NesView)
    ensures
        ({
            let m = nes_clocked(n);
            &&& m.add_samples == n.add_samples
            &&& n.samples.len() <= m.samples.len() <= n.samples.len() + 1
            &&& m.samples.subrange(0, n.samples.len() as int) == n.samples
            &&& !n.add_samples ==> m.samples == n.samples
        }),
{
    reveal(nes_clocked);
    reveal(nmi_delivered);
    lemma_cpu_apu_samples(n);
    let m = nes_clocked(n);
    assert(n.samples.subrange(0, n.samples.len() as int) =~= n.samples);
}

/// The CPU and the APU run on every third clock of the console: on the two
/// clocks between, the APU stays as it was and the CPU changes only by
/// taking an NMI that the PPU asked for; each clock moves the console's
/// clock count by one.
pub proof fn law_cpu_apu_cadence(n: NesView)
    ensures
        nes_clocked(n).total_clock == vstd::wrapping::u64_specs::wrapping_add(n.total_clock, 1),
        n.total_clock % 3 != 0 ==> nes_clocked(n).bus.apu == n.bus.apu,
        n.total_clock % 3 != 0 && !n.bus.ppu.registers.emit_nmi ==> nes_clocked(n).cpu == n.cpu,
{
    reveal(nes_clocked);
    reveal(nmi_delivered);
    reveal(cpu_or_dma_stepped);
    reveal(dma_stepped);
    reveal(dmc_served);
    reveal(apu_interrupts_delivered);
    reveal(sample_kept);
    reveal(nmi_taken);
    reveal(bus_read);
    reveal(bus_written);
}

/// The byte of video memory that an address of $2000-$3FFF lands on: a
/// nametable byte (index 0-$7FF) or a palette entry ($1000 and up).
pub open spec fn vram_cell(m: Mirroring, address: u16) -> int {
    if address <= 0x3EFF {
        let a = if address <= 0x2FFF { address } else { address & 0x2FFF };
        nametable_index(m, a).unwrap()
    } else {
        0x1000 + palette_index(address)
    }
}

/// A write to video memory leaves the other bytes as they were: under
/// horizontal or vertical mirroring, a read at an address of $2000-$3FFF
/// that lands on another nametable byte or palette entry than the written
/// one gives what it gave before the write.
pub proof fn law_vram_write_elsewhere(b: PPUBusView, c: CartridgeView, address: u16, other: u16, value: u8)
    requires
        b.name_tables.len() == 0x800,
        b.palette_table.len() == 0x20,
        crate::cartridge::cartridge::cart_mirroring(c) == Mirroring::Horizontal
            || crate::cartridge::cartridge::cart_mirroring(c) == Mirroring::Vertical,
        0x2000 <= address <= 0x3FFF,
        0x2000 <= other <= 0x3FFF,
        vram_cell(crate::cartridge::cartridge::cart_mirroring(c), address)
            != vram_cell(crate::cartridge::cartridge::cart_mirroring(c), other),
    ensures
        ppu_bus_read(ppu_bus_written(b, c, address, value), c, other) == ppu_bus_read(b, c, other),
{
    crate::bits::lemma_word_masks();
    assert((address & 0x03FF) < 0x400);
    assert((other & 0x03FF) < 0x400);
    assert((address & 0x001F) < 0x20);
    assert((other & 0x001F) < 0x20);
}

/// The DMC's output level stays within 0..=127: a write to $4011 loads the
/// seven low bits of the value, and a clock of the channel moves the level
/// by two or leaves it, never out of that range.
pub proof fn law_dmc_output_level(d: Dmc, a: Apu, value: u8)
    requires
        d.output_level <= 127,
    ensures
        apu_written(a, 0x4011, value).dmc.output_level == value & 0x7F,
        value & 0x7F <= 127,
        dmc_clocked(d).output_level <= 127,
        dmc_clocked(d).output_level == d.output_level
            || dmc_clocked(d).output_level == d.output_level + 2
            || dmc_clocked(d).output_level + 2 == d.output_level,
{
    reveal(apu_written);
    crate::bits::lemma_byte_values();
    assert(value & 0x7F <= 127);
}

/// The work of a console clock comes in order: the CPU-rate work (on every
/// third clock), then the NMI that the PPU asked for, then the PPU's dot, and
/// the clock count moves by one. So an NMI asked for before a clock is taken
/// before the PPU moves, and the PPU draws on the bus that the CPU left.
pub proof fn law_clock_order(n: NesView)
    ensures
        nes_clocked(n) == ({
            let n1 = if n.total_clock % 3 == 0 { crate::nes::cpu_apu_stepped(n) } else { n };
            let n2 = nmi_delivered(n1);
            NesView {
                total_clock: vstd::wrapping::u64_specs::wrapping_add(n2.total_clock, 1),
                bus: BusView { ppu: ppu_clocked(n2.bus.ppu, n2.bus.cartridge.unwrap()), ..n2.bus },
                ..n2
            }
        }),
{
    reveal(nes_clocked);
}

/// BIT tests the operand against A: Z is set exactly when A AND the operand
/// is 0, N takes bit 7 and V bit 6 of the operand; A, X, Y, the stack
/// pointer and the other flags stay, and the bus is left as the operand read
/// left it.
pub proof fn law_bit_flags(c: Cpu, b: BusView, mode: AdressingMode)
    ensures
        ({
            let (c1, b1, _, m) = crate::cpu::semantics::operand(c, b, mode);
            let (c2, b2) = crate::cpu::semantics::op_bit(c, b, mode);
            &&& (c2.p & 0x40 == 0x40) == (m & 0x40 == 0x40)
            &&& (c2.p & 0x80 == 0x80) == (m & 0x80 == 0x80)
            &&& (c2.p & 0x02 == 0x02) == (c.a & m == 0)
            &&& c2.p & 0x3D == c.p & 0x3D
            &&& c2.a == c.a && c2.x == c.x && c2.y == c.y && c2.sp == c.sp
            &&& b2 == b1
        }),
{
    reveal(crate::cpu::semantics::op_bit);
    reveal(crate::cpu::semantics::fetched);
    let (c1, b1, _, m) = crate::cpu::semantics::operand(c, b, mode);
    assert(c1.p == c.p && c1.a == c.a && c1.x == c.x && c1.y == c.y && c1.sp == c.sp);
    crate::bits::lemma_bitset();
    crate::bits::lemma_byte_values();
    let p = c.p;
    let p1 = crate::bits::bitset(p, 0x02, c.a & m == 0);
    let p2 = crate::bits::bitset(p1, 0x80, m & 0x80 != 0);
    let p3 = crate::bits::bitset(p2, 0x40, m & 0x40 != 0);
    assert(with_flag(with_flag(with_flag(p, Flag::Zero, c.a & m == 0), Flag::Negative, m & 0x80 != 0), Flag::Overflow,
        m & 0x40 != 0) == p3);
    assert(p3 & 0x40 == 0x40 <==> m & 0x40 != 0);
    assert(p3 & 0x80 == p2 & 0x80 && (p2 & 0x80 == 0x80 <==> m & 0x80 != 0));
    assert(p3 & 0x02 == p2 & 0x02 && p2 & 0x02 == p1 & 0x02 && (p1 & 0x02 == 0x02 <==> c.a & m == 0));
    assert(p3 & 0x3D == p2 & 0x3D && p2 & 0x3D == p1 & 0x3D && p1 & 0x3D == p & 0x3D);
    assert((m & 0x40 != 0) == (m & 0x40 == 0x40) && (m & 0x80 != 0) == (m & 0x80 == 0x80));
}

/// A write or a read of $2007 moves the VRAM address on by 32 when bit 2 of
/// PPUCTRL is set and by 1 when it is clear (wrapping after $FFFF).
pub proof fn law_vram_address_increment(r: Registers, b: PPUBusView, o: crate::ppu::oam::OamView, c: CartridgeView, value: u8)
    ensures
        ppu_register_written(r, b, c, 0x2007, value).1.vram_address
            == (b.vram_address + (if r.ctrl & 0x04 != 0 { 32int } else { 1int })) % 0x10000,
        ppu_register_read(r, b, o, c, 0x2007).1.vram_address
            == (b.vram_address + (if r.ctrl & 0x04 != 0 { 32int } else { 1int })) % 0x10000,
{
    crate::bits::lemma_byte_values();
    let ctrl = r.ctrl;
    assert((ctrl & 0x04 == 0x04) == (ctrl & 0x04 != 0));
}

/// The first opaque sprite found from `i` on, when there is one, is opaque
/// and lies between `i` and the eighth sprite.
proof fn lemma_first_opaque_sprite(v: PpuView, i: int)
    requires
        0 <= i,
    ensures
        first_opaque_sprite(v, i) < v.current_sprite_count ==> {
            let k = first_opaque_sprite(v, i);
            &&& i <= k < 8
            &&& crate::ppu::render::sprite_value(v, k) != 0
        },
    decreases 8 - i,
{
    if !(i >= v.current_sprite_count || i >= 8) && !(v.sprite_x[i] == 0 && crate::ppu::render::sprite_value(v, i) != 0) {
        lemma_first_opaque_sprite(v, i + 1);
    }
}

/// Sprite priority: where the background and the first opaque sprite are
/// both opaque and both shown, the pixel takes the sprite's palette (4 plus
/// attribute bits 0-1) and pattern exactly when bit 5 of the sprite's
/// attribute is clear, and the background's otherwise; the frame gets the
/// colour of that palette entry.
pub proof fn law_sprite_priority(v: PpuView, c: CartridgeView)
    requires
        show_background(v),
        crate::ppu::render::show_sprites(v),
        first_opaque_sprite(v, 0) < v.current_sprite_count,
        crate::ppu::render::shifter_value(v.pattern_shifter_lo, v.pattern_shifter_hi, v.registers.fine_x) != 0,
    ensures
        ({
            let k = first_opaque_sprite(v, 0);
            let a = v.sprite_attributes[k];
            let sprite = (((a & 0x03) + 4) as u8, crate::ppu::render::sprite_value(v, k));
            let background = (
                crate::ppu::render::shifter_value(v.palette_shifter_lo, v.palette_shifter_hi, v.registers.fine_x),
                crate::ppu::render::shifter_value(v.pattern_shifter_lo, v.pattern_shifter_hi, v.registers.fine_x),
            );
            let chosen = if a & 0x20 == 0 { sprite } else { background };
            &&& sprite.1 != 0
            &&& crate::ppu::render::pixel_choice(v) == chosen
            &&& v.scanline < 240 && 1 <= v.cycles <= 256 && v.frame.len() == 256 * 240 ==>
                pixel_drawn(v, c).frame[256 * v.scanline + v.cycles - 1]
                    == crate::ppu::pixel_color(v, c, chosen.0, chosen.1)
        }),
{
    lemma_first_opaque_sprite(v, 0);
    reveal(pixel_drawn);
}

/// The MMC1 mirroring follows control register bits 0-1: one-screen lower,
/// one-screen upper, vertical, horizontal for 0, 1, 2, 3 (the control
/// register is loaded as `crate::cartridge::laws::law_mmc1_serial_load`
/// states).
pub proof fn law_mmc1_mirroring(r: crate::cartridge::mapper_001::Mapper1Regs)
    ensures
        ({
            let m = r.control_register & 0x03;
            crate::cartridge::mapper_001::mirroring_of(r.control_register) == (if m == 0 {
                Mirroring::OneScreenLower
            } else if m == 1 {
                Mirroring::OneScreenUpper
            } else if m == 2 {
                Mirroring::Vertical
            } else {
                Mirroring::Horizontal
            })
        }),
{
}

/// A write to a pulse channel's control register ($4000 or $4004) selects
/// its duty by bits 6-7 of the value: 12.5%, 25%, 50% and 25% inverted, the
/// sequences $01, $03, $0F and $FC.
pub proof fn law_pulse_duty(a: Apu, value: u8)
    ensures
        ({
            let d = (value >> 6u8) as int;
            let sequences = seq![0x01u8, 0x03u8, 0x0Fu8, 0xFCu8];
            let duties = seq![
                crate::apu::pulse::Duty::Wave125,
                crate::apu::pulse::Duty::Wave250,
                crate::apu::pulse::Duty::Wave500,
                crate::apu::pulse::Duty::WaveInv250,
            ];
            &&& 0 <= d < 4
            &&& apu_written(a, 0x4000, value).pulse1.sequence == sequences[d]
            &&& apu_written(a, 0x4000, value).pulse1.duty == duties[d]
            &&& apu_written(a, 0x4004, value).pulse2.sequence == sequences[d]
            &&& apu_written(a, 0x4004, value).pulse2.duty == duties[d]
        }),
{
    reveal(apu_written);
    crate::bits::lemma_byte_values();
    assert((value & 0xC0) >> 6u8 == value >> 6u8 && value >> 6u8 < 4);
}

} // verus!
