//! What the CPU's accesses to the PPU registers do to the address latches,
//! stated over the bits of the 15-bit VRAM address: coarse X in bits 0-4,
//! coarse Y in bits 5-9, the nametable in bits 10-11, fine Y in bits 12-14.

use vstd::prelude::*;
use crate::cartridge::cartridge::CartridgeView;
use super::bus::PPUBusView;
use super::oam::OamView;
use super::registers::{Registers, ppu_register_read, ppu_register_written};
use super::PpuView;
use super::render::{
    attribute_bits, attribute_fetch_address, background_tile_address, name_table_fetch_address, rendering,
    sprite_evaluated, sprite_height, x_incremented, y_incremented, vblank_updated, reversed_bits,
};

verus! {

/// Two writes to $2006, the latch starting on the first: the high byte's
/// six low bits, then the low byte, make the VRAM address (and the
/// temporary one), and the latch is back on the first write.
pub proof fn law_address_writes(r: Registers, b: PPUBusView, c: CartridgeView, hi: u8, lo: u8)
    requires
        !r.w,
    ensures
        ({
            let (r1, b1) = ppu_register_written(r, b, c, 0x2006, hi);
            let (r2, b2) = ppu_register_written(r1, b1, c, 0x2006, lo);
            &&& r1.w && !r2.w
            &&& b1.vram_address == b.vram_address
            &&& b2.vram_address == (hi % 64) * 256 + lo
            &&& b2.tmp_vram_address == b2.vram_address
        }),
{
    let t = b.tmp_vram_address;
    let h = (hi & 0x3F) as u16;
    let t1 = ((t & !0x3F00u16) | (h << 8u16)) & 0x3FFF;
    let l = lo as u16;
    let t2 = (t1 & !0x00FFu16) | (l << 0u16);
    assert(t2 as int == (hi % 64) * 256 + lo) by (bit_vector)
        requires
            h == (hi & 0x3F) as u16,
            l == lo as u16,
            t1 == ((t & !0x3F00u16) | (h << 8u16)) & 0x3FFF,
            t2 == (t1 & !0x00FFu16) | (l << 0u16);
}

/// Two writes to $2005, the latch starting on the first: the first sets
/// fine X to its three low bits and coarse X to its five high bits, the
/// second fine Y and coarse Y likewise; the nametable bits of the temporary
/// address and the VRAM address itself stay, and the latch is back on the
/// first write.
pub proof fn law_scroll_writes(r: Registers, b: PPUBusView, c: CartridgeView, x: u8, y: u8)
    requires
        !r.w,
    ensures
        ({
            let (r1, b1) = ppu_register_written(r, b, c, 0x2005, x);
            let (r2, b2) = ppu_register_written(r1, b1, c, 0x2005, y);
            let t = b2.tmp_vram_address;
            &&& r1.w && !r2.w
            &&& r2.fine_x == x % 8
            &&& t % 32 == x / 8
            &&& (t / 32) % 32 == y / 8
            &&& (t / 4096) % 8 == y % 8
            &&& (t / 1024) % 4 == (b.tmp_vram_address / 1024) % 4
            &&& b2.vram_address == b.vram_address
        }),
{
    let t0 = b.tmp_vram_address;
    let cx = ((x & 0xF8) as u16) >> 3u16;
    let t1 = (t0 & !0x001Fu16) | (cx << 0u16);
    let fy = (y & 0x07) as u16;
    let t2 = (t1 & !0x7000u16) | (fy << 12u16);
    let cy = ((y & 0xF8) as u16) >> 3u16;
    let t3 = (t2 & !0x03E0u16) | (cy << 5u16);
    assert(x & 0x07 == x % 8 && t3 % 32 == x / 8 && (t3 / 32) % 32 == y / 8 && (t3 / 4096) % 8 == y % 8
        && (t3 / 1024) % 4 == (t0 / 1024) % 4) by (bit_vector)
        requires
            cx == ((x & 0xF8) as u16) >> 3u16,
            t1 == (t0 & !0x001Fu16) | (cx << 0u16),
            fy == (y & 0x07) as u16,
            t2 == (t1 & !0x7000u16) | (fy << 12u16),
            cy == ((y & 0xF8) as u16) >> 3u16,
            t3 == (t2 & !0x03E0u16) | (cy << 5u16);
}

/// A write to $2000 sets the control register and copies its two low bits
/// into the nametable bits of the temporary address, leaving its other bits.
pub proof fn law_control_write(r: Registers, b: PPUBusView, c: CartridgeView, value: u8)
    ensures
        ({
            let (r1, b1) = ppu_register_written(r, b, c, 0x2000, value);
            let t = b.tmp_vram_address;
            let t1 = b1.tmp_vram_address;
            &&& r1.ctrl == value
            &&& (t1 / 1024) % 4 == value % 4
            &&& t1 % 1024 == t % 1024
            &&& t1 / 4096 == t / 4096
            &&& b1.vram_address == b.vram_address
        }),
{
    let t = b.tmp_vram_address;
    let n = (value & 0x03) as u16;
    let t1 = (t & !0x0C00u16) | (n << 10u16);
    assert((t1 / 1024) % 4 == value % 4 && t1 % 1024 == t % 1024 && t1 / 4096 == t / 4096) by (bit_vector)
        requires
            n == (value & 0x03) as u16,
            t1 == (t & !0x0C00u16) | (n << 10u16);
}

/// A read of $2002 gives the three status bits (vertical blank, sprite 0
/// hit, sprite overflow) over the five low bits of the data latch, and
/// resets the $2005/$2006 latch to the first write.
pub proof fn law_status_read(r: Registers, b: PPUBusView, o: OamView, c: CartridgeView)
    ensures
        ({
            let (r1, b1, v) = ppu_register_read(r, b, o, c, 0x2002);
            &&& v == Ok::<u8, crate::errors::InvalidPPURegisterReadError>(((r.status / 32) * 32 + r.decay % 32) as u8)
            &&& !r1.w
            &&& b1 == b
        }),
{
    let s = r.status;
    let d = r.decay;
    crate::bits::lemma_byte_values();
    assert(((s & 0xE0) | (d & 0x1F)) as int == (s / 32) * 32 + d % 32);
}

/// A write to $2004 moves the OAM address on by one (wrapping after 255);
/// a write to $2003 sets it; a write to $4014 asks for a DMA from the page
/// written.
pub proof fn law_oam_address(r: Registers, b: PPUBusView, c: CartridgeView, value: u8)
    ensures
        ppu_register_written(r, b, c, 0x2004, value).0.oam_addr == (r.oam_addr + 1) % 256,
        ppu_register_written(r, b, c, 0x2003, value).0.oam_addr == value,
        ppu_register_written(r, b, c, 0x4014, value).0.perform_dma,
        ppu_register_written(r, b, c, 0x4014, value).0.oam_dma == value,
{
}

/// While rendering, the horizontal step moves coarse X one tile right; from
/// tile 31 it goes back to 0 and switches the horizontal nametable (bit 10).
/// Nothing else of the address changes, and nothing at all when not
/// rendering.
pub proof fn law_coarse_x_increment(v: PpuView)
    ensures
        ({
            let a = v.bus.vram_address;
            let a1 = x_incremented(v).bus.vram_address;
            &&& !rendering(v) ==> x_incremented(v) == v
            &&& rendering(v) && a % 32 != 31 ==> a1 == a + 1
            &&& rendering(v) && a % 32 == 31 ==> a1 % 32 == 0 && (a1 / 1024) % 2 != (a / 1024) % 2
                && (a1 / 32) % 32 == (a / 32) % 32 && a1 / 2048 == a / 2048
        }),
{
    reveal(x_incremented);
    let a = v.bus.vram_address;
    let x = (a & 0x001F) >> 0u16;
    let a1 = (a & !0x001Fu16) | (0u16 << 0u16);
    let nx = (a1 & 0x0400) >> 10u16;
    let nv: u16 = if nx == 0 { 1 } else { 0 };
    let a2 = (a1 & !0x0400u16) | (nv << 10u16);
    let a3 = (a & !0x001Fu16) | (((x + 1) as u16) << 0u16);
    assert(x as int == a % 32 && (x != 31 ==> a3 == a + 1)
        && a2 % 32 == 0 && (a2 / 1024) % 2 != (a / 1024) % 2 && (a2 / 32) % 32 == (a / 32) % 32 && a2 / 2048 == a / 2048)
        by (bit_vector)
        requires
            x == (a & 0x001F) >> 0u16,
            a3 == (a & !0x001Fu16) | (((x + 1) as u16) << 0u16),
            a1 == (a & !0x001Fu16) | (0u16 << 0u16),
            nx == (a1 & 0x0400) >> 10u16,
            nv == (if nx == 0 { 1u16 } else { 0u16 }),
            a2 == (a1 & !0x0400u16) | (nv << 10u16);
}

/// While rendering, the vertical step moves fine Y (bits 12-14) one row
/// down; from row 7 it goes back to 0 and coarse Y (bits 5-9) moves one tile
/// down, from tile 29 back to 0 switching the vertical nametable (bit 11),
/// and from tile 31 back to 0 without switching.
pub proof fn law_fine_y_increment(v: PpuView)
    ensures
        ({
            let a = v.bus.vram_address;
            let a1 = y_incremented(v).bus.vram_address;
            let fy = (a / 4096) % 8;
            let cy = (a / 32) % 32;
            &&& !rendering(v) ==> y_incremented(v) == v
            &&& rendering(v) && fy < 7 ==> a1 == a + 4096
            &&& rendering(v) && fy == 7 ==> {
                &&& (a1 / 4096) % 8 == 0
                &&& a1 % 32 == a % 32
                &&& (a1 / 1024) % 2 == (a / 1024) % 2
                &&& a1 / 32768 == a / 32768
                &&& cy == 29 ==> (a1 / 32) % 32 == 0 && (a1 / 2048) % 2 != (a / 2048) % 2
                &&& cy == 31 ==> (a1 / 32) % 32 == 0 && (a1 / 2048) % 2 == (a / 2048) % 2
                &&& cy != 29 && cy != 31 ==> (a1 / 32) % 32 == cy + 1 && (a1 / 2048) % 2 == (a / 2048) % 2
            }
        }),
{
    reveal(y_incremented);
    let a = v.bus.vram_address;
    let y = (a & 0x7000) >> 12u16;
    let a1 = (a & !0x7000u16) | (0u16 << 12u16);
    let cy = (a1 & 0x03E0) >> 5u16;
    let a2 = (a1 & !0x03E0u16) | (0u16 << 5u16);
    let ny = (a2 & 0x0800) >> 11u16;
    let nv: u16 = if ny == 0 { 1 } else { 0 };
    let a3 = (a2 & !0x0800u16) | (nv << 11u16);
    let a4 = (a1 & !0x03E0u16) | (((cy + 1) as u16) << 5u16);
    let a5 = (a & !0x7000u16) | (((y + 1) as u16) << 12u16);
    assert(y as int == (a / 4096) % 8 && cy as int == (a / 32) % 32 && (y < 7 ==> a5 == a + 4096)
        && (a3 / 4096) % 8 == 0 && a3 % 32 == a % 32 && (a3 / 1024) % 2 == (a / 1024) % 2 && a3 / 32768 == a / 32768
        && (a3 / 32) % 32 == 0 && (a3 / 2048) % 2 != (a / 2048) % 2
        && (a2 / 4096) % 8 == 0 && a2 % 32 == a % 32 && (a2 / 1024) % 2 == (a / 1024) % 2 && a2 / 32768 == a / 32768
        && (a2 / 32) % 32 == 0 && (a2 / 2048) % 2 == (a / 2048) % 2
        && (cy < 31 ==> (a4 / 4096) % 8 == 0 && a4 % 32 == a % 32 && (a4 / 1024) % 2 == (a / 1024) % 2
            && a4 / 32768 == a / 32768 && (a4 / 32) % 32 == cy + 1 && (a4 / 2048) % 2 == (a / 2048) % 2)) by (bit_vector)
        requires
            y == (a & 0x7000) >> 12u16,
            a1 == (a & !0x7000u16) | (0u16 << 12u16),
            cy == (a1 & 0x03E0) >> 5u16,
            a2 == (a1 & !0x03E0u16) | (0u16 << 5u16),
            ny == (a2 & 0x0800) >> 11u16,
            nv == (if ny == 0 { 1u16 } else { 0u16 }),
            a3 == (a2 & !0x0800u16) | (nv << 11u16),
            a4 == (a1 & !0x03E0u16) | (((cy + 1) as u16) << 5u16),
            a5 == (a & !0x7000u16) | (((y + 1) as u16) << 12u16);
}

/// The background fetch addresses for VRAM address `a` (coarse X `cx`,
/// coarse Y `cy`, nametable `nt`, fine Y `fy`): the tile's nametable byte at
/// $2000 plus the address's twelve low bits; its attribute byte at $23C0 +
/// $400 * nt + 8 * (cy / 4) + cx / 4, whose two bits for the tile are the
/// quadrant picked by bit 1 of cx (right) and bit 1 of cy (bottom); the
/// tile's low plane byte at 16 * tile + fy, in the pattern table that
/// PPUCTRL bit 4 selects.
pub proof fn law_background_fetch_addresses(v: PpuView, byte: u8)
    ensures
        ({
            let a = v.bus.vram_address;
            let cx = a % 32;
            let cy = (a / 32) % 32;
            let nt = (a / 1024) % 4;
            let fy = (a / 4096) % 8;
            let divisor = (if cy % 4 >= 2 { 16int } else { 1int }) * (if cx % 4 >= 2 { 4int } else { 1int });
            &&& name_table_fetch_address(a) == 0x2000 + a % 4096
            &&& attribute_fetch_address(a) == 0x23C0 + 0x400 * nt + 8 * (cy / 4) + cx / 4
            &&& attribute_bits(a, byte) == (byte as int / divisor) % 4
            &&& background_tile_address(v)
                == fy + 16 * v.next_name_table_byte + (if v.registers.ctrl & 0x10 != 0 { 0x1000int } else { 0 })
        }),
{
    let a = v.bus.vram_address;
    let cx = (a & 0x001F) >> 0u16;
    let cy = (a & 0x03E0) >> 5u16;
    let nt = (a & 0x0C00) >> 10u16;
    let fy = (a & 0x7000) >> 12u16;
    let ctrl = v.registers.ctrl;
    let t = v.next_name_table_byte;
    assert(cx as int == a % 32 && cy as int == (a / 32) % 32 && nt as int == (a / 1024) % 4 && fy as int == (a / 4096) % 8
        && (a & 0x0FFF) as int == a % 4096
        && (cx >> 2u16) as int == cx / 4 && ((cy >> 2u16) << 3u16) as int == 8 * (cy / 4) && (nt << 10u16) as int == 0x400 * nt
        && (cy & 0x02 == 0x02) == (cy % 4 >= 2) && (cx & 0x02 == 0x02) == (cx % 4 >= 2)
        && (byte >> 4u8) as int == byte / 16 && (byte >> 2u8) as int == byte / 4 && ((byte >> 4u8) >> 2u8) as int == byte / 64
        && (byte & 0x03) as int == byte % 4 && ((byte >> 4u8) & 0x03) as int == (byte / 16) % 4
        && ((byte >> 2u8) & 0x03) as int == (byte / 4) % 4 && (((byte >> 4u8) >> 2u8) & 0x03) as int == (byte / 64) % 4
        && (ctrl & 0x10 == 0x10) == (ctrl & 0x10 != 0) && ((t as u16) << 4u16) as int == 16 * t
        && (1u16 << 12u16) == 0x1000u16 && (0u16 << 12u16) == 0u16) by (bit_vector)
        requires cx == (a & 0x001F) >> 0u16, cy == (a & 0x03E0) >> 5u16, nt == (a & 0x0C00) >> 10u16, fy == (a & 0x7000) >> 12u16;
    assert(name_table_fetch_address(a) == 0x2000 + a % 4096);
    assert(attribute_fetch_address(a) == 0x23C0 + 0x400 * nt + 8 * (cy / 4) + cx / 4);
    if cy % 4 >= 2 {
        if cx % 4 >= 2 {
            assert(attribute_bits(a, byte) == (byte as int / 64) % 4);
        } else {
            assert(attribute_bits(a, byte) == (byte as int / 16) % 4);
        }
    } else {
        if cx % 4 >= 2 {
            assert(attribute_bits(a, byte) == (byte as int / 4) % 4);
        } else {
            assert(attribute_bits(a, byte) == (byte as int / 1) % 4);
        }
    }
}

/// Sprites are 8 rows high, or 16 when PPUCTRL bit 5 is set. During
/// evaluation, on the scanlines that are drawn, a sprite whose top row is
/// at most the scanline and whose last row is at least it joins the
/// sprites of the next scanline (while there are fewer than eight); any
/// other sprite changes nothing.
pub proof fn law_sprite_evaluation(v: PpuView)
    requires
        65 <= v.cycles < 256,
        (v.cycles - 65) % 3 == 0,
        v.scanline < 240,
        v.next_sprite_count < 8,
        v.oam.primary.len() == 64,
    ensures
        sprite_height(v) == if v.registers.ctrl & 0x20 != 0 { 16int } else { 8int },
        ({
            let s = v.oam.primary[(v.cycles - 65) / 3];
            let w = sprite_evaluated(v);
            let in_range = s.y <= v.scanline < s.y + sprite_height(v);
            &&& in_range ==> w.next_sprite_count == v.next_sprite_count + 1
                && w.oam.secondary == v.oam.secondary.update(v.next_sprite_count as int, s)
            &&& !in_range ==> w == v
        }),
{
    reveal(sprite_evaluated);
    crate::bits::lemma_byte_values();
    let ctrl = v.registers.ctrl;
    assert((ctrl & 0x20 == 0x20) == (ctrl & 0x20 != 0));
}

/// The colour of a pixel is the palette RAM entry 4 * palette + pattern
/// from $3F00, looked up in the selected system palette.
pub proof fn law_pixel_colour_entry(v: PpuView, c: CartridgeView, palette: u8, pattern: u8)
    requires
        palette < 8,
        pattern < 4,
    ensures
        super::pixel_color(v, c, palette, pattern)
            == super::palette_ram_color(v, c, (0x3F00 + 4 * palette + pattern) as u16),
{
    assert(((palette as u16) << 2u16) as int == 4 * palette) by (bit_vector) requires palette < 8;
}

/// The vertical blank: at dot 1 of scanline 241 (unless a $2002 read just
/// suppressed it) status bit 7 is set, and an NMI is asked for when PPUCTRL
/// bit 7 is set; at dot 1 of scanline 261 status bits 7, 6 and 5 (vertical
/// blank, sprite 0 hit, sprite overflow) are cleared. The other status bits
/// stay, and nothing changes at the other dots.
pub proof fn law_vertical_blank(v: PpuView, suppressed: bool)
    ensures
        ({
            let w = vblank_updated(v, suppressed);
            let s = v.registers.status;
            let t = w.registers.status;
            &&& v.scanline == 241 && v.cycles == 1 && !suppressed ==> t & 0x80 == 0x80 && t & 0x7F == s & 0x7F
                && w.registers.emit_nmi == (v.registers.ctrl & 0x80 == 0x80 || v.registers.emit_nmi)
            &&& v.scanline == 261 && v.cycles == 1 ==> t & 0x80 == 0 && t & 0x40 == 0 && t & 0x20 == 0 && t & 0x1F == s & 0x1F
            &&& !(v.cycles == 1 && (v.scanline == 261 || (v.scanline == 241 && !suppressed))) ==> w == v
        }),
{
    reveal(vblank_updated);
    crate::bits::lemma_bitset();
    crate::bits::lemma_byte_values();
    let s = v.registers.status;
    let s1 = crate::bits::bitset(s, 0x80, true);
    assert(s | 0x80u8 == s1);
    assert(s1 & 0x80 == 0x80 && s1 & 0x7F == s & 0x7F);
    let c1 = crate::bits::bitset(s, 0x80, false);
    let c2 = crate::bits::bitset(c1, 0x40, false);
    let c3 = crate::bits::bitset(c2, 0x20, false);
    assert(s & !0x80u8 & !0x40u8 & !0x20u8 == c3);
    assert(c3 & 0x80 == c2 & 0x80 && c2 & 0x80 == c1 & 0x80 && c1 & 0x80 == 0);
    assert(c3 & 0x40 == c2 & 0x40 && c2 & 0x40 == 0);
    assert(c3 & 0x20 == 0);
    assert(c3 & 0x1F == c2 & 0x1F && c2 & 0x1F == c1 & 0x1F && c1 & 0x1F == s & 0x1F);
    let ctrl = v.registers.ctrl;
    assert((ctrl & 0x80 == 0x80) == (ctrl & 0x80 != 0));
}

/// A horizontally flipped sprite row is read with its bits reversed: bit i
/// of the result is bit 7 - i of the pattern byte.
pub proof fn law_reversed_bits(b: u8, i: u8)
    requires
        i < 8,
    ensures
        (reversed_bits(b) >> i) & 1 == (b >> (7 - i) as u8) & 1,
{
    assert(i < 8 ==> (reversed_bits(b) >> i) & 1 == (b >> (7 - i) as u8) & 1) by (bit_vector);
}

} // verus!
