use vstd::prelude::*;
use crate::cartridge::cartridge::{Cartridge, CartridgeView};
use super::{Ppu, PpuView, pixel_color};
use super::bus::{address_part, with_address_part};
use super::enums::{ControlFlag, MaskFlag, StatusFlag, VRAMAddressMask, status_bit};
use super::oam::sprite_with_byte;
use super::registers::{Registers, bus_value, control_flag};
use super::sprite::Sprite;

verus! {

pub open spec fn show_background(v: PpuView) -> bool {
    v.registers.mask & 0x08 == 0x08
}

pub open spec fn show_sprites(v: PpuView) -> bool {
    v.registers.mask & 0x10 == 0x10
}

/// Rendering is on when the background or the sprites are shown.
pub open spec fn rendering(v: PpuView) -> bool {
    show_background(v) || show_sprites(v)
}

pub open spec fn with_vram(v: PpuView, address: u16) -> PpuView {
    PpuView { bus: super::bus::PPUBusView { vram_address: address, ..v.bus }, ..v }
}

pub open spec fn with_status(v: PpuView, status: u8) -> PpuView {
    PpuView { registers: Registers { status, ..v.registers }, ..v }
}

/// At the start of a clock, a pending $2002 read clears the vertical blank
/// flag.
#[verifier::opaque]
pub open spec fn vbl_read_applied(v: PpuView) -> PpuView {
    if v.registers.clear_vbl {
        PpuView {
            registers: Registers {
                status: v.registers.status & !status_bit(StatusFlag::VBlank),
                clear_vbl: false,
                ..v.registers
            },
            ..v
        }
    } else {
        v
    }
}

/// The first cycle of an odd frame is skipped when the background is shown.
#[verifier::opaque]
pub open spec fn odd_frame_skipped(v: PpuView) -> PpuView {
    if v.scanline == 0 && v.cycles == 0 && v.odd_frame && show_background(v) {
        PpuView { cycles: 1, ..v }
    } else {
        v
    }
}

/// The shifters move one pixel: the background ones when the background is
/// shown, and during cycles 1-257 the sprites in range (x counter at 0) or
/// their x counters.
#[verifier::opaque]
pub open spec fn shifters_updated(v: PpuView) -> PpuView {
    let v1 = if show_background(v) {
        PpuView {
            pattern_shifter_lo: v.pattern_shifter_lo << 1u16,
            pattern_shifter_hi: v.pattern_shifter_hi << 1u16,
            palette_shifter_lo: v.palette_shifter_lo << 1u16,
            palette_shifter_hi: v.palette_shifter_hi << 1u16,
            ..v
        }
    } else {
        v
    };
    if show_sprites(v) && 1 <= v.cycles <= 257 {
        let n = v.current_sprite_count as int;
        PpuView {
            sprite_x: Seq::new(8, |i: int| if i < n && v.sprite_x[i] != 0 { (v.sprite_x[i] - 1) as u8 } else { v.sprite_x[i] }),
            sprite_shifters_lo: Seq::new(8, |i: int| if i < n && v.sprite_x[i] == 0 { v.sprite_shifters_lo[i] << 1u8 } else { v.sprite_shifters_lo[i] }),
            sprite_shifters_hi: Seq::new(8, |i: int| if i < n && v.sprite_x[i] == 0 { v.sprite_shifters_hi[i] << 1u8 } else { v.sprite_shifters_hi[i] }),
            ..v1
        }
    } else {
        v1
    }
}

/// The fetched tile goes into the low bytes of the background shifters.
#[verifier::opaque]
pub open spec fn background_loaded(v: PpuView) -> PpuView {
    PpuView {
        pattern_shifter_lo: (v.pattern_shifter_lo & 0xFF00) | (v.next_low_background_byte as u16),
        pattern_shifter_hi: (v.pattern_shifter_hi & 0xFF00) | (v.next_high_background_byte as u16),
        palette_shifter_lo: (v.palette_shifter_lo & 0xFF00) | (if v.next_attribute_table_byte & 0x01 == 0x01 { 0x00FFu16 } else { 0u16 }),
        palette_shifter_hi: (v.palette_shifter_hi & 0xFF00) | (if v.next_attribute_table_byte & 0x02 == 0x02 { 0x00FFu16 } else { 0u16 }),
        ..v
    }
}

/// The nametable byte address of the tile under the VRAM address.
pub open spec fn name_table_fetch_address(vram: u16) -> u16 {
    ((vram & 0x0FFF) + 0x2000) as u16
}

/// The attribute byte address of the tile under the VRAM address.
pub open spec fn attribute_fetch_address(vram: u16) -> u16 {
    ((address_part(vram, VRAMAddressMask::CoarseXScroll) >> 2u16)
        + ((address_part(vram, VRAMAddressMask::CoarseYScroll) >> 2u16) << 3u16)
        + (address_part(vram, VRAMAddressMask::NametableSelect) << 10u16) + 0x23C0) as u16
}

/// The two palette bits of the tile under the VRAM address, from its
/// attribute byte.
pub open spec fn attribute_bits(vram: u16, byte: u8) -> u8 {
    let b1 = if address_part(vram, VRAMAddressMask::CoarseYScroll) & 0x02 == 0x02 { byte >> 4u8 } else { byte };
    let b2 = if address_part(vram, VRAMAddressMask::CoarseXScroll) & 0x02 == 0x02 { b1 >> 2u8 } else { b1 };
    b2 & 0x03
}

/// The address of the low plane byte of the background tile being fetched.
pub open spec fn background_tile_address(v: PpuView) -> u16 {
    (address_part(v.bus.vram_address, VRAMAddressMask::FineY) + ((v.next_name_table_byte as u16) << 4u16)
        + ((control_flag(v.registers.ctrl, ControlFlag::BackgroundPatternTableAddress) as u16) << 12u16)) as u16
}

/// The coarse X scroll moves one tile right, wrapping into the next
/// horizontal nametable (when rendering).
#[verifier::opaque]
pub open spec fn x_incremented(v: PpuView) -> PpuView {
    if rendering(v) {
        let a = v.bus.vram_address;
        let x = address_part(a, VRAMAddressMask::CoarseXScroll);
        if x == 31 {
            let a1 = with_address_part(a, VRAMAddressMask::CoarseXScroll, 0);
            let nx = address_part(a1, VRAMAddressMask::NametableX);
            with_vram(v, with_address_part(a1, VRAMAddressMask::NametableX, if nx == 0 { 1 } else { 0 }))
        } else {
            with_vram(v, with_address_part(a, VRAMAddressMask::CoarseXScroll, (x + 1) as u16))
        }
    } else {
        v
    }
}

/// The fine Y scroll moves one row down, then the coarse Y scroll, wrapping
/// at row 29 into the next vertical nametable (when rendering).
#[verifier::opaque]
pub open spec fn y_incremented(v: PpuView) -> PpuView {
    if rendering(v) {
        let a = v.bus.vram_address;
        let y = address_part(a, VRAMAddressMask::FineY);
        if y >= 7 {
            let a1 = with_address_part(a, VRAMAddressMask::FineY, 0);
            let cy = address_part(a1, VRAMAddressMask::CoarseYScroll);
            if cy == 29 {
                let a2 = with_address_part(a1, VRAMAddressMask::CoarseYScroll, 0);
                let ny = address_part(a2, VRAMAddressMask::NametableY);
                with_vram(v, with_address_part(a2, VRAMAddressMask::NametableY, if ny == 0 { 1 } else { 0 }))
            } else if cy == 31 {
                with_vram(v, with_address_part(a1, VRAMAddressMask::CoarseYScroll, 0))
            } else {
                with_vram(v, with_address_part(a1, VRAMAddressMask::CoarseYScroll, (cy + 1) as u16))
            }
        } else {
            with_vram(v, with_address_part(a, VRAMAddressMask::FineY, (y + 1) as u16))
        }
    } else {
        v
    }
}

/// The horizontal parts of the temporary address go into the VRAM address
/// (when rendering).
#[verifier::opaque]
pub open spec fn tmp_x_copied(v: PpuView) -> PpuView {
    if rendering(v) {
        let t = v.bus.tmp_vram_address;
        let a1 = with_address_part(v.bus.vram_address, VRAMAddressMask::CoarseXScroll, address_part(t, VRAMAddressMask::CoarseXScroll));
        with_vram(v, with_address_part(a1, VRAMAddressMask::NametableX, address_part(t, VRAMAddressMask::NametableX)))
    } else {
        v
    }
}

/// The vertical parts of the temporary address go into the VRAM address
/// (when rendering).
#[verifier::opaque]
pub open spec fn tmp_y_copied(v: PpuView) -> PpuView {
    if rendering(v) {
        let t = v.bus.tmp_vram_address;
        let a1 = with_address_part(v.bus.vram_address, VRAMAddressMask::CoarseYScroll, address_part(t, VRAMAddressMask::CoarseYScroll));
        let a2 = with_address_part(a1, VRAMAddressMask::FineY, address_part(t, VRAMAddressMask::FineY));
        with_vram(v, with_address_part(a2, VRAMAddressMask::NametableY, address_part(t, VRAMAddressMask::NametableY)))
    } else {
        v
    }
}

/// One background fetch cycle: the shifters move, then every eight cycles
/// the nametable byte, attribute bits and the two tile bytes are fetched and
/// the VRAM address moves to the next tile.
#[verifier::opaque]
pub open spec fn background_fetched(v: PpuView, c: CartridgeView) -> PpuView {
    let v1 = shifters_updated(v);
    let k = (v1.cycles - 1) % 8;
    if k == 0 {
        let v2 = background_loaded(v1);
        PpuView { next_name_table_byte: bus_value(v2.bus, c, name_table_fetch_address(v2.bus.vram_address)), ..v2 }
    } else if k == 2 {
        let a = v1.bus.vram_address;
        PpuView { next_attribute_table_byte: attribute_bits(a, bus_value(v1.bus, c, attribute_fetch_address(a))), ..v1 }
    } else if k == 4 {
        PpuView { next_low_background_byte: bus_value(v1.bus, c, background_tile_address(v1)), ..v1 }
    } else if k == 6 {
        PpuView { next_high_background_byte: bus_value(v1.bus, c, (background_tile_address(v1) + 8) as u16), ..v1 }
    } else if k == 7 {
        x_incremented(v1)
    } else {
        v1
    }
}

/// The nametable read that the PPU makes at cycles 338 and 340.
#[verifier::opaque]
pub open spec fn extra_name_table_read(v: PpuView, c: CartridgeView) -> PpuView {
    PpuView { next_name_table_byte: bus_value(v.bus, c, name_table_fetch_address(v.bus.vram_address)), ..v }
}

/// At cycle 0 the sprites found for this scanline become the ones drawn.
#[verifier::opaque]
pub open spec fn sprites_latched(v: PpuView) -> PpuView {
    PpuView {
        current_sprite_count: v.next_sprite_count,
        current_contains_sprite_0: v.next_contains_sprite_0,
        ..v
    }
}

/// During odd cycles 1-63 one byte of the secondary OAM is set to $FF.
#[verifier::opaque]
pub open spec fn secondary_byte_cleared(v: PpuView) -> PpuView {
    let address = ((v.cycles - 1) / 2) as u8;
    let i = (address / 4) as int;
    PpuView {
        oam: super::oam::OamView {
            secondary: v.oam.secondary.update(i, sprite_with_byte(v.oam.secondary[i], address, 0xFF)),
            ..v.oam
        },
        ..v
    }
}

/// At cycle 65 the evaluation of the sprites of the next scanline starts.
#[verifier::opaque]
pub open spec fn evaluation_started(v: PpuView) -> PpuView {
    PpuView { next_sprite_count: 0, next_contains_sprite_0: false, ..v }
}

/// The height of the sprites: 8 or 16.
pub open spec fn sprite_height(v: PpuView) -> int {
    if control_flag(v.registers.ctrl, ControlFlag::SpriteSize) == 0 { 8 } else { 16 }
}

/// One cycle of sprite evaluation (cycles 65-256): every third cycle one of
/// the 64 sprites is tested against the scanline; a ninth sprite in range
/// sets the overflow flag (when rendering). At cycle 256 the first free
/// secondary entry gets the y of the last sprite.
#[verifier::opaque]
pub open spec fn sprite_evaluated(v: PpuView) -> PpuView {
    let v1 = if (v.cycles - 65) % 3 == 0 {
        let index = (v.cycles - 65) / 3;
        let s = v.oam.primary[index];
        let line = v.scanline % 261;
        if line >= s.y && line < s.y + sprite_height(v) {
            if v.next_sprite_count >= 8 {
                if rendering(v) {
                    with_status(v, v.registers.status | status_bit(StatusFlag::SpriteOverflow))
                } else {
                    v
                }
            } else if v.scanline != 261 {
                PpuView {
                    oam: super::oam::OamView {
                        secondary: v.oam.secondary.update(v.next_sprite_count as int, s),
                        ..v.oam
                    },
                    next_contains_sprite_0: if index == 0 { true } else { v.next_contains_sprite_0 },
                    next_sprite_count: (v.next_sprite_count + 1) as u8,
                    ..v
                }
            } else {
                v
            }
        } else {
            v
        }
    } else {
        v
    };
    if v1.cycles == 256 && v1.next_sprite_count < 8 {
        let n = v1.next_sprite_count as int;
        PpuView {
            oam: super::oam::OamView {
                secondary: v1.oam.secondary.update(n, sprite_with_byte(v1.oam.secondary[n], (n * 4) as u8, v1.oam.primary[63].y)),
                ..v1.oam
            },
            ..v1
        }
    } else {
        v1
    }
}

/// At cycle 257 the sprite shifters, x counters and attributes are cleared.
#[verifier::opaque]
pub open spec fn sprite_data_cleared(v: PpuView) -> PpuView {
    PpuView {
        sprite_shifters_lo: Seq::new(8, |i: int| 0u8),
        sprite_shifters_hi: Seq::new(8, |i: int| 0u8),
        sprite_x: Seq::new(8, |i: int| 0u8),
        sprite_attributes: Seq::new(8, |i: int| 0u8),
        ..v
    }
}

pub open spec fn wrapping_sub_u16(a: u16, b: u16) -> u16 {
    if a >= b { (a - b) as u16 } else { (a - b + 0x10000) as u16 }
}

pub open spec fn wrapping_add_u16(a: u16, b: u16) -> u16 {
    if a + b > 0xFFFF { (a + b - 0x10000) as u16 } else { (a + b) as u16 }
}

/// A byte with its bits in reverse order.
pub open spec fn reversed_bits(b: u8) -> u8 {
    let b1 = ((b & 0xF0) >> 4u8) | ((b & 0x0F) << 4u8);
    let b2 = ((b1 & 0xCC) >> 2u8) | ((b1 & 0x33) << 2u8);
    ((b2 & 0xAA) >> 1u8) | ((b2 & 0x55) << 1u8)
}

/// The address of the low plane byte of the row of secondary sprite `s`
/// that the scanline crosses, flipped vertically as its attribute says.
pub open spec fn sprite_row_address(v: PpuView, s: Sprite) -> u16 {
    let row = wrapping_sub_u16(v.scanline, s.y as u16);
    let flip = s.attribute & 0x80 == 0x80;
    if control_flag(v.registers.ctrl, ControlFlag::SpriteSize) == 0 {
        let base = ((control_flag(v.registers.ctrl, ControlFlag::SpritePatternTableAddress) as u16) << 12u16) | ((s.id as u16) << 4u16);
        if !flip { base | row } else { base | wrapping_sub_u16(7, row) }
    } else {
        let table = ((s.id & 0x01) as u16) << 12u16;
        let top = ((s.id & 0xFE) as u16) << 4u16;
        let bottom = ((((s.id & 0xFE) as u16) + 1) as u16) << 4u16;
        if !flip {
            if row < 8 { table | top | (row & 0x07) } else { table | bottom | (row & 0x07) }
        } else {
            if row < 8 { table | bottom | (wrapping_sub_u16(7, row) & 0x07) } else { table | top | ((7 - (row & 0x07)) as u16) }
        }
    }
}

/// The two plane bytes of the row of `s` that the scanline crosses,
/// mirrored when the sprite is flipped horizontally.
pub open spec fn sprite_row(v: PpuView, c: CartridgeView, s: Sprite) -> (u8, u8) {
    let address = sprite_row_address(v, s);
    let lo = bus_value(v.bus, c, address);
    let hi = bus_value(v.bus, c, wrapping_add_u16(address, 8));
    if s.attribute & 0x40 == 0x40 { (reversed_bits(lo), reversed_bits(hi)) } else { (lo, hi) }
}

/// One cycle of sprite fetching (cycles 257-320): eight cycles per sprite
/// found, loading its pattern row, then its x, then its attributes.
#[verifier::opaque]
pub open spec fn sprite_fetched(v: PpuView, c: CartridgeView) -> PpuView {
    let i = (v.cycles - 257) / 8;
    if i < v.next_sprite_count {
        let k = (v.cycles - 257) % 8;
        let s = v.oam.secondary[i];
        if k == 0 {
            let (lo, hi) = sprite_row(v, c, s);
            PpuView {
                sprite_shifters_lo: v.sprite_shifters_lo.update(i, lo),
                sprite_shifters_hi: v.sprite_shifters_hi.update(i, hi),
                ..v
            }
        } else if k == 1 {
            PpuView { sprite_x: v.sprite_x.update(i, s.x), ..v }
        } else if k == 2 {
            PpuView { sprite_attributes: v.sprite_attributes.update(i, s.attribute), ..v }
        } else {
            v
        }
    } else {
        v
    }
}

/// The fetches of a visible or pre-render scanline at the current cycle.
#[verifier::opaque]
pub open spec fn scanline_fetched(v: PpuView, c: CartridgeView) -> PpuView {
    let cy = v.cycles;
    let a1 = if (2 <= cy && cy <= 257) || (320 < cy && cy < 338) { background_fetched(v, c) } else { v };
    let a2 = if cy == 256 { y_incremented(a1) } else { a1 };
    let a3 = if cy == 257 { tmp_x_copied(background_loaded(a2)) } else { a2 };
    let a4 = if cy == 338 || cy == 340 { extra_name_table_read(a3, c) } else { a3 };
    let a5 = if cy == 0 { sprites_latched(a4) } else { a4 };
    let a6 = if 0 < cy && cy < 65 && cy % 2 == 1 { secondary_byte_cleared(a5) } else { a5 };
    let a7 = if 64 < cy && cy < 257 { sprite_evaluated(if cy == 65 { evaluation_started(a6) } else { a6 }) } else { a6 };
    if 256 < cy && cy < 321 { sprite_fetched(if cy == 257 { sprite_data_cleared(a7) } else { a7 }, c) } else { a7 }
}

/// The vertical blank flag is set at (241, 1), with an NMI when enabled,
/// unless a $2002 read suppressed it; at (261, 1) the vertical blank,
/// sprite 0 hit and overflow flags are cleared.
#[verifier::opaque]
pub open spec fn vblank_updated(v: PpuView, suppressed: bool) -> PpuView {
    let v1 = if v.scanline == 241 && v.cycles == 1 && !suppressed {
        PpuView {
            registers: Registers {
                status: v.registers.status | status_bit(StatusFlag::VBlank),
                emit_nmi: if control_flag(v.registers.ctrl, ControlFlag::VBlank) != 0 { true } else { v.registers.emit_nmi },
                ..v.registers
            },
            ..v
        }
    } else {
        v
    };
    if v1.scanline == 261 && v1.cycles == 1 {
        with_status(v1, v1.registers.status & !status_bit(StatusFlag::VBlank) & !status_bit(StatusFlag::Sprite0Hit)
            & !status_bit(StatusFlag::SpriteOverflow))
    } else {
        v1
    }
}

/// The two-bit value under the fine X scroll of a pair of shifters.
pub open spec fn shifter_value(lo: u16, hi: u16, fine_x: u8) -> u8 {
    let mask = 0x8000u16 >> fine_x;
    ((if lo & mask != 0 { 1u8 } else { 0u8 }) + (if hi & mask != 0 { 2u8 } else { 0u8 })) as u8
}

/// The two-bit value of sprite `i` at its current pixel.
pub open spec fn sprite_value(v: PpuView, i: int) -> u8 {
    ((if v.sprite_shifters_lo[i] & 0x80 != 0 { 1u8 } else { 0u8 }) + (if v.sprite_shifters_hi[i] & 0x80 != 0 { 2u8 } else { 0u8 })) as u8
}

/// The first sprite from `i` on that is in range and opaque at this pixel,
/// or the sprite count when there is none.
pub open spec fn first_opaque_sprite(v: PpuView, i: int) -> int
    decreases 8 - i,
{
    if i >= v.current_sprite_count || i >= 8 {
        v.current_sprite_count as int
    } else if v.sprite_x[i] == 0 && sprite_value(v, i) != 0 {
        i
    } else {
        first_opaque_sprite(v, i + 1)
    }
}

/// The palette (0-7) and pattern (0-3) of the pixel drawn: the opaque one of
/// the background and the first opaque sprite, the sprite when both are and
/// it is in front.
pub open spec fn pixel_choice(v: PpuView) -> (u8, u8) {
    let (bg_palette, bg_pattern) = if show_background(v) {
        (shifter_value(v.palette_shifter_lo, v.palette_shifter_hi, v.registers.fine_x),
            shifter_value(v.pattern_shifter_lo, v.pattern_shifter_hi, v.registers.fine_x))
    } else {
        (0u8, 0u8)
    };
    let k = first_opaque_sprite(v, 0);
    let sprite_shown = show_sprites(v) && k < v.current_sprite_count;
    let fg_palette = if sprite_shown { ((v.sprite_attributes[k] & 0x03) + 4) as u8 } else { 0u8 };
    let fg_pattern = if sprite_shown { sprite_value(v, k) } else { 0u8 };
    let fg_front = sprite_shown && v.sprite_attributes[k] & 0x20 == 0;
    if bg_pattern == 0 && fg_pattern == 0 {
        (0u8, 0u8)
    } else if bg_pattern == 0 {
        (fg_palette, fg_pattern)
    } else if fg_pattern == 0 {
        (bg_palette, bg_pattern)
    } else if fg_front {
        (fg_palette, fg_pattern)
    } else {
        (bg_palette, bg_pattern)
    }
}

/// Whether this pixel is a sprite 0 hit: sprite 0 opaque over an opaque
/// background, both shown, not at x = 255, and not in the leftmost eight
/// pixels when either is clipped there.
pub open spec fn sprite_0_hit(v: PpuView) -> bool {
    let bg_pattern = if show_background(v) {
        shifter_value(v.pattern_shifter_lo, v.pattern_shifter_hi, v.registers.fine_x)
    } else {
        0u8
    };
    let k = first_opaque_sprite(v, 0);
    &&& show_sprites(v)
    &&& k == 0
    &&& k < v.current_sprite_count
    &&& bg_pattern != 0
    &&& v.current_contains_sprite_0
    &&& show_background(v)
    &&& v.cycles != 256
    &&& (v.registers.mask & 0x02 != 0x02 || v.registers.mask & 0x04 != 0x04 ==> v.cycles >= 9)
}

/// One pixel of a visible scanline is drawn into the frame.
#[verifier::opaque]
pub open spec fn pixel_drawn(v: PpuView, c: CartridgeView) -> PpuView {
    let (palette, pattern) = pixel_choice(v);
    let k = first_opaque_sprite(v, 0);
    let v1 = if show_sprites(v) { PpuView { is_sprite_0_rendered: k == 0 && k < v.current_sprite_count, ..v } } else { v };
    let v2 = if sprite_0_hit(v) { with_status(v1, v1.registers.status | status_bit(StatusFlag::Sprite0Hit)) } else { v1 };
    PpuView {
        frame: v2.frame.update(256 * v.scanline + v.cycles - 1, pixel_color(v, c, palette, pattern)),
        ..v2
    }
}

/// The dot counter moves on: 341 cycles per scanline, 262 scanlines per
/// frame; a frame is ready when the counter wraps.
#[verifier::opaque]
pub open spec fn time_advanced(v: PpuView) -> PpuView {
    let total = if v.total_clock == u64::MAX { 0 } else { (v.total_clock + 1) as u64 };
    if v.cycles + 1 > 340 {
        if v.scanline + 1 > 261 {
            PpuView { total_clock: total, cycles: 0, scanline: 0, odd_frame: !v.odd_frame, is_frame_ready: true, ..v }
        } else {
            PpuView { total_clock: total, cycles: 0, scanline: (v.scanline + 1) as u16, ..v }
        }
    } else {
        PpuView { total_clock: total, cycles: (v.cycles + 1) as u16, ..v }
    }
}

/// The data latch decays to 0 after 5,000,000 clocks without an access.
#[verifier::opaque]
pub open spec fn decay_advanced(v: PpuView) -> PpuView {
    if v.registers.decay_timer + 1 == 5_000_000 {
        PpuView { registers: Registers { decay: 0, decay_timer: 0, ..v.registers }, ..v }
    } else {
        PpuView { registers: Registers { decay_timer: (v.registers.decay_timer + 1) as u64, ..v.registers }, ..v }
    }
}

/// One PPU clock.
#[verifier::opaque]
pub open spec fn ppu_clocked(v: PpuView, c: CartridgeView) -> PpuView {
    let suppressed = v.registers.clear_vbl;
    let v1 = odd_frame_skipped(vbl_read_applied(v));
    let v2 = if v1.scanline < 240 || v1.scanline == 261 { scanline_fetched(v1, c) } else { v1 };
    let v3 = vblank_updated(v2, suppressed);
    let v4 = if v3.scanline == 261 && 279 < v3.cycles && v3.cycles < 305 { tmp_y_copied(v3) } else { v3 };
    let v5 = if v4.scanline < 240 && 1 <= v4.cycles && v4.cycles < 257 { pixel_drawn(v4, c) } else { v4 };
    decay_advanced(time_advanced(v5))
}

/// The fields of a VRAM address fit their widths.
pub proof fn lemma_address_parts(a: u16)
    ensures
        address_part(a, VRAMAddressMask::CoarseXScroll) <= 31,
        address_part(a, VRAMAddressMask::CoarseYScroll) <= 31,
        address_part(a, VRAMAddressMask::NametableSelect) <= 3,
        address_part(a, VRAMAddressMask::NametableX) <= 1,
        address_part(a, VRAMAddressMask::NametableY) <= 1,
        address_part(a, VRAMAddressMask::FineY) <= 7,
{
    crate::bits::lemma_word_masks();
    assert((a & 0x001F) >> 0u16 <= 31);
    assert((a & 0x03E0) >> 5u16 <= 31);
    assert((a & 0x0C00) >> 10u16 <= 3);
    assert((a & 0x0400) >> 10u16 <= 1);
    assert((a & 0x0800) >> 11u16 <= 1);
    assert((a & 0x7000) >> 12u16 <= 7);
}

fn shift_sprites(x: &mut Vec<u8>, lo: &mut Vec<u8>, hi: &mut Vec<u8>, n: u8)
    requires
        old(x)@.len() == 8,
        old(lo)@.len() == 8,
        old(hi)@.len() == 8,
        n <= 8,
    ensures
        final(x)@ == Seq::new(8, |i: int| if i < n && old(x)@[i] != 0 { (old(x)@[i] - 1) as u8 } else { old(x)@[i] }),
        final(lo)@ == Seq::new(8, |i: int| if i < n && old(x)@[i] == 0 { old(lo)@[i] << 1u8 } else { old(lo)@[i] }),
        final(hi)@ == Seq::new(8, |i: int| if i < n && old(x)@[i] == 0 { old(hi)@[i] << 1u8 } else { old(hi)@[i] }),
{
    let ghost x0 = x@;
    let ghost lo0 = lo@;
    let ghost hi0 = hi@;
    let mut i: u8 = 0;
    while i < n
        invariant
            i <= n <= 8,
            x0.len() == 8 && lo0.len() == 8 && hi0.len() == 8,
            x@ == Seq::new(8, |j: int| if j < i && x0[j] != 0 { (x0[j] - 1) as u8 } else { x0[j] }),
            lo@ == Seq::new(8, |j: int| if j < i && x0[j] == 0 { lo0[j] << 1u8 } else { lo0[j] }),
            hi@ == Seq::new(8, |j: int| if j < i && x0[j] == 0 { hi0[j] << 1u8 } else { hi0[j] }),
        decreases n - i,
    {
        let k = i as usize;
        if x[k] != 0 {
            let v = x[k] - 1;
            x.set(k, v);
        } else {
            let l = lo[k] << 1u8;
            lo.set(k, l);
            let h = hi[k] << 1u8;
            hi.set(k, h);
        }
        i = i + 1;
        assert(x@ =~= Seq::new(8, |j: int| if j < i && x0[j] != 0 { (x0[j] - 1) as u8 } else { x0[j] }));
        assert(lo@ =~= Seq::new(8, |j: int| if j < i && x0[j] == 0 { lo0[j] << 1u8 } else { lo0[j] }));
        assert(hi@ =~= Seq::new(8, |j: int| if j < i && x0[j] == 0 { hi0[j] << 1u8 } else { hi0[j] }));
    }
}

impl Ppu {
    fn apply_vbl_read(&mut self)
        requires
            old(self).wf(),
        ensures
            final(self).wf(),
            final(self).cycles == old(self).cycles,
            final(self).scanline == old(self).scanline,
            final(self)@ == vbl_read_applied(old(self)@),
    {
        proof { reveal(vbl_read_applied); }
        if self.registers.clear_vbl {
            self.registers.set_status_flag(StatusFlag::VBlank, false);
            self.registers.clear_vbl = false;
        }
    }

    fn skip_odd_cycle(&mut self)
        requires
            old(self).wf(),
        ensures
            final(self).wf(),
            final(self).scanline == old(self).scanline,
            final(self)@ == odd_frame_skipped(old(self)@),
    {
        proof { reveal(odd_frame_skipped); }
        if self.scanline == 0 && self.cycles == 0 && self.odd_frame && self.registers.get_mask_flag(MaskFlag::ShowBackground) {
            self.cycles = 1;
        }
    }

    /// Moves the shifters one pixel on.
    pub fn update_shifters(&mut self)
        requires
            old(self).wf(),
        ensures
            final(self).wf(),
            final(self).cycles == old(self).cycles,
            final(self).scanline == old(self).scanline,
            final(self)@ == shifters_updated(old(self)@),
    {
        proof { reveal(shifters_updated); }
        if self.registers.get_mask_flag(MaskFlag::ShowBackground) {
            self.pattern_shifter_lo = self.pattern_shifter_lo << 1u16;
            self.pattern_shifter_hi = self.pattern_shifter_hi << 1u16;
            self.palette_shifter_lo = self.palette_shifter_lo << 1u16;
            self.palette_shifter_hi = self.palette_shifter_hi << 1u16;
        }
        if self.registers.get_mask_flag(MaskFlag::ShowSprites) && self.cycles >= 1 && self.cycles <= 257 {
            let n = self.current_sprite_count;
            shift_sprites(&mut self.sprite_x, &mut self.sprite_shifters_lo, &mut self.sprite_shifters_hi, n);
        }
    }

    /// Loads the fetched tile into the low bytes of the background shifters.
    pub fn load_next_background(&mut self)
        requires
            old(self).wf(),
        ensures
            final(self).wf(),
            final(self).cycles == old(self).cycles,
            final(self).scanline == old(self).scanline,
            final(self)@ == background_loaded(old(self)@),
    {
        proof { reveal(background_loaded); }
        self.pattern_shifter_lo = (self.pattern_shifter_lo & 0xFF00) | (self.next_low_background_byte as u16);
        self.pattern_shifter_hi = (self.pattern_shifter_hi & 0xFF00) | (self.next_high_background_byte as u16);
        let lo: u16 = if self.next_attribute_table_byte & 0x01 == 0x01 { 0x00FF } else { 0 };
        let hi: u16 = if self.next_attribute_table_byte & 0x02 == 0x02 { 0x00FF } else { 0 };
        self.palette_shifter_lo = (self.palette_shifter_lo & 0xFF00) | lo;
        self.palette_shifter_hi = (self.palette_shifter_hi & 0xFF00) | hi;
    }

    /// Moves the VRAM address one tile right.
    pub fn increment_x(&mut self)
        requires
            old(self).wf(),
        ensures
            final(self).wf(),
            final(self).cycles == old(self).cycles,
            final(self).scanline == old(self).scanline,
            final(self)@ == x_incremented(old(self)@),
    {
        proof {
            reveal(x_incremented);
            lemma_address_parts(self.ppu_bus.vram_address.address);
        }
        if self.registers.get_mask_flag(MaskFlag::ShowSprites) || self.registers.get_mask_flag(MaskFlag::ShowBackground) {
            let x = self.ppu_bus.vram_address.get_address_part(VRAMAddressMask::CoarseXScroll);
            if x == 31 {
                self.ppu_bus.vram_address.set_address_part(VRAMAddressMask::CoarseXScroll, 0);
                let nx = self.ppu_bus.vram_address.get_address_part(VRAMAddressMask::NametableX);
                self.ppu_bus.vram_address.set_address_part(VRAMAddressMask::NametableX, if nx == 0 { 1 } else { 0 });
            } else {
                self.ppu_bus.vram_address.set_address_part(VRAMAddressMask::CoarseXScroll, x + 1);
            }
        }
    }

    /// Moves the VRAM address one row down.
    pub fn increment_y(&mut self)
        requires
            old(self).wf(),
        ensures
            final(self).wf(),
            final(self).cycles == old(self).cycles,
            final(self).scanline == old(self).scanline,
            final(self)@ == y_incremented(old(self)@),
    {
        proof {
            reveal(y_incremented);
            lemma_address_parts(self.ppu_bus.vram_address.address);
        }
        if self.registers.get_mask_flag(MaskFlag::ShowSprites) || self.registers.get_mask_flag(MaskFlag::ShowBackground) {
            let y = self.ppu_bus.vram_address.get_address_part(VRAMAddressMask::FineY);
            if y >= 7 {
                self.ppu_bus.vram_address.set_address_part(VRAMAddressMask::FineY, 0);
                proof { lemma_address_parts(self.ppu_bus.vram_address.address); }
                let cy = self.ppu_bus.vram_address.get_address_part(VRAMAddressMask::CoarseYScroll);
                if cy == 29 {
                    self.ppu_bus.vram_address.set_address_part(VRAMAddressMask::CoarseYScroll, 0);
                    let ny = self.ppu_bus.vram_address.get_address_part(VRAMAddressMask::NametableY);
                    self.ppu_bus.vram_address.set_address_part(VRAMAddressMask::NametableY, if ny == 0 { 1 } else { 0 });
                } else if cy == 31 {
                    self.ppu_bus.vram_address.set_address_part(VRAMAddressMask::CoarseYScroll, 0);
                } else {
                    self.ppu_bus.vram_address.set_address_part(VRAMAddressMask::CoarseYScroll, cy + 1);
                }
            } else {
                self.ppu_bus.vram_address.set_address_part(VRAMAddressMask::FineY, y + 1);
            }
        }
    }

    /// Copies the horizontal scroll from the temporary address.
    pub fn copy_tmp_x_to_vram_address(&mut self)
        requires
            old(self).wf(),
        ensures
            final(self).wf(),
            final(self).cycles == old(self).cycles,
            final(self).scanline == old(self).scanline,
            final(self)@ == tmp_x_copied(old(self)@),
    {
        proof { reveal(tmp_x_copied); }
        if self.registers.get_mask_flag(MaskFlag::ShowSprites) || self.registers.get_mask_flag(MaskFlag::ShowBackground) {
            let cx = self.ppu_bus.tmp_vram_address.get_address_part(VRAMAddressMask::CoarseXScroll);
            self.ppu_bus.vram_address.set_address_part(VRAMAddressMask::CoarseXScroll, cx);
            let nx = self.ppu_bus.tmp_vram_address.get_address_part(VRAMAddressMask::NametableX);
            self.ppu_bus.vram_address.set_address_part(VRAMAddressMask::NametableX, nx);
        }
    }

    /// Copies the vertical scroll from the temporary address.
    pub fn copy_tmp_y_to_vram_address(&mut self)
        requires
            old(self).wf(),
        ensures
            final(self).wf(),
            final(self).cycles == old(self).cycles,
            final(self).scanline == old(self).scanline,
            final(self)@ == tmp_y_copied(old(self)@),
    {
        proof { reveal(tmp_y_copied); }
        if self.registers.get_mask_flag(MaskFlag::ShowSprites) || self.registers.get_mask_flag(MaskFlag::ShowBackground) {
            let cy = self.ppu_bus.tmp_vram_address.get_address_part(VRAMAddressMask::CoarseYScroll);
            self.ppu_bus.vram_address.set_address_part(VRAMAddressMask::CoarseYScroll, cy);
            let fy = self.ppu_bus.tmp_vram_address.get_address_part(VRAMAddressMask::FineY);
            self.ppu_bus.vram_address.set_address_part(VRAMAddressMask::FineY, fy);
            let ny = self.ppu_bus.tmp_vram_address.get_address_part(VRAMAddressMask::NametableY);
            self.ppu_bus.vram_address.set_address_part(VRAMAddressMask::NametableY, ny);
        }
    }

    fn attribute_address(&self) -> (a: u16)
        ensures
            a == attribute_fetch_address(self.ppu_bus.vram_address.address),
    {
        proof { lemma_address_parts(self.ppu_bus.vram_address.address); }
        let cx = self.ppu_bus.vram_address.get_address_part(VRAMAddressMask::CoarseXScroll);
        let cy = self.ppu_bus.vram_address.get_address_part(VRAMAddressMask::CoarseYScroll);
        let nt = self.ppu_bus.vram_address.get_address_part(VRAMAddressMask::NametableSelect);
        assert(cx >> 2u16 <= 7 && (cy >> 2u16) << 3u16 <= 56 && nt << 10u16 <= 0xC00) by (bit_vector)
            requires cx <= 31 && cy <= 31 && nt <= 3;
        (cx >> 2u16) + ((cy >> 2u16) << 3u16) + (nt << 10u16) + 0x23C0
    }

    fn tile_address(&self) -> (a: u16)
        ensures
            a == background_tile_address(self@),
            a <= 0x1FFF,
    {
        proof { lemma_address_parts(self.ppu_bus.vram_address.address); }
        let fy = self.ppu_bus.vram_address.get_address_part(VRAMAddressMask::FineY);
        let nt = self.next_name_table_byte as u16;
        let table = self.registers.get_control_flag(ControlFlag::BackgroundPatternTableAddress) as u16;
        assert(table <= 1);
        assert(nt << 4u16 <= 0xFF0 && table << 12u16 <= 0x1000) by (bit_vector)
            requires nt <= 255 && table <= 1;
        assert(fy + (nt << 4u16) + (table << 12u16) <= 0x1FFF) by (bit_vector)
            requires fy <= 7 && nt <= 255 && table <= 1;
        fy + (nt << 4u16) + (table << 12u16)
    }

    fn fetch_background(&mut self, cart: &Cartridge)
        requires
            old(self).wf(),
            cart.wf(),
            old(self).cycles >= 1,
        ensures
            final(self).wf(),
            final(self).cycles == old(self).cycles,
            final(self).scanline == old(self).scanline,
            final(self)@ == background_fetched(old(self)@, cart@),
    {
        proof { reveal(background_fetched); }
        self.update_shifters();
        let k = (self.cycles - 1) % 8;
        if k == 0 {
            self.load_next_background();
            let va = self.ppu_bus.vram_address.address;
            proof { crate::bits::lemma_word_masks(); }
            assert(va & 0x0FFF <= 0x0FFF);
            let a: u16 = (va & 0x0FFF) + 0x2000;
            self.next_name_table_byte = self.bus_value(cart, a);
        } else if k == 2 {
            let a = self.attribute_address();
            let byte = self.bus_value(cart, a);
            let cy = self.ppu_bus.vram_address.get_address_part(VRAMAddressMask::CoarseYScroll);
            let cx = self.ppu_bus.vram_address.get_address_part(VRAMAddressMask::CoarseXScroll);
            let b1 = if cy & 0x02 == 0x02 { byte >> 4u8 } else { byte };
            let b2 = if cx & 0x02 == 0x02 { b1 >> 2u8 } else { b1 };
            self.next_attribute_table_byte = b2 & 0x03;
        } else if k == 4 {
            let a = self.tile_address();
            self.next_low_background_byte = self.bus_value(cart, a);
        } else if k == 6 {
            let a = self.tile_address();
            self.next_high_background_byte = self.bus_value(cart, a + 8);
        } else if k == 7 {
            self.increment_x();
        }
    }

    fn read_extra_name_table(&mut self, cart: &Cartridge)
        requires
            old(self).wf(),
            cart.wf(),
        ensures
            final(self).wf(),
            final(self).cycles == old(self).cycles,
            final(self).scanline == old(self).scanline,
            final(self)@ == extra_name_table_read(old(self)@, cart@),
    {
        proof { reveal(extra_name_table_read); }
        let va = self.ppu_bus.vram_address.address;
        proof { crate::bits::lemma_word_masks(); }
        assert(va & 0x0FFF <= 0x0FFF);
        let a: u16 = (va & 0x0FFF) + 0x2000;
        self.next_name_table_byte = self.bus_value(cart, a);
    }

    fn latch_sprites(&mut self)
        requires
            old(self).wf(),
        ensures
            final(self).wf(),
            final(self).cycles == old(self).cycles,
            final(self).scanline == old(self).scanline,
            final(self)@ == sprites_latched(old(self)@),
    {
        proof { reveal(sprites_latched); }
        self.current_sprite_count = self.next_sprite_count;
        self.current_contains_sprite_0 = self.next_contains_sprite_0;
    }

    fn clear_secondary_byte(&mut self)
        requires
            old(self).wf(),
            0 < old(self).cycles < 65,
        ensures
            final(self).wf(),
            final(self).cycles == old(self).cycles,
            final(self).scanline == old(self).scanline,
            final(self)@ == secondary_byte_cleared(old(self)@),
    {
        proof { reveal(secondary_byte_cleared); }
        let address = ((self.cycles - 1) / 2) as u8;
        self.oam.write_secondary(address, 0xFF);
    }

    fn start_evaluation(&mut self)
        requires
            old(self).wf(),
        ensures
            final(self).wf(),
            final(self).cycles == old(self).cycles,
            final(self).scanline == old(self).scanline,
            final(self)@ == evaluation_started(old(self)@),
    {
        proof { reveal(evaluation_started); }
        self.next_sprite_count = 0;
        self.next_contains_sprite_0 = false;
    }

    /// One cycle of sprite evaluation for the next scanline.
    pub fn evaluate_sprites(&mut self)
        requires
            old(self).wf(),
            64 < old(self).cycles < 257,
        ensures
            final(self).wf(),
            final(self).cycles == old(self).cycles,
            final(self).scanline == old(self).scanline,
            final(self)@ == sprite_evaluated(old(self)@),
    {
        proof { reveal(sprite_evaluated); }
        if (self.cycles - 65) % 3 == 0 {
            let index = ((self.cycles - 65) / 3) as usize;
            let s = self.oam.primary[index];
            let height: u16 = if self.registers.get_control_flag(ControlFlag::SpriteSize) == 0 { 8 } else { 16 };
            let line = self.scanline % 261;
            if line >= s.y as u16 && line < s.y as u16 + height {
                if self.next_sprite_count >= 8 {
                    if self.registers.get_mask_flag(MaskFlag::ShowSprites) || self.registers.get_mask_flag(MaskFlag::ShowBackground) {
                        self.registers.set_status_flag(StatusFlag::SpriteOverflow, true);
                    }
                } else if self.scanline != 261 {
                    self.oam.secondary.set(self.next_sprite_count as usize, s);
                    if index == 0 {
                        self.next_contains_sprite_0 = true;
                    }
                    self.next_sprite_count = self.next_sprite_count + 1;
                }
            }
        }
        if self.cycles == 256 && self.next_sprite_count < 8 {
            let y = self.oam.primary[63].y;
            self.oam.write_secondary(self.next_sprite_count * 4, y);
        }
    }

    fn clear_sprite_data(&mut self)
        requires
            old(self).wf(),
        ensures
            final(self).wf(),
            final(self).cycles == old(self).cycles,
            final(self).scanline == old(self).scanline,
            final(self)@ == sprite_data_cleared(old(self)@),
    {
        proof { reveal(sprite_data_cleared); }
        self.sprite_shifters_lo = crate::cartridge::mapper_000::vec_of_zeros(8);
        self.sprite_shifters_hi = crate::cartridge::mapper_000::vec_of_zeros(8);
        self.sprite_x = crate::cartridge::mapper_000::vec_of_zeros(8);
        self.sprite_attributes = crate::cartridge::mapper_000::vec_of_zeros(8);
    }

    fn sprite_row_address(&self, s: Sprite) -> (a: u16)
        ensures
            a == sprite_row_address(self@, s),
    {
        let row = self.scanline.wrapping_sub(s.y as u16);
        let flip = s.attribute & 0x80 == 0x80;
        if self.registers.get_control_flag(ControlFlag::SpriteSize) == 0 {
            let table = self.registers.get_control_flag(ControlFlag::SpritePatternTableAddress) as u16;
            let id = s.id as u16;
            assert(table << 12u16 <= 0x1000 && id << 4u16 <= 0xFF0) by (bit_vector)
                requires table <= 1 && id <= 255;
            let base = (table << 12u16) | (id << 4u16);
            if !flip { base | row } else { base | 7u16.wrapping_sub(row) }
        } else {
            let table = ((s.id & 0x01) as u16) << 12u16;
            let id = s.id;
            let tile = (id & 0xFE) as u16;
            assert(tile + 1 <= 256) by (bit_vector)
                requires tile == (id & 0xFE) as u16;
            let top = tile << 4u16;
            let bottom = (tile + 1) << 4u16;
            if !flip {
                if row < 8 { table | top | (row & 0x07) } else { table | bottom | (row & 0x07) }
            } else {
                proof { crate::bits::lemma_word_masks(); }
                assert(row & 0x07 <= 7);
                if row < 8 { table | bottom | (7u16.wrapping_sub(row) & 0x07) } else { table | top | (7 - (row & 0x07)) }
            }
        }
    }

    fn reverse_bits(b: u8) -> (r: u8)
        ensures
            r == reversed_bits(b),
    {
        let b1 = ((b & 0xF0) >> 4u8) | ((b & 0x0F) << 4u8);
        let b2 = ((b1 & 0xCC) >> 2u8) | ((b1 & 0x33) << 2u8);
        ((b2 & 0xAA) >> 1u8) | ((b2 & 0x55) << 1u8)
    }

    fn sprite_row(&self, cart: &Cartridge, s: Sprite) -> (r: (u8, u8))
        requires
            self.wf(),
            cart.wf(),
        ensures
            r == sprite_row(self@, cart@, s),
    {
        let address = self.sprite_row_address(s);
        let lo = self.bus_value(cart, address);
        let hi = self.bus_value(cart, address.wrapping_add(8));
        if s.attribute & 0x40 == 0x40 {
            (Ppu::reverse_bits(lo), Ppu::reverse_bits(hi))
        } else {
            (lo, hi)
        }
    }

    /// One cycle of sprite fetching for the next scanline.
    pub fn fetch_sprite_data(&mut self, cart: &Cartridge)
        requires
            old(self).wf(),
            cart.wf(),
            256 < old(self).cycles,
        ensures
            final(self).wf(),
            final(self).cycles == old(self).cycles,
            final(self).scanline == old(self).scanline,
            final(self)@ == sprite_fetched(old(self)@, cart@),
    {
        proof { reveal(sprite_fetched); }
        let j: u16 = (self.cycles - 257) / 8;
        if j < self.next_sprite_count as u16 {
            let i = j as u8;
            let k = (self.cycles - 257) % 8;
            let s = self.oam.secondary[i as usize];
            if k == 0 {
                let (lo, hi) = self.sprite_row(cart, s);
                self.sprite_shifters_lo.set(i as usize, lo);
                self.sprite_shifters_hi.set(i as usize, hi);
            } else if k == 1 {
                self.sprite_x.set(i as usize, s.x);
            } else if k == 2 {
                self.sprite_attributes.set(i as usize, s.attribute);
            }
        }
    }

    fn fetch_for_scanline(&mut self, cart: &Cartridge)
        requires
            old(self).wf(),
            cart.wf(),
        ensures
            final(self).wf(),
            final(self).cycles == old(self).cycles,
            final(self).scanline == old(self).scanline,
            final(self)@ == scanline_fetched(old(self)@, cart@),
    {
        proof { reveal(scanline_fetched); }
        let cy = self.cycles;
        if (2 <= cy && cy <= 257) || (320 < cy && cy < 338) {
            self.fetch_background(cart);
        }
        if cy == 256 {
            self.increment_y();
        }
        if cy == 257 {
            self.load_next_background();
            self.copy_tmp_x_to_vram_address();
        }
        if cy == 338 || cy == 340 {
            self.read_extra_name_table(cart);
        }
        if cy == 0 {
            self.latch_sprites();
        }
        if 0 < cy && cy < 65 && cy % 2 == 1 {
            self.clear_secondary_byte();
        }
        if 64 < cy && cy < 257 {
            if cy == 65 {
                self.start_evaluation();
            }
            self.evaluate_sprites();
        }
        if 256 < cy && cy < 321 {
            if cy == 257 {
                self.clear_sprite_data();
            }
            self.fetch_sprite_data(cart);
        }
    }

    fn update_vblank(&mut self, suppressed: bool)
        requires
            old(self).wf(),
        ensures
            final(self).wf(),
            final(self).cycles == old(self).cycles,
            final(self).scanline == old(self).scanline,
            final(self)@ == vblank_updated(old(self)@, suppressed),
    {
        proof { reveal(vblank_updated); }
        if self.scanline == 241 && self.cycles == 1 && !suppressed {
            self.registers.set_status_flag(StatusFlag::VBlank, true);
            if self.registers.get_control_flag(ControlFlag::VBlank) != 0 {
                self.registers.emit_nmi = true;
            }
        }
        if self.scanline == 261 && self.cycles == 1 {
            self.registers.set_status_flag(StatusFlag::VBlank, false);
            self.registers.set_status_flag(StatusFlag::Sprite0Hit, false);
            self.registers.set_status_flag(StatusFlag::SpriteOverflow, false);
        }
    }

    /// The two-bit value under the fine X scroll of a pair of background
    /// shifters.
    pub fn get_shifter_value(&self, lo: u16, hi: u16) -> (v: u8)
        requires
            self.registers.fine_x < 8,
        ensures
            v == shifter_value(lo, hi, self.registers.fine_x),
            v < 4,
    {
        let mask: u16 = 0x8000u16 >> self.registers.fine_x;
        let l: u8 = if lo & mask != 0 { 1 } else { 0 };
        let h: u8 = if hi & mask != 0 { 2 } else { 0 };
        l + h
    }

    /// The two-bit value of sprite `i` at its current pixel.
    pub fn get_sprite_shifters_value(&self, i: usize) -> (v: u8)
        requires
            self.wf(),
            i < 8,
        ensures
            v == sprite_value(self@, i as int),
            v < 4,
    {
        let l: u8 = if self.sprite_shifters_lo[i] & 0x80 != 0 { 1 } else { 0 };
        let h: u8 = if self.sprite_shifters_hi[i] & 0x80 != 0 { 2 } else { 0 };
        l + h
    }

    fn find_first_opaque_sprite(&self) -> (k: u8)
        requires
            self.wf(),
        ensures
            k as int == first_opaque_sprite(self@, 0),
            k <= self.current_sprite_count,
    {
        let n = self.current_sprite_count;
        let mut i: u8 = 0;
        while i < n
            invariant
                self.wf(),
                n == self.current_sprite_count,
                i <= n,
                first_opaque_sprite(self@, 0) == first_opaque_sprite(self@, i as int),
            decreases n - i,
        {
            if self.sprite_x[i as usize] == 0 && self.get_sprite_shifters_value(i as usize) != 0 {
                return i;
            }
            i = i + 1;
        }
        i
    }

    /// Draws the pixel at the current dot of a visible scanline.
    pub fn render_pixel(&mut self, cart: &Cartridge)
        requires
            old(self).wf(),
            cart.wf(),
            old(self).scanline < 240,
            1 <= old(self).cycles < 257,
        ensures
            final(self).wf(),
            final(self).cycles == old(self).cycles,
            final(self).scanline == old(self).scanline,
            final(self)@ == pixel_drawn(old(self)@, cart@),
    {
        proof { reveal(pixel_drawn); }
        let show_bg = self.registers.get_mask_flag(MaskFlag::ShowBackground);
        let show_sp = self.registers.get_mask_flag(MaskFlag::ShowSprites);
        let mut bg_palette: u8 = 0;
        let mut bg_pattern: u8 = 0;
        if show_bg {
            bg_palette = self.get_shifter_value(self.palette_shifter_lo, self.palette_shifter_hi);
            bg_pattern = self.get_shifter_value(self.pattern_shifter_lo, self.pattern_shifter_hi);
        }
        let k = self.find_first_opaque_sprite();
        let sprite_shown = show_sp && k < self.current_sprite_count;
        let mut fg_palette: u8 = 0;
        let mut fg_pattern: u8 = 0;
        let mut fg_front = false;
        if sprite_shown {
            let attribute = self.sprite_attributes[k as usize];
            proof { crate::bits::lemma_byte_masks(); }
            assert(attribute & 0x03 <= 3);
            fg_palette = (attribute & 0x03) + 4;
            fg_pattern = self.get_sprite_shifters_value(k as usize);
            fg_front = attribute & 0x20 == 0;
        }
        let (palette, pattern) = if bg_pattern == 0 && fg_pattern == 0 {
            (0u8, 0u8)
        } else if bg_pattern == 0 {
            (fg_palette, fg_pattern)
        } else if fg_pattern == 0 {
            (bg_palette, bg_pattern)
        } else if fg_front {
            (fg_palette, fg_pattern)
        } else {
            (bg_palette, bg_pattern)
        };
        let color = self.get_pixel_color(cart, palette, pattern);
        if show_sp {
            self.is_sprite_0_rendered = k == 0 && k < self.current_sprite_count;
        }
        let left_clipped = !self.registers.get_mask_flag(MaskFlag::ShowOffScreenBackground)
            || !self.registers.get_mask_flag(MaskFlag::ShowOffScreenSprites);
        if show_sp && k == 0 && k < self.current_sprite_count && bg_pattern != 0 && self.current_contains_sprite_0
            && show_bg && self.cycles != 256 && (!left_clipped || self.cycles >= 9) {
            self.registers.set_status_flag(StatusFlag::Sprite0Hit, true);
        }
        let index: usize = 256 * self.scanline as usize + self.cycles as usize - 1;
        self.frame_buffer.set(index, color);
    }

    fn advance_time(&mut self)
        requires
            old(self).wf(),
        ensures
            final(self).wf(),
            final(self)@ == time_advanced(old(self)@),
    {
        proof { reveal(time_advanced); }
        self.total_clock = self.total_clock.wrapping_add(1);
        self.cycles = self.cycles + 1;
        if self.cycles > 340 {
            self.scanline = self.scanline + 1;
            self.cycles = 0;
            if self.scanline > 261 {
                self.scanline = 0;
                self.odd_frame = !self.odd_frame;
                self.is_frame_ready = true;
            }
        }
    }

    fn advance_decay(&mut self)
        requires
            old(self).wf(),
        ensures
            final(self).wf(),
            final(self)@ == decay_advanced(old(self)@),
    {
        proof { reveal(decay_advanced); }
        self.registers.decay_timer = self.registers.decay_timer + 1;
        if self.registers.decay_timer == 5_000_000 {
            self.registers.decay = 0;
            self.registers.decay_timer = 0;
        }
    }

    /// Runs one PPU clock: fetches, sprite evaluation, flags, one pixel, and
    /// the dot counter.
    pub fn clock(&mut self, cart: &Cartridge)
        requires
            old(self).wf(),
            cart.wf(),
        ensures
            final(self).wf(),
            final(self)@ == ppu_clocked(old(self)@, cart@),
    {
        proof { reveal(ppu_clocked); }
        let suppressed = self.registers.clear_vbl;
        self.apply_vbl_read();
        self.skip_odd_cycle();
        if self.scanline < 240 || self.scanline == 261 {
            self.fetch_for_scanline(cart);
        }
        self.update_vblank(suppressed);
        if self.scanline == 261 && self.cycles > 279 && self.cycles < 305 {
            self.copy_tmp_y_to_vram_address();
        }
        if self.scanline < 240 && self.cycles >= 1 && self.cycles < 257 {
            self.render_pixel(cart);
        }
        self.advance_time();
        self.advance_decay();
    }
}

} // verus!
