pub mod bus;
pub mod laws;
pub mod enums;
pub mod oam;
pub mod palette;
pub mod registers;
pub mod render;
pub mod sprite;
pub mod state;

use vstd::prelude::*;
use crate::cartridge::cartridge::{Cartridge, CartridgeView, cart_slot, slot_cart, slot_wf};
use crate::errors::{InvalidPPURegisterReadError, InvalidPPURegisterWriteError};
use crate::utils::ARGBColor;
use bus::{PPUBus, PPUBusView, ppu_bus_cart_written};
use oam::{OAM, OamView};
use palette::Palette;
use registers::{Registers, bus_value, ppu_register_peek, ppu_register_read, ppu_register_written};

verus! {

/// Pixels in a frame: 256 columns by 240 rows.
pub const FRAME_PIXELS: usize = 61440;

/// Pixels in the picture of a pattern table: 128 by 128.
pub const PATTERN_TABLE_PIXELS: usize = 16384;

/// The picture processing unit (2C02): its registers, memories, rendering
/// pipeline and the frame it draws.
pub struct Ppu {
    pub registers: Registers,
    /// Background pattern shifters (low and high bit planes).
    pub pattern_shifter_lo: u16,
    pub pattern_shifter_hi: u16,
    /// Background palette shifters (low and high bits of the attribute).
    pub palette_shifter_lo: u16,
    pub palette_shifter_hi: u16,
    pub oam: OAM,
    pub next_sprite_count: u8,
    pub current_sprite_count: u8,
    pub next_contains_sprite_0: bool,
    pub current_contains_sprite_0: bool,
    /// The eight sprites of the scanline being drawn: pattern shifters,
    /// x counters and attributes.
    pub sprite_shifters_lo: Vec<u8>,
    pub sprite_shifters_hi: Vec<u8>,
    pub sprite_x: Vec<u8>,
    pub sprite_attributes: Vec<u8>,
    /// Background data for the next eight pixels.
    pub next_name_table_byte: u8,
    pub next_attribute_table_byte: u8,
    pub next_low_background_byte: u8,
    pub next_high_background_byte: u8,
    pub is_sprite_0_rendered: bool,
    pub ppu_bus: PPUBus,
    pub cycles: u16,
    pub scanline: u16,
    pub odd_frame: bool,
    pub total_clock: u64,
    pub is_frame_ready: bool,
    pub frame_buffer: Vec<ARGBColor>,
    pub palette: Palette,
    /// The palette used to draw the pattern tables (0-7).
    pub debug_palette_id: u8,
}

/// The state of the PPU, as values.
pub struct PpuView {
    pub registers: Registers,
    pub pattern_shifter_lo: u16,
    pub pattern_shifter_hi: u16,
    pub palette_shifter_lo: u16,
    pub palette_shifter_hi: u16,
    pub oam: OamView,
    pub next_sprite_count: u8,
    pub current_sprite_count: u8,
    pub next_contains_sprite_0: bool,
    pub current_contains_sprite_0: bool,
    pub sprite_shifters_lo: Seq<u8>,
    pub sprite_shifters_hi: Seq<u8>,
    pub sprite_x: Seq<u8>,
    pub sprite_attributes: Seq<u8>,
    pub next_name_table_byte: u8,
    pub next_attribute_table_byte: u8,
    pub next_low_background_byte: u8,
    pub next_high_background_byte: u8,
    pub is_sprite_0_rendered: bool,
    pub bus: PPUBusView,
    pub cycles: u16,
    pub scanline: u16,
    pub odd_frame: bool,
    pub total_clock: u64,
    pub is_frame_ready: bool,
    pub frame: Seq<ARGBColor>,
    pub palette: Palette,
    pub debug_palette_id: u8,
}

/// The PPU at power-up, drawing with `palette`: registers, memories and
/// counters cleared, the frame black.
pub open spec fn ppu_power_up(palette: Palette) -> PpuView {
    PpuView {
        registers: Registers::new_spec(),
        pattern_shifter_lo: 0,
        pattern_shifter_hi: 0,
        palette_shifter_lo: 0,
        palette_shifter_hi: 0,
        oam: OamView {
            primary: Seq::new(64, |i: int| sprite::Sprite { y: 0, id: 0, attribute: 0, x: 0 }),
            secondary: Seq::new(8, |i: int| sprite::Sprite { y: 0, id: 0, attribute: 0, x: 0 }),
        },
        next_sprite_count: 0,
        current_sprite_count: 0,
        next_contains_sprite_0: false,
        current_contains_sprite_0: false,
        sprite_shifters_lo: Seq::new(8, |i: int| 0u8),
        sprite_shifters_hi: Seq::new(8, |i: int| 0u8),
        sprite_x: Seq::new(8, |i: int| 0u8),
        sprite_attributes: Seq::new(8, |i: int| 0u8),
        next_name_table_byte: 0,
        next_attribute_table_byte: 0,
        next_low_background_byte: 0,
        next_high_background_byte: 0,
        is_sprite_0_rendered: false,
        bus: PPUBusView {
            name_tables: Seq::new(0x800, |i: int| 0u8),
            palette_table: Seq::new(0x20, |i: int| 0u8),
            vram_address: 0,
            tmp_vram_address: 0,
        },
        cycles: 0,
        scanline: 0,
        odd_frame: false,
        total_clock: 0,
        is_frame_ready: false,
        frame: Seq::new(FRAME_PIXELS as nat, |i: int| ARGBColor { alpha: 255, red: 0, green: 0, blue: 0 }),
        palette,
        debug_palette_id: 0,
    }
}

impl View for Ppu {
    type V = PpuView;

    open spec fn view(&self) -> PpuView {
        PpuView {
            registers: self.registers,
            pattern_shifter_lo: self.pattern_shifter_lo,
            pattern_shifter_hi: self.pattern_shifter_hi,
            palette_shifter_lo: self.palette_shifter_lo,
            palette_shifter_hi: self.palette_shifter_hi,
            oam: self.oam@,
            next_sprite_count: self.next_sprite_count,
            current_sprite_count: self.current_sprite_count,
            next_contains_sprite_0: self.next_contains_sprite_0,
            current_contains_sprite_0: self.current_contains_sprite_0,
            sprite_shifters_lo: self.sprite_shifters_lo@,
            sprite_shifters_hi: self.sprite_shifters_hi@,
            sprite_x: self.sprite_x@,
            sprite_attributes: self.sprite_attributes@,
            next_name_table_byte: self.next_name_table_byte,
            next_attribute_table_byte: self.next_attribute_table_byte,
            next_low_background_byte: self.next_low_background_byte,
            next_high_background_byte: self.next_high_background_byte,
            is_sprite_0_rendered: self.is_sprite_0_rendered,
            bus: self.ppu_bus@,
            cycles: self.cycles,
            scanline: self.scanline,
            odd_frame: self.odd_frame,
            total_clock: self.total_clock,
            is_frame_ready: self.is_frame_ready,
            frame: self.frame_buffer@,
            palette: self.palette,
            debug_palette_id: self.debug_palette_id,
        }
    }
}

/// The colour of the palette RAM entry at `address` ($3F00-$3F1F) under
/// the current emphasis bits.
pub open spec fn palette_ram_color(v: PpuView, c: CartridgeView, address: u16) -> ARGBColor {
    v.palette.table(v.registers.mask >> 5u8)[(bus_value(v.bus, c, address) & 0x3F) as int]
}

/// The colour of `pattern` (0-3) in palette `palette` (0-7).
pub open spec fn pixel_color(v: PpuView, c: CartridgeView, palette: u8, pattern: u8) -> ARGBColor {
    palette_ram_color(v, c, (0x3F00 + ((palette as u16) << 2u16) + pattern as u16) as u16)
}

/// The colour index (0-3) of pixel (`x`, `y`) of pattern table `number`.
pub open spec fn pattern_pixel_value(b: PPUBusView, c: CartridgeView, number: u16, y: int, x: int) -> u8 {
    let address = (number * 0x1000 + (y / 8) * 256 + (x / 8) * 16 + (y % 8)) as u16;
    let lo = bus_value(b, c, address);
    let hi = bus_value(b, c, (address + 8) as u16);
    let bit = (7 - x % 8) as u8;
    ((lo >> bit) & 1) | (((hi >> bit) & 1) << 1u8)
}

/// The PPU and the cartridge after the CPU writes `value` to the PPU
/// register at `address`: $2004 writes the OAM and $2007 the PPU bus.
pub open spec fn ppu_written(v: PpuView, c: CartridgeView, address: u16, value: u8) -> (PpuView, CartridgeView) {
    let (r, b) = ppu_register_written(v.registers, v.bus, c, address, value);
    let oam = if address == 0x2004 {
        let i = (v.registers.oam_addr / 4) as int;
        OamView {
            primary: v.oam.primary.update(i, oam::sprite_with_byte(v.oam.primary[i], v.registers.oam_addr,
                if v.registers.oam_addr % 4 == 2 { value & 0xE3 } else { value })),
            ..v.oam
        }
    } else {
        v.oam
    };
    let c2 = if address == 0x2007 { ppu_bus_cart_written(c, v.bus.vram_address & 0x3FFF, value) } else { c };
    (PpuView { registers: r, bus: b, oam, ..v }, c2)
}

/// The PPU after the CPU reads the PPU register at `address`, and what it
/// reads.
pub open spec fn ppu_read(v: PpuView, c: CartridgeView, address: u16) -> (PpuView, Result<u8, InvalidPPURegisterReadError>) {
    let (r, b, res) = ppu_register_read(v.registers, v.bus, v.oam, c, address);
    (PpuView { registers: r, bus: b, ..v }, res)
}

impl Ppu {
    pub open spec fn wf(&self) -> bool {
        &&& self.oam.wf()
        &&& self.ppu_bus.wf()
        &&& self.sprite_shifters_lo@.len() == 8
        &&& self.sprite_shifters_hi@.len() == 8
        &&& self.sprite_x@.len() == 8
        &&& self.sprite_attributes@.len() == 8
        &&& self.frame_buffer@.len() == FRAME_PIXELS
        &&& self.palette.wf()
        &&& self.next_sprite_count <= 8
        &&& self.current_sprite_count <= 8
        &&& self.cycles < 0xFFFF
        &&& self.scanline < 0xFFFF
        &&& self.registers.decay_timer < 5_000_000
        &&& self.registers.fine_x < 8
        &&& self.debug_palette_id < 8
    }

    /// A PPU at power-up, drawing with `palette`.
    pub fn new(palette: Palette) -> (p: Self)
        requires
            palette.wf(),
        ensures
            p.wf(),
            p@ == ppu_power_up(palette),
    {
        Ppu {
            registers: Registers::new(),
            pattern_shifter_lo: 0,
            pattern_shifter_hi: 0,
            palette_shifter_lo: 0,
            palette_shifter_hi: 0,
            oam: OAM::new(),
            next_sprite_count: 0,
            current_sprite_count: 0,
            next_contains_sprite_0: false,
            current_contains_sprite_0: false,
            sprite_shifters_lo: crate::cartridge::mapper_000::vec_of_zeros(8),
            sprite_shifters_hi: crate::cartridge::mapper_000::vec_of_zeros(8),
            sprite_x: crate::cartridge::mapper_000::vec_of_zeros(8),
            sprite_attributes: crate::cartridge::mapper_000::vec_of_zeros(8),
            next_name_table_byte: 0,
            next_attribute_table_byte: 0,
            next_low_background_byte: 0,
            next_high_background_byte: 0,
            is_sprite_0_rendered: false,
            ppu_bus: PPUBus::new(),
            cycles: 0,
            scanline: 0,
            odd_frame: false,
            total_clock: 0,
            is_frame_ready: false,
            frame_buffer: black_frame(),
            palette,
            debug_palette_id: 0,
        }
    }

    /// The CPU writes `value` to the PPU register at `address`; see
    /// `Registers::write_register`.
    pub fn write_register(&mut self, cart: &mut Option<Cartridge>, address: u16, value: u8)
        -> (r: Result<(), InvalidPPURegisterWriteError>)
        requires
            old(self).wf(),
            slot_wf(*old(cart)),
            address == 0x2007 ==> (*old(cart)) is Some,
        ensures
            final(self).wf(),
            slot_wf(*final(cart)),
            final(self)@ == ppu_written(old(self)@, slot_cart(cart_slot(*old(cart))), address, value).0,
            cart_slot(*final(cart)) == (match cart_slot(*old(cart)) {
                Some(_) => Some(ppu_written(old(self)@, slot_cart(cart_slot(*old(cart))), address, value).1),
                None => None,
            }),
            r is Ok <==> registers::ppu_register_writable(address),
            r is Err ==> r == Err::<(), InvalidPPURegisterWriteError>(InvalidPPURegisterWriteError(address)),
    {
        proof { crate::bits::lemma_byte_masks(); }
        assert(value & 0x07 < 8);
        let r = self.registers.write_register(&mut self.ppu_bus, &mut self.oam, cart, address, value);
        assert(self@.oam =~= ppu_written(old(self)@, slot_cart(cart_slot(*old(cart))), address, value).0.oam);
        r
    }

    /// The CPU reads the PPU register at `address`; see
    /// `Registers::read_register`.
    pub fn read_register(&mut self, cart: &Option<Cartridge>, address: u16) -> (r: Result<u8, InvalidPPURegisterReadError>)
        requires
            old(self).wf(),
            slot_wf(*cart),
            address == 0x2007 ==> (*cart) is Some,
        ensures
            final(self).wf(),
            (final(self)@, r) == ppu_read(old(self)@, slot_cart(cart_slot(*cart)), address),
    {
        self.registers.read_register(&mut self.ppu_bus, &self.oam, cart, address)
    }

    /// The value that a read of register `address` would give, without
    /// doing the read.
    pub fn read_register_value(&self, cart: &Option<Cartridge>, address: u16) -> (r: Result<u8, InvalidPPURegisterReadError>)
        requires
            self.wf(),
            slot_wf(*cart),
            address == 0x2007 ==> (*cart) is Some,
        ensures
            r == ppu_read(self@, slot_cart(cart_slot(*cart)), address).1,
    {
        self.registers.read_value(&self.ppu_bus, &self.oam, cart, address)
    }

    /// Reads a PPU register without side effects.
    pub fn read_only_register(&self, address: u16) -> (r: Result<u8, InvalidPPURegisterReadError>)
        ensures
            r == ppu_register_peek(self.registers, address),
    {
        self.registers.read_only_register(address)
    }

    pub fn get_scanline(&self) -> (s: u16)
        ensures
            s == self.scanline,
    {
        self.scanline
    }

    pub fn get_cycles(&self) -> (c: u16)
        ensures
            c == self.cycles,
    {
        self.cycles
    }

    /// Whether a whole frame was drawn since the frame buffer was last taken.
    pub fn is_frame_ready(&self) -> (b: bool)
        ensures
            b == self.is_frame_ready,
    {
        self.is_frame_ready
    }

    /// Takes the frame: returns the frame buffer and marks it as taken.
    pub fn get_frame_buffer(&mut self) -> (f: Vec<ARGBColor>)
        requires
            old(self).wf(),
        ensures
            final(self).wf(),
            f@ == old(self)@.frame,
            final(self)@ == (PpuView { is_frame_ready: false, ..old(self)@ }),
    {
        self.is_frame_ready = false;
        self.frame_buffer.clone()
    }

    /// Chooses the palette (0-7) used to draw the pattern tables.
    pub fn set_debug_palette_id(&mut self, id: u8)
        requires
            old(self).wf(),
            id < 8,
        ensures
            final(self).wf(),
            final(self)@ == (PpuView { debug_palette_id: id, ..old(self)@ }),
    {
        self.debug_palette_id = id;
    }

    /// The colour of a palette RAM entry under the current emphasis.
    fn palette_ram_color(&self, cart: &Cartridge, address: u16) -> (color: ARGBColor)
        requires
            self.wf(),
            cart.wf(),
        ensures
            color == palette_ram_color(self@, cart@, address),
    {
        let raw = self.bus_value(cart, address);
        let value = raw & 0x3F;
        proof { crate::bits::lemma_byte_masks(); }
        assert(raw & 0x3F < 64);
        let mask = self.registers.mask;
        let emphasis = mask >> 5u8;
        proof { crate::bits::lemma_byte_masks(); }
        assert(mask >> 5u8 < 8);
        self.palette.color(emphasis, value)
    }

    /// The colour of `pattern` (0-3) in palette `palette` (0-7).
    pub fn get_pixel_color(&self, cart: &Cartridge, palette: u8, pattern: u8) -> (color: ARGBColor)
        requires
            self.wf(),
            cart.wf(),
            palette < 8,
            pattern < 4,
        ensures
            color == pixel_color(self@, cart@, palette, pattern),
    {
        let p16: u16 = (palette as u16) << 2u16;
        assert(p16 <= 28) by (bit_vector)
            requires p16 == (palette as u16) << 2u16, palette < 8;
        let address: u16 = 0x3F00 + p16 + pattern as u16;
        self.palette_ram_color(cart, address)
    }

    /// What the PPU reads at `address`, 0 where the read fails.
    pub fn bus_value(&self, cart: &Cartridge, address: u16) -> (v: u8)
        requires
            self.wf(),
            cart.wf(),
        ensures
            v == bus_value(self@.bus, cart@, address),
    {
        match self.ppu_bus.read(cart, address) {
            Ok(v) => v,
            Err(_) => 0,
        }
    }

    /// The colours of the 32 palette RAM entries.
    pub fn get_palette(&self, cart: &Cartridge) -> (colors: Vec<ARGBColor>)
        requires
            self.wf(),
            cart.wf(),
        ensures
            colors@ == Seq::new(32, |i: int| palette_ram_color(self@, cart@, (0x3F00 + i) as u16)),
    {
        let mut colors: Vec<ARGBColor> = Vec::new();
        let mut i: u16 = 0;
        while i < 32
            invariant
                self.wf(),
                cart.wf(),
                i <= 32,
                colors@ == Seq::new(i as nat, |k: int| palette_ram_color(self@, cart@, (0x3F00 + k) as u16)),
            decreases 32 - i,
        {
            colors.push(self.palette_ram_color(cart, 0x3F00 + i));
            i = i + 1;
            assert(colors@ =~= Seq::new(i as nat, |k: int| palette_ram_color(self@, cart@, (0x3F00 + k) as u16)));
        }
        colors
    }

    /// The picture of pattern table `number` (0 or 1), 128 by 128 pixels row
    /// by row, drawn with the debug palette.
    pub fn get_pattern_table(&self, cart: &Cartridge, number: u16) -> (pixels: Vec<ARGBColor>)
        requires
            self.wf(),
            cart.wf(),
            number <= 1,
        ensures
            pixels@.len() == PATTERN_TABLE_PIXELS,
            forall|y: int, x: int| 0 <= y < 128 && 0 <= x < 128 ==> #[trigger] pixels@[y * 128 + x]
                == pixel_color(self@, cart@, self.debug_palette_id, pattern_pixel_value(self@.bus, cart@, number, y, x)),
    {
        let mut pixels: Vec<ARGBColor> = Vec::new();
        let mut y: u16 = 0;
        while y < 128
            invariant
                self.wf(),
                cart.wf(),
                number <= 1,
                y <= 128,
                pixels@.len() == y * 128,
                forall|yy: int, xx: int| 0 <= yy < y && 0 <= xx < 128 ==> #[trigger] pixels@[yy * 128 + xx]
                    == pixel_color(self@, cart@, self.debug_palette_id, pattern_pixel_value(self@.bus, cart@, number, yy, xx)),
            decreases 128 - y,
        {
            let mut x: u16 = 0;
            while x < 128
                invariant
                    self.wf(),
                    cart.wf(),
                    number <= 1,
                    y < 128,
                    x <= 128,
                    pixels@.len() == y * 128 + x,
                    forall|yy: int, xx: int| 0 <= yy < y && 0 <= xx < 128 ==> #[trigger] pixels@[yy * 128 + xx]
                        == pixel_color(self@, cart@, self.debug_palette_id, pattern_pixel_value(self@.bus, cart@, number, yy, xx)),
                    forall|xx: int| 0 <= xx < x ==> #[trigger] pixels@[y * 128 + xx]
                        == pixel_color(self@, cart@, self.debug_palette_id, pattern_pixel_value(self@.bus, cart@, number, y as int, xx)),
                decreases 128 - x,
            {
                let value = self.pattern_pixel(cart, number, y, x);
                let color = self.get_pixel_color(cart, self.debug_palette_id, value);
                pixels.push(color);
                x = x + 1;
            }
            y = y + 1;
        }
        pixels
    }

    fn pattern_pixel(&self, cart: &Cartridge, number: u16, y: u16, x: u16) -> (v: u8)
        requires
            self.wf(),
            cart.wf(),
            number <= 1,
            y < 128,
            x < 128,
        ensures
            v == pattern_pixel_value(self@.bus, cart@, number, y as int, x as int),
            v < 4,
    {
        let address: u16 = number * 0x1000 + (y / 8) * 256 + (x / 8) * 16 + (y % 8);
        let lo = self.bus_value(cart, address);
        let hi = self.bus_value(cart, address + 8);
        let bit: u8 = (7 - x % 8) as u8;
        let v = ((lo >> bit) & 1) | (((hi >> bit) & 1) << 1u8);
        assert(((lo >> bit) & 1) | (((hi >> bit) & 1) << 1u8) < 4) by (bit_vector);
        v
    }
}

fn black_frame() -> (f: Vec<ARGBColor>)
    ensures
        f@ == Seq::new(FRAME_PIXELS as nat, |i: int| ARGBColor { alpha: 255, red: 0, green: 0, blue: 0 }),
{
    let mut f: Vec<ARGBColor> = Vec::new();
    let mut i: usize = 0;
    while i < FRAME_PIXELS
        invariant
            i <= FRAME_PIXELS,
            f@ == Seq::new(i as nat, |k: int| ARGBColor { alpha: 255, red: 0, green: 0, blue: 0 }),
        decreases FRAME_PIXELS - i,
    {
        f.push(ARGBColor::black());
        i = i + 1;
        assert(f@ =~= Seq::new(i as nat, |k: int| ARGBColor { alpha: 255, red: 0, green: 0, blue: 0 }));
    }
    f
}

} // verus!
