use vstd::prelude::*;
use crate::state::Stateful;
use super::{Ppu, PpuView, FRAME_PIXELS};
use super::bus::{PPUBus, PPUBusView};
use super::oam::{OAM, OamView};
use super::palette::Palette;
use super::registers::Registers;
use super::sprite::Sprite;

pub use super::bus::PpuBusState;

verus! {

/// The saved state of the PPU (its palette and frame are not saved).
pub struct PpuState {
    pub registers: Registers,
    pub pattern_shifter_lo: u16,
    pub pattern_shifter_hi: u16,
    pub palette_shifter_lo: u16,
    pub palette_shifter_hi: u16,
    pub oam_primary: Vec<Sprite>,
    pub oam_secondary: Vec<Sprite>,
    pub next_sprite_count: u8,
    pub current_sprite_count: u8,
    pub next_contains_sprite_0: bool,
    pub current_contains_sprite_0: bool,
    pub sprite_shifters_lo: Vec<u8>,
    pub sprite_shifters_hi: Vec<u8>,
    pub sprite_x: Vec<u8>,
    pub sprite_attributes: Vec<u8>,
    pub next_name_table_byte: u8,
    pub next_attribute_table_byte: u8,
    pub next_low_background_byte: u8,
    pub next_high_background_byte: u8,
    pub is_sprite_0_rendered: bool,
    pub ppu_bus: PpuBusState,
    pub cycles: u16,
    pub scanline: u16,
    pub odd_frame: bool,
    pub total_clock: u64,
    pub is_frame_ready: bool,
}

impl PpuState {
    /// A state that a PPU can be in: memories of the right sizes and
    /// counters in range.
    pub open spec fn valid(&self) -> bool {
        &&& self.oam_primary@.len() == 64
        &&& self.oam_secondary@.len() == 8
        &&& self.sprite_shifters_lo@.len() == 8
        &&& self.sprite_shifters_hi@.len() == 8
        &&& self.sprite_x@.len() == 8
        &&& self.sprite_attributes@.len() == 8
        &&& self.ppu_bus.name_tables@.len() == 0x800
        &&& self.ppu_bus.palette_table@.len() == 0x20
        &&& self.next_sprite_count <= 8
        &&& self.current_sprite_count <= 8
        &&& self.cycles < 0xFFFF
        &&& self.scanline < 0xFFFF
        &&& self.registers.decay_timer < 5_000_000
        &&& self.registers.fine_x < 8
    }

    /// Whether the state is one that a PPU can be in.
    pub fn is_valid(&self) -> (b: bool)
        ensures
            b == self.valid(),
    {
        self.oam_primary.len() == 64 && self.oam_secondary.len() == 8 && self.sprite_shifters_lo.len() == 8
            && self.sprite_shifters_hi.len() == 8 && self.sprite_x.len() == 8 && self.sprite_attributes.len() == 8
            && self.ppu_bus.name_tables.len() == 0x800 && self.ppu_bus.palette_table.len() == 0x20
            && self.next_sprite_count <= 8 && self.current_sprite_count <= 8 && self.cycles < 0xFFFF
            && self.scanline < 0xFFFF && self.registers.decay_timer < 5_000_000 && self.registers.fine_x < 8
    }

    /// The PPU state that this saved state restores, with a given palette,
    /// frame and debug palette.
    pub open spec fn restored(&self, frame: Seq<crate::utils::ARGBColor>, palette: Palette, debug_palette_id: u8) -> PpuView {
        PpuView {
            registers: self.registers,
            pattern_shifter_lo: self.pattern_shifter_lo,
            pattern_shifter_hi: self.pattern_shifter_hi,
            palette_shifter_lo: self.palette_shifter_lo,
            palette_shifter_hi: self.palette_shifter_hi,
            oam: OamView { primary: self.oam_primary@, secondary: self.oam_secondary@ },
            next_sprite_count: self.next_sprite_count,
            current_sprite_count: self.current_sprite_count,
            next_contains_sprite_0: self.next_contains_sprite_0,
            current_contains_sprite_0: self.current_contains_sprite_0,
            sprite_shifters_lo: self.sprite_shifters_lo@,
            sprite_shifters_hi: self.sprite_shifters_hi@,
            sprite_x: self.sprite_x@,
            sprite_attributes: self.sprite_attributes@,
            next_name_table_byte: self.next_name_table_byte,
            next_attribute_table_byte: self.next_attribute_table_byte,
            next_low_background_byte: self.next_low_background_byte,
            next_high_background_byte: self.next_high_background_byte,
            is_sprite_0_rendered: self.is_sprite_0_rendered,
            bus: PPUBusView {
                name_tables: self.ppu_bus.name_tables@,
                palette_table: self.ppu_bus.palette_table@,
                vram_address: self.ppu_bus.vram_address.address,
                tmp_vram_address: self.ppu_bus.tmp_vram_address.address,
            },
            cycles: self.cycles,
            scanline: self.scanline,
            odd_frame: self.odd_frame,
            total_clock: self.total_clock,
            is_frame_ready: self.is_frame_ready,
            frame,
            palette,
            debug_palette_id,
        }
    }
}

impl Ppu {
    /// A PPU restored from a saved state, drawing with `palette`.
    pub fn from_state(state: &PpuState, palette: Palette) -> (p: Self)
        requires
            state.valid(),
            palette.wf(),
        ensures
            p.wf(),
            p@ == state.restored(
                Seq::new(FRAME_PIXELS as nat, |i: int| crate::utils::ARGBColor { alpha: 255, red: 0, green: 0, blue: 0 }),
                palette,
                0,
            ),
    {
        let mut p = Ppu::new(palette);
        p.set_state(state);
        p
    }
}

fn copy_sprites(v: &Vec<Sprite>) -> (c: Vec<Sprite>)
    ensures
        c@ == v@,
{
    let mut c: Vec<Sprite> = Vec::new();
    let mut i: usize = 0;
    while i < v.len()
        invariant
            i <= v@.len(),
            c@ == v@.subrange(0, i as int),
        decreases v@.len() - i,
    {
        c.push(v[i]);
        i = i + 1;
        assert(c@ =~= v@.subrange(0, i as int));
    }
    assert(c@ =~= v@);
    c
}

impl Stateful for Ppu {
    type State = PpuState;

    fn get_state(&self) -> (s: PpuState)
        ensures
            self.wf() ==> s.valid(),
            s.restored(self@.frame, self@.palette, self@.debug_palette_id) == self@,
    {
        PpuState {
            registers: self.registers,
            pattern_shifter_lo: self.pattern_shifter_lo,
            pattern_shifter_hi: self.pattern_shifter_hi,
            palette_shifter_lo: self.palette_shifter_lo,
            palette_shifter_hi: self.palette_shifter_hi,
            oam_primary: copy_sprites(&self.oam.primary),
            oam_secondary: copy_sprites(&self.oam.secondary),
            next_sprite_count: self.next_sprite_count,
            current_sprite_count: self.current_sprite_count,
            next_contains_sprite_0: self.next_contains_sprite_0,
            current_contains_sprite_0: self.current_contains_sprite_0,
            sprite_shifters_lo: self.sprite_shifters_lo.clone(),
            sprite_shifters_hi: self.sprite_shifters_hi.clone(),
            sprite_x: self.sprite_x.clone(),
            sprite_attributes: self.sprite_attributes.clone(),
            next_name_table_byte: self.next_name_table_byte,
            next_attribute_table_byte: self.next_attribute_table_byte,
            next_low_background_byte: self.next_low_background_byte,
            next_high_background_byte: self.next_high_background_byte,
            is_sprite_0_rendered: self.is_sprite_0_rendered,
            ppu_bus: self.ppu_bus.get_state(),
            cycles: self.cycles,
            scanline: self.scanline,
            odd_frame: self.odd_frame,
            total_clock: self.total_clock,
            is_frame_ready: self.is_frame_ready,
        }
    }

    /// Restores a saved state; the palette, frame and debug palette are
    /// kept. A state that is not valid leaves the PPU as it is.
    fn set_state(&mut self, state: &PpuState)
        ensures
            state.valid() ==> final(self)@ == state.restored(old(self)@.frame, old(self)@.palette, old(self)@.debug_palette_id),
            !state.valid() ==> final(self)@ == old(self)@,
            old(self).wf() ==> final(self).wf(),
    {
        if state.is_valid() {
            self.registers = state.registers;
            self.pattern_shifter_lo = state.pattern_shifter_lo;
            self.pattern_shifter_hi = state.pattern_shifter_hi;
            self.palette_shifter_lo = state.palette_shifter_lo;
            self.palette_shifter_hi = state.palette_shifter_hi;
            self.oam = OAM { primary: copy_sprites(&state.oam_primary), secondary: copy_sprites(&state.oam_secondary) };
            self.next_sprite_count = state.next_sprite_count;
            self.current_sprite_count = state.current_sprite_count;
            self.next_contains_sprite_0 = state.next_contains_sprite_0;
            self.current_contains_sprite_0 = state.current_contains_sprite_0;
            self.sprite_shifters_lo = state.sprite_shifters_lo.clone();
            self.sprite_shifters_hi = state.sprite_shifters_hi.clone();
            self.sprite_x = state.sprite_x.clone();
            self.sprite_attributes = state.sprite_attributes.clone();
            self.next_name_table_byte = state.next_name_table_byte;
            self.next_attribute_table_byte = state.next_attribute_table_byte;
            self.next_low_background_byte = state.next_low_background_byte;
            self.next_high_background_byte = state.next_high_background_byte;
            self.is_sprite_0_rendered = state.is_sprite_0_rendered;
            self.ppu_bus = PPUBus::from_state(&state.ppu_bus);
            self.cycles = state.cycles;
            self.scanline = state.scanline;
            self.odd_frame = state.odd_frame;
            self.total_clock = state.total_clock;
            self.is_frame_ready = state.is_frame_ready;
        }
    }
}

} // verus!
