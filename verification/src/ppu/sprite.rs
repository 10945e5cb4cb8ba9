use vstd::prelude::*;
use super::enums::{SpriteAttribute, sprite_attribute_bit};

verus! {

/// One of the 64 sprites of the object attribute memory.
#[derive(Debug, Clone, Copy, PartialEq, Eq, Structural)]
pub struct Sprite {
    pub y: u8,
    pub id: u8,
    pub attribute: u8,
    pub x: u8,
}

impl Sprite {
    pub fn default() -> (s: Self)
        ensures
            s == (Sprite { y: 0, id: 0, attribute: 0, x: 0 }),
    {
        Sprite { y: 0, id: 0, attribute: 0, x: 0 }
    }

    /// The palette (bits 0-1) or whether a one-bit flag is set (1 or 0).
    pub fn get_attribute_flag(&self, flag: SpriteAttribute) -> (v: u8)
        ensures
            flag == SpriteAttribute::Palette ==> v == self.attribute & 0x03,
            flag != SpriteAttribute::Palette ==> v == (if self.attribute & sprite_attribute_bit(flag) != 0 { 1u8 } else { 0u8 }),
    {
        match flag {
            SpriteAttribute::Palette => self.attribute & 0x03,
            SpriteAttribute::Priority => if self.attribute & 0x20 != 0 { 1 } else { 0 },
            SpriteAttribute::FlipHorizontally => if self.attribute & 0x40 != 0 { 1 } else { 0 },
            SpriteAttribute::FlipVertically => if self.attribute & 0x80 != 0 { 1 } else { 0 },
        }
    }
}

} // verus!
