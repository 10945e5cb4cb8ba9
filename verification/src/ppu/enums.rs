use vstd::prelude::*;

verus! {

/// Flags of the status register ($2002).
#[derive(Clone, Copy, PartialEq, Eq, Structural)]
pub enum StatusFlag {
    VBlank,
    Sprite0Hit,
    SpriteOverflow,
}

pub open spec fn status_bit(f: StatusFlag) -> u8 {
    match f {
        StatusFlag::VBlank => 0x80,
        StatusFlag::Sprite0Hit => 0x40,
        StatusFlag::SpriteOverflow => 0x20,
    }
}

impl StatusFlag {
    pub fn bit(&self) -> (b: u8)
        ensures
            b == status_bit(*self),
    {
        match self {
            StatusFlag::VBlank => 0x80,
            StatusFlag::Sprite0Hit => 0x40,
            StatusFlag::SpriteOverflow => 0x20,
        }
    }
}

/// Flags of the control register ($2000).
#[derive(Clone, Copy, PartialEq, Eq, Structural)]
pub enum ControlFlag {
    /// Generate an NMI at the start of vertical blank.
    VBlank,
    MasterSlaveSelect,
    /// 0: 8x8 sprites, 1: 8x16 sprites.
    SpriteSize,
    /// Background pattern table at $0000 (0) or $1000 (1).
    BackgroundPatternTableAddress,
    /// Sprite pattern table at $0000 (0) or $1000 (1).
    SpritePatternTableAddress,
    /// VRAM address increment per $2007 access: 1 (0) or 32 (1).
    VRAMAddressIncrement,
    /// Base nametable (two bits).
    NametableAddress,
}

pub open spec fn control_bit(f: ControlFlag) -> u8 {
    match f {
        ControlFlag::VBlank => 0x80,
        ControlFlag::MasterSlaveSelect => 0x40,
        ControlFlag::SpriteSize => 0x20,
        ControlFlag::BackgroundPatternTableAddress => 0x10,
        ControlFlag::SpritePatternTableAddress => 0x08,
        ControlFlag::VRAMAddressIncrement => 0x04,
        ControlFlag::NametableAddress => 0x01,
    }
}

impl ControlFlag {
    pub fn bit(&self) -> (b: u8)
        ensures
            b == control_bit(*self),
    {
        match self {
            ControlFlag::VBlank => 0x80,
            ControlFlag::MasterSlaveSelect => 0x40,
            ControlFlag::SpriteSize => 0x20,
            ControlFlag::BackgroundPatternTableAddress => 0x10,
            ControlFlag::SpritePatternTableAddress => 0x08,
            ControlFlag::VRAMAddressIncrement => 0x04,
            ControlFlag::NametableAddress => 0x01,
        }
    }
}

/// Flags of the mask register ($2001).
#[derive(Clone, Copy, PartialEq, Eq, Structural)]
pub enum MaskFlag {
    EmphasizeBlue,
    EmphasizeGreen,
    EmphasizeRed,
    ShowSprites,
    ShowBackground,
    ShowOffScreenSprites,
    ShowOffScreenBackground,
    GreyScale,
}

pub open spec fn mask_bit(f: MaskFlag) -> u8 {
    match f {
        MaskFlag::EmphasizeBlue => 0x80,
        MaskFlag::EmphasizeGreen => 0x40,
        MaskFlag::EmphasizeRed => 0x20,
        MaskFlag::ShowSprites => 0x10,
        MaskFlag::ShowBackground => 0x08,
        MaskFlag::ShowOffScreenSprites => 0x04,
        MaskFlag::ShowOffScreenBackground => 0x02,
        MaskFlag::GreyScale => 0x01,
    }
}

impl MaskFlag {
    pub fn bit(&self) -> (b: u8)
        ensures
            b == mask_bit(*self),
    {
        match self {
            MaskFlag::EmphasizeBlue => 0x80,
            MaskFlag::EmphasizeGreen => 0x40,
            MaskFlag::EmphasizeRed => 0x20,
            MaskFlag::ShowSprites => 0x10,
            MaskFlag::ShowBackground => 0x08,
            MaskFlag::ShowOffScreenSprites => 0x04,
            MaskFlag::ShowOffScreenBackground => 0x02,
            MaskFlag::GreyScale => 0x01,
        }
    }
}

/// Fields of the 15-bit VRAM address (loopy register).
#[derive(Clone, Copy, PartialEq, Eq, Structural)]
pub enum VRAMAddressMask {
    /// Bits 0-4.
    CoarseXScroll,
    /// Bits 5-9.
    CoarseYScroll,
    /// Bits 10-11.
    NametableSelect,
    /// Bit 10.
    NametableX,
    /// Bit 11.
    NametableY,
    /// Bits 12-14.
    FineY,
    /// Bits 8-13, set by the first write to $2006.
    FW2006,
    /// Bits 0-7, set by the second write to $2006.
    SW2006,
}

pub open spec fn vram_mask(m: VRAMAddressMask) -> u16 {
    match m {
        VRAMAddressMask::CoarseXScroll => 0x001F,
        VRAMAddressMask::CoarseYScroll => 0x03E0,
        VRAMAddressMask::NametableSelect => 0x0C00,
        VRAMAddressMask::NametableX => 0x0400,
        VRAMAddressMask::NametableY => 0x0800,
        VRAMAddressMask::FineY => 0x7000,
        VRAMAddressMask::FW2006 => 0x3F00,
        VRAMAddressMask::SW2006 => 0x00FF,
    }
}

/// The position of a field's lowest bit.
pub open spec fn vram_shift(m: VRAMAddressMask) -> u16 {
    match m {
        VRAMAddressMask::CoarseXScroll => 0,
        VRAMAddressMask::CoarseYScroll => 5,
        VRAMAddressMask::NametableSelect => 10,
        VRAMAddressMask::NametableX => 10,
        VRAMAddressMask::NametableY => 11,
        VRAMAddressMask::FineY => 12,
        VRAMAddressMask::FW2006 => 8,
        VRAMAddressMask::SW2006 => 0,
    }
}

impl VRAMAddressMask {
    pub fn mask(&self) -> (m: u16)
        ensures
            m == vram_mask(*self),
    {
        match self {
            VRAMAddressMask::CoarseXScroll => 0x001F,
            VRAMAddressMask::CoarseYScroll => 0x03E0,
            VRAMAddressMask::NametableSelect => 0x0C00,
            VRAMAddressMask::NametableX => 0x0400,
            VRAMAddressMask::NametableY => 0x0800,
            VRAMAddressMask::FineY => 0x7000,
            VRAMAddressMask::FW2006 => 0x3F00,
            VRAMAddressMask::SW2006 => 0x00FF,
        }
    }

    pub fn shift(&self) -> (s: u16)
        ensures
            s == vram_shift(*self),
    {
        match self {
            VRAMAddressMask::CoarseXScroll => 0,
            VRAMAddressMask::CoarseYScroll => 5,
            VRAMAddressMask::NametableSelect => 10,
            VRAMAddressMask::NametableX => 10,
            VRAMAddressMask::NametableY => 11,
            VRAMAddressMask::FineY => 12,
            VRAMAddressMask::FW2006 => 8,
            VRAMAddressMask::SW2006 => 0,
        }
    }
}

/// Fields of a sprite's attribute byte.
#[derive(Clone, Copy, PartialEq, Eq, Structural)]
pub enum SpriteAttribute {
    /// Bits 0-1: palette of the sprite.
    Palette,
    /// Bit 5: behind the background.
    Priority,
    FlipHorizontally,
    FlipVertically,
}

pub open spec fn sprite_attribute_bit(a: SpriteAttribute) -> u8 {
    match a {
        SpriteAttribute::Palette => 0x03,
        SpriteAttribute::Priority => 0x20,
        SpriteAttribute::FlipHorizontally => 0x40,
        SpriteAttribute::FlipVertically => 0x80,
    }
}

} // verus!
