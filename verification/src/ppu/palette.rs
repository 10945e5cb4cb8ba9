use vstd::prelude::*;
use crate::utils::ARGBColor;

verus! {

/// The eight palettes of the PPU: the base one, and one for each
/// combination of the red, green and blue emphasis bits. Each maps the 64
/// colour indices of the NES to a colour.
pub struct Palette {
    pub base: Vec<ARGBColor>,
    pub emphasize_r: Vec<ARGBColor>,
    pub emphasize_g: Vec<ARGBColor>,
    pub emphasize_b: Vec<ARGBColor>,
    pub emphasize_rg: Vec<ARGBColor>,
    pub emphasize_rb: Vec<ARGBColor>,
    pub emphasize_gb: Vec<ARGBColor>,
    pub emphasize_rgb: Vec<ARGBColor>,
}

/// A palette given as bytes whose length is neither 192 (one palette of 64
/// RGB colours) nor 1536 (eight of them).
#[derive(Debug, Clone, Copy, PartialEq, Eq, Structural)]
pub struct InvalidPaletteError {
    pub length: usize,
}

pub open spec fn opaque_color(red: u8, green: u8, blue: u8) -> ARGBColor {
    ARGBColor { alpha: 255, red, green, blue }
}

/// The colours of the built-in palette.
pub open spec fn default_color(index: u8) -> ARGBColor {
    match index {
        0x00 => opaque_color(84, 84, 84),
        0x01 => opaque_color(0, 30, 116),
        0x02 => opaque_color(8, 16, 144),
        0x03 => opaque_color(48, 0, 136),
        0x04 => opaque_color(68, 0, 100),
        0x05 => opaque_color(92, 0, 48),
        0x06 => opaque_color(84, 4, 0),
        0x07 => opaque_color(60, 24, 0),
        0x08 => opaque_color(32, 42, 0),
        0x09 => opaque_color(8, 58, 0),
        0x0A => opaque_color(0, 64, 0),
        0x0B => opaque_color(0, 60, 0),
        0x0C => opaque_color(0, 50, 60),
        0x10 => opaque_color(152, 150, 152),
        0x11 => opaque_color(8, 76, 196),
        0x12 => opaque_color(48, 50, 236),
        0x13 => opaque_color(92, 30, 228),
        0x14 => opaque_color(136, 20, 176),
        0x15 => opaque_color(160, 20, 100),
        0x16 => opaque_color(152, 34, 32),
        0x17 => opaque_color(120, 60, 0),
        0x18 => opaque_color(84, 90, 0),
        0x19 => opaque_color(40, 114, 0),
        0x1A => opaque_color(8, 124, 0),
        0x1B => opaque_color(0, 118, 140),
        0x1C => opaque_color(0, 102, 120),
        0x20 => opaque_color(236, 238, 236),
        0x21 => opaque_color(76, 154, 236),
        0x22 => opaque_color(120, 124, 236),
        0x23 => opaque_color(176, 98, 236),
        0x24 => opaque_color(228, 84, 236),
        0x25 => opaque_color(236, 88, 180),
        0x26 => opaque_color(236, 106, 100),
        0x27 => opaque_color(212, 136, 32),
        0x28 => opaque_color(160, 170, 0),
        0x29 => opaque_color(116, 196, 0),
        0x2A => opaque_color(76, 208, 32),
        0x2B => opaque_color(56, 204, 108),
        0x2C => opaque_color(56, 180, 204),
        0x2D => opaque_color(60, 60, 60),
        0x30 => opaque_color(236, 238, 236),
        0x31 => opaque_color(168, 204, 236),
        0x32 => opaque_color(188, 188, 236),
        0x33 => opaque_color(212, 178, 236),
        0x34 => opaque_color(236, 174, 236),
        0x35 => opaque_color(236, 174, 212),
        0x36 => opaque_color(236, 180, 176),
        0x37 => opaque_color(228, 196, 144),
        0x38 => opaque_color(204, 210, 120),
        0x39 => opaque_color(180, 222, 120),
        0x3A => opaque_color(168, 226, 144),
        0x3B => opaque_color(152, 226, 180),
        0x3C => opaque_color(160, 214, 228),
        0x3D => opaque_color(160, 162, 160),
        _ => opaque_color(0, 0, 0),
    }
}

/// The built-in palette, as a table of 64 colours.
pub open spec fn default_table() -> Seq<ARGBColor> {
    Seq::new(64, |i: int| default_color(i as u8))
}

/// The 64 colours whose RGB bytes start at `offset` in `raw`.
pub open spec fn table_from_bytes(raw: Seq<u8>, offset: int) -> Seq<ARGBColor> {
    Seq::new(64, |i: int| opaque_color(raw[offset + 3 * i], raw[offset + 3 * i + 1], raw[offset + 3 * i + 2]))
}

fn rgb(red: u8, green: u8, blue: u8) -> (c: ARGBColor)
    ensures
        c == opaque_color(red, green, blue),
{
    ARGBColor::new(255, red, green, blue)
}

/// The colour of the built-in palette at `index`.
pub fn default_palette_color(index: u8) -> (c: ARGBColor)
    ensures
        c == default_color(index),
{
    match index {
        0x00 => rgb(84, 84, 84),
        0x01 => rgb(0, 30, 116),
        0x02 => rgb(8, 16, 144),
        0x03 => rgb(48, 0, 136),
        0x04 => rgb(68, 0, 100),
        0x05 => rgb(92, 0, 48),
        0x06 => rgb(84, 4, 0),
        0x07 => rgb(60, 24, 0),
        0x08 => rgb(32, 42, 0),
        0x09 => rgb(8, 58, 0),
        0x0A => rgb(0, 64, 0),
        0x0B => rgb(0, 60, 0),
        0x0C => rgb(0, 50, 60),
        0x10 => rgb(152, 150, 152),
        0x11 => rgb(8, 76, 196),
        0x12 => rgb(48, 50, 236),
        0x13 => rgb(92, 30, 228),
        0x14 => rgb(136, 20, 176),
        0x15 => rgb(160, 20, 100),
        0x16 => rgb(152, 34, 32),
        0x17 => rgb(120, 60, 0),
        0x18 => rgb(84, 90, 0),
        0x19 => rgb(40, 114, 0),
        0x1A => rgb(8, 124, 0),
        0x1B => rgb(0, 118, 140),
        0x1C => rgb(0, 102, 120),
        0x20 => rgb(236, 238, 236),
        0x21 => rgb(76, 154, 236),
        0x22 => rgb(120, 124, 236),
        0x23 => rgb(176, 98, 236),
        0x24 => rgb(228, 84, 236),
        0x25 => rgb(236, 88, 180),
        0x26 => rgb(236, 106, 100),
        0x27 => rgb(212, 136, 32),
        0x28 => rgb(160, 170, 0),
        0x29 => rgb(116, 196, 0),
        0x2A => rgb(76, 208, 32),
        0x2B => rgb(56, 204, 108),
        0x2C => rgb(56, 180, 204),
        0x2D => rgb(60, 60, 60),
        0x30 => rgb(236, 238, 236),
        0x31 => rgb(168, 204, 236),
        0x32 => rgb(188, 188, 236),
        0x33 => rgb(212, 178, 236),
        0x34 => rgb(236, 174, 236),
        0x35 => rgb(236, 174, 212),
        0x36 => rgb(236, 180, 176),
        0x37 => rgb(228, 196, 144),
        0x38 => rgb(204, 210, 120),
        0x39 => rgb(180, 222, 120),
        0x3A => rgb(168, 226, 144),
        0x3B => rgb(152, 226, 180),
        0x3C => rgb(160, 214, 228),
        0x3D => rgb(160, 162, 160),
        _ => rgb(0, 0, 0),
    }
}

fn default_palette_table() -> (t: Vec<ARGBColor>)
    ensures
        t@ == default_table(),
{
    let mut t: Vec<ARGBColor> = Vec::new();
    let mut i: u8 = 0;
    while i < 64
        invariant
            i <= 64,
            t@ == Seq::new(i as nat, |k: int| default_color(k as u8)),
        decreases 64 - i,
    {
        t.push(default_palette_color(i));
        i = i + 1;
        assert(t@ =~= Seq::new(i as nat, |k: int| default_color(k as u8)));
    }
    assert(t@ =~= default_table());
    t
}

fn table_of_bytes(raw: &Vec<u8>, offset: usize) -> (t: Vec<ARGBColor>)
    requires
        offset + 192 <= raw@.len(),
    ensures
        t@ == table_from_bytes(raw@, offset as int),
{
    let mut t: Vec<ARGBColor> = Vec::new();
    let n = raw.len();
    let mut i: usize = 0;
    while i < 64
        invariant
            i <= 64,
            n == raw@.len(),
            offset + 192 <= raw@.len(),
            t@ == Seq::new(i as nat, |k: int| opaque_color(raw@[offset + 3 * k], raw@[offset + 3 * k + 1], raw@[offset + 3 * k + 2])),
        decreases 64 - i,
    {
        let j: usize = offset + 3 * i;
        t.push(rgb(raw[j], raw[j + 1], raw[j + 2]));
        i = i + 1;
        assert(t@ =~= Seq::new(i as nat, |k: int| opaque_color(raw@[offset + 3 * k], raw@[offset + 3 * k + 1], raw@[offset + 3 * k + 2])));
    }
    assert(t@ =~= table_from_bytes(raw@, offset as int));
    t
}

impl Palette {
    pub open spec fn wf(&self) -> bool {
        &&& self.base@.len() == 64
        &&& self.emphasize_r@.len() == 64
        &&& self.emphasize_g@.len() == 64
        &&& self.emphasize_b@.len() == 64
        &&& self.emphasize_rg@.len() == 64
        &&& self.emphasize_rb@.len() == 64
        &&& self.emphasize_gb@.len() == 64
        &&& self.emphasize_rgb@.len() == 64
    }

    /// Whether each of the eight palettes has 64 colours.
    pub fn is_well_formed(&self) -> (b: bool)
        ensures
            b == self.wf(),
    {
        self.base.len() == 64 && self.emphasize_r.len() == 64 && self.emphasize_g.len() == 64
            && self.emphasize_b.len() == 64 && self.emphasize_rg.len() == 64 && self.emphasize_rb.len() == 64
            && self.emphasize_gb.len() == 64 && self.emphasize_rgb.len() == 64
    }

    /// The palette used under the emphasis bits `emphasis` (bit 0 red, bit 1
    /// green, bit 2 blue).
    pub open spec fn table(&self, emphasis: u8) -> Seq<ARGBColor> {
        if emphasis == 0 {
            self.base@
        } else if emphasis == 1 {
            self.emphasize_r@
        } else if emphasis == 2 {
            self.emphasize_g@
        } else if emphasis == 3 {
            self.emphasize_rg@
        } else if emphasis == 4 {
            self.emphasize_b@
        } else if emphasis == 5 {
            self.emphasize_rb@
        } else if emphasis == 6 {
            self.emphasize_gb@
        } else {
            self.emphasize_rgb@
        }
    }

    /// The built-in palette, used for every emphasis.
    pub fn default() -> (p: Self)
        ensures
            p.wf(),
            forall|e: u8| e < 8 ==> #[trigger] p.table(e) == default_table(),
    {
        Palette {
            base: default_palette_table(),
            emphasize_r: default_palette_table(),
            emphasize_g: default_palette_table(),
            emphasize_b: default_palette_table(),
            emphasize_rg: default_palette_table(),
            emphasize_rb: default_palette_table(),
            emphasize_gb: default_palette_table(),
            emphasize_rgb: default_palette_table(),
        }
    }

    /// Reads a palette from the bytes of a .pal file: 192 bytes give one
    /// palette, used for every emphasis; 1536 bytes give the base palette
    /// and the seven emphasized ones, in the order r, g, b, rg, rb, gb, rgb.
    pub fn from_bytes(raw: &Vec<u8>) -> (r: Result<Self, InvalidPaletteError>)
        ensures
            r is Ok <==> (raw@.len() == 192 || raw@.len() == 1536),
            r is Err ==> r == Err::<Self, InvalidPaletteError>(InvalidPaletteError { length: raw@.len() as usize }),
            r matches Ok(p) ==> p.wf(),
            r is Ok && raw@.len() == 192 ==> (forall|e: u8| e < 8 ==> #[trigger] r.unwrap().table(e) == table_from_bytes(raw@, 0)),
            r is Ok && raw@.len() == 1536 ==> {
                let p = r.unwrap();
                &&& p.base@ == table_from_bytes(raw@, 0)
                &&& p.emphasize_r@ == table_from_bytes(raw@, 192)
                &&& p.emphasize_g@ == table_from_bytes(raw@, 384)
                &&& p.emphasize_b@ == table_from_bytes(raw@, 576)
                &&& p.emphasize_rg@ == table_from_bytes(raw@, 768)
                &&& p.emphasize_rb@ == table_from_bytes(raw@, 960)
                &&& p.emphasize_gb@ == table_from_bytes(raw@, 1152)
                &&& p.emphasize_rgb@ == table_from_bytes(raw@, 1344)
            },
    {
        let len = raw.len();
        if len == 1536 {
            Ok(Palette {
                base: table_of_bytes(raw, 0),
                emphasize_r: table_of_bytes(raw, 192),
                emphasize_g: table_of_bytes(raw, 384),
                emphasize_b: table_of_bytes(raw, 576),
                emphasize_rg: table_of_bytes(raw, 768),
                emphasize_rb: table_of_bytes(raw, 960),
                emphasize_gb: table_of_bytes(raw, 1152),
                emphasize_rgb: table_of_bytes(raw, 1344),
            })
        } else if len == 192 {
            Ok(Palette {
                base: table_of_bytes(raw, 0),
                emphasize_r: table_of_bytes(raw, 0),
                emphasize_g: table_of_bytes(raw, 0),
                emphasize_b: table_of_bytes(raw, 0),
                emphasize_rg: table_of_bytes(raw, 0),
                emphasize_rb: table_of_bytes(raw, 0),
                emphasize_gb: table_of_bytes(raw, 0),
                emphasize_rgb: table_of_bytes(raw, 0),
            })
        } else {
            Err(InvalidPaletteError { length: len })
        }
    }

    /// The colour at `index` under the emphasis bits `emphasis`.
    pub fn color(&self, emphasis: u8, index: u8) -> (c: ARGBColor)
        requires
            self.wf(),
            emphasis < 8,
            index < 64,
        ensures
            c == self.table(emphasis)[index as int],
    {
        let i = index as usize;
        if emphasis == 0 {
            self.base[i]
        } else if emphasis == 1 {
            self.emphasize_r[i]
        } else if emphasis == 2 {
            self.emphasize_g[i]
        } else if emphasis == 3 {
            self.emphasize_rg[i]
        } else if emphasis == 4 {
            self.emphasize_b[i]
        } else if emphasis == 5 {
            self.emphasize_rb[i]
        } else if emphasis == 6 {
            self.emphasize_gb[i]
        } else {
            self.emphasize_rgb[i]
        }
    }

    /// A copy of the palette.
    pub fn duplicate(&self) -> (p: Self)
        ensures
            p.base@ == self.base@,
            p.emphasize_r@ == self.emphasize_r@,
            p.emphasize_g@ == self.emphasize_g@,
            p.emphasize_b@ == self.emphasize_b@,
            p.emphasize_rg@ == self.emphasize_rg@,
            p.emphasize_rb@ == self.emphasize_rb@,
            p.emphasize_gb@ == self.emphasize_gb@,
            p.emphasize_rgb@ == self.emphasize_rgb@,
    {
        Palette {
            base: self.base.clone(),
            emphasize_r: self.emphasize_r.clone(),
            emphasize_g: self.emphasize_g.clone(),
            emphasize_b: self.emphasize_b.clone(),
            emphasize_rg: self.emphasize_rg.clone(),
            emphasize_rb: self.emphasize_rb.clone(),
            emphasize_gb: self.emphasize_gb.clone(),
            emphasize_rgb: self.emphasize_rgb.clone(),
        }
    }
}

} // verus!
