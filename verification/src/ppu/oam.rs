use vstd::prelude::*;
use super::sprite::Sprite;

verus! {

/// The object attribute memory: 64 sprites (primary) and the up to 8 sprites
/// selected for the next scanline (secondary).
pub struct OAM {
    pub primary: Vec<Sprite>,
    pub secondary: Vec<Sprite>,
}

/// The contents of the object attribute memory.
pub struct OamView {
    pub primary: Seq<Sprite>,
    pub secondary: Seq<Sprite>,
}

impl View for OAM {
    type V = OamView;

    open spec fn view(&self) -> OamView {
        OamView { primary: self.primary@, secondary: self.secondary@ }
    }
}

/// The byte `address % 4` of a sprite: y, id, attribute, x.
pub open spec fn sprite_byte(s: Sprite, address: u8) -> u8 {
    let k = address % 4;
    if k == 0 { s.y } else if k == 1 { s.id } else if k == 2 { s.attribute } else { s.x }
}

/// A sprite with byte `address % 4` replaced.
pub open spec fn sprite_with_byte(s: Sprite, address: u8, data: u8) -> Sprite {
    let k = address % 4;
    if k == 0 {
        Sprite { y: data, ..s }
    } else if k == 1 {
        Sprite { id: data, ..s }
    } else if k == 2 {
        Sprite { attribute: data, ..s }
    } else {
        Sprite { x: data, ..s }
    }
}

fn vec_of_sprites(n: usize) -> (v: Vec<Sprite>)
    ensures
        v@ == Seq::new(n as nat, |i: int| Sprite { y: 0, id: 0, attribute: 0, x: 0 }),
{
    let mut v: Vec<Sprite> = Vec::new();
    let mut i: usize = 0;
    while i < n
        invariant
            i <= n,
            v@ == Seq::new(i as nat, |j: int| Sprite { y: 0, id: 0, attribute: 0, x: 0 }),
        decreases n - i,
    {
        v.push(Sprite::default());
        i = i + 1;
        assert(v@ =~= Seq::new(i as nat, |j: int| Sprite { y: 0, id: 0, attribute: 0, x: 0 }));
    }
    v
}

impl OAM {
    pub open spec fn wf(&self) -> bool {
        self.primary@.len() == 64 && self.secondary@.len() == 8
    }

    pub fn new() -> (o: Self)
        ensures
            o.wf(),
            o.primary@ == Seq::new(64, |i: int| Sprite { y: 0, id: 0, attribute: 0, x: 0 }),
            o.secondary@ == Seq::new(8, |i: int| Sprite { y: 0, id: 0, attribute: 0, x: 0 }),
    {
        OAM { primary: vec_of_sprites(64), secondary: vec_of_sprites(8) }
    }

    /// Writes byte `address % 4` of sprite `address / 4`; the unused
    /// attribute bits 2-4 are dropped.
    pub fn write_primary(&mut self, address: u8, data: u8)
        requires
            old(self).wf(),
        ensures
            final(self).wf(),
            final(self).secondary@ == old(self).secondary@,
            final(self).primary@ == old(self).primary@.update(
                (address / 4) as int,
                sprite_with_byte(old(self).primary@[(address / 4) as int], address,
                    if address % 4 == 2 { data & 0xE3 } else { data }),
            ),
    {
        let i: usize = (address / 4) as usize;
        let mut s = self.primary[i];
        let k = address % 4;
        if k == 0 {
            s.y = data;
        } else if k == 1 {
            s.id = data;
        } else if k == 2 {
            s.attribute = data & 0xE3;
        } else {
            s.x = data;
        }
        self.primary.set(i, s);
    }

    /// Reads byte `address % 4` of sprite `address / 4`.
    pub fn read_primary(&self, address: u8) -> (v: u8)
        requires
            self.wf(),
        ensures
            address % 4 == 2 ==> v == self.primary@[(address / 4) as int].attribute & 0xE3,
            address % 4 != 2 ==> v == sprite_byte(self.primary@[(address / 4) as int], address),
    {
        let s = self.primary[(address / 4) as usize];
        let k = address % 4;
        if k == 0 {
            s.y
        } else if k == 1 {
            s.id
        } else if k == 2 {
            s.attribute & 0xE3
        } else {
            s.x
        }
    }

    /// Writes byte `address % 4` of secondary sprite `address / 4`.
    pub fn write_secondary(&mut self, address: u8, data: u8)
        requires
            old(self).wf(),
            address < 32,
        ensures
            final(self).wf(),
            final(self).primary@ == old(self).primary@,
            final(self).secondary@ == old(self).secondary@.update(
                (address / 4) as int,
                sprite_with_byte(old(self).secondary@[(address / 4) as int], address, data),
            ),
    {
        let i: usize = (address / 4) as usize;
        let mut s = self.secondary[i];
        let k = address % 4;
        if k == 0 {
            s.y = data;
        } else if k == 1 {
            s.id = data;
        } else if k == 2 {
            s.attribute = data;
        } else {
            s.x = data;
        }
        self.secondary.set(i, s);
    }
}

} // verus!
