use vstd::prelude::*;

verus! {

/// One of the four shades the display can show.
#[derive(Clone, Copy, Debug, PartialEq, Eq, Structural)]
pub enum Shade {
    White,
    LightGray,
    DarkGray,
    Black,
}

/// The 2-bit index of a shade.
pub open spec fn shade_index(s: Shade) -> u8 {
    match s {
        Shade::White => 0,
        Shade::LightGray => 1,
        Shade::DarkGray => 2,
        Shade::Black => 3,
    }
}

/// The shade that the low two bits of `v` select.
pub open spec fn shade_of(v: u8) -> Shade {
    let i = v & 3u8;
    if i == 0 {
        Shade::White
    } else if i == 1 {
        Shade::LightGray
    } else if i == 2 {
        Shade::DarkGray
    } else {
        Shade::Black
    }
}

pub proof fn lemma_shade_index_of(v: u8)
    ensures
        shade_index(shade_of(v)) == v & 3u8,
        shade_index(shade_of(v)) < 4,
{
    assert(v & 3u8 < 4) by (bit_vector);
}

impl Shade {
    pub fn index(&self) -> (r: u8)
        ensures
            r == shade_index(*self),
            r < 4,
    {
        match self {
            Shade::White => 0,
            Shade::LightGray => 1,
            Shade::DarkGray => 2,
            Shade::Black => 3,
        }
    }

    pub fn from_bits(v: u8) -> (r: Shade)
        ensures
            r == shade_of(v),
    {
        let i = v & 3;
        if i == 0 {
            Shade::White
        } else if i == 1 {
            Shade::LightGray
        } else if i == 2 {
            Shade::DarkGray
        } else {
            Shade::Black
        }
    }
}

/// Maps each of the four pre-palette pixel values to a shade.
#[derive(Clone, Copy, Debug, PartialEq, Eq, Structural)]
pub struct Palette {
    pub index0: Shade,
    pub index1: Shade,
    pub index2: Shade,
    pub index3: Shade,
}

pub open spec fn palette_from_byte(b: u8) -> Palette {
    Palette {
        index0: shade_of(b),
        index1: shade_of(b >> 2u8),
        index2: shade_of(b >> 4u8),
        index3: shade_of(b >> 6u8),
    }
}

pub open spec fn palette_to_byte(p: Palette) -> u8 {
    (shade_index(p.index3) << 6u8 | shade_index(p.index2) << 4u8 | shade_index(p.index1) << 2u8
        | shade_index(p.index0)) as u8
}

/// The shade a palette gives to a pixel value (its low two bits).
pub open spec fn apply_palette(p: Palette, v: u8) -> Shade {
    let i = v & 3u8;
    if i == 0 {
        p.index0
    } else if i == 1 {
        p.index1
    } else if i == 2 {
        p.index2
    } else {
        p.index3
    }
}

impl Palette {
    pub fn from_byte(b: u8) -> (r: Palette)
        ensures
            r == palette_from_byte(b),
    {
        Palette {
            index0: Shade::from_bits(b),
            index1: Shade::from_bits(b >> 2),
            index2: Shade::from_bits(b >> 4),
            index3: Shade::from_bits(b >> 6),
        }
    }

    pub fn to_byte(&self) -> (r: u8)
        ensures
            r == palette_to_byte(*self),
    {
        let i3 = self.index3.index();
        let i2 = self.index2.index();
        let i1 = self.index1.index();
        let i0 = self.index0.index();
        i3 << 6 | i2 << 4 | i1 << 2 | i0
    }

    pub fn apply(&self, v: u8) -> (r: Shade)
        ensures
            r == apply_palette(*self, v),
    {
        let i = v & 3;
        if i == 0 {
            self.index0
        } else if i == 1 {
            self.index1
        } else if i == 2 {
            self.index2
        } else {
            self.index3
        }
    }
}

/// Reading a palette from a byte and writing it back gives the same byte.
pub proof fn lemma_palette_round_trip(b: u8)
    ensures
        palette_to_byte(palette_from_byte(b)) == b,
{
    lemma_shade_index_of(b);
    lemma_shade_index_of(b >> 2u8);
    lemma_shade_index_of(b >> 4u8);
    lemma_shade_index_of(b >> 6u8);
    assert(((b >> 6u8) & 3u8) << 6u8 | ((b >> 4u8) & 3u8) << 4u8 | ((b >> 2u8) & 3u8) << 2u8 | (b
        & 3u8) == b) by (bit_vector);
}

} // verus!
