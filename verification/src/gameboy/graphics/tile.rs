//! Tiles, shades and sprite attributes.

use vstd::prelude::*;

verus! {

/// One line of a tile: eight pixels of two bits each, the low bits in the
/// first byte and the high bits in the second, the leftmost pixel in bit 7.
#[derive(Debug, Clone, Copy, PartialEq, Eq, Structural)]
pub struct TileLine {
    pub low: u8,
    pub high: u8,
}

/// Bit `7 - col` of `v`, as a number: the bit of the pixel in column `col`.
pub open spec fn spec_pixel_bit(v: u8, col: u8) -> u8 {
    if col == 0 {
        v / 128
    } else if col == 1 {
        v / 64 % 2
    } else if col == 2 {
        v / 32 % 2
    } else if col == 3 {
        v / 16 % 2
    } else if col == 4 {
        v / 8 % 2
    } else if col == 5 {
        v / 4 % 2
    } else if col == 6 {
        v / 2 % 2
    } else {
        v % 2
    }
}

/// The colour number of the pixel in column `col` of a tile line with the
/// bytes `low` and `high`.
pub open spec fn spec_color_num(low: u8, high: u8, col: u8) -> u8 {
    (spec_pixel_bit(high, col) * 2 + spec_pixel_bit(low, col)) as u8
}

/// Returns bit `7 - col` of `v`.
pub fn pixel_bit(v: u8, col: u8) -> (r: u8)
    ensures
        r == spec_pixel_bit(v, col),
        r <= 1,
{
    if col == 0 {
        v / 128
    } else if col == 1 {
        v / 64 % 2
    } else if col == 2 {
        v / 32 % 2
    } else if col == 3 {
        v / 16 % 2
    } else if col == 4 {
        v / 8 % 2
    } else if col == 5 {
        v / 4 % 2
    } else if col == 6 {
        v / 2 % 2
    } else {
        v % 2
    }
}

impl TileLine {
    /// Returns the tile line with the two bytes of `data`.
    pub fn new(data: [u8; 2]) -> (r: Self)
        ensures
            r.low == data[0],
            r.high == data[1],
    {
        TileLine { low: data[0], high: data[1] }
    }

    /// Returns the colour number, from 0 to 3, of the pixel in column
    /// `bit`, counted from the left.
    pub fn get_color_num(&self, bit: u8) -> (r: u8)
        ensures
            r == spec_color_num(self.low, self.high, bit),
            r <= 3,
    {
        pixel_bit(self.high, bit) * 2 + pixel_bit(self.low, bit)
    }

    /// Returns the two bytes of the tile line.
    pub fn get_data(&self) -> (r: [u8; 2])
        ensures
            r[0] == self.low,
            r[1] == self.high,
    {
        [self.low, self.high]
    }
}

/// The four shades of grey.
#[derive(Debug, Clone, Copy, PartialEq, Eq, Structural)]
pub enum GBColor {
    White,
    Light,
    Dark,
    Black,
}

impl GBColor {
    /// The byte of the shade in the frame buffer.
    pub open spec fn spec_value(self) -> u8 {
        match self {
            GBColor::White => 0xff,
            GBColor::Light => 0xc0,
            GBColor::Dark => 0x60,
            GBColor::Black => 0x00,
        }
    }

    /// The shade with the number `n % 4`: white, light, dark, black.
    pub open spec fn spec_from(n: u8) -> GBColor {
        if n % 4 == 0 {
            GBColor::White
        } else if n % 4 == 1 {
            GBColor::Light
        } else if n % 4 == 2 {
            GBColor::Dark
        } else {
            GBColor::Black
        }
    }

    /// Returns the byte of the shade in the frame buffer.
    pub fn value(self) -> (r: u8)
        ensures
            r == self.spec_value(),
    {
        match self {
            GBColor::White => 0xff,
            GBColor::Light => 0xc0,
            GBColor::Dark => 0x60,
            GBColor::Black => 0x00,
        }
    }

    /// Returns the shade with the number `n % 4`.
    pub fn from_value(n: u8) -> (r: GBColor)
        ensures
            r == GBColor::spec_from(n),
    {
        match n % 4 {
            0 => GBColor::White,
            1 => GBColor::Light,
            2 => GBColor::Dark,
            _ => GBColor::Black,
        }
    }
}

/// The shade that the palette byte `palette` gives the colour number `i`:
/// the two bits of the palette at `2 * i`.
pub open spec fn spec_shade(palette: u8, i: u8) -> GBColor {
    if i % 4 == 0 {
        GBColor::spec_from(palette)
    } else if i % 4 == 1 {
        GBColor::spec_from(palette / 4)
    } else if i % 4 == 2 {
        GBColor::spec_from(palette / 16)
    } else {
        GBColor::spec_from(palette / 64)
    }
}

/// Returns the shade that the palette byte `palette` gives the colour
/// number `i`.
pub fn shade(palette: u8, i: u8) -> (r: GBColor)
    ensures
        r == spec_shade(palette, i),
{
    match i % 4 {
        0 => GBColor::from_value(palette),
        1 => GBColor::from_value(palette / 4),
        2 => GBColor::from_value(palette / 16),
        _ => GBColor::from_value(palette / 64),
    }
}

/// The three palettes.
#[derive(Debug, Clone, Copy, PartialEq, Eq, Structural)]
pub enum Palette {
    /// The first palette of the sprites.
    OBP0,
    /// The second palette of the sprites.
    OBP1,
    /// The palette of background and window.
    BG,
}

/// The attributes of a sprite.
#[derive(Debug, Clone, Copy, PartialEq, Eq, Structural)]
pub struct Attr {
    pub priority: bool,
    pub yflip: bool,
    pub xflip: bool,
    pub palette: Palette,
}

impl Attr {
    /// The attributes in the byte `u`: bit 7 puts the sprite behind the
    /// background, bit 6 flips it top to bottom, bit 5 left to right, bit 4
    /// selects the second palette.
    pub open spec fn spec_from(u: u8) -> Attr {
        Attr {
            priority: u / 128 == 1,
            yflip: u / 64 % 2 == 1,
            xflip: u / 32 % 2 == 1,
            palette: if u / 16 % 2 == 1 {
                Palette::OBP1
            } else {
                Palette::OBP0
            },
        }
    }

    /// Returns the attributes in the byte `u`.
    pub fn from_byte(u: u8) -> (r: Attr)
        ensures
            r == Attr::spec_from(u),
    {
        Attr {
            priority: u / 128 == 1,
            yflip: u / 64 % 2 == 1,
            xflip: u / 32 % 2 == 1,
            palette: if u / 16 % 2 == 1 {
                Palette::OBP1
            } else {
                Palette::OBP0
            },
        }
    }

    /// Returns whether the sprite is behind the colours 1 to 3 of the
    /// background.
    pub fn get_priority(&self) -> (r: bool)
        ensures
            r == self.priority,
    {
        self.priority
    }

    /// Returns whether the sprite is flipped top to bottom.
    pub fn has_yflip(&self) -> (r: bool)
        ensures
            r == self.yflip,
    {
        self.yflip
    }

    /// Returns whether the sprite is flipped left to right.
    pub fn has_xflip(&self) -> (r: bool)
        ensures
            r == self.xflip,
    {
        self.xflip
    }

    /// Returns the palette of the sprite.
    pub fn get_palette(&self) -> (r: Palette)
        ensures
            r == self.palette,
    {
        self.palette
    }
}

} // verus!
