//! The sixteen display colors and the attribute byte that packs two of them.

use vstd::prelude::*;

verus! {

/// A color of the fixed sixteen-entry palette.
#[derive(Debug, Clone, Copy, PartialEq, Eq, Structural)]
pub enum Color {
    Black,
    Blue,
    Green,
    Cyan,
    Red,
    Magenta,
    Brown,
    LightGray,
    DarkGray,
    LightBlue,
    LightGreen,
    LightCyan,
    LightRed,
    Pink,
    Yellow,
    White,
}

impl Color {
    /// The position of the color in the palette, from 0 to 15.
    pub open spec fn spec_index(self) -> u8 {
        match self {
            Color::Black => 0,
            Color::Blue => 1,
            Color::Green => 2,
            Color::Cyan => 3,
            Color::Red => 4,
            Color::Magenta => 5,
            Color::Brown => 6,
            Color::LightGray => 7,
            Color::DarkGray => 8,
            Color::LightBlue => 9,
            Color::LightGreen => 10,
            Color::LightCyan => 11,
            Color::LightRed => 12,
            Color::Pink => 13,
            Color::Yellow => 14,
            Color::White => 15,
        }
    }

    /// The color at a position of the palette; only positions 0 to 15 hold one.
    pub open spec fn spec_from_index(index: u8) -> Option<Color> {
        match index {
            0 => Some(Color::Black),
            1 => Some(Color::Blue),
            2 => Some(Color::Green),
            3 => Some(Color::Cyan),
            4 => Some(Color::Red),
            5 => Some(Color::Magenta),
            6 => Some(Color::Brown),
            7 => Some(Color::LightGray),
            8 => Some(Color::DarkGray),
            9 => Some(Color::LightBlue),
            10 => Some(Color::LightGreen),
            11 => Some(Color::LightCyan),
            12 => Some(Color::LightRed),
            13 => Some(Color::Pink),
            14 => Some(Color::Yellow),
            15 => Some(Color::White),
            _ => None,
        }
    }

    /// The position of the color in the palette, from 0 to 15.
    #[verifier::when_used_as_spec(spec_index)]
    pub fn index(self) -> (index: u8)
        ensures
            index == self.spec_index(),
            index < 16,
    {
        match self {
            Color::Black => 0,
            Color::Blue => 1,
            Color::Green => 2,
            Color::Cyan => 3,
            Color::Red => 4,
            Color::Magenta => 5,
            Color::Brown => 6,
            Color::LightGray => 7,
            Color::DarkGray => 8,
            Color::LightBlue => 9,
            Color::LightGreen => 10,
            Color::LightCyan => 11,
            Color::LightRed => 12,
            Color::Pink => 13,
            Color::Yellow => 14,
            Color::White => 15,
        }
    }

    /// The color at a position of the palette: `Some` for 0 to 15, `None`
    /// beyond.
    #[verifier::when_used_as_spec(spec_from_index)]
    pub fn from_index(index: u8) -> (color: Option<Color>)
        ensures
            color == Color::spec_from_index(index),
            color is Some <==> index < 16,
            color is Some ==> color->0.spec_index() == index,
    {
        match index {
            0 => Some(Color::Black),
            1 => Some(Color::Blue),
            2 => Some(Color::Green),
            3 => Some(Color::Cyan),
            4 => Some(Color::Red),
            5 => Some(Color::Magenta),
            6 => Some(Color::Brown),
            7 => Some(Color::LightGray),
            8 => Some(Color::DarkGray),
            9 => Some(Color::LightBlue),
            10 => Some(Color::LightGreen),
            11 => Some(Color::LightCyan),
            12 => Some(Color::LightRed),
            13 => Some(Color::Pink),
            14 => Some(Color::Yellow),
            15 => Some(Color::White),
            _ => None,
        }
    }

    /// Every color is the one found at its own position of the palette.
    pub proof fn lemma_from_index_of_index(self)
        ensures
            Color::spec_from_index(self.spec_index()) == Some(self),
    {
    }
}

/// The attribute byte for a foreground and a background position of the
/// palette: the background in the high four bits, the foreground in the low
/// four.
pub open spec fn pack(foreground: u8, background: u8) -> u8 {
    (background << 4) | foreground
}

/// The foreground and background positions that an attribute byte holds.
pub open spec fn unpack(attribute: u8) -> (u8, u8) {
    (attribute & 0xF, attribute >> 4)
}

/// Unpacking a packed pair of palette positions gives the pair back.
pub proof fn lemma_unpack_pack(foreground: u8, background: u8)
    requires
        foreground < 16,
        background < 16,
    ensures
        unpack(pack(foreground, background)) == (foreground, background),
{
    assert(((background << 4) | foreground) & 0xF == foreground) by (bit_vector)
        requires
            foreground < 16,
            background < 16,
    ;
    assert(((background << 4) | foreground) >> 4 == background) by (bit_vector)
        requires
            foreground < 16,
            background < 16,
    ;
}

/// Packing the two positions that an attribute byte holds gives the byte
/// back, and both positions are below 16.
pub proof fn lemma_pack_unpack(attribute: u8)
    ensures
        unpack(attribute).0 < 16,
        unpack(attribute).1 < 16,
        pack(unpack(attribute).0, unpack(attribute).1) == attribute,
{
    assert(attribute & 0xF < 16) by (bit_vector);
    assert(attribute >> 4 < 16) by (bit_vector);
    assert(((attribute >> 4) << 4) | (attribute & 0xF) == attribute) by (bit_vector);
}

/// A foreground and a background color packed into one attribute byte.
#[derive(Debug, Clone, Copy, PartialEq, Eq, Structural)]
pub struct ColorCode(pub u8);

impl ColorCode {
    /// The attribute byte of a foreground on a background:
    /// `(background << 4) | foreground`, over the positions in the palette.
    pub fn new(foreground: Color, background: Color) -> (code: ColorCode)
        ensures
            code.0 == pack(foreground.spec_index(), background.spec_index()),
            code.spec_foreground() == foreground,
            code.spec_background() == background,
    {
        let fg: u8 = foreground.index();
        let bg: u8 = background.index();
        proof {
            lemma_unpack_pack(fg, bg);
            foreground.lemma_from_index_of_index();
            background.lemma_from_index_of_index();
        }
        ColorCode((bg << 4) | fg)
    }

    /// The color that the low four bits name.
    pub open spec fn spec_foreground(self) -> Color {
        Color::spec_from_index(unpack(self.0).0)->0
    }

    /// The color that the high four bits name.
    pub open spec fn spec_background(self) -> Color {
        Color::spec_from_index(unpack(self.0).1)->0
    }

    /// The color that the low four bits name.
    #[verifier::when_used_as_spec(spec_foreground)]
    pub fn foreground(self) -> (color: Color)
        ensures
            color == self.spec_foreground(),
            color.spec_index() == unpack(self.0).0,
    {
        proof {
            lemma_pack_unpack(self.0);
        }
        match Color::from_index(self.0 & 0xF) {
            Some(color) => color,
            None => Color::Black,
        }
    }

    /// The color that the high four bits name.
    #[verifier::when_used_as_spec(spec_background)]
    pub fn background(self) -> (color: Color)
        ensures
            color == self.spec_background(),
            color.spec_index() == unpack(self.0).1,
    {
        proof {
            lemma_pack_unpack(self.0);
        }
        match Color::from_index(self.0 >> 4) {
            Some(color) => color,
            None => Color::Black,
        }
    }
}

} // verus!
