use vstd::prelude::*;

verus! {

/// An RGBA colour, one byte per channel.
#[derive(Clone, Copy, Debug, PartialEq, Eq, Structural)]
pub struct Color {
    pub r: u8,
    pub g: u8,
    pub b: u8,
    pub a: u8,
}

impl Color {
    pub fn new(r: u8, g: u8, b: u8, a: u8) -> (c: Color)
        ensures
            c == (Color { r, g, b, a }),
    {
        Color { r, g, b, a }
    }
}

/// The named opaque colours that the game draws with.
#[derive(Clone, Copy, Debug, PartialEq, Eq, Structural)]
pub enum Palette {
    Black,
    White,
    WhiteSmoke,
    Red,
    Green,
    DarkGreen,
    Lime,
    Blue,
    SkyBlue,
    Yellow,
    Gold,
    Orange,
    Brown,
    Gray,
    DarkGray,
}

impl Palette {
    pub open spec fn spec_color(self) -> Color {
        match self {
            Palette::Black => Color { r: 0, g: 0, b: 0, a: 255 },
            Palette::White => Color { r: 255, g: 255, b: 255, a: 255 },
            Palette::WhiteSmoke => Color { r: 245, g: 245, b: 245, a: 255 },
            Palette::Red => Color { r: 255, g: 0, b: 0, a: 255 },
            Palette::Green => Color { r: 0, g: 128, b: 0, a: 255 },
            Palette::DarkGreen => Color { r: 0, g: 100, b: 0, a: 255 },
            Palette::Lime => Color { r: 0, g: 255, b: 0, a: 255 },
            Palette::Blue => Color { r: 0, g: 0, b: 255, a: 255 },
            Palette::SkyBlue => Color { r: 135, g: 206, b: 235, a: 255 },
            Palette::Yellow => Color { r: 255, g: 255, b: 0, a: 255 },
            Palette::Gold => Color { r: 255, g: 215, b: 0, a: 255 },
            Palette::Orange => Color { r: 255, g: 165, b: 0, a: 255 },
            Palette::Brown => Color { r: 165, g: 42, b: 42, a: 255 },
            Palette::Gray => Color { r: 128, g: 128, b: 128, a: 255 },
            Palette::DarkGray => Color { r: 169, g: 169, b: 169, a: 255 },
        }
    }

    #[verifier::when_used_as_spec(spec_color)]
    pub fn color(self) -> (c: Color)
        ensures
            c == self.spec_color(),
    {
        match self {
            Palette::Black => Color { r: 0, g: 0, b: 0, a: 255 },
            Palette::White => Color { r: 255, g: 255, b: 255, a: 255 },
            Palette::WhiteSmoke => Color { r: 245, g: 245, b: 245, a: 255 },
            Palette::Red => Color { r: 255, g: 0, b: 0, a: 255 },
            Palette::Green => Color { r: 0, g: 128, b: 0, a: 255 },
            Palette::DarkGreen => Color { r: 0, g: 100, b: 0, a: 255 },
            Palette::Lime => Color { r: 0, g: 255, b: 0, a: 255 },
            Palette::Blue => Color { r: 0, g: 0, b: 255, a: 255 },
            Palette::SkyBlue => Color { r: 135, g: 206, b: 235, a: 255 },
            Palette::Yellow => Color { r: 255, g: 255, b: 0, a: 255 },
            Palette::Gold => Color { r: 255, g: 215, b: 0, a: 255 },
            Palette::Orange => Color { r: 255, g: 165, b: 0, a: 255 },
            Palette::Brown => Color { r: 165, g: 42, b: 42, a: 255 },
            Palette::Gray => Color { r: 128, g: 128, b: 128, a: 255 },
            Palette::DarkGray => Color { r: 169, g: 169, b: 169, a: 255 },
        }
    }
}

} // verus!
