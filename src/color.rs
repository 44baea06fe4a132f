//! Colors in egui's premultiplied sRGBA form and the sixteen Solarized tones.
use vstd::prelude::*;

verus! {

/// An sRGBA color with premultiplied alpha, one byte per channel,
/// laid out as egui's `Color32`.
#[derive(Clone, Copy, Debug, PartialEq, Eq, Structural)]
pub struct Color {
    pub r: u8,
    pub g: u8,
    pub b: u8,
    pub a: u8,
}

impl Color {
    /// The opaque color with the given channels.
    pub open spec fn rgb(r: u8, g: u8, b: u8) -> Color {
        Color { r, g, b, a: 255 }
    }

    /// Black with the given opacity.
    pub open spec fn black_alpha(a: u8) -> Color {
        Color { r: 0, g: 0, b: 0, a }
    }

    pub fn from_rgb(r: u8, g: u8, b: u8) -> (c: Color)
        ensures
            c == Color::rgb(r, g, b),
    {
        Color { r, g, b, a: 255 }
    }

    pub fn from_black_alpha(a: u8) -> (c: Color)
        ensures
            c == Color::black_alpha(a),
    {
        Color { r: 0, g: 0, b: 0, a }
    }
}

/// A color whose every channel, taken to linear space, is multiplied by
/// `percent / 100` (egui's `Color32::linear_multiply`).
#[derive(Clone, Copy, Debug, PartialEq, Eq, Structural)]
pub struct ScaledColor {
    pub base: Color,
    pub percent: u8,
}

/// The sixteen tones of the Solarized scheme: eight monotone bases and eight
/// accents.
#[derive(Clone, Copy, Debug, PartialEq, Eq, Structural)]
pub enum Solarized {
    Base03,
    Base02,
    Base01,
    Base00,
    Base0,
    Base1,
    Base2,
    Base3,
    Yellow,
    Orange,
    Red,
    Magenta,
    Violet,
    Blue,
    Cyan,
    Green,
}

impl Solarized {
    /// The published RGB value of each tone.
    pub open spec fn spec_color(self) -> Color {
        match self {
            Solarized::Base03 => Color::rgb(0x00, 0x2b, 0x36),
            Solarized::Base02 => Color::rgb(0x07, 0x36, 0x42),
            Solarized::Base01 => Color::rgb(0x58, 0x6e, 0x75),
            Solarized::Base00 => Color::rgb(0x65, 0x7b, 0x83),
            Solarized::Base0 => Color::rgb(0x83, 0x94, 0x96),
            Solarized::Base1 => Color::rgb(0x93, 0xa1, 0xa1),
            Solarized::Base2 => Color::rgb(0xee, 0xe8, 0xd5),
            Solarized::Base3 => Color::rgb(0xfd, 0xf6, 0xe3),
            Solarized::Yellow => Color::rgb(0xb5, 0x89, 0x00),
            Solarized::Orange => Color::rgb(0xcb, 0x4b, 0x16),
            Solarized::Red => Color::rgb(0xdc, 0x32, 0x2f),
            Solarized::Magenta => Color::rgb(0xd3, 0x36, 0x82),
            Solarized::Violet => Color::rgb(0x6c, 0x71, 0xc4),
            Solarized::Blue => Color::rgb(0x26, 0x8b, 0xd2),
            Solarized::Cyan => Color::rgb(0x2a, 0xa1, 0x98),
            Solarized::Green => Color::rgb(0x85, 0x99, 0x00),
        }
    }

    pub fn color(self) -> (c: Color)
        ensures
            c == self.spec_color(),
    {
        match self {
            Solarized::Base03 => Color::from_rgb(0x00, 0x2b, 0x36),
            Solarized::Base02 => Color::from_rgb(0x07, 0x36, 0x42),
            Solarized::Base01 => Color::from_rgb(0x58, 0x6e, 0x75),
            Solarized::Base00 => Color::from_rgb(0x65, 0x7b, 0x83),
            Solarized::Base0 => Color::from_rgb(0x83, 0x94, 0x96),
            Solarized::Base1 => Color::from_rgb(0x93, 0xa1, 0xa1),
            Solarized::Base2 => Color::from_rgb(0xee, 0xe8, 0xd5),
            Solarized::Base3 => Color::from_rgb(0xfd, 0xf6, 0xe3),
            Solarized::Yellow => Color::from_rgb(0xb5, 0x89, 0x00),
            Solarized::Orange => Color::from_rgb(0xcb, 0x4b, 0x16),
            Solarized::Red => Color::from_rgb(0xdc, 0x32, 0x2f),
            Solarized::Magenta => Color::from_rgb(0xd3, 0x36, 0x82),
            Solarized::Violet => Color::from_rgb(0x6c, 0x71, 0xc4),
            Solarized::Blue => Color::from_rgb(0x26, 0x8b, 0xd2),
            Solarized::Cyan => Color::from_rgb(0x2a, 0xa1, 0x98),
            Solarized::Green => Color::from_rgb(0x85, 0x99, 0x00),
        }
    }
}

/// The eight accent tones, in the scheme's customary order.
pub open spec fn spec_accent_colors() -> Seq<Color> {
    seq![
        Solarized::Yellow.spec_color(),
        Solarized::Orange.spec_color(),
        Solarized::Red.spec_color(),
        Solarized::Magenta.spec_color(),
        Solarized::Violet.spec_color(),
        Solarized::Blue.spec_color(),
        Solarized::Cyan.spec_color(),
        Solarized::Green.spec_color(),
    ]
}

pub fn accent_colors() -> (r: [Color; 8])
    ensures
        r@ == spec_accent_colors(),
{
    let r = [
        Solarized::Yellow.color(),
        Solarized::Orange.color(),
        Solarized::Red.color(),
        Solarized::Magenta.color(),
        Solarized::Violet.color(),
        Solarized::Blue.color(),
        Solarized::Cyan.color(),
        Solarized::Green.color(),
    ];
    assert(r@ =~= spec_accent_colors());
    r
}

} // verus!
