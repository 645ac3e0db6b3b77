//! The base paint colors of the palette and the displayed colors they map to.

use vstd::prelude::*;

verus! {

/// One of the five base paints the player can pick from.
#[derive(Clone, Copy, Debug, PartialEq, Eq, Structural)]
pub enum PaletteColor {
    White,
    Red,
    Yellow,
    Blue,
    Black,
}

/// A displayed color: one 8-bit value per channel of gamma-encoded RGB.
#[derive(Clone, Copy, Debug, PartialEq, Eq, Structural)]
pub struct Rgb {
    pub r: u8,
    pub g: u8,
    pub b: u8,
}

/// The displayed color of a base paint.
pub open spec fn spec_rgb_of(color: PaletteColor) -> Rgb {
    match color {
        PaletteColor::White => Rgb { r: 255, g: 255, b: 255 },
        PaletteColor::Red => Rgb { r: 255, g: 0, b: 0 },
        PaletteColor::Yellow => Rgb { r: 255, g: 255, b: 0 },
        PaletteColor::Blue => Rgb { r: 0, g: 0, b: 255 },
        PaletteColor::Black => Rgb { r: 0, g: 0, b: 0 },
    }
}

/// The palette, in the order the color buttons are laid out.
pub open spec fn spec_palette() -> Seq<PaletteColor> {
    seq![
        PaletteColor::White,
        PaletteColor::Red,
        PaletteColor::Yellow,
        PaletteColor::Blue,
        PaletteColor::Black,
    ]
}

impl PaletteColor {
    /// The displayed color of this base paint.
    pub fn rgb(&self) -> (c: Rgb)
        ensures
            c == spec_rgb_of(*self),
    {
        match self {
            PaletteColor::White => Rgb { r: 255, g: 255, b: 255 },
            PaletteColor::Red => Rgb { r: 255, g: 0, b: 0 },
            PaletteColor::Yellow => Rgb { r: 255, g: 255, b: 0 },
            PaletteColor::Blue => Rgb { r: 0, g: 0, b: 255 },
            PaletteColor::Black => Rgb { r: 0, g: 0, b: 0 },
        }
    }
}

/// The palette as a vector, in button order.
pub fn palette() -> (colors: Vec<PaletteColor>)
    ensures
        colors@ == spec_palette(),
{
    let colors = vec![
        PaletteColor::White,
        PaletteColor::Red,
        PaletteColor::Yellow,
        PaletteColor::Blue,
        PaletteColor::Black,
    ];
    proof {
        assert(colors@ =~= spec_palette());
    }
    colors
}

} // verus!
