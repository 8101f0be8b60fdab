//! Colors and text style.

use vstd::prelude::*;

verus! {

/// An RGB color with 8 bits per channel. The terminal never inspects color
/// values; it only hands them to the surface.
#[derive(Clone, Copy, Debug, PartialEq, Eq, Structural)]
pub struct Rgb {
    /// Red channel.
    pub r: u8,
    /// Green channel.
    pub g: u8,
    /// Blue channel.
    pub b: u8,
}

/// The blank color used for erasure when the style has no background.
pub open spec fn black() -> Rgb {
    Rgb { r: 0, g: 0, b: 0 }
}

/// The default foreground accent color.
pub open spec fn red() -> Rgb {
    Rgb { r: 255, g: 0, b: 0 }
}

impl Rgb {
    /// Makes the color with the given channels.
    pub fn new(r: u8, g: u8, b: u8) -> (c: Rgb)
        ensures
            c == (Rgb { r, g, b }),
    {
        Rgb { r, g, b }
    }

    /// The blank color: black.
    pub fn black() -> (c: Rgb)
        ensures
            c == black(),
    {
        Rgb { r: 0, g: 0, b: 0 }
    }

    /// The default foreground accent color: red.
    pub fn red() -> (c: Rgb)
        ensures
            c == red(),
    {
        Rgb { r: 255, g: 0, b: 0 }
    }
}

/// An immutable monospace text style: the fixed character cell size in
/// pixels, a foreground color, and an optional background color. When the
/// background is absent, erasure falls back to [`black`].
#[derive(Clone, Copy, Debug, PartialEq, Eq)]
pub struct TextStyle {
    /// Width of one character cell, in pixels.
    pub cell_w: u32,
    /// Height of one character cell, in pixels.
    pub cell_h: u32,
    /// Foreground color of drawn glyphs.
    pub fg: Rgb,
    /// Background color of drawn glyphs and of erased cells, if any.
    pub bg: Option<Rgb>,
}

/// The default style: a 6x10 pixel monospace cell, red on black.
pub open spec fn default_text_style() -> TextStyle {
    TextStyle { cell_w: 6, cell_h: 10, fg: red(), bg: Some(black()) }
}

impl TextStyle {
    /// Makes a style with the given cell size and colors.
    pub fn new(cell_w: u32, cell_h: u32, fg: Rgb, bg: Option<Rgb>) -> (s: TextStyle)
        ensures
            s == (TextStyle { cell_w, cell_h, fg, bg }),
    {
        TextStyle { cell_w, cell_h, fg, bg }
    }

    /// The default style: a 6x10 pixel monospace cell, red on black.
    pub fn default_mono() -> (s: TextStyle)
        ensures
            s == default_text_style(),
    {
        TextStyle { cell_w: 6, cell_h: 10, fg: Rgb::red(), bg: Some(Rgb::black()) }
    }
}

} // verus!
