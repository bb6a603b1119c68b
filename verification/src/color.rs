//! The color model: RGBA colors in fixed point, tonal color groups, and the
//! palette that a theme carries.

use vstd::prelude::*;

verus! {

/// A channel value of this size stands for a fully saturated channel
/// (an alpha of `CHANNEL_MAX` is fully opaque).
pub const CHANNEL_MAX: u8 = 100;

/// An RGBA color. Each channel holds hundredths of the saturated value,
/// so `0` is none of the channel and `100` is all of it.
#[derive(Clone, Copy, Debug, PartialEq, Eq, Structural)]
pub struct Color {
    pub r: u8,
    pub g: u8,
    pub b: u8,
    pub a: u8,
}

impl Color {
    /// A color is well formed when every channel is within the unit range.
    pub open spec fn wf(self) -> bool {
        self.r <= CHANNEL_MAX && self.g <= CHANNEL_MAX && self.b <= CHANNEL_MAX
            && self.a <= CHANNEL_MAX
    }

    /// The same color with its alpha channel replaced.
    pub open spec fn spec_with_alpha(self, a: u8) -> Color {
        Color { r: self.r, g: self.g, b: self.b, a: a }
    }

    pub fn new(r: u8, g: u8, b: u8, a: u8) -> (c: Color)
        ensures
            c == (Color { r, g, b, a }),
    {
        Color { r, g, b, a }
    }

    /// The same color with its alpha channel replaced.
    pub fn with_alpha(self, a: u8) -> (c: Color)
        ensures
            c == self.spec_with_alpha(a),
    {
        Color { r: self.r, g: self.g, b: self.b, a: a }
    }

    /// The fully transparent color.
    pub fn transparent() -> (c: Color)
        ensures
            c == spec_transparent(),
    {
        Color { r: 0, g: 0, b: 0, a: 0 }
    }
}

/// The fully transparent color.
pub open spec fn spec_transparent() -> Color {
    Color { r: 0, g: 0, b: 0, a: 0 }
}

/// One tonal band of the palette: every color role is always present.
#[derive(Clone, Copy, Debug, PartialEq, Eq, Structural)]
pub struct ColorGroup {
    pub background: Color,
    pub foreground: Color,
    pub primary: Color,
    pub secondary: Color,
    pub error: Color,
    pub surface: Color,
}

impl ColorGroup {
    pub open spec fn wf(self) -> bool {
        self.background.wf() && self.foreground.wf() && self.primary.wf()
            && self.secondary.wf() && self.error.wf() && self.surface.wf()
    }
}

/// A palette: three tonal bands, each with the full set of color roles.
#[derive(Clone, Copy, Debug, PartialEq, Eq, Structural)]
pub struct Palette {
    pub base: ColorGroup,
    pub normal: ColorGroup,
    pub bright: ColorGroup,
}

impl Palette {
    pub open spec fn wf(self) -> bool {
        self.base.wf() && self.normal.wf() && self.bright.wf()
    }
}

/// A theme holds the one palette that every resolution reads. It is
/// immutable: re-theming constructs a new `Theme`.
#[derive(Clone, Copy, Debug, PartialEq, Eq, Structural)]
pub struct Theme {
    pub palette: Palette,
}

impl Theme {
    pub fn new(palette: Palette) -> (t: Theme)
        ensures
            t == (Theme { palette }),
    {
        Theme { palette }
    }
}

} // verus!
