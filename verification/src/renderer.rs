//! What a renderer is to the widgets, and the styling it starts from.

use crate::float::{ONE, ZERO};
use crate::layer::Rectangle;
use vstd::prelude::*;

verus! {

/// A colour: red, green, blue and alpha, each the bits of a
/// single-precision number between zero and one.
#[derive(Clone, Copy, Debug, PartialEq, Eq, Structural)]
pub struct Color {
    /// Red.
    pub r: u32,
    /// Green.
    pub g: u32,
    /// Blue.
    pub b: u32,
    /// Alpha.
    pub a: u32,
}

impl Color {
    /// Opaque black: no red, no green, no blue, and an alpha of one.
    pub open spec fn spec_black() -> Color {
        Color { r: ZERO, g: ZERO, b: ZERO, a: ONE }
    }

    /// Opaque black.
    #[verifier::when_used_as_spec(spec_black)]
    pub fn black() -> (color: Color)
        ensures
            color == Self::spec_black(),
    {
        Color { r: ZERO, g: ZERO, b: ZERO, a: ONE }
    }
}

/// A component that can take the state of a user interface and produce an
/// output for its users.
pub trait Renderer: Sized {
    /// Overlays the output drawn last, with the given bounds, on top of the
    /// output drawn before it.
    fn overlay(&mut self, overlay_bounds: Rectangle);
}

/// Some default styling attributes.
#[derive(Clone, Copy, Debug, PartialEq, Eq, Structural)]
pub struct Defaults {
    /// Text styling.
    pub text: Text,
}

impl Default for Defaults {
    fn default() -> (defaults: Defaults)
        ensures
            defaults == (Defaults { text: Text { color: Color::black() } }),
    {
        Defaults { text: Text::default() }
    }
}

/// Some default text styling attributes.
#[derive(Clone, Copy, Debug, PartialEq, Eq, Structural)]
pub struct Text {
    /// The default colour of text.
    pub color: Color,
}

impl Default for Text {
    fn default() -> (text: Text)
        ensures
            text == (Text { color: Color::black() }),
    {
        Text { color: Color::black() }
    }
}

} // verus!
