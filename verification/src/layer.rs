//! What the compositor hands to the renderer each frame.

use vstd::prelude::*;

verus! {

/// One rounded rectangle to draw. Every field holds the bits of
/// single-precision numbers; the renderer copies them and never reads them.
#[derive(Clone, Copy, Debug, PartialEq, Eq)]
pub struct Quad {
    /// Top-left corner, x then y.
    pub position: [u32; 2],
    /// Width and height.
    pub size: [u32; 2],
    /// Fill colour: red, green, blue, alpha.
    pub color: [u32; 4],
    /// Border colour: red, green, blue, alpha.
    pub border_color: [u32; 4],
    /// Corner radius.
    pub border_radius: u32,
    /// Border width.
    pub border_width: u32,
}

/// An axis-aligned rectangle on the target surface, in pixels, with the
/// origin in the top-left corner.
#[derive(Clone, Copy, Debug, PartialEq, Eq, Structural)]
pub struct Rectangle {
    /// Left edge.
    pub x: u32,
    /// Top edge.
    pub y: u32,
    /// Width.
    pub width: u32,
    /// Height.
    pub height: u32,
}

} // verus!
