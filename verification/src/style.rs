//! Plain-value forms of the drawing inputs: coordinates, colors and styles.
use vstd::prelude::*;

verus! {

/// An 8-bit-per-channel RGB color. The charting side supplies RGBA; the
/// alpha channel is dropped before a color reaches this adapter.
#[derive(Clone, Copy, Debug, PartialEq, Eq, Structural)]
pub struct Rgb {
    pub r: u8,
    pub g: u8,
    pub b: u8,
}

/// An integer pixel coordinate in the charting library's output space,
/// taken to coincide with the host canvas's pixel space.
#[derive(Clone, Copy, Debug, PartialEq, Eq, Structural)]
pub struct Coord {
    pub x: i32,
    pub y: i32,
}

/// How a shape's outline is to be drawn: its color and stroke width.
/// Line cap and join are not part of the input style; the adapter fixes them.
#[derive(Clone, Copy, Debug, PartialEq, Eq, Structural)]
pub struct ShapeStyle {
    pub color: Rgb,
    pub stroke_width: u32,
}

/// How a piece of text is to be drawn: its color and font size.
/// Font family and weight are left to the host canvas's defaults.
#[derive(Clone, Copy, Debug, PartialEq, Eq, Structural)]
pub struct TextStyle {
    pub color: Rgb,
    pub font_size: u32,
}

} // verus!
