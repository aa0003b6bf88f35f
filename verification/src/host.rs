//! The host canvas's side of the translation: the operations the adapter
//! issues, and spec-level constructors saying which operation each draw
//! request turns into.
use vstd::prelude::*;

use crate::style::{Coord, Rgb, ShapeStyle, TextStyle};

verus! {

/// How the host caps the ends of a stroked line.
#[derive(Clone, Copy, Debug, PartialEq, Eq, Structural)]
pub enum LineCap {
    Butt,
    Square,
    Round,
}

/// How the host joins consecutive segments of a stroked outline.
#[derive(Clone, Copy, Debug, PartialEq, Eq, Structural)]
pub enum LineJoin {
    Miter,
    Round,
    Bevel,
}

/// A geometric path handed to the host canvas.
///
/// `PixelSquare` stands for the host's sub-pixel square (the canvas has no
/// single-pixel primitive): a small fixed-size filled rectangle whose corner
/// sits at `corner`. `Rect` keeps the adapter's literal corner arithmetic:
/// its origin is the second corner of the draw request and its size is the
/// componentwise difference of the two corners, which may be negative.
#[derive(Clone, Copy, Debug, PartialEq, Eq, Structural)]
pub enum HostPath {
    PixelSquare { corner: Coord },
    Line { from: Coord, to: Coord },
    Rect { origin: Coord, size_x: i32, size_y: i32 },
    Circle { center: Coord, radius: u32 },
}

/// The stroke descriptor handed to the host canvas.
#[derive(Clone, Copy, Debug, PartialEq, Eq, Structural)]
pub struct HostStroke {
    pub color: Rgb,
    pub width: u32,
    pub cap: LineCap,
    pub join: LineJoin,
}

/// The text descriptor handed to the host canvas. Alignment, wrapping and
/// font family are left to the host's defaults and do not appear here.
#[derive(Debug, PartialEq, Eq)]
pub struct HostText {
    pub content: String,
    pub size: u32,
    pub position: Coord,
    pub color: Rgb,
}

/// One operation on the host canvas: exactly what a single draw request of
/// the charting side becomes.
#[derive(Debug, PartialEq, Eq)]
pub enum HostOp {
    Fill { path: HostPath, color: Rgb },
    Stroke { path: HostPath, stroke: HostStroke },
    FillText { text: HostText },
}

/// The stroke descriptor built from an input style: the color and width are
/// taken over unchanged, and the cap and join are fixed to butt and miter
/// whatever the input style says.
pub open spec fn stroke_of(style: ShapeStyle) -> HostStroke {
    HostStroke { color: style.color, width: style.stroke_width, cap: LineCap::Butt, join: LineJoin::Miter }
}

/// The host operation for a pixel draw: fill the sub-pixel square at the
/// requested coordinate with the requested color.
pub open spec fn pixel_op(point: Coord, color: Rgb) -> HostOp {
    HostOp::Fill { path: HostPath::PixelSquare { corner: point }, color: color }
}

/// The host operation for a line draw: stroke the segment with the style's
/// color and width.
pub open spec fn line_op(from: Coord, to: Coord, style: ShapeStyle) -> HostOp {
    HostOp::Stroke { path: HostPath::Line { from: from, to: to }, stroke: stroke_of(style) }
}

/// The rectangle path for a rectangle draw, kept exactly as the adapter
/// computes it: origin at `bottom_right`, size `upper_left - bottom_right`
/// componentwise, not normalized to a positive size.
pub open spec fn rect_path(upper_left: Coord, bottom_right: Coord) -> HostPath {
    HostPath::Rect {
        origin: bottom_right,
        size_x: (upper_left.x - bottom_right.x) as i32,
        size_y: (upper_left.y - bottom_right.y) as i32,
    }
}

/// The host operation for a rectangle draw: fill or stroke the rectangle
/// path, depending on the `fill` flag.
pub open spec fn rect_op(upper_left: Coord, bottom_right: Coord, style: ShapeStyle, fill: bool) -> HostOp {
    if fill {
        HostOp::Fill { path: rect_path(upper_left, bottom_right), color: style.color }
    } else {
        HostOp::Stroke { path: rect_path(upper_left, bottom_right), stroke: stroke_of(style) }
    }
}

/// The host operation for a circle draw: fill or stroke the circle path,
/// depending on the `fill` flag.
pub open spec fn circle_op(center: Coord, radius: u32, style: ShapeStyle, fill: bool) -> HostOp {
    if fill {
        HostOp::Fill { path: HostPath::Circle { center: center, radius: radius }, color: style.color }
    } else {
        HostOp::Stroke { path: HostPath::Circle { center: center, radius: radius }, stroke: stroke_of(style) }
    }
}

/// Whether `op` is the text fill for the given content, style and position:
/// the host receives the text unchanged, sized from the style's font size
/// and colored from the style's color.
pub open spec fn is_fill_text(op: HostOp, content: Seq<char>, style: TextStyle, pos: Coord) -> bool {
    match op {
        HostOp::FillText { text } => {
            &&& text.content@ == content
            &&& text.size == style.font_size
            &&& text.position == pos
            &&& text.color == style.color
        },
        _ => false,
    }
}

/// The color a host operation carries: the fill color of a fill, the stroke
/// color of a stroke, the text color of a text fill.
pub open spec fn op_color(op: HostOp) -> Rgb {
    match op {
        HostOp::Fill { color, .. } => color,
        HostOp::Stroke { stroke, .. } => stroke.color,
        HostOp::FillText { text } => text.color,
    }
}

/// A pixel draw issues exactly one host operation: a fill, of the sub-pixel
/// square whose corner is the requested coordinate, in exactly the requested
/// color, with no rounding or clamping of the channels.
pub proof fn lemma_pixel_fill(point: Coord, color: Rgb)
    ensures
        pixel_op(point, color) == (HostOp::Fill { path: HostPath::PixelSquare { corner: point }, color: color }),
{
}

/// The stroke built from an input style keeps the style's width with no
/// scaling and the style's color with no change, and fixes the cap to butt
/// and the join to miter.
pub proof fn lemma_stroke_of_style(style: ShapeStyle)
    ensures
        stroke_of(style).width == style.stroke_width,
        stroke_of(style).color == style.color,
        stroke_of(style).cap == LineCap::Butt,
        stroke_of(style).join == LineJoin::Miter,
{
}

/// Every unfilled draw — a line, a rectangle with `fill` false, a circle
/// with `fill` false — is a stroke, and its stroke descriptor is exactly
/// `stroke_of` the input style; in particular its width equals the style's
/// stroke width unscaled.
pub proof fn lemma_unfilled_draws_stroke(
    from: Coord,
    to: Coord,
    upper_left: Coord,
    bottom_right: Coord,
    center: Coord,
    radius: u32,
    style: ShapeStyle,
)
    ensures
        line_op(from, to, style) == (HostOp::Stroke { path: HostPath::Line { from: from, to: to }, stroke: stroke_of(style) }),
        rect_op(upper_left, bottom_right, style, false) == (HostOp::Stroke { path: rect_path(upper_left, bottom_right), stroke: stroke_of(style) }),
        circle_op(center, radius, style, false) == (HostOp::Stroke { path: HostPath::Circle { center: center, radius: radius }, stroke: stroke_of(style) }),
{
}

/// Round trip of the color: the RGB triple passed into any draw call reaches
/// the host operation with identical channel values.
pub proof fn lemma_color_round_trip(
    point: Coord,
    from: Coord,
    to: Coord,
    upper_left: Coord,
    bottom_right: Coord,
    center: Coord,
    radius: u32,
    fill: bool,
    color: Rgb,
    style: ShapeStyle,
)
    ensures
        op_color(pixel_op(point, color)) == color,
        op_color(line_op(from, to, style)) == style.color,
        op_color(rect_op(upper_left, bottom_right, style, fill)) == style.color,
        op_color(circle_op(center, radius, style, fill)) == style.color,
{
}

/// Round trip of the color for text: a text fill that a text draw issues
/// carries the style's color unchanged.
pub proof fn lemma_text_color_round_trip(op: HostOp, content: Seq<char>, style: TextStyle, pos: Coord)
    requires
        is_fill_text(op, content, style, pos),
    ensures
        op_color(op) == style.color,
{
}

} // verus!
