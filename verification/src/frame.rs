//! The drawing surface model and the adapter's draw calls.
use vstd::prelude::*;

use crate::error::PlotErr;
use crate::host::{HostOp, HostPath, HostStroke, HostText, LineCap, LineJoin};
use crate::host::{circle_op, is_fill_text, line_op, pixel_op, rect_op};
use crate::style::{Coord, Rgb, ShapeStyle, TextStyle};

verus! {

broadcast use vstd::string::to_string_from_display_ensures_for_str;

/// A drawing surface for one render pass: its pixel extents and, in order,
/// the host operations the adapter has issued against it.
///
/// The host side replays `ops` onto the real canvas; this type is the part
/// of the surface the adapter's contract speaks of.
#[derive(Debug)]
pub struct PlotFrame {
    /// The surface's width in pixels.
    pub width: u32,
    /// The surface's height in pixels.
    pub height: u32,
    /// The host operations issued so far, oldest first.
    pub ops: Vec<HostOp>,
}

/// A type that draws a plot by issuing draw calls against a frame, directly
/// or through the charting library.
pub trait Plottable {
    /// Draw this value's plot onto `frame`.
    fn draw_plot(&self, frame: &mut PlotFrame);
}

/// One draw call happened: the surface's extents are unchanged and exactly
/// the operation `op` was appended to the issued operations.
pub open spec fn draws(pre: PlotFrame, post: PlotFrame, op: HostOp) -> bool {
    &&& post.width == pre.width
    &&& post.height == pre.height
    &&& post.ops@ == pre.ops@.push(op)
}

impl PlotFrame {
    /// A fresh surface of the given extents with no operations issued yet.
    pub fn new(width: u32, height: u32) -> (frame: PlotFrame)
        ensures
            frame.width == width,
            frame.height == height,
            frame.ops@ == Seq::<HostOp>::empty(),
    {
        PlotFrame { width, height, ops: Vec::new() }
    }

    /// The surface's extents, returned as (height, width) — deliberately the
    /// reverse of the conventional (width, height) order, preserved exactly
    /// as the adapter has always reported it.
    pub fn get_size(&self) -> (size: (u32, u32))
        ensures
            size == (self.height, self.width),
    {
        (self.height, self.width)
    }

    /// Pre-draw setup. The host canvas needs none, so this changes nothing
    /// and always succeeds, whatever was called before.
    pub fn ensure_prepared(&mut self) -> (res: Result<(), PlotErr>)
        ensures
            res is Ok,
            *final(self) == *old(self),
    {
        Ok(())
    }

    /// Flush of pending output. The host canvas has no explicit present
    /// step, so this changes nothing and always succeeds, whatever was
    /// called before.
    pub fn present(&mut self) -> (res: Result<(), PlotErr>)
        ensures
            res is Ok,
            *final(self) == *old(self),
    {
        Ok(())
    }

    /// Draw one pixel: fill the host's sub-pixel square at `point` with
    /// exactly `color`.
    pub fn draw_pixel(&mut self, point: Coord, color: Rgb) -> (res: Result<(), PlotErr>)
        ensures
            res is Ok,
            draws(*old(self), *final(self), pixel_op(point, color)),
    {
        let op = HostOp::Fill { path: HostPath::PixelSquare { corner: point }, color: color };
        self.ops.push(op);
        Ok(())
    }

    /// Draw a straight line segment from `from` to `to`: stroke it with the
    /// style's color and width, cap butt, join miter.
    pub fn draw_line(&mut self, from: Coord, to: Coord, style: ShapeStyle) -> (res: Result<(), PlotErr>)
        ensures
            res is Ok,
            draws(*old(self), *final(self), line_op(from, to, style)),
    {
        let op = HostOp::Stroke {
            path: HostPath::Line { from: from, to: to },
            stroke: HostStroke {
                color: style.color,
                width: style.stroke_width,
                cap: LineCap::Butt,
                join: LineJoin::Miter,
            },
        };
        self.ops.push(op);
        Ok(())
    }

    /// Draw a rectangle between the two given corners: the path's origin is
    /// `bottom_right` and its size is `upper_left - bottom_right`
    /// componentwise, exactly as given and not normalized, so the size may
    /// be negative. Filled with the style's color when `fill` is set,
    /// stroked with the style's color and width otherwise.
    pub fn draw_rect(
        &mut self,
        upper_left: Coord,
        bottom_right: Coord,
        style: ShapeStyle,
        fill: bool,
    ) -> (res: Result<(), PlotErr>)
        requires
            i32::MIN <= upper_left.x - bottom_right.x <= i32::MAX,
            i32::MIN <= upper_left.y - bottom_right.y <= i32::MAX,
        ensures
            res is Ok,
            draws(*old(self), *final(self), rect_op(upper_left, bottom_right, style, fill)),
    {
        let size_x: i32 = upper_left.x - bottom_right.x;
        let size_y: i32 = upper_left.y - bottom_right.y;
        let path = HostPath::Rect { origin: bottom_right, size_x: size_x, size_y: size_y };
        let op = if fill {
            HostOp::Fill { path: path, color: style.color }
        } else {
            HostOp::Stroke {
                path: path,
                stroke: HostStroke {
                    color: style.color,
                    width: style.stroke_width,
                    cap: LineCap::Butt,
                    join: LineJoin::Miter,
                },
            }
        };
        self.ops.push(op);
        Ok(())
    }

    /// Draw a circle centered at `center` with the given radius: filled with
    /// the style's color when `fill` is set, stroked with the style's color
    /// and width otherwise.
    pub fn draw_circle(
        &mut self,
        center: Coord,
        radius: u32,
        style: ShapeStyle,
        fill: bool,
    ) -> (res: Result<(), PlotErr>)
        ensures
            res is Ok,
            draws(*old(self), *final(self), circle_op(center, radius, style, fill)),
    {
        let path = HostPath::Circle { center: center, radius: radius };
        let op = if fill {
            HostOp::Fill { path: path, color: style.color }
        } else {
            HostOp::Stroke {
                path: path,
                stroke: HostStroke {
                    color: style.color,
                    width: style.stroke_width,
                    cap: LineCap::Butt,
                    join: LineJoin::Miter,
                },
            }
        };
        self.ops.push(op);
        Ok(())
    }

    /// Draw `text` at `pos`: one text fill with the text unchanged, sized
    /// from the style's font size and colored from the style's color; all
    /// other text parameters are the host's defaults.
    pub fn draw_text(&mut self, text: &str, style: TextStyle, pos: Coord) -> (res: Result<(), PlotErr>)
        ensures
            res is Ok,
            final(self).width == old(self).width,
            final(self).height == old(self).height,
            final(self).ops@.len() == old(self).ops@.len() + 1,
            final(self).ops@.subrange(0, old(self).ops@.len() as int) == old(self).ops@,
            is_fill_text(final(self).ops@.last(), text@, style, pos),
    {
        let content: String = text.to_string();
        let op = HostOp::FillText {
            text: HostText { content, size: style.font_size, position: pos, color: style.color },
        };
        self.ops.push(op);
        proof {
            assert(self.ops@.subrange(0, old(self).ops@.len() as int) =~= old(self).ops@);
        }
        Ok(())
    }
}

} // verus!
