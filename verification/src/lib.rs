//! An adapter that lets a charting library render onto a GUI canvas.
//!
//! The adapter itself is a pure translation: each abstract draw request
//! (pixel, line, rectangle, circle, text) becomes exactly one host-canvas
//! operation (a fill, a stroke or a text fill). This crate models that
//! translation over plain integer coordinates and 8-bit colors, and proves
//! for every draw call exactly which host operation it issues.

pub mod error;
pub mod frame;
pub mod host;
pub mod style;

pub use crate::error::PlotErr;
pub use crate::frame::{PlotFrame, Plottable};
pub use crate::host::{HostOp, HostPath, HostStroke, HostText, LineCap, LineJoin};
pub use crate::style::{Coord, Rgb, ShapeStyle, TextStyle};
