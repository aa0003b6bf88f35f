use iced_plotters::{
    Coord, HostOp, HostPath, HostStroke, HostText, LineCap, LineJoin, PlotFrame, Plottable, Rgb,
    ShapeStyle, TextStyle,
};

fn rgb(r: u8, g: u8, b: u8) -> Rgb {
    Rgb { r, g, b }
}

fn at(x: i32, y: i32) -> Coord {
    Coord { x, y }
}

fn butt_miter(color: Rgb, width: u32) -> HostStroke {
    HostStroke {
        color,
        width,
        cap: LineCap::Butt,
        join: LineJoin::Miter,
    }
}

#[test]
fn get_size_reports_height_then_width() {
    // Regression test pinning the adapter's reversed tuple order: the first
    // component is the height, the second the width.
    let frame = PlotFrame::new(800, 600);
    assert_eq!(frame.get_size(), (600, 800));
}

#[test]
fn prepare_and_present_always_succeed() {
    let mut frame = PlotFrame::new(64, 48);
    assert!(frame.ensure_prepared().is_ok());
    assert!(frame.present().is_ok());
    assert!(frame.draw_pixel(at(1, 2), rgb(3, 4, 5)).is_ok());
    assert!(frame.present().is_ok());
    assert!(frame.ensure_prepared().is_ok());
    assert!(frame.present().is_ok());
    // Neither call touches the surface: extents and issued operations stay.
    assert_eq!(frame.get_size(), (48, 64));
    assert_eq!(frame.ops.len(), 1);
}

#[test]
fn pixel_fills_subpixel_square_with_exact_color() {
    let mut frame = PlotFrame::new(100, 100);
    assert!(frame.draw_pixel(at(3, 4), rgb(10, 20, 30)).is_ok());
    assert_eq!(
        frame.ops,
        vec![HostOp::Fill {
            path: HostPath::PixelSquare { corner: at(3, 4) },
            color: rgb(10, 20, 30),
        }]
    );
}

#[test]
fn line_stroke_keeps_width_and_fixes_cap_join() {
    let mut frame = PlotFrame::new(100, 100);
    let style = ShapeStyle {
        color: rgb(1, 2, 3),
        stroke_width: 7,
    };
    assert!(frame.draw_line(at(0, 0), at(50, 25), style).is_ok());
    assert_eq!(
        frame.ops,
        vec![HostOp::Stroke {
            path: HostPath::Line {
                from: at(0, 0),
                to: at(50, 25),
            },
            stroke: butt_miter(rgb(1, 2, 3), 7),
        }]
    );
}

#[test]
fn rect_outline_keeps_literal_corner_arithmetic() {
    // Scenario: upper_left (0,0), bottom_right (10,10), not filled. The host
    // receives a rectangle whose origin is (10,10) and whose size is
    // (-10,-10): the adapter's literal, non-normalized arithmetic.
    let mut frame = PlotFrame::new(100, 100);
    let style = ShapeStyle {
        color: rgb(5, 6, 7),
        stroke_width: 1,
    };
    assert!(frame.draw_rect(at(0, 0), at(10, 10), style, false).is_ok());
    assert_eq!(
        frame.ops,
        vec![HostOp::Stroke {
            path: HostPath::Rect {
                origin: at(10, 10),
                size_x: -10,
                size_y: -10,
            },
            stroke: butt_miter(rgb(5, 6, 7), 1),
        }]
    );
}

#[test]
fn rect_filled_uses_fill_with_style_color() {
    let mut frame = PlotFrame::new(100, 100);
    let style = ShapeStyle {
        color: rgb(11, 22, 33),
        stroke_width: 9,
    };
    assert!(frame.draw_rect(at(2, 3), at(8, 9), style, true).is_ok());
    assert_eq!(
        frame.ops,
        vec![HostOp::Fill {
            path: HostPath::Rect {
                origin: at(8, 9),
                size_x: -6,
                size_y: -6,
            },
            color: rgb(11, 22, 33),
        }]
    );
}

#[test]
fn circle_filled_scenario() {
    // Scenario: center (10,10), radius 5, red style of width 2, filled. The
    // host receives one filled circle path centered at (10,10) of radius 5
    // in red; the stroke width plays no part in a fill.
    let mut frame = PlotFrame::new(100, 100);
    let red = rgb(255, 0, 0);
    let style = ShapeStyle {
        color: red,
        stroke_width: 2,
    };
    assert!(frame.draw_circle(at(10, 10), 5, style, true).is_ok());
    assert_eq!(
        frame.ops,
        vec![HostOp::Fill {
            path: HostPath::Circle {
                center: at(10, 10),
                radius: 5,
            },
            color: red,
        }]
    );
}

#[test]
fn circle_outline_keeps_stroke_width() {
    let mut frame = PlotFrame::new(100, 100);
    let style = ShapeStyle {
        color: rgb(0, 128, 255),
        stroke_width: 4,
    };
    assert!(frame.draw_circle(at(40, 30), 12, style, false).is_ok());
    assert_eq!(
        frame.ops,
        vec![HostOp::Stroke {
            path: HostPath::Circle {
                center: at(40, 30),
                radius: 12,
            },
            stroke: butt_miter(rgb(0, 128, 255), 4),
        }]
    );
}

#[test]
fn text_reaches_host_unchanged() {
    let mut frame = PlotFrame::new(100, 100);
    let style = TextStyle {
        color: rgb(7, 8, 9),
        font_size: 16,
    };
    assert!(frame.draw_text("hello", style, at(12, 34)).is_ok());
    assert_eq!(
        frame.ops,
        vec![HostOp::FillText {
            text: HostText {
                content: String::from("hello"),
                size: 16,
                position: at(12, 34),
                color: rgb(7, 8, 9),
            },
        }]
    );
}

fn op_color(op: &HostOp) -> Rgb {
    match op {
        HostOp::Fill { color, .. } => *color,
        HostOp::Stroke { stroke, .. } => stroke.color,
        HostOp::FillText { text } => text.color,
    }
}

#[test]
fn color_round_trips_through_every_draw_call() {
    let mut frame = PlotFrame::new(200, 200);
    let color = rgb(12, 134, 250);
    let style = ShapeStyle {
        color,
        stroke_width: 3,
    };
    let text_style = TextStyle {
        color,
        font_size: 10,
    };
    assert!(frame.draw_pixel(at(1, 1), color).is_ok());
    assert!(frame.draw_line(at(0, 0), at(9, 9), style).is_ok());
    assert!(frame.draw_rect(at(0, 0), at(5, 5), style, false).is_ok());
    assert!(frame.draw_rect(at(0, 0), at(5, 5), style, true).is_ok());
    assert!(frame.draw_circle(at(4, 4), 2, style, false).is_ok());
    assert!(frame.draw_circle(at(4, 4), 2, style, true).is_ok());
    assert!(frame.draw_text("t", text_style, at(2, 2)).is_ok());
    assert_eq!(frame.ops.len(), 7);
    for op in &frame.ops {
        assert_eq!(op_color(op), color);
    }
}

#[derive(Debug)]
struct TwoBars;

impl Plottable for TwoBars {
    fn draw_plot(&self, frame: &mut PlotFrame) {
        let style = ShapeStyle {
            color: Rgb { r: 1, g: 1, b: 1 },
            stroke_width: 1,
        };
        let _ = frame.draw_rect(Coord { x: 0, y: 0 }, Coord { x: 2, y: 10 }, style, true);
        let _ = frame.draw_rect(Coord { x: 4, y: 0 }, Coord { x: 6, y: 10 }, style, true);
        let _ = frame.present();
    }
}

#[test]
fn plottable_issues_operations_in_call_order() {
    let mut frame = PlotFrame::new(20, 20);
    TwoBars.draw_plot(&mut frame);
    assert_eq!(frame.ops.len(), 2);
    match (&frame.ops[0], &frame.ops[1]) {
        (
            HostOp::Fill {
                path: HostPath::Rect { origin: first, .. },
                ..
            },
            HostOp::Fill {
                path: HostPath::Rect { origin: second, .. },
                ..
            },
        ) => {
            assert_eq!(*first, at(2, 10));
            assert_eq!(*second, at(6, 10));
        }
        other => panic!("unexpected operations: {:?}", other),
    }
}
