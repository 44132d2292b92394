use quad_widgets::draw::DrawCmd;
use quad_widgets::graphing::{Axis, Canvas, Graph, LineType, Point, PointShape};
use quad_widgets::Color;

fn rgb(r: u8, g: u8, b: u8) -> Color {
    Color { r, g, b, a: 255 }
}

fn white() -> Color {
    Color { r: 255, g: 255, b: 255, a: 255 }
}

#[test]
fn point_builder() {
    let p = Point::with_value(5)
        .set_coordinates(1, 2)
        .set_label("a".to_string())
        .set_colors(rgb(1, 0, 0), rgb(0, 1, 0))
        .set_size(3)
        .set_shape(PointShape::Dot);
    assert_eq!(p.value, 5);
    assert_eq!(p.x, 1);
    assert_eq!(p.y, 2);
    assert_eq!(p.label, Some("a".to_string()));
    assert_eq!(p.col1, rgb(1, 0, 0));
    assert_eq!(p.col2, rgb(0, 1, 0));
    assert_eq!(p.size, 3);
    assert_eq!(p.shape, PointShape::Dot);
    let p2 = p.set_value(9);
    assert_eq!(p2.value, 9);
}

#[test]
fn point_default_shape_is_circle() {
    let p = Point::with_value(0);
    assert_eq!(p.shape, PointShape::Circle);
    assert_eq!(p.label, None);
}

#[test]
fn graph_builder() {
    let pts = vec![Point::with_value(1), Point::with_value(2)];
    let g = Graph::new("speed")
        .set_data(pts.clone())
        .set_look(2, LineType::Dashed, rgb(9, 9, 9));
    assert_eq!(g.name, "speed");
    assert_eq!(g.data, pts);
    assert_eq!(g.line_thickness, 2);
    assert_eq!(g.line_type, LineType::Dashed);
    assert_eq!(g.color, rgb(9, 9, 9));
}

#[test]
fn axis_new_keeps_fields() {
    let a = Axis::new("t".to_string(), 10, rgb(1, 2, 3));
    assert_eq!(a.name, "t");
    assert_eq!(a.range, 10);
    assert_eq!(a.color, rgb(1, 2, 3));
}

#[test]
fn canvas_builder() {
    let c = Canvas::new("T".to_string())
        .set_position(5, 6)
        .set_size(100, 80)
        .set_colors(rgb(0, 0, 0), rgb(255, 255, 255))
        .set_border_thickness(3)
        .add_axes(
            Axis::new("x".to_string(), 10, rgb(1, 1, 1)),
            Axis::new("y".to_string(), 20, rgb(2, 2, 2)),
        )
        .add_graph(Graph::new("g"));
    assert_eq!(c.title, "T");
    assert_eq!(c.x, 5);
    assert_eq!(c.y, 6);
    assert_eq!(c.w, 100);
    assert_eq!(c.h, 80);
    assert_eq!(c.bg, rgb(0, 0, 0));
    assert_eq!(c.fg, rgb(255, 255, 255));
    assert_eq!(c.border_thickness, 3);
    assert_eq!(c.x_axis.name, "x");
    assert_eq!(c.y_axis.range, 20);
    assert_eq!(c.graphs.len(), 1);
    assert_eq!(c.graphs[0].name, "g");
}

#[test]
fn draw_empty_canvas_is_header_only() {
    let bg = rgb(10, 10, 10);
    let fg = rgb(200, 200, 200);
    let xcol = rgb(1, 2, 3);
    let c = Canvas::new("T".to_string())
        .set_position(0, 0)
        .set_size(134, 120)
        .set_colors(bg, fg)
        .set_border_thickness(3)
        .add_axes(
            Axis::new(String::new(), 10, xcol),
            Axis::new(String::new(), 10, xcol),
        );
    let cmds = c.draw(0);
    assert_eq!(
        cmds,
        vec![
            DrawCmd::Rect { x: 0, y: 0, w: 134, h: 120, color: bg },
            DrawCmd::RectLines { x: 0, y: 0, w: 134, h: 120, thickness: 3, color: fg },
            DrawCmd::Text { text: "T".to_string(), x: 67, y: 16, font_size: 22, color: white() },
            DrawCmd::Line { x1: 10, y1: 100, x2: 120, y2: 100, thickness: 2, color: xcol },
            DrawCmd::Line { x1: 120, y1: 110, x2: 120, y2: 90, thickness: 2, color: xcol },
            DrawCmd::Text { text: String::new(), x: 127, y: 103, font_size: 20, color: xcol },
        ]
    );
}

#[test]
fn draw_one_graph_two_points() {
    let bg = rgb(10, 10, 10);
    let fg = rgb(200, 200, 200);
    let xcol = rgb(1, 2, 3);
    let lc = rgb(7, 7, 7);
    let inner = rgb(4, 4, 4);
    let outer = rgb(5, 5, 5);
    let p1 = Point::with_value(2)
        .set_coordinates(1, 2)
        .set_label("a".to_string())
        .set_colors(inner, outer)
        .set_shape(PointShape::Dot);
    let p2 = Point::with_value(4)
        .set_coordinates(3, 4)
        .set_colors(inner, outer)
        .set_size(5);
    let g = Graph::new("g").set_data(vec![p1, p2]).set_look(2, LineType::Solid, lc);
    let c = Canvas::new("T".to_string())
        .set_position(0, 0)
        .set_size(134, 120)
        .set_colors(bg, fg)
        .add_axes(
            Axis::new(String::new(), 10, xcol),
            Axis::new(String::new(), 10, xcol),
        )
        .add_graph(g);
    // x scale: (0 + 134 - 0 - 34) / 10 = 10; y scale: ((0 + 120 - 20) * 95 / 100) / 10 = 9
    let cmds = c.draw(0);
    assert_eq!(cmds.len(), 10);
    // The first point gets no segment: the series has no earlier point.
    assert_eq!(
        cmds[6],
        DrawCmd::Text { text: "a".to_string(), x: 25, y: 82, font_size: 15, color: outer }
    );
    assert_eq!(
        cmds[7],
        DrawCmd::Text { text: String::new(), x: 45, y: 64, font_size: 15, color: outer }
    );
    assert_eq!(
        cmds[8],
        DrawCmd::Line { x1: 20, y1: 82, x2: 40, y2: 64, thickness: 2, color: lc }
    );
    assert_eq!(cmds[9], DrawCmd::Circle { x: 40, y: 64, radius: 5, color: inner });
}

#[test]
fn label_nudged_only_on_large_jump() {
    // The first point jumps 6 from the starting previous y of 0, so its
    // label is nudged up by 15; the second moves only 2 and is not nudged.
    let p1 = Point::with_value(0).set_coordinates(1, 6).set_shape(PointShape::Dot);
    let p2 = Point::with_value(0).set_coordinates(2, 8).set_shape(PointShape::Dot);
    let g = Graph::new("g").set_data(vec![p1, p2]).set_look(1, LineType::Solid, rgb(0, 0, 0));
    let c = Canvas::new(String::new())
        .set_position(0, 0)
        .set_size(134, 120)
        .add_axes(
            Axis::new(String::new(), 10, rgb(0, 0, 0)),
            Axis::new(String::new(), 10, rgb(0, 0, 0)),
        )
        .add_graph(g);
    let cmds = c.draw(0);
    // y scale 9: first label y = 100 - 54 - 15, second label y = 100 - 72 - 0
    match &cmds[6] {
        DrawCmd::Text { y, .. } => assert_eq!(*y, 31),
        other => panic!("expected a label, got {:?}", other),
    }
    match &cmds[7] {
        DrawCmd::Text { y, .. } => assert_eq!(*y, 28),
        other => panic!("expected a label, got {:?}", other),
    }
}

#[test]
fn label_not_nudged_on_drop_of_five_or_less() {
    // A drop of exactly 5 is still close enough: no nudge either way.
    let p1 = Point::with_value(0).set_coordinates(1, 8).set_shape(PointShape::Dot);
    let p2 = Point::with_value(0).set_coordinates(2, 3).set_shape(PointShape::Dot);
    let p3 = Point::with_value(0).set_coordinates(3, 9).set_shape(PointShape::Dot);
    let g = Graph::new("g").set_data(vec![p1, p2, p3]).set_look(1, LineType::Solid, rgb(0, 0, 0));
    let c = Canvas::new(String::new())
        .set_position(0, 0)
        .set_size(134, 120)
        .add_axes(
            Axis::new(String::new(), 10, rgb(0, 0, 0)),
            Axis::new(String::new(), 10, rgb(0, 0, 0)),
        )
        .add_graph(g);
    let cmds = c.draw(0);
    // y scale 9: |8-0| > 5 nudges, |3-8| == 5 does not, |9-3| > 5 nudges
    match &cmds[6] {
        DrawCmd::Text { y, .. } => assert_eq!(*y, 100 - 72 - 15),
        other => panic!("expected a label, got {:?}", other),
    }
    match &cmds[7] {
        DrawCmd::Text { y, .. } => assert_eq!(*y, 100 - 27),
        other => panic!("expected a label, got {:?}", other),
    }
    match &cmds[9] {
        DrawCmd::Text { y, .. } => assert_eq!(*y, 100 - 81 - 15),
        other => panic!("expected a label, got {:?}", other),
    }
}

#[test]
fn no_segment_for_single_point_series_or_across_graphs() {
    // A one-point series draws no segment, and no segment bridges two
    // graphs: only the two x-axis lines of the header appear.
    let g1 = Graph::new("g1")
        .set_data(vec![Point::with_value(0).set_coordinates(1, 1).set_shape(PointShape::Dot)])
        .set_look(1, LineType::Solid, rgb(0, 0, 0));
    let g2 = Graph::new("g2")
        .set_data(vec![Point::with_value(0).set_coordinates(2, 2).set_shape(PointShape::Dot)])
        .set_look(1, LineType::Solid, rgb(0, 0, 0));
    let c = Canvas::new(String::new())
        .set_position(0, 0)
        .set_size(134, 120)
        .add_axes(
            Axis::new(String::new(), 10, rgb(0, 0, 0)),
            Axis::new(String::new(), 10, rgb(0, 0, 0)),
        )
        .add_graph(g1)
        .add_graph(g2);
    let cmds = c.draw(0);
    assert_eq!(cmds.len(), 8);
    let lines = cmds
        .iter()
        .filter(|c| matches!(c, DrawCmd::Line { .. }))
        .count();
    assert_eq!(lines, 2);
    assert!(matches!(cmds[6], DrawCmd::Text { .. }));
    assert!(matches!(cmds[7], DrawCmd::Text { .. }));
}

#[test]
fn three_point_series_draws_two_segments() {
    // Segments join consecutive points of the series: one from the first
    // point to the second, one from the second to the third, and no other.
    let p1 = Point::with_value(0).set_coordinates(1, 1).set_shape(PointShape::Dot);
    let p2 = Point::with_value(0).set_coordinates(2, 3).set_shape(PointShape::Dot);
    let p3 = Point::with_value(0).set_coordinates(4, 2).set_shape(PointShape::Dot);
    let g = Graph::new("g").set_data(vec![p1, p2, p3]).set_look(1, LineType::Solid, rgb(6, 6, 6));
    let c = Canvas::new(String::new())
        .set_position(0, 0)
        .set_size(134, 120)
        .add_axes(
            Axis::new(String::new(), 10, rgb(0, 0, 0)),
            Axis::new(String::new(), 10, rgb(0, 0, 0)),
        )
        .add_graph(g);
    let cmds = c.draw(0);
    // x scale 10, y scale 9: pixels (20,91), (30,73), (50,82)
    assert_eq!(cmds.len(), 11);
    assert_eq!(
        cmds[8],
        DrawCmd::Line { x1: 20, y1: 91, x2: 30, y2: 73, thickness: 1, color: rgb(6, 6, 6) }
    );
    assert_eq!(
        cmds[10],
        DrawCmd::Line { x1: 30, y1: 73, x2: 50, y2: 82, thickness: 1, color: rgb(6, 6, 6) }
    );
}

#[test]
fn draw_accepts_negative_canvas_position() {
    // The engine clips; a canvas partly above and left of the window still
    // renders, with its pixels carrying the negative offsets through.
    let bg = rgb(10, 10, 10);
    let fg = rgb(200, 200, 200);
    let xcol = rgb(1, 2, 3);
    let c = Canvas::new(String::new())
        .set_position(-50, -40)
        .set_size(134, 120)
        .set_colors(bg, fg)
        .add_axes(
            Axis::new(String::new(), 10, xcol),
            Axis::new(String::new(), 10, xcol),
        );
    let cmds = c.draw(0);
    assert_eq!(
        cmds,
        vec![
            DrawCmd::Rect { x: -50, y: -40, w: 134, h: 120, color: bg },
            DrawCmd::RectLines { x: -50, y: -40, w: 134, h: 120, thickness: 0, color: fg },
            DrawCmd::Text { text: String::new(), x: 42, y: -24, font_size: 22, color: white() },
            DrawCmd::Line { x1: -40, y1: 60, x2: 70, y2: 60, thickness: 2, color: xcol },
            DrawCmd::Line { x1: 70, y1: 70, x2: 70, y2: 50, thickness: 2, color: xcol },
            DrawCmd::Text { text: String::new(), x: 77, y: 63, font_size: 20, color: xcol },
        ]
    );
}
