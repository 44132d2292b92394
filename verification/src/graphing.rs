use vstd::prelude::*;

use crate::color::Color;
use crate::draw::{cmd_views, CmdModel, DrawCmd};
use crate::{in_coord_range, COORD_LIMIT};

verus! {

use vstd::arithmetic::div_mod::{
    lemma_div_by_multiple,
    lemma_div_is_ordered,
    lemma_div_nonincreasing,
    lemma_div_pos_is_pos,
};

/// One data point of a graph: a value with a place on the canvas, a label and
/// a look.
#[derive(Clone, Debug, PartialEq)]
pub struct Point {
    pub label: Option<String>,
    pub x: i64,
    pub y: i64,
    pub col1: Color,
    pub col2: Color,
    pub shape: PointShape,
    pub size: i64,
    pub value: i64,
}

/// The glyph drawn at a point.
#[derive(Clone, Copy, Debug, PartialEq, Eq, Structural)]
pub enum PointShape {
    Circle,
    Dot,
    Square,
    Triangle,
}

impl Default for PointShape {
    fn default() -> (s: PointShape)
        ensures
            s == PointShape::Circle,
    {
        PointShape::Circle
    }
}

/// How the connecting line of a graph is drawn.
#[derive(Clone, Copy, Debug, PartialEq, Eq, Structural)]
pub enum LineType {
    Solid,
    Dashed,
    Dotted,
}

impl Default for LineType {
    fn default() -> (t: LineType)
        ensures
            t == LineType::Solid,
    {
        LineType::Solid
    }
}

impl Point {
    /// A point in its default state: no label, everything zero, a circle
    /// glyph.
    pub open spec fn is_default(self) -> bool {
        self.label is None && self.x == 0 && self.y == 0 && self.col1 == (Color {
            r: 0,
            g: 0,
            b: 0,
            a: 0,
        }) && self.col2 == (Color { r: 0, g: 0, b: 0, a: 0 }) && self.shape == PointShape::Circle
            && self.size == 0 && self.value == 0
    }

    pub fn with_value(value: i64) -> (p: Self)
        ensures
            p.value == value,
            p.label is None,
            p.x == 0,
            p.y == 0,
            p.col1 == (Color { r: 0, g: 0, b: 0, a: 0 }),
            p.col2 == (Color { r: 0, g: 0, b: 0, a: 0 }),
            p.shape == PointShape::Circle,
            p.size == 0,
    {
        let mut p = Point::default();
        p.value = value;
        p
    }

    pub fn set_coordinates(self, x: i64, y: i64) -> (p: Self)
        ensures
            p == (Point { x, y, ..self }),
    {
        let mut p = self;
        p.x = x;
        p.y = y;
        p
    }

    pub fn set_label(self, label: String) -> (p: Self)
        ensures
            p == (Point { label: Some(label), ..self }),
    {
        let mut p = self;
        p.label = Some(label);
        p
    }

    pub fn set_colors(self, inner: Color, outer: Color) -> (p: Self)
        ensures
            p == (Point { col1: inner, col2: outer, ..self }),
    {
        let mut p = self;
        p.col1 = inner;
        p.col2 = outer;
        p
    }

    pub fn set_size(self, size: i64) -> (p: Self)
        ensures
            p == (Point { size, ..self }),
    {
        let mut p = self;
        p.size = size;
        p
    }

    pub fn set_shape(self, shape: PointShape) -> (p: Self)
        ensures
            p == (Point { shape, ..self }),
    {
        let mut p = self;
        p.shape = shape;
        p
    }

    pub fn set_value(self, value: i64) -> (p: Self)
        ensures
            p == (Point { value, ..self }),
    {
        let mut p = self;
        p.value = value;
        p
    }
}

impl Default for Point {
    fn default() -> (p: Point)
        ensures
            p.is_default(),
    {
        Point {
            label: None,
            x: 0,
            y: 0,
            col1: Color { r: 0, g: 0, b: 0, a: 0 },
            col2: Color { r: 0, g: 0, b: 0, a: 0 },
            shape: PointShape::Circle,
            size: 0,
            value: 0,
        }
    }
}

/// A named series of points drawn as one polyline.
#[derive(Clone, Debug, PartialEq)]
pub struct Graph {
    pub name: String,
    pub data: Vec<Point>,
    /// Width in pixels of the connecting line, set through `set_look`
    pub line_thickness: i64,
    /// Style of the connecting line, set through `set_look`
    pub line_type: LineType,
    /// Color of the connecting line, set through `set_look`
    pub color: Color,
}

impl Graph {
    /// A graph in its default state but for its name: no data, a zero-width
    /// solid black line.
    pub open spec fn is_empty_named(self, name: Seq<char>) -> bool {
        self.name@ == name && self.data@ == Seq::<Point>::empty() && self.line_thickness == 0
            && self.line_type == LineType::Solid && self.color == (Color { r: 0, g: 0, b: 0, a: 0 })
    }

    pub fn new(name: &str) -> (g: Self)
        ensures
            g.is_empty_named(name@),
    {
        let mut g = Graph::default();
        g.name = name.to_owned();
        g
    }

    pub fn set_data(self, data: Vec<Point>) -> (g: Self)
        ensures
            g == (Graph { data, ..self }),
    {
        let mut g = self;
        g.data = data;
        g
    }

    pub fn set_look(self, line_thickness: i64, line_type: LineType, color: Color) -> (g: Self)
        ensures
            g == (Graph { line_thickness, line_type, color, ..self }),
    {
        let mut g = self;
        g.line_type = line_type;
        g.line_thickness = line_thickness;
        g.color = color;
        g
    }
}

impl Default for Graph {
    fn default() -> (g: Graph)
        ensures
            g.is_empty_named(Seq::<char>::empty()),
    {
        Graph {
            name: String::new(),
            data: Vec::new(),
            line_thickness: 0,
            line_type: LineType::Solid,
            color: Color { r: 0, g: 0, b: 0, a: 0 },
        }
    }
}

/// One axis of a canvas: a name, the data range it spans, and a color.
#[derive(Clone, Debug, PartialEq)]
pub struct Axis {
    pub name: String,
    pub range: u64,
    pub color: Color,
}

impl Axis {
    pub fn new(name: String, range: u64, color: Color) -> (a: Self)
        ensures
            a == (Axis { name, range, color }),
    {
        Axis { name, range, color }
    }
}

impl Default for Axis {
    fn default() -> (a: Axis)
        ensures
            a.name@ == Seq::<char>::empty(),
            a.range == 0,
            a.color == (Color { r: 0, g: 0, b: 0, a: 0 }),
    {
        Axis { name: String::new(), range: 0, color: Color { r: 0, g: 0, b: 0, a: 0 } }
    }
}

/// A plotting area: a titled rectangle with two axes and any number of
/// graphs, rendered once per frame as a list of drawing commands.
#[derive(Clone, Debug, PartialEq)]
pub struct Canvas {
    pub title: String,
    pub x: i64,
    pub y: i64,
    pub w: i64,
    pub h: i64,
    pub x_axis: Axis,
    pub y_axis: Axis,
    pub graphs: Vec<Graph>,
    pub bg: Color,
    pub fg: Color,
    pub border_thickness: i64,
}

/// The running state the point loop carries from one point to the next: the
/// data y of the point drawn just before, and the point of the current
/// series, if any, that the next segment starts from.
pub struct PlotState {
    pub prev_y: int,
    pub last_x: int,
    pub last_y: int,
    pub has_last: bool,
}

/// The state the first point of the first graph starts from.
pub open spec fn start_state() -> PlotState {
    PlotState { prev_y: 0, last_x: 0, last_y: 0, has_last: false }
}

/// The state a series starts from: segments never reach back into an
/// earlier series, so the stored endpoint is dropped; the label nudge keeps
/// comparing against the point drawn just before.
pub open spec fn graph_start(st: PlotState) -> PlotState {
    PlotState { has_last: false, ..st }
}

/// The state after one point: it becomes both the endpoint the next segment
/// of the series starts from and the y that the next label is nudged
/// against.
pub open spec fn point_step(st: PlotState, p: Point) -> PlotState {
    PlotState { prev_y: p.y as int, last_x: p.x as int, last_y: p.y as int, has_last: true }
}

/// How far the label of a point is nudged upward: a fixed amount when the
/// point's data y is far from the previous point's, nothing when it is
/// close.
pub open spec fn label_offset(prev_y: int, vy: int) -> int {
    if vy - prev_y > 5 || prev_y - vy > 5 {
        15
    } else {
        0
    }
}

/// The text drawn beside a point: its label, or nothing.
pub open spec fn label_text(p: Point) -> Seq<char> {
    match p.label {
        Some(s) => s@,
        None => Seq::<char>::empty(),
    }
}

/// The default color the engine draws text in when none is named.
pub open spec fn default_text_color() -> Color {
    Color { r: 255, g: 255, b: 255, a: 255 }
}

impl Canvas {
    /// A canvas in its default state but for its title.
    pub open spec fn is_empty_titled(self, title: Seq<char>) -> bool {
        self.title@ == title && self.x == 0 && self.y == 0 && self.w == 0 && self.h == 0
            && self.x_axis.name@ == Seq::<char>::empty() && self.x_axis.range == 0
            && self.x_axis.color == (Color { r: 0, g: 0, b: 0, a: 0 }) && self.y_axis.name@
            == Seq::<char>::empty() && self.y_axis.range == 0 && self.y_axis.color == (Color {
            r: 0,
            g: 0,
            b: 0,
            a: 0,
        }) && self.graphs@ == Seq::<Graph>::empty() && self.bg == (Color { r: 0, g: 0, b: 0, a: 0 })
            && self.fg == (Color { r: 0, g: 0, b: 0, a: 0 }) && self.border_thickness == 0
    }

    pub fn new(title: String) -> (c: Self)
        ensures
            c.is_empty_titled(title@),
    {
        let mut c = Canvas::default();
        c.title = title;
        c
    }

    pub fn add_graph(self, data: Graph) -> (c: Self)
        ensures
            c.graphs@ == self.graphs@.push(data),
            c.title == self.title,
            c.x == self.x,
            c.y == self.y,
            c.w == self.w,
            c.h == self.h,
            c.x_axis == self.x_axis,
            c.y_axis == self.y_axis,
            c.bg == self.bg,
            c.fg == self.fg,
            c.border_thickness == self.border_thickness,
    {
        let mut c = self;
        c.graphs.push(data);
        c
    }

    pub fn set_position(self, x: i64, y: i64) -> (c: Self)
        ensures
            c == (Canvas { x, y, ..self }),
    {
        let mut c = self;
        c.x = x;
        c.y = y;
        c
    }

    pub fn set_size(self, w: i64, h: i64) -> (c: Self)
        ensures
            c == (Canvas { w, h, ..self }),
    {
        let mut c = self;
        c.w = w;
        c.h = h;
        c
    }

    pub fn set_colors(self, bg: Color, fg: Color) -> (c: Self)
        ensures
            c == (Canvas { bg, fg, ..self }),
    {
        let mut c = self;
        c.bg = bg;
        c.fg = fg;
        c
    }

    pub fn set_border_thickness(self, thickness: i64) -> (c: Self)
        ensures
            c == (Canvas { border_thickness: thickness, ..self }),
    {
        let mut c = self;
        c.border_thickness = thickness;
        c
    }

    pub fn add_axes(self, x_axis: Axis, y_axis: Axis) -> (c: Self)
        ensures
            c == (Canvas { x_axis, y_axis, ..self }),
    {
        let mut c = self;
        c.x_axis = x_axis;
        c.y_axis = y_axis;
        c
    }

    /// Pixels of plot width per unit of the x axis: the plot width left of
    /// the axis name, divided by the axis range, rounded down.
    pub open spec fn x_scale(self, xw: int) -> int {
        (self.x + self.w - xw - 34) / (self.x_axis.range as int)
    }

    /// Pixels of plot height per unit of the y axis: 95% of the height above
    /// the axis line, divided by the axis range, rounded down.
    pub open spec fn y_scale(self) -> int {
        ((self.y + self.h - 20) * 95 / 100) / (self.y_axis.range as int)
    }

    /// The pixel column of data value `vx`.
    pub open spec fn px_at(self, xw: int, vx: int) -> int {
        self.x + 10 + vx * self.x_scale(xw)
    }

    /// The pixel row of data value `vy`; larger values lie higher, toward
    /// the canvas top.
    pub open spec fn py_at(self, vy: int) -> int {
        self.y + self.h - 20 - vy * self.y_scale()
    }

    /// The frame, title and x-axis furniture drawn before any data, in
    /// order: background, border, title, axis line, its end tick, its name.
    pub open spec fn header_cmds(self, xw: int) -> Seq<CmdModel> {
        seq![
            CmdModel::Rect {
                x: self.x as int,
                y: self.y as int,
                w: self.w as int,
                h: self.h as int,
                color: self.bg,
            },
            CmdModel::RectLines {
                x: self.x as int,
                y: self.y as int,
                w: self.w as int,
                h: self.h as int,
                thickness: self.border_thickness as int,
                color: self.fg,
            },
            CmdModel::Text {
                text: self.title@,
                x: (self.x + self.w) / 2,
                y: self.y + 16,
                font_size: 22,
                color: default_text_color(),
            },
            CmdModel::Line {
                x1: self.x + 10,
                y1: self.y + self.h - 20,
                x2: self.x + self.w - xw - 14,
                y2: self.y + self.h - 20,
                thickness: 2,
                color: self.x_axis.color,
            },
            CmdModel::Line {
                x1: self.x + self.w - xw - 14,
                y1: self.y + self.h - 10,
                x2: self.x + self.w - xw - 14,
                y2: self.y + self.h - 30,
                thickness: 2,
                color: self.x_axis.color,
            },
            CmdModel::Text {
                text: self.x_axis.name@,
                x: self.x + self.w - xw - 7,
                y: self.y + self.h - 17,
                font_size: 20,
                color: self.x_axis.color,
            },
        ]
    }

    /// Everything the canvas may draw stays clear of overflow: the canvas
    /// position, extent and every data point are bounded, the axis name and
    /// the fixed margins fit inside the width, the axis line sits inside
    /// the height, and both axis ranges are positive.
    pub open spec fn draw_ready(self, xw: int) -> bool {
        in_coord_range(self.x) && in_coord_range(self.y) && 0 <= self.w <= COORD_LIMIT && 0
            <= self.h <= COORD_LIMIT && 20 <= self.y + self.h && 0 <= xw && xw + 34 <= self.x
            + self.w && 1 <= self.x_axis.range && self.x_axis.range <= COORD_LIMIT && 1
            <= self.y_axis.range && self.y_axis.range <= COORD_LIMIT && graphs_in_range(
            self.graphs@,
        )
    }
}

impl Default for Canvas {
    fn default() -> (c: Canvas)
        ensures
            c.is_empty_titled(Seq::<char>::empty()),
    {
        Canvas {
            title: String::new(),
            x: 0,
            y: 0,
            w: 0,
            h: 0,
            x_axis: Axis::default(),
            y_axis: Axis::default(),
            graphs: Vec::new(),
            bg: Color { r: 0, g: 0, b: 0, a: 0 },
            fg: Color { r: 0, g: 0, b: 0, a: 0 },
            border_thickness: 0,
        }
    }
}

/// Both coordinates of the point are bounded.
pub open spec fn point_in_range(p: Point) -> bool {
    in_coord_range(p.x) && in_coord_range(p.y)
}

/// Every point of the graph is bounded.
pub open spec fn graph_in_range(g: Graph) -> bool {
    forall|j: int| 0 <= j < g.data@.len() ==> point_in_range(#[trigger] g.data@[j])
}

/// Every point of every graph is bounded.
pub open spec fn graphs_in_range(gs: Seq<Graph>) -> bool {
    forall|i: int| 0 <= i < gs.len() ==> graph_in_range(#[trigger] gs[i])
}

/// What one point adds to the frame: its label, the segment joining it to
/// the previous point of the same series when there is one, and its glyph
/// when the shape has one.
pub open spec fn point_cmds(
    c: Canvas,
    xw: int,
    thickness: int,
    col: Color,
    st: PlotState,
    p: Point,
) -> Seq<CmdModel> {
    let base = seq![
        CmdModel::Text {
            text: label_text(p),
            x: c.px_at(xw, p.x as int) + 5,
            y: c.py_at(p.y as int) - label_offset(st.prev_y, p.y as int),
            font_size: 15,
            color: p.col2,
        },
    ];
    let with_line = if st.has_last {
        base.push(
            CmdModel::Line {
                x1: c.px_at(xw, st.last_x),
                y1: c.py_at(st.last_y),
                x2: c.px_at(xw, p.x as int),
                y2: c.py_at(p.y as int),
                thickness: thickness,
                color: col,
            },
        )
    } else {
        base
    };
    if p.shape == PointShape::Circle {
        with_line.push(
            CmdModel::Circle {
                x: c.px_at(xw, p.x as int),
                y: c.py_at(p.y as int),
                radius: p.size as int,
                color: p.col1,
            },
        )
    } else {
        with_line
    }
}

/// The state after the first `i` points of the series.
pub open spec fn points_final_upto(st: PlotState, pts: Seq<Point>, i: int) -> PlotState
    decreases i,
{
    if i <= 0 {
        st
    } else {
        point_step(points_final_upto(st, pts, i - 1), pts[i - 1])
    }
}

/// What the first `i` points of the series add to the frame, in order.
pub open spec fn points_cmds_upto(
    c: Canvas,
    xw: int,
    thickness: int,
    col: Color,
    st: PlotState,
    pts: Seq<Point>,
    i: int,
) -> Seq<CmdModel>
    decreases i,
{
    if i <= 0 {
        Seq::<CmdModel>::empty()
    } else {
        points_cmds_upto(c, xw, thickness, col, st, pts, i - 1) + point_cmds(
            c,
            xw,
            thickness,
            col,
            points_final_upto(st, pts, i - 1),
            pts[i - 1],
        )
    }
}

/// What one whole graph adds to the frame; its first point starts a fresh
/// series with no stored endpoint.
pub open spec fn graph_cmds(c: Canvas, xw: int, st: PlotState, g: Graph) -> Seq<CmdModel> {
    points_cmds_upto(
        c,
        xw,
        g.line_thickness as int,
        g.color,
        graph_start(st),
        g.data@,
        g.data@.len() as int,
    )
}

/// The state after one whole graph.
pub open spec fn graph_final(st: PlotState, g: Graph) -> PlotState {
    points_final_upto(graph_start(st), g.data@, g.data@.len() as int)
}

/// The state after the first `i` graphs; the state runs on from each graph
/// to the next.
pub open spec fn graphs_final_upto(st: PlotState, gs: Seq<Graph>, i: int) -> PlotState
    decreases i,
{
    if i <= 0 {
        st
    } else {
        graph_final(graphs_final_upto(st, gs, i - 1), gs[i - 1])
    }
}

/// What the first `i` graphs add to the frame, in order.
pub open spec fn graphs_cmds_upto(c: Canvas, xw: int, st: PlotState, gs: Seq<Graph>, i: int) -> Seq<
    CmdModel,
>
    decreases i,
{
    if i <= 0 {
        Seq::<CmdModel>::empty()
    } else {
        graphs_cmds_upto(c, xw, st, gs, i - 1) + graph_cmds(
            c,
            xw,
            graphs_final_upto(st, gs, i - 1),
            gs[i - 1],
        )
    }
}

/// The whole frame of the canvas: the header, then every graph in order.
pub open spec fn draw_cmds(c: Canvas, xw: int) -> Seq<CmdModel> {
    c.header_cmds(xw) + graphs_cmds_upto(c, xw, start_state(), c.graphs@, c.graphs@.len() as int)
}

/// A data value times a scale factor, with the bounds that keep the product
/// inside `i64`.
fn scale_mul(v: i64, s: i64) -> (r: i64)
    requires
        in_coord_range(v),
        0 <= s <= 2 * COORD_LIMIT,
    ensures
        r == v * s,
        -(2 * COORD_LIMIT * COORD_LIMIT) <= r <= 2 * COORD_LIMIT * COORD_LIMIT,
{
    proof {
        assert(-(2 * COORD_LIMIT * COORD_LIMIT) <= v * s <= 2 * COORD_LIMIT * COORD_LIMIT)
            by (nonlinear_arith)
            requires
                -COORD_LIMIT <= v <= COORD_LIMIT,
                0 <= s <= 2 * COORD_LIMIT,
        ;
    }
    v * s
}

impl Canvas {
    /// Renders one frame of the canvas: the framed, titled background and
    /// x-axis furniture, then, graph by graph and point by point, each
    /// point's label, the segment joining it to the previous point of its
    /// series, and its glyph. `x_name_width` is the measured pixel width of
    /// the x-axis name.
    pub fn draw(&self, x_name_width: i64) -> (cmds: Vec<DrawCmd>)
        requires
            self.draw_ready(x_name_width as int),
        ensures
            cmd_views(cmds@) == draw_cmds(*self, x_name_width as int),
    {
        let ghost xwi = x_name_width as int;
        let mut cmds: Vec<DrawCmd> = Vec::new();
        cmds.push(
            DrawCmd::Rect { x: self.x, y: self.y, w: self.w, h: self.h, color: self.bg },
        );
        cmds.push(
            DrawCmd::RectLines {
                x: self.x,
                y: self.y,
                w: self.w,
                h: self.h,
                thickness: self.border_thickness,
                color: self.fg,
            },
        );
        cmds.push(
            DrawCmd::Text {
                text: self.title.clone(),
                x: (self.x + self.w) / 2,
                y: self.y + 16,
                font_size: 22,
                color: Color { r: 255, g: 255, b: 255, a: 255 },
            },
        );
        let axis_end = self.x + self.w - x_name_width - 14;
        cmds.push(
            DrawCmd::Line {
                x1: self.x + 10,
                y1: self.y + self.h - 20,
                x2: axis_end,
                y2: self.y + self.h - 20,
                thickness: 2,
                color: self.x_axis.color,
            },
        );
        cmds.push(
            DrawCmd::Line {
                x1: axis_end,
                y1: self.y + self.h - 10,
                x2: axis_end,
                y2: self.y + self.h - 30,
                thickness: 2,
                color: self.x_axis.color,
            },
        );
        cmds.push(
            DrawCmd::Text {
                text: self.x_axis.name.clone(),
                x: self.x + self.w - x_name_width - 7,
                y: self.y + self.h - 17,
                font_size: 20,
                color: self.x_axis.color,
            },
        );
        proof {
            assert(cmd_views(cmds@) =~= self.header_cmds(xwi));
        }

        let mut prev_point_y: i64 = 0;
        let mut last_x: i64 = 0;
        let mut last_y: i64 = 0;
        let mut has_last = false;

        let numx = self.x + self.w - x_name_width - 34;
        let x_scaling = numx / (self.x_axis.range as i64);
        let numy = (self.y + self.h - 20) * 95 / 100;
        let y_scaling = numy / (self.y_axis.range as i64);
        proof {
            lemma_div_pos_is_pos(numx as int, self.x_axis.range as int);
            lemma_div_nonincreasing(numx as int, self.x_axis.range as int);
            lemma_div_is_ordered(
                (self.y + self.h - 20) * 95,
                (self.y + self.h - 20) * 100,
                100,
            );
            lemma_div_by_multiple(self.y + self.h - 20, 100);
            lemma_div_pos_is_pos(numy as int, self.y_axis.range as int);
            lemma_div_nonincreasing(numy as int, self.y_axis.range as int);
            assert(x_scaling == self.x_scale(xwi));
            assert(y_scaling == self.y_scale());
            assert(0 <= x_scaling <= 2 * COORD_LIMIT);
            assert(0 <= y_scaling <= 2 * COORD_LIMIT);
        }

        let ghost gs = self.graphs@;
        for gi in 0..self.graphs.len()
            invariant
                self.draw_ready(xwi),
                gs == self.graphs@,
                xwi == x_name_width as int,
                x_scaling == self.x_scale(xwi),
                y_scaling == self.y_scale(),
                0 <= x_scaling <= 2 * COORD_LIMIT,
                0 <= y_scaling <= 2 * COORD_LIMIT,
                in_coord_range(prev_point_y),
                in_coord_range(last_x),
                in_coord_range(last_y),
                prev_point_y == graphs_final_upto(start_state(), gs, gi as int).prev_y,
                last_x == graphs_final_upto(start_state(), gs, gi as int).last_x,
                last_y == graphs_final_upto(start_state(), gs, gi as int).last_y,
                has_last == graphs_final_upto(start_state(), gs, gi as int).has_last,
                cmd_views(cmds@) == self.header_cmds(xwi) + graphs_cmds_upto(
                    *self,
                    xwi,
                    start_state(),
                    gs,
                    gi as int,
                ),
        {
            let g = &self.graphs[gi];
            let ghost stg = graphs_final_upto(start_state(), gs, gi as int);
            let ghost dat = g.data@;
            has_last = false;
            let ghost stgs = graph_start(stg);
            for pi in 0..g.data.len()
                invariant
                    self.draw_ready(xwi),
                    gs == self.graphs@,
                    xwi == x_name_width as int,
                    x_scaling == self.x_scale(xwi),
                    y_scaling == self.y_scale(),
                    0 <= x_scaling <= 2 * COORD_LIMIT,
                    0 <= y_scaling <= 2 * COORD_LIMIT,
                    gi < gs.len(),
                    *g == gs[gi as int],
                    dat == g.data@,
                    stg == graphs_final_upto(start_state(), gs, gi as int),
                    stgs == graph_start(stg),
                    in_coord_range(prev_point_y),
                    in_coord_range(last_x),
                    in_coord_range(last_y),
                    prev_point_y == points_final_upto(stgs, dat, pi as int).prev_y,
                    last_x == points_final_upto(stgs, dat, pi as int).last_x,
                    last_y == points_final_upto(stgs, dat, pi as int).last_y,
                    has_last == points_final_upto(stgs, dat, pi as int).has_last,
                    cmd_views(cmds@) == self.header_cmds(xwi) + graphs_cmds_upto(
                        *self,
                        xwi,
                        start_state(),
                        gs,
                        gi as int,
                    ) + points_cmds_upto(
                        *self,
                        xwi,
                        g.line_thickness as int,
                        g.color,
                        stgs,
                        dat,
                        pi as int,
                    ),
            {
                let ghost stp = points_final_upto(stgs, dat, pi as int);
                let p = &g.data[pi];
                proof {
                    assert(graph_in_range(gs[gi as int]));
                    assert(point_in_range(dat[pi as int]));
                }
                let y_offset: i64 = if (p.y - prev_point_y > 5) || (prev_point_y - p.y > 5) {
                    15
                } else {
                    0
                };
                let label = match &p.label {
                    Some(s) => s.clone(),
                    None => String::new(),
                };
                let ghost c0 = cmds@;
                let label_cmd = DrawCmd::Text {
                    text: label,
                    x: self.x + 10 + scale_mul(p.x, x_scaling) + 5,
                    y: self.y + self.h - 20 - scale_mul(p.y, y_scaling) - y_offset,
                    font_size: 15,
                    color: p.col2,
                };
                cmds.push(label_cmd);
                if has_last {
                    let line_cmd = DrawCmd::Line {
                        x1: self.x + 10 + scale_mul(last_x, x_scaling),
                        y1: self.y + self.h - 20 - scale_mul(last_y, y_scaling),
                        x2: self.x + 10 + scale_mul(p.x, x_scaling),
                        y2: self.y + self.h - 20 - scale_mul(p.y, y_scaling),
                        thickness: g.line_thickness,
                        color: g.color,
                    };
                    cmds.push(line_cmd);
                }
                match p.shape {
                    PointShape::Circle => {
                        cmds.push(
                            DrawCmd::Circle {
                                x: self.x + 10 + scale_mul(p.x, x_scaling),
                                y: self.y + self.h - 20 - scale_mul(p.y, y_scaling),
                                radius: p.size,
                                color: p.col1,
                            },
                        );
                    },
                    PointShape::Dot => {},
                    PointShape::Square => {},
                    PointShape::Triangle => {},
                }
                last_x = p.x;
                last_y = p.y;
                has_last = true;
                prev_point_y = p.y;
                proof {
                    let pv = dat[pi as int];
                    let th = g.line_thickness as int;
                    assert(points_final_upto(stgs, dat, pi as int + 1) == point_step(stp, pv));
                    assert(cmd_views(cmds@) =~= cmd_views(c0) + point_cmds(
                        *self,
                        xwi,
                        th,
                        g.color,
                        stp,
                        pv,
                    ));
                    assert(points_cmds_upto(*self, xwi, th, g.color, stgs, dat, pi as int + 1)
                        == points_cmds_upto(*self, xwi, th, g.color, stgs, dat, pi as int)
                        + point_cmds(*self, xwi, th, g.color, stp, pv));
                    assert(cmd_views(cmds@) =~= self.header_cmds(xwi) + graphs_cmds_upto(
                        *self,
                        xwi,
                        start_state(),
                        gs,
                        gi as int,
                    ) + points_cmds_upto(*self, xwi, th, g.color, stgs, dat, pi as int + 1));
                }
            }
            proof {
                assert(graph_cmds(*self, xwi, stg, gs[gi as int]) == points_cmds_upto(
                    *self,
                    xwi,
                    g.line_thickness as int,
                    g.color,
                    stgs,
                    dat,
                    dat.len() as int,
                ));
                assert(graphs_cmds_upto(*self, xwi, start_state(), gs, gi as int + 1)
                    == graphs_cmds_upto(*self, xwi, start_state(), gs, gi as int) + graph_cmds(
                    *self,
                    xwi,
                    stg,
                    gs[gi as int],
                ));
                assert(cmd_views(cmds@) =~= self.header_cmds(xwi) + graphs_cmds_upto(
                    *self,
                    xwi,
                    start_state(),
                    gs,
                    gi as int + 1,
                ));
                assert(graphs_final_upto(start_state(), gs, gi as int + 1) == graph_final(
                    stg,
                    gs[gi as int],
                ));
            }
        }
        proof {
            assert(cmd_views(cmds@) =~= draw_cmds(*self, xwi));
        }
        cmds
    }
}

} // verus!
