use vstd::prelude::*;

use crate::color::Color;

verus! {

/// One primitive drawing operation, in pixel coordinates.
///
/// Every widget renders itself by returning a list of these commands; the host
/// program hands each command to the engine's matching draw call, in order.
/// Coordinates may lie outside the window: the engine clips them.
#[derive(Clone, Debug, PartialEq)]
pub enum DrawCmd {
    /// A filled axis-aligned rectangle with top-left corner `(x, y)`.
    Rect { x: i64, y: i64, w: i64, h: i64, color: Color },
    /// The outline of an axis-aligned rectangle, `thickness` pixels wide.
    RectLines { x: i64, y: i64, w: i64, h: i64, thickness: i64, color: Color },
    /// A straight line segment from `(x1, y1)` to `(x2, y2)`.
    Line { x1: i64, y1: i64, x2: i64, y2: i64, thickness: i64, color: Color },
    /// A filled circle centered at `(x, y)`.
    Circle { x: i64, y: i64, radius: i64, color: Color },
    /// A text run whose baseline starts at `(x, y)`.
    Text { text: String, x: i64, y: i64, font_size: u16, color: Color },
}

/// The mathematical image of a drawing command: the same shape as `DrawCmd`,
/// with unbounded integers for the pixel values and a character sequence for
/// the text. Contracts describe command lists in terms of this type.
pub enum CmdModel {
    Rect { x: int, y: int, w: int, h: int, color: Color },
    RectLines { x: int, y: int, w: int, h: int, thickness: int, color: Color },
    Line { x1: int, y1: int, x2: int, y2: int, thickness: int, color: Color },
    Circle { x: int, y: int, radius: int, color: Color },
    Text { text: Seq<char>, x: int, y: int, font_size: int, color: Color },
}

impl View for DrawCmd {
    type V = CmdModel;

    open spec fn view(&self) -> CmdModel {
        match self {
            DrawCmd::Rect { x, y, w, h, color } => CmdModel::Rect {
                x: *x as int,
                y: *y as int,
                w: *w as int,
                h: *h as int,
                color: *color,
            },
            DrawCmd::RectLines { x, y, w, h, thickness, color } => CmdModel::RectLines {
                x: *x as int,
                y: *y as int,
                w: *w as int,
                h: *h as int,
                thickness: *thickness as int,
                color: *color,
            },
            DrawCmd::Line { x1, y1, x2, y2, thickness, color } => CmdModel::Line {
                x1: *x1 as int,
                y1: *y1 as int,
                x2: *x2 as int,
                y2: *y2 as int,
                thickness: *thickness as int,
                color: *color,
            },
            DrawCmd::Circle { x, y, radius, color } => CmdModel::Circle {
                x: *x as int,
                y: *y as int,
                radius: *radius as int,
                color: *color,
            },
            DrawCmd::Text { text, x, y, font_size, color } => CmdModel::Text {
                text: text@,
                x: *x as int,
                y: *y as int,
                font_size: *font_size as int,
                color: *color,
            },
        }
    }
}

/// The model of a whole command list, element by element.
pub open spec fn cmd_views(s: Seq<DrawCmd>) -> Seq<CmdModel> {
    s.map_values(|c: DrawCmd| c@)
}

/// Appending one command to a list appends its model to the list's model.
pub proof fn lemma_cmd_views_push(s: Seq<DrawCmd>, c: DrawCmd)
    ensures
        cmd_views(s.push(c)) == cmd_views(s).push(c@),
{
    assert(cmd_views(s.push(c)) =~= cmd_views(s).push(c@));
}

} // verus!
