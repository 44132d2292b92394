use vstd::prelude::*;

use crate::color::Color;

verus! {

/// A slider widget: geometry, a value, and its palette. Only the state is
/// laid out so far; behavior is yet to come.
#[derive(Clone, Copy, Debug, PartialEq, Eq, Structural)]
pub struct Slider {
    pub x: i64,
    pub y: i64,
    pub w: i64,
    pub h: i64,
    pub value: i64,
    pub fg_col: Color,
    pub bg_col: Color,
    pub text_col: Color,
    pub hover_col: Color,
    pub click_col: Color,
}

impl Default for Slider {
    fn default() -> (s: Slider)
        ensures
            s == (Slider {
                x: 0,
                y: 0,
                w: 0,
                h: 0,
                value: 0,
                fg_col: Color { r: 0, g: 0, b: 0, a: 0 },
                bg_col: Color { r: 0, g: 0, b: 0, a: 0 },
                text_col: Color { r: 0, g: 0, b: 0, a: 0 },
                hover_col: Color { r: 0, g: 0, b: 0, a: 0 },
                click_col: Color { r: 0, g: 0, b: 0, a: 0 },
            }),
    {
        Slider {
            x: 0,
            y: 0,
            w: 0,
            h: 0,
            value: 0,
            fg_col: Color { r: 0, g: 0, b: 0, a: 0 },
            bg_col: Color { r: 0, g: 0, b: 0, a: 0 },
            text_col: Color { r: 0, g: 0, b: 0, a: 0 },
            hover_col: Color { r: 0, g: 0, b: 0, a: 0 },
            click_col: Color { r: 0, g: 0, b: 0, a: 0 },
        }
    }
}

} // verus!
