use vstd::prelude::*;

use crate::color::Color;
use crate::draw::{cmd_views, lemma_cmd_views_push, CmdModel, DrawCmd};
use crate::{in_coord_range, COORD_LIMIT};

verus! {

use vstd::arithmetic::div_mod::{lemma_div_by_multiple, lemma_div_is_ordered, lemma_div_pos_is_pos};

/// Gray level of the inside-shadow outlines, out of 255.
pub const SHADOW_GRAY: u8 = 26;

/// Half of `v`, rounded toward zero, as Rust's integer division rounds.
pub open spec fn half_toward_zero(v: int) -> int {
    if v >= 0 {
        v / 2
    } else {
        -((-v) / 2)
    }
}

/// A push button: a rectangle that reacts to the mouse and renders itself as
/// a list of drawing commands once per frame.
#[derive(Clone, Debug, PartialEq)]
pub struct Button {
    /// The Buttons x coordinate in pixels
    pub x: i64,
    /// The Buttons y coordinate in pixels
    pub y: i64,
    /// The Buttons width in pixels
    pub w: i64,
    /// The Buttons height in pixels
    pub h: i64,
    /// The color of the Buttons text
    pub text_col: Color,
    /// The normal background color of the Button
    pub bg_col: Color,
    /// The background color of the Button when hovered
    pub hover_col: Color,
    /// The background color of the Button when pressed
    pub press_col: Color,
    /// The text displayed on the Button
    pub text: String,
    /// The size of the Button text
    pub text_size: u16,
    /// The alignment of the Buttons text
    pub text_alignment: TextAlignment,
    /// The Buttons border thickness
    pub border_thickness: i64,
    /// The Buttons border color
    pub border_col: Color,
    /// The Buttons trigger mode
    pub trigger_mode: TriggerMode,
    /// The mouse button that triggers a Button
    pub trigger_button: MouseButtons,
    /// Internal bookkeeping: falls back to false whenever a click query finds
    /// the pointer off the button
    pub is_clicked: bool,
    /// Size of the inside shadow. A value of 0 disables it
    pub inside_shadow_size: u8,
}

/// The mouse button a widget may be told to listen for.
#[derive(Clone, Copy, Debug, PartialEq, Eq, Structural)]
pub enum MouseButton {
    Left,
    Right,
    Middle,
    Unknown,
}

#[derive(Clone, Copy, Debug, PartialEq, Eq, Structural)]
pub enum TriggerButton {
    LMB,
    RMB,
    MMB,
}

impl Default for TriggerButton {
    fn default() -> (t: TriggerButton)
        ensures
            t == TriggerButton::LMB,
    {
        TriggerButton::LMB
    }
}

#[derive(Clone, Copy, Debug, PartialEq, Eq, Structural)]
pub enum TextAlignment {
    Center,
    Left,
    Right,
}

impl Default for TextAlignment {
    fn default() -> (t: TextAlignment)
        ensures
            t == TextAlignment::Center,
    {
        TextAlignment::Center
    }
}

#[derive(Clone, Copy, Debug, PartialEq, Eq, Structural)]
pub enum TriggerMode {
    OnRelease,
    OnPress,
}

impl Default for TriggerMode {
    fn default() -> (t: TriggerMode)
        ensures
            t == TriggerMode::OnRelease,
    {
        TriggerMode::OnRelease
    }
}

/// The mouse button that triggers a Button.
#[derive(Clone, Copy, Debug, PartialEq, Eq, Structural)]
pub struct MouseButtons(pub MouseButton);

impl Default for MouseButtons {
    fn default() -> (m: MouseButtons)
        ensures
            m == MouseButtons(MouseButton::Left),
    {
        MouseButtons(MouseButton::Left)
    }
}

impl Button {
    /// All geometry fields small enough that pixel arithmetic cannot
    /// overflow.
    pub open spec fn wf(self) -> bool {
        in_coord_range(self.x) && in_coord_range(self.y) && in_coord_range(self.w)
            && in_coord_range(self.h)
    }

    /// The pointer at `(mx, my)` lies on the button's rectangle, borders
    /// included.
    pub open spec fn contains(self, mx: int, my: int) -> bool {
        mx >= self.x && mx <= self.w + self.x && my >= self.y && my <= self.h + self.y
    }

    /// A click query fires exactly when the pointer is on the button and the
    /// watched mouse button is in the state the trigger mode asks for.
    pub open spec fn click_fires(self, hovered: bool, down: bool, released: bool) -> bool {
        hovered && (match self.trigger_mode {
            TriggerMode::OnPress => down,
            TriggerMode::OnRelease => released,
        })
    }

    /// The button in its default state: everything zero, empty text, centered
    /// alignment, release trigger on the left mouse button.
    pub open spec fn is_default(self) -> bool {
        self.x == 0 && self.y == 0 && self.w == 0 && self.h == 0 && self.text_col == (Color {
            r: 0,
            g: 0,
            b: 0,
            a: 0,
        }) && self.bg_col == (Color { r: 0, g: 0, b: 0, a: 0 }) && self.hover_col == (Color {
            r: 0,
            g: 0,
            b: 0,
            a: 0,
        }) && self.press_col == (Color { r: 0, g: 0, b: 0, a: 0 }) && self.text@
            == Seq::<char>::empty() && self.text_size == 0 && self.text_alignment
            == TextAlignment::Center && self.border_thickness == 0 && self.border_col == (Color {
            r: 0,
            g: 0,
            b: 0,
            a: 0,
        }) && self.trigger_mode == TriggerMode::OnRelease && self.trigger_button == MouseButtons(
            MouseButton::Left,
        ) && !self.is_clicked && self.inside_shadow_size == 0
    }

    /// Creates a Builder that can be used to build a button by giving it colors, text, position,
    /// etc.
    pub fn new() -> (b: Self)
        ensures
            b.is_default(),
    {
        Button::default()
    }

    /// Whether the pointer at `(mouse_x, mouse_y)` is on the button.
    pub fn is_hovered(&self, mouse_x: i64, mouse_y: i64) -> (hovered: bool)
        requires
            self.wf(),
        ensures
            hovered == self.contains(mouse_x as int, mouse_y as int),
    {
        if (mouse_x >= self.x && mouse_x <= self.w + self.x) && (mouse_y >= self.y && mouse_y
            <= self.h + self.y) {
            return true;
        }
        false
    }

    /// Whether the left mouse button, in the given state, clicks the button
    /// under the pointer at `(mouse_x, mouse_y)`.
    pub fn is_left_clicked(
        &mut self,
        mouse_x: i64,
        mouse_y: i64,
        left_down: bool,
        left_released: bool,
    ) -> (clicked: bool)
        requires
            old(self).wf(),
        ensures
            clicked == old(self).click_fires(
                old(self).contains(mouse_x as int, mouse_y as int),
                left_down,
                left_released,
            ),
            *final(self) == (Button {
                is_clicked: old(self).contains(mouse_x as int, mouse_y as int) && old(
                    self,
                ).is_clicked,
                ..*old(self)
            }),
    {
        if self.is_hovered(mouse_x, mouse_y) {
            match self.trigger_mode {
                TriggerMode::OnPress => {
                    return left_down;
                },
                TriggerMode::OnRelease => {
                    return left_released;
                },
            }
        }
        self.is_clicked = false;
        false
    }

    /// Whether the right mouse button, in the given state, clicks the button
    /// under the pointer at `(mouse_x, mouse_y)`.
    pub fn is_right_clicked(
        &mut self,
        mouse_x: i64,
        mouse_y: i64,
        right_down: bool,
        right_released: bool,
    ) -> (clicked: bool)
        requires
            old(self).wf(),
        ensures
            clicked == old(self).click_fires(
                old(self).contains(mouse_x as int, mouse_y as int),
                right_down,
                right_released,
            ),
            *final(self) == (Button {
                is_clicked: old(self).contains(mouse_x as int, mouse_y as int) && old(
                    self,
                ).is_clicked,
                ..*old(self)
            }),
    {
        if self.is_hovered(mouse_x, mouse_y) {
            match self.trigger_mode {
                TriggerMode::OnPress => {
                    return right_down;
                },
                TriggerMode::OnRelease => {
                    return right_released;
                },
            }
        }
        self.is_clicked = false;
        false
    }

    pub fn set_position(self, x: i64, y: i64) -> (b: Self)
        ensures
            b == (Button { x, y, ..self }),
    {
        let mut b = self;
        b.x = x;
        b.y = y;
        b
    }

    pub fn set_size(self, w: i64, h: i64) -> (b: Self)
        ensures
            b == (Button { w, h, ..self }),
    {
        let mut b = self;
        b.w = w;
        b.h = h;
        b
    }

    pub fn set_text(self, text: String) -> (b: Self)
        ensures
            b == (Button { text, ..self }),
    {
        let mut b = self;
        b.text = text;
        b
    }

    pub fn set_text_size(self, size: u16) -> (b: Self)
        ensures
            b == (Button { text_size: size, ..self }),
    {
        let mut b = self;
        b.text_size = size;
        b
    }

    pub fn set_text_color(self, col: Color) -> (b: Self)
        ensures
            b == (Button { text_col: col, ..self }),
    {
        let mut b = self;
        b.text_col = col;
        b
    }

    pub fn set_hover_color(self, col: Color) -> (b: Self)
        ensures
            b == (Button { hover_col: col, ..self }),
    {
        let mut b = self;
        b.hover_col = col;
        b
    }

    pub fn set_bg_color(self, col: Color) -> (b: Self)
        ensures
            b == (Button { bg_col: col, ..self }),
    {
        let mut b = self;
        b.bg_col = col;
        b
    }

    pub fn set_press_color(self, col: Color) -> (b: Self)
        ensures
            b == (Button { press_col: col, ..self }),
    {
        let mut b = self;
        b.press_col = col;
        b
    }

    pub fn set_border(self, thickness: i64, col: Color) -> (b: Self)
        ensures
            b == (Button { border_thickness: thickness, border_col: col, ..self }),
    {
        let mut b = self;
        b.border_thickness = thickness;
        b.border_col = col;
        b
    }

    pub fn set_text_alignment(self, align: TextAlignment) -> (b: Self)
        ensures
            b == (Button { text_alignment: align, ..self }),
    {
        let mut b = self;
        b.text_alignment = align;
        b
    }

    pub fn set_trigger_mode(self, mode: TriggerMode) -> (b: Self)
        ensures
            b == (Button { trigger_mode: mode, ..self }),
    {
        let mut b = self;
        b.trigger_mode = mode;
        b
    }

    pub fn set_trigger_button(self, button: MouseButton) -> (b: Self)
        ensures
            b == (Button { trigger_button: MouseButtons(button), ..self }),
    {
        let mut b = self;
        b.trigger_button = MouseButtons(button);
        b
    }

    pub fn inside_shadow_size(self, size: u8) -> (b: Self)
        ensures
            b == (Button { inside_shadow_size: size, ..self }),
    {
        let mut b = self;
        b.inside_shadow_size = size;
        b
    }

    /// The fill color of the button body for the given pointer state.
    pub open spec fn body_color(self, hovered: bool, trigger_down: bool) -> Color {
        if hovered {
            if trigger_down {
                self.press_col
            } else {
                self.hover_col
            }
        } else {
            self.bg_col
        }
    }

    /// The filled body rectangle.
    pub open spec fn body_cmd(self, hovered: bool, trigger_down: bool) -> CmdModel {
        CmdModel::Rect {
            x: self.x as int,
            y: self.y as int,
            w: self.w as int,
            h: self.h as int,
            color: self.body_color(hovered, trigger_down),
        }
    }

    /// Opacity of the `i`th inside-shadow outline out of `n`: full at the rim
    /// and fading linearly toward the inside.
    pub open spec fn shadow_alpha(i: int, n: int) -> int {
        255 - (i * 255) / n
    }

    /// The `i`th inside-shadow outline: a one-pixel dark frame inset by `i`
    /// pixels on every side.
    pub open spec fn shadow_cmd(self, i: int) -> CmdModel {
        CmdModel::RectLines {
            x: self.x + i,
            y: self.y + i,
            w: self.w - 2 * i,
            h: self.h - 2 * i,
            thickness: 1,
            color: Color {
                r: SHADOW_GRAY,
                g: SHADOW_GRAY,
                b: SHADOW_GRAY,
                a: Self::shadow_alpha(i, self.inside_shadow_size as int) as u8,
            },
        }
    }

    /// All inside-shadow outlines, outermost first.
    pub open spec fn shadow_cmds(self) -> Seq<CmdModel> {
        Seq::new(self.inside_shadow_size as nat, |i: int| self.shadow_cmd(i))
    }

    /// The button label, drawn a fixed nudge in from the left edge and
    /// vertically centered from the measured text height.
    pub open spec fn text_cmd(self, text_height: int) -> CmdModel {
        CmdModel::Text {
            text: self.text@,
            x: self.x + 4,
            y: self.y + half_toward_zero(text_height + self.h),
            font_size: self.text_size as int,
            color: self.text_col,
        }
    }

    /// The border outline.
    pub open spec fn border_cmd(self) -> CmdModel {
        CmdModel::RectLines {
            x: self.x as int,
            y: self.y as int,
            w: self.w as int,
            h: self.h as int,
            thickness: self.border_thickness as int,
            color: self.border_col,
        }
    }

    /// Everything one frame draws for the button, in order: the body, the
    /// inside shadow, the label, and the border when one is set.
    pub open spec fn update_cmds(self, hovered: bool, trigger_down: bool, text_height: int) -> Seq<
        CmdModel,
    > {
        let with_shadow = seq![self.body_cmd(hovered, trigger_down)] + self.shadow_cmds();
        let with_text = with_shadow.push(self.text_cmd(text_height));
        if self.border_thickness > 0 {
            with_text.push(self.border_cmd())
        } else {
            with_text
        }
    }

    /// This draws the button: it returns the commands of one frame, decided by
    /// the pointer position, whether the trigger mouse button is held down,
    /// and the measured pixel height of the label text.
    pub fn update(
        &mut self,
        mouse_x: i64,
        mouse_y: i64,
        trigger_down: bool,
        text_height: i64,
    ) -> (cmds: Vec<DrawCmd>)
        requires
            old(self).wf(),
            0 <= text_height <= COORD_LIMIT,
        ensures
            *final(self) == *old(self),
            cmd_views(cmds@) == old(self).update_cmds(
                old(self).contains(mouse_x as int, mouse_y as int),
                trigger_down,
                text_height as int,
            ),
    {
        let hovered = self.is_hovered(mouse_x, mouse_y);
        let mut cmds: Vec<DrawCmd> = Vec::new();
        let body_col = if hovered {
            if trigger_down {
                self.press_col
            } else {
                self.hover_col
            }
        } else {
            self.bg_col
        };
        cmds.push(
            DrawCmd::Rect { x: self.x, y: self.y, w: self.w, h: self.h, color: body_col },
        );
        proof {
            assert(cmd_views(cmds@) =~= seq![self.body_cmd(hovered, trigger_down)]);
        }
        if self.inside_shadow_size > 0 {
            let n = self.inside_shadow_size;
            for i in 0..n
                invariant
                    self.wf(),
                    n == self.inside_shadow_size,
                    0 < n,
                    cmd_views(cmds@) == seq![self.body_cmd(hovered, trigger_down)]
                        + self.shadow_cmds().take(i as int),
            {
                let ii = i as i64;
                let q: u64 = i as u64 * 255 / (n as u64);
                proof {
                    let iq = i as int;
                    let nq = n as int;
                    assert(iq * 255 <= 254 * nq);
                    lemma_div_is_ordered(iq * 255, 254 * nq, nq);
                    lemma_div_by_multiple(254, nq);
                    lemma_div_pos_is_pos(iq * 255, nq);
                    assert(0 <= (iq * 255) / nq <= 254);
                }
                let alpha: u8 = (255 - q) as u8;
                let cmd = DrawCmd::RectLines {
                    x: self.x + ii,
                    y: self.y + ii,
                    w: self.w - 2 * ii,
                    h: self.h - 2 * ii,
                    thickness: 1,
                    color: Color { r: SHADOW_GRAY, g: SHADOW_GRAY, b: SHADOW_GRAY, a: alpha },
                };
                let ghost prev = cmds@;
                cmds.push(cmd);
                proof {
                    lemma_cmd_views_push(prev, cmd);
                    assert(alpha as int == Self::shadow_alpha(i as int, n as int));
                    assert(cmd@ == self.shadow_cmd(i as int));
                    assert(self.shadow_cmds().take(i as int + 1) =~= self.shadow_cmds().take(
                        i as int,
                    ).push(self.shadow_cmd(i as int)));
                    assert(cmd_views(cmds@) =~= seq![self.body_cmd(hovered, trigger_down)]
                        + self.shadow_cmds().take(i as int + 1));
                }
            }
            proof {
                assert(self.shadow_cmds().take(n as int) =~= self.shadow_cmds());
            }
        } else {
            proof {
                assert(self.shadow_cmds() =~= Seq::<CmdModel>::empty());
                assert(cmd_views(cmds@) =~= seq![self.body_cmd(hovered, trigger_down)]
                    + self.shadow_cmds());
            }
        }
        let label = self.text.clone();
        let centering = text_height + self.h;
        let half = if centering >= 0 {
            centering / 2
        } else {
            -((-centering) / 2)
        };
        cmds.push(
            DrawCmd::Text {
                text: label,
                x: self.x + 4,
                y: self.y + half,
                font_size: self.text_size,
                color: self.text_col,
            },
        );
        proof {
            assert(cmds@.drop_last().push(cmds@[cmds@.len() - 1]) =~= cmds@);
        }
        if self.border_thickness > 0 {
            cmds.push(
                DrawCmd::RectLines {
                    x: self.x,
                    y: self.y,
                    w: self.w,
                    h: self.h,
                    thickness: self.border_thickness,
                    color: self.border_col,
                },
            );
            proof {
                assert(cmds@.drop_last().push(cmds@[cmds@.len() - 1]) =~= cmds@);
            }
        }
        proof {
            assert(cmd_views(cmds@) =~= old(self).update_cmds(
                old(self).contains(mouse_x as int, mouse_y as int),
                trigger_down,
                text_height as int,
            ));
        }
        cmds
    }
}

impl Default for Button {
    fn default() -> (b: Button)
        ensures
            b.is_default(),
    {
        Button {
            x: 0,
            y: 0,
            w: 0,
            h: 0,
            text_col: Color { r: 0, g: 0, b: 0, a: 0 },
            bg_col: Color { r: 0, g: 0, b: 0, a: 0 },
            hover_col: Color { r: 0, g: 0, b: 0, a: 0 },
            press_col: Color { r: 0, g: 0, b: 0, a: 0 },
            text: String::new(),
            text_size: 0,
            text_alignment: TextAlignment::Center,
            border_thickness: 0,
            border_col: Color { r: 0, g: 0, b: 0, a: 0 },
            trigger_mode: TriggerMode::OnRelease,
            trigger_button: MouseButtons(MouseButton::Left),
            is_clicked: false,
            inside_shadow_size: 0,
        }
    }
}

} // verus!
