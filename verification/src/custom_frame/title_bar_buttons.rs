//! Native-looking title-bar buttons, usually used with a custom window
//! frame.

use vstd::prelude::*;

use crate::custom_frame::title_bar_buttons_kind::{TitleBarButtonsKind, ICON_SIZE_LIMIT};
use crate::painter::{pos_ok, Shape};
use crate::style::{Color, Pos2, Rect, Rounding, Vec2, Visuals};
use crate::{WidgetState, WidgetsExtension};

verus! {

/// One of the three window buttons.
#[derive(Debug, Clone, Copy, PartialEq, Eq, Structural)]
pub enum TitleBarButton {
    Close,
    Maximize,
    Minimize,
}

/// The largest number of buttons a title bar accepts.
pub const MAX_TITLE_BAR_BUTTONS: usize = 1000;

/// Emulates native title-bar buttons. Built once per frame; the rendering
/// layer asks it for each button's rectangle, interacts with it, and then
/// has the button painted for the resulting interaction state.
#[derive(Debug, Clone, PartialEq)]
pub struct TitleBarButtons {
    pub kind: TitleBarButtonsKind,
    pub focused: bool,
    pub maximized: bool,
    /// How big the icons are rendered, in milli-pixels.
    pub icon_size: i64,
    /// The buttons, in display order.
    pub order: Vec<TitleBarButton>,
    pub rounding_override: Option<Rounding>,
    pub size_override: Option<Vec2>,
    pub close_button_color_override: Option<(Color, Color)>,
}

/// The button order native to the platform.
pub open spec fn order_for_platform_spec(macos: bool) -> Seq<TitleBarButton> {
    if macos {
        seq![TitleBarButton::Close, TitleBarButton::Minimize, TitleBarButton::Maximize]
    } else {
        seq![TitleBarButton::Minimize, TitleBarButton::Maximize, TitleBarButton::Close]
    }
}

/// The button order native to the platform: close first on mac, close last
/// everywhere else.
pub fn order_for_platform(macos: bool) -> (r: Vec<TitleBarButton>)
    ensures
        r@ == order_for_platform_spec(macos),
{
    let mut v: Vec<TitleBarButton> = Vec::new();
    if macos {
        v.push(TitleBarButton::Close);
        v.push(TitleBarButton::Minimize);
        v.push(TitleBarButton::Maximize);
    } else {
        v.push(TitleBarButton::Minimize);
        v.push(TitleBarButton::Maximize);
        v.push(TitleBarButton::Close);
    }
    proof {
        assert(v@ =~= order_for_platform_spec(macos));
    }
    v
}

impl TitleBarButtons {
    /// A focused, unmaximized set of all three buttons in the non-mac
    /// order, with nine-pixel icons.
    pub fn new() -> (r: Self)
        ensures
            r.kind == TitleBarButtonsKind::Windows,
            r.focused,
            !r.maximized,
            r.icon_size == 9000,
            r.order@ == order_for_platform_spec(false),
            r.rounding_override is None,
            r.size_override is None,
            r.close_button_color_override is None,
    {
        TitleBarButtons {
            kind: TitleBarButtonsKind::default(),
            focused: true,
            maximized: false,
            icon_size: 9000,
            order: order_for_platform(false),
            rounding_override: None,
            size_override: None,
            close_button_color_override: None,
        }
    }

    /// Overrides the hovered and pressed colours of the close button.
    pub fn close_button_color_override(self, hovered: Color, pressed: Color) -> (r: Self)
        ensures
            r == (TitleBarButtons {
                close_button_color_override: Some((hovered, pressed)),
                ..self
            }),
    {
        TitleBarButtons { close_button_color_override: Some((hovered, pressed)), ..self }
    }

    /// The kind of title-bar buttons to use.
    pub fn kind(self, kind: TitleBarButtonsKind) -> (r: Self)
        ensures
            r == (TitleBarButtons { kind, ..self }),
    {
        TitleBarButtons { kind, ..self }
    }

    /// Whether the window is currently focused.
    pub fn focused(self, focused: bool) -> (r: Self)
        ensures
            r == (TitleBarButtons { focused, ..self }),
    {
        TitleBarButtons { focused, ..self }
    }

    /// Whether the window is currently maximized.
    pub fn maximized(self, maximized: bool) -> (r: Self)
        ensures
            r == (TitleBarButtons { maximized, ..self }),
    {
        TitleBarButtons { maximized, ..self }
    }

    /// How big the icons are rendered, in milli-pixels.
    pub fn icon_size(self, icon_size: i64) -> (r: Self)
        ensures
            r == (TitleBarButtons { icon_size, ..self }),
    {
        TitleBarButtons { icon_size, ..self }
    }

    /// The order of the buttons.
    pub fn order(self, order: Vec<TitleBarButton>) -> (r: Self)
        ensures
            r == (TitleBarButtons { order, ..self }),
    {
        TitleBarButtons { order, ..self }
    }

    /// Overrides the rounding of the buttons; this does not affect circle
    /// buttons.
    pub fn rounding_override(self, rounding: Rounding) -> (r: Self)
        ensures
            r == (TitleBarButtons { rounding_override: Some(rounding), ..self }),
    {
        TitleBarButtons { rounding_override: Some(rounding), ..self }
    }

    /// Overrides the size of the buttons; this does not affect the icons,
    /// just the button area.
    pub fn size_override(self, size: Vec2) -> (r: Self)
        ensures
            r == (TitleBarButtons { size_override: Some(size), ..self }),
    {
        TitleBarButtons { size_override: Some(size), ..self }
    }

    /// The size of one button: the override where one is set, the kind's
    /// own size otherwise.
    pub open spec fn button_size_spec(self) -> Vec2 {
        match self.size_override {
            Some(s) => s,
            None => self.kind.button_size_spec(),
        }
    }

    /// Returns the size of one button.
    pub fn button_size(&self) -> (r: Vec2)
        ensures
            r == self.button_size_spec(),
    {
        match self.size_override {
            Some(s) => s,
            None => self.kind.button_size(),
        }
    }

    /// The rectangle of button `i` within the allocated strip: an equal
    /// share of the width, shrunk in place by the kind's shrink amount.
    pub open spec fn button_rect_spec(self, rect: Rect, i: int) -> Rect {
        let n = self.order@.len() as int;
        let w = rect.width_spec() / n;
        let s = self.kind.shrink_amount_spec();
        Rect {
            min: Pos2 { x: (rect.min.x + w * i + s) as i64, y: (rect.min.y + s) as i64 },
            max: Pos2 { x: (rect.min.x + w + w * i - s) as i64, y: (rect.max.y - s) as i64 },
        }
    }

    /// Returns the rectangle of button `i` within the allocated strip.
    pub fn button_rect(&self, rect: Rect, i: usize) -> (r: Rect)
        requires
            i < self.order@.len() <= MAX_TITLE_BAR_BUTTONS,
            pos_ok(rect.min),
            pos_ok(rect.max),
            rect.min.x <= rect.max.x,
        ensures
            r == self.button_rect_spec(rect, i as int),
    {
        let n: i64 = self.order.len() as i64;
        let w: i64 = (rect.max.x - rect.min.x) / n;
        proof {
            vstd::arithmetic::div_mod::lemma_div_is_ordered(0, rect.width_spec(), n as int);
            vstd::arithmetic::div_mod::lemma_div_is_ordered(
                rect.width_spec(),
                2 * crate::painter::COORD_LIMIT,
                n as int,
            );
            vstd::arithmetic::div_mod::lemma_div_by_multiple(
                2 * crate::painter::COORD_LIMIT,
                n as int,
            );
            assert(0 <= w * i <= 2 * crate::painter::COORD_LIMIT * MAX_TITLE_BAR_BUTTONS)
                by (nonlinear_arith)
                requires
                    0 <= w <= 2 * crate::painter::COORD_LIMIT && 0 <= i
                        <= MAX_TITLE_BAR_BUTTONS,
            ;
        }
        let s: i64 = self.kind.shrink_amount();
        Rect {
            min: Pos2 { x: rect.min.x + w * (i as i64) + s, y: rect.min.y + s },
            max: Pos2 { x: rect.min.x + w + w * (i as i64) - s, y: rect.max.y - s },
        }
    }

    /// The hovered and pressed colours of the close button: the override
    /// where one is set, the stock reds otherwise.
    pub open spec fn close_colors_spec(self) -> (Color, Color) {
        match self.close_button_color_override {
            Some(c) => c,
            None => (Color::rgb_spec(255, 50, 50), Color::light_red_spec()),
        }
    }

    /// The background a button paints behind its icon: only the windows
    /// kind paints one, and only while the button is hovered or pressed.
    /// The close button takes its own reds; every other button the state's
    /// background fill.
    pub open spec fn background_fill_spec(
        self,
        button: TitleBarButton,
        state: WidgetState,
        visuals: Visuals,
    ) -> Option<Color> {
        if self.kind == TitleBarButtonsKind::Windows && state != WidgetState::Inactive && state
            != WidgetState::Noninteractive {
            Some(
                match button {
                    TitleBarButton::Close => if state == WidgetState::Active {
                        self.close_colors_spec().1
                    } else {
                        self.close_colors_spec().0
                    },
                    _ => visuals.widgets.state_spec(state).bg_fill,
                },
            )
        } else {
            None
        }
    }

    /// Returns the background fill a button paints behind its icon, if
    /// any.
    pub fn background_fill(
        &self,
        button: TitleBarButton,
        state: WidgetState,
        visuals: &Visuals,
    ) -> (r: Option<Color>)
        ensures
            r == self.background_fill_spec(button, state, *visuals),
    {
        let windows: bool = matches!(self.kind, TitleBarButtonsKind::Windows);
        let interactive: bool = !matches!(state, WidgetState::Inactive) && !matches!(
            state,
            WidgetState::Noninteractive,
        );
        if windows && interactive {
            let (close_hovered, close_pressed): (Color, Color) =
                match self.close_button_color_override {
                Some(c) => c,
                None => (Color::from_rgb(255, 50, 50), Color::light_red()),
            };
            Some(
                match button {
                    TitleBarButton::Close => if matches!(state, WidgetState::Active) {
                        close_pressed
                    } else {
                        close_hovered
                    },
                    _ => visuals.widgets.get_state(state).bg_fill,
                },
            )
        } else {
            None
        }
    }

    /// The icon shapes of one button: the close cross, the maximize square
    /// or the restore pair while maximized, or the minimize line.
    pub open spec fn button_icon_shapes_spec(
        self,
        button: TitleBarButton,
        pos: Pos2,
        size: i64,
        visuals: Visuals,
        state: WidgetState,
    ) -> Seq<Shape> {
        match button {
            TitleBarButton::Close => self.kind.close_button_shapes_spec(
                pos,
                size,
                visuals,
                self.focused,
                state,
                self.close_button_color_override,
            ),
            TitleBarButton::Maximize => if self.maximized {
                self.kind.restore_button_shapes_spec(pos, size, visuals, self.focused, state)
            } else {
                self.kind.maximize_button_shapes_spec(pos, size, visuals, self.focused, state)
            },
            TitleBarButton::Minimize => self.kind.minimize_button_shapes_spec(
                pos,
                size,
                visuals,
                self.focused,
                state,
            ),
        }
    }

    /// Paints the icon of one button at `pos`.
    pub fn paint_button_icon(
        &self,
        out: &mut Vec<Shape>,
        button: TitleBarButton,
        pos: Pos2,
        size: i64,
        visuals: &Visuals,
        state: WidgetState,
    )
        requires
            pos_ok(pos),
            0 <= size <= ICON_SIZE_LIMIT,
        ensures
            final(out)@ == old(out)@ + self.button_icon_shapes_spec(
                button,
                pos,
                size,
                *visuals,
                state,
            ),
    {
        match button {
            TitleBarButton::Close => {
                self.kind.paint_close_button(
                    out,
                    pos,
                    size,
                    visuals,
                    self.focused,
                    state,
                    self.close_button_color_override,
                );
            },
            TitleBarButton::Maximize => {
                if self.maximized {
                    self.kind.paint_restore_button(out, pos, size, visuals, self.focused, state);
                } else {
                    self.kind.paint_maximize_button(out, pos, size, visuals, self.focused, state);
                }
            },
            TitleBarButton::Minimize => {
                self.kind.paint_minimize_button(out, pos, size, visuals, self.focused, state);
            },
        }
    }

    /// The centre of a rectangle, each axis rounded towards its low edge.
    pub open spec fn center_spec(rect: Rect) -> Pos2 {
        Pos2 {
            x: (rect.min.x + rect.width_spec() / 2) as i64,
            y: (rect.min.y + rect.height_spec() / 2) as i64,
        }
    }

    /// Every shape of one button at its place: the background where the
    /// state asks for one, then the icon at the button's centre.
    pub open spec fn button_shapes_spec(
        self,
        button: TitleBarButton,
        rect: Rect,
        size: i64,
        visuals: Visuals,
        state: WidgetState,
    ) -> Seq<Shape> {
        let bg: Seq<Shape> = match self.background_fill_spec(button, state, visuals) {
            Some(fill) => seq![
                Shape::RectFilled {
                    rect,
                    rounding: match self.rounding_override {
                        Some(r) => r,
                        None => Rounding::none_spec(),
                    },
                    fill,
                },
            ],
            None => Seq::empty(),
        };
        bg + self.button_icon_shapes_spec(button, Self::center_spec(rect), size, visuals, state)
    }

    /// Paints one button into its rectangle, background and icon.
    pub fn paint_button(
        &self,
        out: &mut Vec<Shape>,
        button: TitleBarButton,
        rect: Rect,
        size: i64,
        visuals: &Visuals,
        state: WidgetState,
    )
        requires
            pos_ok(rect.min),
            pos_ok(rect.max),
            rect.min.x <= rect.max.x,
            rect.min.y <= rect.max.y,
            0 <= size <= ICON_SIZE_LIMIT,
        ensures
            final(out)@ == old(out)@ + self.button_shapes_spec(button, rect, size, *visuals, state),
    {
        match self.background_fill(button, state, visuals) {
            Some(fill) => {
                let rounding: Rounding = match self.rounding_override {
                    Some(r) => r,
                    None => Rounding::none(),
                };
                out.push(Shape::RectFilled { rect, rounding, fill });
            },
            None => {},
        }
        let center: Pos2 = Pos2 {
            x: rect.min.x + (rect.max.x - rect.min.x) / 2,
            y: rect.min.y + (rect.max.y - rect.min.y) / 2,
        };
        proof {
            vstd::arithmetic::div_mod::lemma_div_is_ordered(0, rect.width_spec(), 2);
            vstd::arithmetic::div_mod::lemma_div_is_ordered(
                rect.width_spec(),
                4 * crate::painter::COORD_LIMIT,
                2,
            );
            vstd::arithmetic::div_mod::lemma_div_is_ordered(0, rect.height_spec(), 2);
            vstd::arithmetic::div_mod::lemma_div_is_ordered(
                rect.height_spec(),
                4 * crate::painter::COORD_LIMIT,
                2,
            );
        }
        self.paint_button_icon(out, button, center, size, visuals, state);
        proof {
            assert(out@ =~= old(out)@ + self.button_shapes_spec(
                button,
                rect,
                size,
                *visuals,
                state,
            ));
        }
    }
}

impl Default for TitleBarButtons {
    fn default() -> (r: Self)
        ensures
            r.kind == TitleBarButtonsKind::Windows,
            r.focused,
            !r.maximized,
            r.icon_size == 9000,
            r.order@ == order_for_platform_spec(false),
            r.rounding_override is None,
            r.size_override is None,
            r.close_button_color_override is None,
    {
        TitleBarButtons::new()
    }
}

} // verus!
