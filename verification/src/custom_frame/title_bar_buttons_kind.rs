//! The platform looks of title-bar buttons, painted as [`Shape`] lists with
//! exact integer geometry.

use vstd::prelude::*;

use crate::painter::{coord_ok, half, half_spec, pos_ok, scale, scale_spec, Shape, COORD_LIMIT};
use crate::style::{Color, Pos2, Rect, Rounding, Stroke, Vec2, Visuals};
use crate::ColorExtension;
use crate::WidgetState;

verus! {

/// The largest icon size the painters accept, in milli-pixels.
pub const ICON_SIZE_LIMIT: i64 = 1000000000;

/// The appearance of title-bar buttons.
///
/// Use [`TitleBarButtonsKind::for_platform`] to pick the platform's own
/// style.
#[derive(Debug, Clone, Copy, PartialEq, Eq, Structural)]
pub enum TitleBarButtonsKind {
    Windows,
    Mac,
    /// Linux using the breeze theme.
    Breeze,
}

impl Default for TitleBarButtonsKind {
    /// Where the platform is not known, the windows style stands in.
    fn default() -> (r: Self)
        ensures
            r == TitleBarButtonsKind::Windows,
    {
        TitleBarButtonsKind::Windows
    }
}

impl TitleBarButtonsKind {
    pub open spec fn for_platform_spec(linux: bool, macos: bool) -> TitleBarButtonsKind {
        if linux {
            TitleBarButtonsKind::Breeze
        } else if macos {
            TitleBarButtonsKind::Mac
        } else {
            TitleBarButtonsKind::Windows
        }
    }

    /// The native button style of the given platform, defaulting to the
    /// windows style where no other fits.
    pub fn for_platform(linux: bool, macos: bool) -> (r: Self)
        ensures
            r == Self::for_platform_spec(linux, macos),
    {
        if linux {
            TitleBarButtonsKind::Breeze
        } else if macos {
            TitleBarButtonsKind::Mac
        } else {
            TitleBarButtonsKind::Windows
        }
    }

    pub open spec fn button_size_spec(self) -> Vec2 {
        match self {
            TitleBarButtonsKind::Windows => Vec2 { x: 40000, y: 20000 },
            _ => Vec2 { x: 20000, y: 20000 },
        }
    }

    /// The size of each button.
    pub fn button_size(self) -> (r: Vec2)
        ensures
            r == self.button_size_spec(),
    {
        match self {
            TitleBarButtonsKind::Windows => Vec2 { x: 40000, y: 20000 },
            _ => Vec2 { x: 20000, y: 20000 },
        }
    }

    pub open spec fn shrink_amount_spec(self) -> i64 {
        match self {
            TitleBarButtonsKind::Breeze => 5000,
            _ => 0,
        }
    }

    /// How much each button shrinks in place, making the area to click
    /// smaller.
    pub fn shrink_amount(self) -> (r: i64)
        ensures
            r == self.shrink_amount_spec(),
    {
        match self {
            TitleBarButtonsKind::Breeze => 5000,
            _ => 0,
        }
    }

    pub open spec fn mac_unfocused_fill_color_spec() -> Color {
        Color::gray_spec(172)
    }

    pub fn mac_unfocused_fill_color() -> (c: Color)
        ensures
            c == Self::mac_unfocused_fill_color_spec(),
    {
        Color::from_gray(172)
    }

    pub open spec fn mac_unfocused_outline_color_spec() -> Color {
        Color::gray_spec(77)
    }

    pub fn mac_unfocused_outline_color() -> (c: Color)
        ensures
            c == Self::mac_unfocused_outline_color_spec(),
    {
        Color::from_gray(77)
    }

    pub open spec fn mac_close_fill_color_spec() -> Color {
        Color::rgb_spec(255, 95, 86)
    }

    pub fn mac_close_fill_color() -> (c: Color)
        ensures
            c == Self::mac_close_fill_color_spec(),
    {
        Color::from_rgb(255, 95, 86)
    }

    pub open spec fn mac_close_outline_color_spec() -> Color {
        Color::rgb_spec(148, 0, 0)
    }

    pub fn mac_close_outline_color() -> (c: Color)
        ensures
            c == Self::mac_close_outline_color_spec(),
    {
        Color::from_rgb(148, 0, 0)
    }

    pub open spec fn mac_maximize_fill_color_spec() -> Color {
        Color::rgb_spec(40, 200, 70)
    }

    pub fn mac_maximize_fill_color() -> (c: Color)
        ensures
            c == Self::mac_maximize_fill_color_spec(),
    {
        Color::from_rgb(40, 200, 70)
    }

    pub open spec fn mac_maximize_outline_color_spec() -> Color {
        Color::rgb_spec(10, 100, 10)
    }

    pub fn mac_maximize_outline_color() -> (c: Color)
        ensures
            c == Self::mac_maximize_outline_color_spec(),
    {
        Color::from_rgb(10, 100, 10)
    }

    pub open spec fn mac_minimize_fill_color_spec() -> Color {
        Color::rgb_spec(255, 190, 50)
    }

    pub fn mac_minimize_fill_color() -> (c: Color)
        ensures
            c == Self::mac_minimize_fill_color_spec(),
    {
        Color::from_rgb(255, 190, 50)
    }

    pub open spec fn mac_minimize_outline_color_spec() -> Color {
        Color::rgb_spec(150, 85, 25)
    }

    pub fn mac_minimize_outline_color() -> (c: Color)
        ensures
            c == Self::mac_minimize_outline_color_spec(),
    {
        Color::from_rgb(150, 85, 25)
    }

    /// The stroke of breeze icons: black on light themes and on any pressed
    /// or hovered button, white otherwise.
    pub open spec fn breeze_stroke_spec(visuals: Visuals, state: WidgetState) -> Stroke {
        Stroke {
            width: 700,
            color: if !visuals.dark_mode || state != WidgetState::Inactive {
                Color::black_spec()
            } else {
                Color::white_spec()
            },
        }
    }

    pub fn breeze_stroke(visuals: &Visuals, state: WidgetState) -> (r: Stroke)
        ensures
            r == Self::breeze_stroke_spec(*visuals, state),
    {
        let black: bool = !visuals.dark_mode || !matches!(state, WidgetState::Inactive);
        Stroke {
            width: 700,
            color: if black {
                Color::black()
            } else {
                Color::white()
            },
        }
    }

    /// The circle behind a hovered or pressed breeze icon.
    pub open spec fn breeze_background_spec(pos: Pos2, size: i64, state: WidgetState) -> Seq<
        Shape,
    > {
        match state {
            WidgetState::Hovered => seq![
                Shape::CircleFilled { center: pos, radius: size, fill: Color::white_spec() },
            ],
            WidgetState::Active => seq![
                Shape::CircleFilled { center: pos, radius: size, fill: Color::dark_gray_spec() },
            ],
            _ => Seq::empty(),
        }
    }

    fn breeze_background(out: &mut Vec<Shape>, pos: Pos2, size: i64, state: WidgetState)
        ensures
            final(out)@ == old(out)@ + Self::breeze_background_spec(pos, size, state),
    {
        match state {
            WidgetState::Hovered => {
                out.push(Shape::CircleFilled { center: pos, radius: size, fill: Color::white() });
            },
            WidgetState::Active => {
                out.push(
                    Shape::CircleFilled { center: pos, radius: size, fill: Color::dark_gray() },
                );
            },
            _ => {
                proof {
                    assert(out@ =~= old(out)@ + Seq::<Shape>::empty());
                }
            },
        }
        proof {
            assert(out@ =~= old(out)@ + Self::breeze_background_spec(pos, size, state));
        }
    }

    /// The stroke of windows icons: white on dark themes, black on light
    /// ones, and half grayed while the window is unfocused.
    pub open spec fn windows_stroke_spec(visuals: Visuals, focused: bool) -> Stroke {
        let color = if visuals.dark_mode {
            Color::white_spec()
        } else {
            Color::black_spec()
        };
        Stroke {
            width: 1000,
            color: if focused {
                color
            } else {
                color.grayed_spec(500)
            },
        }
    }

    pub fn windows_stroke(visuals: &Visuals, focused: bool) -> (r: Stroke)
        ensures
            r == Self::windows_stroke_spec(*visuals, focused),
    {
        let color: Color = if visuals.dark_mode {
            Color::white()
        } else {
            Color::black()
        };
        Stroke {
            width: 1000,
            color: if focused {
                color
            } else {
                color.grayed(500)
            },
        }
    }

    /// The two strokes of a breeze arrow head at `pos`, pointing against
    /// the sign of `offset.y`.
    pub open spec fn breeze_arrow_spec(
        pos: Pos2,
        offset: Vec2,
        visuals: Visuals,
        state: WidgetState,
    ) -> Seq<Shape> {
        let hy = half_spec(offset.y);
        let stroke = Self::breeze_stroke_spec(visuals, state);
        seq![
            Shape::LineSegment {
                a: Pos2 { x: pos.x, y: (pos.y - hy) as i64 },
                b: Pos2 { x: (pos.x + offset.x) as i64, y: (pos.y + hy) as i64 },
                stroke,
            },
            Shape::LineSegment {
                a: Pos2 { x: pos.x, y: (pos.y - hy) as i64 },
                b: Pos2 { x: (pos.x - offset.x) as i64, y: (pos.y + hy) as i64 },
                stroke,
            },
        ]
    }

    pub fn paint_breeze_arrow(
        out: &mut Vec<Shape>,
        pos: Pos2,
        offset: Vec2,
        visuals: &Visuals,
        state: WidgetState,
    )
        requires
            -2 * COORD_LIMIT <= pos.x <= 2 * COORD_LIMIT,
            -2 * COORD_LIMIT <= pos.y <= 2 * COORD_LIMIT,
            coord_ok(offset.x),
            coord_ok(offset.y),
        ensures
            final(out)@ == old(out)@ + Self::breeze_arrow_spec(pos, offset, *visuals, state),
    {
        let hy: i64 = half(offset.y);
        let stroke: Stroke = Self::breeze_stroke(visuals, state);
        out.push(
            Shape::LineSegment {
                a: Pos2 { x: pos.x, y: pos.y - hy },
                b: Pos2 { x: pos.x + offset.x, y: pos.y + hy },
                stroke,
            },
        );
        out.push(
            Shape::LineSegment {
                a: Pos2 { x: pos.x, y: pos.y - hy },
                b: Pos2 { x: pos.x - offset.x, y: pos.y + hy },
                stroke,
            },
        );
        proof {
            assert(out@ =~= old(out)@ + Self::breeze_arrow_spec(pos, offset, *visuals, state));
        }
    }

    /// The cross of a close icon: two diagonals of the square of half-width
    /// half `size` around `pos`.
    pub open spec fn x_shapes_spec(pos: Pos2, size: i64, stroke: Stroke) -> Seq<Shape> {
        let o = scale_spec(size, 500);
        seq![
            Shape::LineSegment {
                a: Pos2 { x: (pos.x - o) as i64, y: (pos.y - o) as i64 },
                b: Pos2 { x: (pos.x + o) as i64, y: (pos.y + o) as i64 },
                stroke,
            },
            Shape::LineSegment {
                a: Pos2 { x: (pos.x + o) as i64, y: (pos.y - o) as i64 },
                b: Pos2 { x: (pos.x - o) as i64, y: (pos.y + o) as i64 },
                stroke,
            },
        ]
    }

    fn paint_x(out: &mut Vec<Shape>, pos: Pos2, size: i64, stroke: Stroke)
        requires
            pos_ok(pos),
            0 <= size <= 2 * ICON_SIZE_LIMIT,
        ensures
            final(out)@ == old(out)@ + Self::x_shapes_spec(pos, size, stroke),
    {
        let o: i64 = scale(size, 500);
        out.push(
            Shape::LineSegment {
                a: Pos2 { x: pos.x - o, y: pos.y - o },
                b: Pos2 { x: pos.x + o, y: pos.y + o },
                stroke,
            },
        );
        out.push(
            Shape::LineSegment {
                a: Pos2 { x: pos.x + o, y: pos.y - o },
                b: Pos2 { x: pos.x - o, y: pos.y + o },
                stroke,
            },
        );
        proof {
            assert(out@ =~= old(out)@ + Self::x_shapes_spec(pos, size, stroke));
        }
    }

    /// The hovered and pressed background colours of a breeze close button.
    pub open spec fn breeze_close_colors_spec(color_override: Option<(Color, Color)>) -> (
        Color,
        Color,
    ) {
        match color_override {
            Some(c) => c,
            None => (
                Color { r: 255, g: 150, b: 150, a: 255 },
                Color { r: 75, g: 20, b: 20, a: 255 },
            ),
        }
    }

    /// Every shape of a close button.
    pub open spec fn close_button_shapes_spec(
        self,
        pos: Pos2,
        size: i64,
        visuals: Visuals,
        focused: bool,
        state: WidgetState,
        color_override: Option<(Color, Color)>,
    ) -> Seq<Shape> {
        match self {
            TitleBarButtonsKind::Windows => Self::x_shapes_spec(
                pos,
                size,
                Self::windows_stroke_spec(visuals, focused),
            ),
            TitleBarButtonsKind::Breeze => {
                let (hovered, pressed) = Self::breeze_close_colors_spec(color_override);
                let bg: Seq<Shape> = match state {
                    WidgetState::Hovered => seq![
                        Shape::CircleFilled { center: pos, radius: size, fill: hovered },
                    ],
                    WidgetState::Active => seq![
                        Shape::CircleFilled { center: pos, radius: size, fill: pressed },
                    ],
                    _ => Seq::empty(),
                };
                bg + Self::x_shapes_spec(pos, size, Self::breeze_stroke_spec(visuals, state))
            },
            TitleBarButtonsKind::Mac => {
                let fill = if focused {
                    Self::mac_close_fill_color_spec()
                } else {
                    Self::mac_unfocused_fill_color_spec()
                };
                let outline = if focused {
                    Self::mac_close_outline_color_spec()
                } else {
                    Self::mac_unfocused_outline_color_spec()
                };
                let circle = seq![
                    Shape::Circle {
                        center: pos,
                        radius: size,
                        fill,
                        stroke: Stroke { width: 500, color: outline },
                    },
                ];
                if state != WidgetState::Inactive && state != WidgetState::Noninteractive {
                    circle + Self::x_shapes_spec(
                        pos,
                        scale_spec(size, 800) as i64,
                        Stroke { width: 1500, color: outline },
                    )
                } else {
                    circle
                }
            },
        }
    }

    /// Paints a close button.
    pub fn paint_close_button(
        self,
        out: &mut Vec<Shape>,
        pos: Pos2,
        size: i64,
        visuals: &Visuals,
        focused: bool,
        state: WidgetState,
        color_override: Option<(Color, Color)>,
    )
        requires
            pos_ok(pos),
            0 <= size <= ICON_SIZE_LIMIT,
        ensures
            final(out)@ == old(out)@ + self.close_button_shapes_spec(
                pos,
                size,
                *visuals,
                focused,
                state,
                color_override,
            ),
    {
        match self {
            TitleBarButtonsKind::Windows => {
                Self::paint_x(out, pos, size, Self::windows_stroke(visuals, focused));
            },
            TitleBarButtonsKind::Breeze => {
                let (hovered, pressed): (Color, Color) = match color_override {
                    Some(c) => c,
                    None => (
                        Color { r: 255, g: 150, b: 150, a: 255 },
                        Color { r: 75, g: 20, b: 20, a: 255 },
                    ),
                };
                match state {
                    WidgetState::Hovered => {
                        out.push(
                            Shape::CircleFilled { center: pos, radius: size, fill: hovered },
                        );
                    },
                    WidgetState::Active => {
                        out.push(
                            Shape::CircleFilled { center: pos, radius: size, fill: pressed },
                        );
                    },
                    _ => {},
                }
                Self::paint_x(out, pos, size, Self::breeze_stroke(visuals, state));
            },
            TitleBarButtonsKind::Mac => {
                let fill: Color = if focused {
                    Self::mac_close_fill_color()
                } else {
                    Self::mac_unfocused_fill_color()
                };
                let outline: Color = if focused {
                    Self::mac_close_outline_color()
                } else {
                    Self::mac_unfocused_outline_color()
                };
                out.push(
                    Shape::Circle {
                        center: pos,
                        radius: size,
                        fill,
                        stroke: Stroke { width: 500, color: outline },
                    },
                );
                let active: bool = !matches!(state, WidgetState::Inactive) && !matches!(
                    state,
                    WidgetState::Noninteractive,
                );
                if active {
                    let inner: i64 = scale(size, 800);
                    Self::paint_x(out, pos, inner, Stroke { width: 1500, color: outline });
                }
            },
        }
        proof {
            assert(out@ =~= old(out)@ + self.close_button_shapes_spec(
                pos,
                size,
                *visuals,
                focused,
                state,
                color_override,
            ));
        }
    }

    /// Every shape of a maximize button.
    pub open spec fn maximize_button_shapes_spec(
        self,
        pos: Pos2,
        size: i64,
        visuals: Visuals,
        focused: bool,
        state: WidgetState,
    ) -> Seq<Shape> {
        let o = scale_spec(size, 500);
        match self {
            TitleBarButtonsKind::Windows => seq![
                Shape::RectStroke {
                    rect: Rect {
                        min: Pos2 { x: (pos.x - o) as i64, y: (pos.y - o) as i64 },
                        max: Pos2 { x: (pos.x + o) as i64, y: (pos.y + o) as i64 },
                    },
                    rounding: Rounding::none_spec(),
                    stroke: Self::windows_stroke_spec(visuals, focused),
                },
            ],
            TitleBarButtonsKind::Breeze => {
                let a = scale_spec(o as i64, 1150) as i64;
                Self::breeze_background_spec(pos, size, state) + Self::breeze_arrow_spec(
                    pos,
                    Vec2 { x: a, y: a },
                    visuals,
                    state,
                )
            },
            TitleBarButtonsKind::Mac => {
                let fill = if focused {
                    Self::mac_maximize_fill_color_spec()
                } else {
                    Self::mac_unfocused_fill_color_spec()
                };
                let outline = if focused {
                    Self::mac_maximize_outline_color_spec()
                } else {
                    Self::mac_unfocused_outline_color_spec()
                };
                let circle = seq![
                    Shape::Circle {
                        center: pos,
                        radius: size,
                        fill,
                        stroke: Stroke { width: 500, color: outline },
                    },
                ];
                if state != WidgetState::Inactive && state != WidgetState::Noninteractive {
                    let ho = scale_spec(o as i64, 500);
                    circle + seq![
                        Shape::Triangle {
                            a: Pos2 { x: (pos.x - o) as i64, y: (pos.y - ho) as i64 },
                            b: Pos2 { x: (pos.x - o) as i64, y: (pos.y + o) as i64 },
                            c: Pos2 { x: (pos.x + ho) as i64, y: (pos.y + o) as i64 },
                            color: outline,
                        },
                        Shape::Triangle {
                            a: Pos2 { x: (pos.x + o) as i64, y: (pos.y + ho) as i64 },
                            b: Pos2 { x: (pos.x + o) as i64, y: (pos.y - o) as i64 },
                            c: Pos2 { x: (pos.x - ho) as i64, y: (pos.y - o) as i64 },
                            color: outline,
                        },
                    ]
                } else {
                    circle
                }
            },
        }
    }

    /// Paints a maximize button.
    pub fn paint_maximize_button(
        self,
        out: &mut Vec<Shape>,
        pos: Pos2,
        size: i64,
        visuals: &Visuals,
        focused: bool,
        state: WidgetState,
    )
        requires
            pos_ok(pos),
            0 <= size <= ICON_SIZE_LIMIT,
        ensures
            final(out)@ == old(out)@ + self.maximize_button_shapes_spec(
                pos,
                size,
                *visuals,
                focused,
                state,
            ),
    {
        let o: i64 = scale(size, 500);
        match self {
            TitleBarButtonsKind::Windows => {
                out.push(
                    Shape::RectStroke {
                        rect: Rect {
                            min: Pos2 { x: pos.x - o, y: pos.y - o },
                            max: Pos2 { x: pos.x + o, y: pos.y + o },
                        },
                        rounding: Rounding::none(),
                        stroke: Self::windows_stroke(visuals, focused),
                    },
                );
            },
            TitleBarButtonsKind::Breeze => {
                Self::breeze_background(out, pos, size, state);
                let a: i64 = scale(o, 1150);
                Self::paint_breeze_arrow(out, pos, Vec2 { x: a, y: a }, visuals, state);
            },
            TitleBarButtonsKind::Mac => {
                let fill: Color = if focused {
                    Self::mac_maximize_fill_color()
                } else {
                    Self::mac_unfocused_fill_color()
                };
                let outline: Color = if focused {
                    Self::mac_maximize_outline_color()
                } else {
                    Self::mac_unfocused_outline_color()
                };
                out.push(
                    Shape::Circle {
                        center: pos,
                        radius: size,
                        fill,
                        stroke: Stroke { width: 500, color: outline },
                    },
                );
                let active: bool = !matches!(state, WidgetState::Inactive) && !matches!(
                    state,
                    WidgetState::Noninteractive,
                );
                if active {
                    let ho: i64 = scale(o, 500);
                    out.push(
                        Shape::Triangle {
                            a: Pos2 { x: pos.x - o, y: pos.y - ho },
                            b: Pos2 { x: pos.x - o, y: pos.y + o },
                            c: Pos2 { x: pos.x + ho, y: pos.y + o },
                            color: outline,
                        },
                    );
                    out.push(
                        Shape::Triangle {
                            a: Pos2 { x: pos.x + o, y: pos.y + ho },
                            b: Pos2 { x: pos.x + o, y: pos.y - o },
                            c: Pos2 { x: pos.x - ho, y: pos.y - o },
                            color: outline,
                        },
                    );
                }
            },
        }
        proof {
            assert(out@ =~= old(out)@ + self.maximize_button_shapes_spec(
                pos,
                size,
                *visuals,
                focused,
                state,
            ));
        }
    }

    /// Every shape of a restore button.
    pub open spec fn restore_button_shapes_spec(
        self,
        pos: Pos2,
        size: i64,
        visuals: Visuals,
        focused: bool,
        state: WidgetState,
    ) -> Seq<Shape> {
        let o = scale_spec(size, 500);
        match self {
            TitleBarButtonsKind::Windows => {
                let w = scale_spec(o as i64, 1300) as i64;
                let hw = scale_spec(w, 500) as i64;
                let stroke = Self::windows_stroke_spec(visuals, focused);
                seq![
                    Shape::RectStroke {
                        rect: Rect {
                            min: Pos2 { x: (pos.x - w) as i64, y: (pos.y - hw) as i64 },
                            max: Pos2 { x: (pos.x + hw) as i64, y: (pos.y + w) as i64 },
                        },
                        rounding: Rounding::none_spec(),
                        stroke,
                    },
                    Shape::VLine {
                        x: (pos.x - hw) as i64,
                        y0: (pos.y - hw) as i64,
                        y1: (pos.y - w) as i64,
                        stroke,
                    },
                    Shape::HLine {
                        x0: (pos.x + hw) as i64,
                        x1: (pos.x + w) as i64,
                        y: (pos.y + hw) as i64,
                        stroke,
                    },
                    Shape::HLine {
                        x0: (pos.x - hw) as i64,
                        x1: (pos.x + w) as i64,
                        y: (pos.y - w) as i64,
                        stroke,
                    },
                    Shape::VLine {
                        x: (pos.x + w) as i64,
                        y0: (pos.y + hw) as i64,
                        y1: (pos.y - w) as i64,
                        stroke,
                    },
                ]
            },
            TitleBarButtonsKind::Breeze => {
                let a = scale_spec(o as i64, 1150) as i64;
                let dy = scale_spec(o as i64, 550) as i64;
                Self::breeze_background_spec(pos, size, state) + Self::breeze_arrow_spec(
                    Pos2 { x: pos.x, y: (pos.y - dy) as i64 },
                    Vec2 { x: a, y: a },
                    visuals,
                    state,
                ) + Self::breeze_arrow_spec(
                    Pos2 { x: pos.x, y: (pos.y + dy) as i64 },
                    Vec2 { x: a, y: (-a) as i64 },
                    visuals,
                    state,
                )
            },
            TitleBarButtonsKind::Mac => self.maximize_button_shapes_spec(
                pos,
                size,
                visuals,
                focused,
                state,
            ),
        }
    }

    /// Paints a restore button.
    pub fn paint_restore_button(
        self,
        out: &mut Vec<Shape>,
        pos: Pos2,
        size: i64,
        visuals: &Visuals,
        focused: bool,
        state: WidgetState,
    )
        requires
            pos_ok(pos),
            0 <= size <= ICON_SIZE_LIMIT,
        ensures
            final(out)@ == old(out)@ + self.restore_button_shapes_spec(
                pos,
                size,
                *visuals,
                focused,
                state,
            ),
    {
        let o: i64 = scale(size, 500);
        match self {
            TitleBarButtonsKind::Windows => {
                let w: i64 = scale(o, 1300);
                let hw: i64 = scale(w, 500);
                let stroke: Stroke = Self::windows_stroke(visuals, focused);
                out.push(
                    Shape::RectStroke {
                        rect: Rect {
                            min: Pos2 { x: pos.x - w, y: pos.y - hw },
                            max: Pos2 { x: pos.x + hw, y: pos.y + w },
                        },
                        rounding: Rounding::none(),
                        stroke,
                    },
                );
                out.push(
                    Shape::VLine { x: pos.x - hw, y0: pos.y - hw, y1: pos.y - w, stroke },
                );
                out.push(
                    Shape::HLine { x0: pos.x + hw, x1: pos.x + w, y: pos.y + hw, stroke },
                );
                out.push(
                    Shape::HLine { x0: pos.x - hw, x1: pos.x + w, y: pos.y - w, stroke },
                );
                out.push(
                    Shape::VLine { x: pos.x + w, y0: pos.y + hw, y1: pos.y - w, stroke },
                );
            },
            TitleBarButtonsKind::Breeze => {
                Self::breeze_background(out, pos, size, state);
                let a: i64 = scale(o, 1150);
                let dy: i64 = scale(o, 550);
                Self::paint_breeze_arrow(
                    out,
                    Pos2 { x: pos.x, y: pos.y - dy },
                    Vec2 { x: a, y: a },
                    visuals,
                    state,
                );
                Self::paint_breeze_arrow(
                    out,
                    Pos2 { x: pos.x, y: pos.y + dy },
                    Vec2 { x: a, y: -a },
                    visuals,
                    state,
                );
            },
            TitleBarButtonsKind::Mac => {
                self.paint_maximize_button(out, pos, size, visuals, focused, state);
            },
        }
        proof {
            assert(out@ =~= old(out)@ + self.restore_button_shapes_spec(
                pos,
                size,
                *visuals,
                focused,
                state,
            ));
        }
    }

    /// Every shape of a minimize button.
    pub open spec fn minimize_button_shapes_spec(
        self,
        pos: Pos2,
        size: i64,
        visuals: Visuals,
        focused: bool,
        state: WidgetState,
    ) -> Seq<Shape> {
        let o = scale_spec(size, 500);
        match self {
            TitleBarButtonsKind::Windows => seq![
                Shape::HLine {
                    x0: (pos.x - o) as i64,
                    x1: (pos.x + o) as i64,
                    y: pos.y,
                    stroke: Self::windows_stroke_spec(visuals, focused),
                },
            ],
            TitleBarButtonsKind::Breeze => {
                let a = scale_spec(o as i64, 1150) as i64;
                Self::breeze_background_spec(pos, size, state) + Self::breeze_arrow_spec(
                    pos,
                    Vec2 { x: a, y: (-a) as i64 },
                    visuals,
                    state,
                )
            },
            TitleBarButtonsKind::Mac => {
                let fill = if focused {
                    Self::mac_minimize_fill_color_spec()
                } else {
                    Self::mac_unfocused_fill_color_spec()
                };
                let outline = if focused {
                    Self::mac_minimize_outline_color_spec()
                } else {
                    Self::mac_unfocused_outline_color_spec()
                };
                let circle = seq![
                    Shape::Circle {
                        center: pos,
                        radius: size,
                        fill,
                        stroke: Stroke { width: 500, color: outline },
                    },
                ];
                if state != WidgetState::Inactive && state != WidgetState::Noninteractive {
                    circle + seq![
                        Shape::HLine {
                            x0: (pos.x - o) as i64,
                            x1: (pos.x + o) as i64,
                            y: pos.y,
                            stroke: Stroke { width: 1500, color: outline },
                        },
                    ]
                } else {
                    circle
                }
            },
        }
    }

    /// Paints a minimize button.
    pub fn paint_minimize_button(
        self,
        out: &mut Vec<Shape>,
        pos: Pos2,
        size: i64,
        visuals: &Visuals,
        focused: bool,
        state: WidgetState,
    )
        requires
            pos_ok(pos),
            0 <= size <= ICON_SIZE_LIMIT,
        ensures
            final(out)@ == old(out)@ + self.minimize_button_shapes_spec(
                pos,
                size,
                *visuals,
                focused,
                state,
            ),
    {
        let o: i64 = scale(size, 500);
        match self {
            TitleBarButtonsKind::Windows => {
                out.push(
                    Shape::HLine {
                        x0: pos.x - o,
                        x1: pos.x + o,
                        y: pos.y,
                        stroke: Self::windows_stroke(visuals, focused),
                    },
                );
            },
            TitleBarButtonsKind::Breeze => {
                Self::breeze_background(out, pos, size, state);
                let a: i64 = scale(o, 1150);
                Self::paint_breeze_arrow(out, pos, Vec2 { x: a, y: -a }, visuals, state);
            },
            TitleBarButtonsKind::Mac => {
                let fill: Color = if focused {
                    Self::mac_minimize_fill_color()
                } else {
                    Self::mac_unfocused_fill_color()
                };
                let outline: Color = if focused {
                    Self::mac_minimize_outline_color()
                } else {
                    Self::mac_unfocused_outline_color()
                };
                out.push(
                    Shape::Circle {
                        center: pos,
                        radius: size,
                        fill,
                        stroke: Stroke { width: 500, color: outline },
                    },
                );
                let active: bool = !matches!(state, WidgetState::Inactive) && !matches!(
                    state,
                    WidgetState::Noninteractive,
                );
                if active {
                    out.push(
                        Shape::HLine {
                            x0: pos.x - o,
                            x1: pos.x + o,
                            y: pos.y,
                            stroke: Stroke { width: 1500, color: outline },
                        },
                    );
                }
            },
        }
        proof {
            assert(out@ =~= old(out)@ + self.minimize_button_shapes_spec(
                pos,
                size,
                *visuals,
                focused,
                state,
            ));
        }
    }
}

} // verus!
