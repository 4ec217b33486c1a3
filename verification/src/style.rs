use vstd::prelude::*;

verus! {

/// Length of a logical pixel in the milli-pixel unit used throughout this
/// crate: every length, coordinate and stroke width is an `i64` number of
/// thousandths of a logical pixel, so fractional pixel values stay exact
/// without floating point.
pub const PX: i64 = 1000;

/// A colour with premultiplied alpha, one byte per channel, exactly as the
/// host toolkit stores widget colours.
#[derive(Debug, Clone, Copy, PartialEq, Eq, Structural)]
pub struct Color {
    pub r: u8,
    pub g: u8,
    pub b: u8,
    pub a: u8,
}

impl Color {
    pub open spec fn gray_spec(l: u8) -> Color {
        Color { r: l, g: l, b: l, a: 255 }
    }

    /// An opaque gray with the given level in every channel.
    pub fn from_gray(l: u8) -> (c: Color)
        ensures
            c == Color::gray_spec(l),
    {
        Color { r: l, g: l, b: l, a: 255 }
    }

    pub open spec fn rgb_spec(r: u8, g: u8, b: u8) -> Color {
        Color { r, g, b, a: 255 }
    }

    /// An opaque colour from its three channels.
    pub fn from_rgb(r: u8, g: u8, b: u8) -> (c: Color)
        ensures
            c == Color::rgb_spec(r, g, b),
    {
        Color { r, g, b, a: 255 }
    }

    pub open spec fn transparent_spec() -> Color {
        Color { r: 0, g: 0, b: 0, a: 0 }
    }

    /// The fully transparent colour.
    pub fn transparent() -> (c: Color)
        ensures
            c == Color::transparent_spec(),
    {
        Color { r: 0, g: 0, b: 0, a: 0 }
    }

    pub open spec fn white_spec() -> Color {
        Color::gray_spec(255)
    }

    pub fn white() -> (c: Color)
        ensures
            c == Color::white_spec(),
    {
        Color::from_gray(255)
    }

    pub open spec fn black_spec() -> Color {
        Color::gray_spec(0)
    }

    pub fn black() -> (c: Color)
        ensures
            c == Color::black_spec(),
    {
        Color::from_gray(0)
    }

    pub open spec fn dark_gray_spec() -> Color {
        Color::gray_spec(96)
    }

    /// The host toolkit's stock dark gray.
    pub fn dark_gray() -> (c: Color)
        ensures
            c == Color::dark_gray_spec(),
    {
        Color::from_gray(96)
    }

    pub open spec fn light_red_spec() -> Color {
        Color { r: 255, g: 128, b: 128, a: 255 }
    }

    /// The host toolkit's stock light red.
    pub fn light_red() -> (c: Color)
        ensures
            c == Color::light_red_spec(),
    {
        Color { r: 255, g: 128, b: 128, a: 255 }
    }
}

/// A line stroke: width in milli-pixels and a colour.
#[derive(Debug, Clone, Copy, PartialEq, Eq, Structural)]
pub struct Stroke {
    pub width: i64,
    pub color: Color,
}

impl Stroke {
    pub open spec fn none_spec() -> Stroke {
        Stroke { width: 0, color: Color::transparent_spec() }
    }

    /// The invisible stroke.
    pub fn none() -> (s: Stroke)
        ensures
            s == Stroke::none_spec(),
    {
        Stroke { width: 0, color: Color { r: 0, g: 0, b: 0, a: 0 } }
    }

    pub fn new(width: i64, color: Color) -> (s: Stroke)
        ensures
            s == (Stroke { width, color }),
    {
        Stroke { width, color }
    }
}

/// Corner radii of a rectangle, clockwise from the top-left corner, in
/// milli-pixels.
#[derive(Debug, Clone, Copy, PartialEq, Eq, Structural)]
pub struct Rounding {
    pub nw: i64,
    pub ne: i64,
    pub sw: i64,
    pub se: i64,
}

impl Rounding {
    pub open spec fn same_spec(radius: i64) -> Rounding {
        Rounding { nw: radius, ne: radius, sw: radius, se: radius }
    }

    /// The same radius on every corner.
    pub fn same(radius: i64) -> (r: Rounding)
        ensures
            r == Rounding::same_spec(radius),
    {
        Rounding { nw: radius, ne: radius, sw: radius, se: radius }
    }

    pub open spec fn none_spec() -> Rounding {
        Rounding::same_spec(0)
    }

    /// Sharp corners everywhere.
    pub fn none() -> (r: Rounding)
        ensures
            r == Rounding::none_spec(),
    {
        Rounding::same(0)
    }
}

/// A two-dimensional size or offset in milli-pixels.
#[derive(Debug, Clone, Copy, PartialEq, Eq, Structural)]
pub struct Vec2 {
    pub x: i64,
    pub y: i64,
}

/// A point in milli-pixels.
#[derive(Debug, Clone, Copy, PartialEq, Eq, Structural)]
pub struct Pos2 {
    pub x: i64,
    pub y: i64,
}

/// An axis-aligned rectangle given by its two extreme corners.
#[derive(Debug, Clone, Copy, PartialEq, Eq, Structural)]
pub struct Rect {
    pub min: Pos2,
    pub max: Pos2,
}

impl Rect {
    pub open spec fn width_spec(self) -> int {
        self.max.x - self.min.x
    }

    pub open spec fn height_spec(self) -> int {
        self.max.y - self.min.y
    }
}

/// Space around a widget, one thickness per side, in milli-pixels.
#[derive(Debug, Clone, Copy, PartialEq, Eq, Structural)]
pub struct Margin {
    pub left: i64,
    pub right: i64,
    pub top: i64,
    pub bottom: i64,
}

impl Margin {
    pub open spec fn same_spec(t: i64) -> Margin {
        Margin { left: t, right: t, top: t, bottom: t }
    }

    /// The same thickness on every side.
    pub fn same(t: i64) -> (m: Margin)
        ensures
            m == Margin::same_spec(t),
    {
        Margin { left: t, right: t, top: t, bottom: t }
    }
}

/// The style of widgets in one interaction state.
#[derive(Debug, Clone, Copy, PartialEq, Eq, Structural)]
pub struct WidgetVisuals {
    pub bg_fill: Color,
    pub weak_bg_fill: Color,
    pub bg_stroke: Stroke,
    pub fg_stroke: Stroke,
    pub rounding: Rounding,
    pub expansion: i64,
}

/// The style of widgets, one entry per interaction state.
#[derive(Debug, Clone, Copy, PartialEq, Eq, Structural)]
pub struct Widgets {
    pub noninteractive: WidgetVisuals,
    pub inactive: WidgetVisuals,
    pub hovered: WidgetVisuals,
    pub active: WidgetVisuals,
    pub open: WidgetVisuals,
}

impl Widgets {
    pub open spec fn dark_spec() -> Widgets {
        Widgets {
            noninteractive: WidgetVisuals {
                bg_fill: Color::gray_spec(27),
                weak_bg_fill: Color::gray_spec(27),
                bg_stroke: Stroke { width: PX, color: Color::gray_spec(60) },
                fg_stroke: Stroke { width: PX, color: Color::gray_spec(140) },
                rounding: Rounding::same_spec(2000),
                expansion: 0,
            },
            inactive: WidgetVisuals {
                bg_fill: Color::gray_spec(60),
                weak_bg_fill: Color::gray_spec(60),
                bg_stroke: Stroke::none_spec(),
                fg_stroke: Stroke { width: PX, color: Color::gray_spec(180) },
                rounding: Rounding::same_spec(2000),
                expansion: 0,
            },
            hovered: WidgetVisuals {
                bg_fill: Color::gray_spec(70),
                weak_bg_fill: Color::gray_spec(70),
                bg_stroke: Stroke { width: PX, color: Color::gray_spec(150) },
                fg_stroke: Stroke { width: 1500, color: Color::gray_spec(240) },
                rounding: Rounding::same_spec(3000),
                expansion: PX,
            },
            active: WidgetVisuals {
                bg_fill: Color::gray_spec(55),
                weak_bg_fill: Color::gray_spec(55),
                bg_stroke: Stroke { width: PX, color: Color::white_spec() },
                fg_stroke: Stroke { width: 2000, color: Color::white_spec() },
                rounding: Rounding::same_spec(2000),
                expansion: PX,
            },
            open: WidgetVisuals {
                bg_fill: Color::gray_spec(27),
                weak_bg_fill: Color::gray_spec(27),
                bg_stroke: Stroke { width: PX, color: Color::gray_spec(60) },
                fg_stroke: Stroke { width: PX, color: Color::gray_spec(210) },
                rounding: Rounding::same_spec(2000),
                expansion: 0,
            },
        }
    }

    pub open spec fn light_spec() -> Widgets {
        Widgets {
            noninteractive: WidgetVisuals {
                bg_fill: Color::gray_spec(248),
                weak_bg_fill: Color::gray_spec(248),
                bg_stroke: Stroke { width: PX, color: Color::gray_spec(190) },
                fg_stroke: Stroke { width: PX, color: Color::gray_spec(80) },
                rounding: Rounding::same_spec(2000),
                expansion: 0,
            },
            inactive: WidgetVisuals {
                bg_fill: Color::gray_spec(230),
                weak_bg_fill: Color::gray_spec(230),
                bg_stroke: Stroke::none_spec(),
                fg_stroke: Stroke { width: PX, color: Color::gray_spec(60) },
                rounding: Rounding::same_spec(2000),
                expansion: 0,
            },
            hovered: WidgetVisuals {
                bg_fill: Color::gray_spec(220),
                weak_bg_fill: Color::gray_spec(220),
                bg_stroke: Stroke { width: PX, color: Color::gray_spec(105) },
                fg_stroke: Stroke { width: 1500, color: Color::black_spec() },
                rounding: Rounding::same_spec(3000),
                expansion: PX,
            },
            active: WidgetVisuals {
                bg_fill: Color::gray_spec(165),
                weak_bg_fill: Color::gray_spec(165),
                bg_stroke: Stroke { width: PX, color: Color::black_spec() },
                fg_stroke: Stroke { width: 2000, color: Color::black_spec() },
                rounding: Rounding::same_spec(2000),
                expansion: PX,
            },
            open: WidgetVisuals {
                bg_fill: Color::gray_spec(220),
                weak_bg_fill: Color::gray_spec(220),
                bg_stroke: Stroke { width: PX, color: Color::gray_spec(160) },
                fg_stroke: Stroke { width: PX, color: Color::black_spec() },
                rounding: Rounding::same_spec(2000),
                expansion: 0,
            },
        }
    }

    /// The stock dark widget styles of the host toolkit.
    pub fn dark() -> (w: Widgets)
        ensures
            w == Widgets::dark_spec(),
    {
        Widgets {
            noninteractive: WidgetVisuals {
                bg_fill: Color::from_gray(27),
                weak_bg_fill: Color::from_gray(27),
                bg_stroke: Stroke::new(PX, Color::from_gray(60)),
                fg_stroke: Stroke::new(PX, Color::from_gray(140)),
                rounding: Rounding::same(2000),
                expansion: 0,
            },
            inactive: WidgetVisuals {
                bg_fill: Color::from_gray(60),
                weak_bg_fill: Color::from_gray(60),
                bg_stroke: Stroke::none(),
                fg_stroke: Stroke::new(PX, Color::from_gray(180)),
                rounding: Rounding::same(2000),
                expansion: 0,
            },
            hovered: WidgetVisuals {
                bg_fill: Color::from_gray(70),
                weak_bg_fill: Color::from_gray(70),
                bg_stroke: Stroke::new(PX, Color::from_gray(150)),
                fg_stroke: Stroke::new(1500, Color::from_gray(240)),
                rounding: Rounding::same(3000),
                expansion: PX,
            },
            active: WidgetVisuals {
                bg_fill: Color::from_gray(55),
                weak_bg_fill: Color::from_gray(55),
                bg_stroke: Stroke::new(PX, Color::white()),
                fg_stroke: Stroke::new(2000, Color::white()),
                rounding: Rounding::same(2000),
                expansion: PX,
            },
            open: WidgetVisuals {
                bg_fill: Color::from_gray(27),
                weak_bg_fill: Color::from_gray(27),
                bg_stroke: Stroke::new(PX, Color::from_gray(60)),
                fg_stroke: Stroke::new(PX, Color::from_gray(210)),
                rounding: Rounding::same(2000),
                expansion: 0,
            },
        }
    }

    /// The stock light widget styles of the host toolkit.
    pub fn light() -> (w: Widgets)
        ensures
            w == Widgets::light_spec(),
    {
        Widgets {
            noninteractive: WidgetVisuals {
                bg_fill: Color::from_gray(248),
                weak_bg_fill: Color::from_gray(248),
                bg_stroke: Stroke::new(PX, Color::from_gray(190)),
                fg_stroke: Stroke::new(PX, Color::from_gray(80)),
                rounding: Rounding::same(2000),
                expansion: 0,
            },
            inactive: WidgetVisuals {
                bg_fill: Color::from_gray(230),
                weak_bg_fill: Color::from_gray(230),
                bg_stroke: Stroke::none(),
                fg_stroke: Stroke::new(PX, Color::from_gray(60)),
                rounding: Rounding::same(2000),
                expansion: 0,
            },
            hovered: WidgetVisuals {
                bg_fill: Color::from_gray(220),
                weak_bg_fill: Color::from_gray(220),
                bg_stroke: Stroke::new(PX, Color::from_gray(105)),
                fg_stroke: Stroke::new(1500, Color::black()),
                rounding: Rounding::same(3000),
                expansion: PX,
            },
            active: WidgetVisuals {
                bg_fill: Color::from_gray(165),
                weak_bg_fill: Color::from_gray(165),
                bg_stroke: Stroke::new(PX, Color::black()),
                fg_stroke: Stroke::new(2000, Color::black()),
                rounding: Rounding::same(2000),
                expansion: PX,
            },
            open: WidgetVisuals {
                bg_fill: Color::from_gray(220),
                weak_bg_fill: Color::from_gray(220),
                bg_stroke: Stroke::new(PX, Color::from_gray(160)),
                fg_stroke: Stroke::new(PX, Color::black()),
                rounding: Rounding::same(2000),
                expansion: 0,
            },
        }
    }
}

/// The parts of the host toolkit's style that this crate reads or rewrites.
#[derive(Debug, Clone, Copy, PartialEq, Eq, Structural)]
pub struct Visuals {
    pub dark_mode: bool,
    pub panel_fill: Color,
    pub widgets: Widgets,
}

impl Visuals {
    pub open spec fn dark_spec() -> Visuals {
        Visuals {
            dark_mode: true,
            panel_fill: Color::gray_spec(27),
            widgets: Widgets::dark_spec(),
        }
    }

    /// The stock dark style of the host toolkit.
    pub fn dark() -> (v: Visuals)
        ensures
            v == Visuals::dark_spec(),
    {
        Visuals { dark_mode: true, panel_fill: Color::from_gray(27), widgets: Widgets::dark() }
    }

    pub open spec fn light_spec() -> Visuals {
        Visuals {
            dark_mode: false,
            panel_fill: Color::gray_spec(248),
            widgets: Widgets::light_spec(),
        }
    }

    /// The stock light style of the host toolkit.
    pub fn light() -> (v: Visuals)
        ensures
            v == Visuals::light_spec(),
    {
        Visuals { dark_mode: false, panel_fill: Color::from_gray(248), widgets: Widgets::light() }
    }
}

} // verus!
