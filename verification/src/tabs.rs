//! A widget for switching between multiple tabs. The current tab can live
//! in the host's per-widget memory or in a slot the caller owns.

use vstd::prelude::*;

use crate::painter::{coord_ok, pos_ok, scale, scale_spec, Shape, COORD_LIMIT};
use crate::style::{Color, Pos2, Rect, Rounding, Stroke, Vec2, Visuals};

verus! {

/// The largest number of tabs one strip accepts.
pub const MAX_TABS: usize = 10000;

/// The line drawn under the selected tab.
#[derive(Debug, Clone, Copy, PartialEq, Eq, Structural)]
pub struct SelectedLine {
    pub stroke: Stroke,
    /// The covered fraction of the tab's width, in thousandths.
    pub width: i64,
}

/// Widget for switching between multiple tabs.
///
/// Built once per frame. The rendering layer asks it for the strip's size
/// and each button's position, and reports clicks back through
/// [`Tabs::set_index`].
#[derive(Debug, Clone)]
pub struct Tabs {
    /// Identifies the strip in the host's widget memory.
    pub id: String,
    /// A caller-owned index slot; when present, the host's widget memory is
    /// left alone.
    pub custom_index: Option<usize>,
    /// The tab titles.
    pub tabs: Vec<String>,
    /// The tab shown when no index is stored anywhere.
    pub default: usize,
    pub rounding_override: Option<Rounding>,
    pub bg_fill_override: Option<Color>,
    /// The padding of the buttons, in milli-pixels.
    pub outer_button_margin: Vec2,
    /// The margin in between buttons, in milli-pixels.
    pub inner_button_margin: i64,
    /// How much bigger the background element is than the buttons, in
    /// milli-pixels.
    pub bg_margin: i64,
    /// The line under the selected tab.
    pub selected_line: SelectedLine,
    pub selected_line_y_offset: i64,
    pub vertical: bool,
}

impl Tabs {
    /// A strip with no tabs yet: twenty by fifteen pixels of button
    /// padding, three pixels between buttons, and a background one and a
    /// half pixels larger than the buttons.
    pub fn new(id: String, vertical: bool) -> (r: Self)
        ensures
            r.id == id,
            r.custom_index is None,
            r.tabs@ == Seq::<String>::empty(),
            r.default == 0,
            r.rounding_override is None,
            r.bg_fill_override is None,
            r.outer_button_margin == (Vec2 { x: 20000, y: 15000 }),
            r.inner_button_margin == 3000,
            r.bg_margin == 1500,
            r.selected_line == (SelectedLine { stroke: Stroke::none_spec(), width: 0 }),
            r.selected_line_y_offset == 0,
            r.vertical == vertical,
    {
        let r = Tabs {
            id,
            custom_index: None,
            tabs: Vec::new(),
            default: 0,
            rounding_override: None,
            bg_fill_override: None,
            outer_button_margin: Vec2 { x: 20000, y: 15000 },
            inner_button_margin: 3000,
            bg_margin: 1500,
            selected_line: SelectedLine { stroke: Stroke::none(), width: 0 },
            selected_line_y_offset: 0,
            vertical,
        };
        proof {
            assert(r.tabs@ =~= Seq::<String>::empty());
        }
        r
    }

    /// Adds a tab to this instance.
    pub fn tab(self, tab: String) -> (r: Self)
        ensures
            r.tabs@ == self.tabs@.push(tab),
            r.id == self.id,
            r.custom_index == self.custom_index,
            r.default == self.default,
            r.rounding_override == self.rounding_override,
            r.bg_fill_override == self.bg_fill_override,
            r.outer_button_margin == self.outer_button_margin,
            r.inner_button_margin == self.inner_button_margin,
            r.bg_margin == self.bg_margin,
            r.selected_line == self.selected_line,
            r.selected_line_y_offset == self.selected_line_y_offset,
            r.vertical == self.vertical,
    {
        let mut r = self;
        r.tabs.push(tab);
        r
    }

    /// Sets the tabs used by this instance.
    pub fn tabs(self, tabs: Vec<String>) -> (r: Self)
        ensures
            r == (Tabs { tabs, ..self }),
    {
        Tabs { tabs, ..self }
    }

    /// Sets the tabs to one title per element of `vec`, in order.
    pub fn tabs_from_vec<T, F: Fn(&T) -> String>(self, vec: &Vec<T>, title_fn: F) -> (r: Self)
        requires
            forall|i: int| 0 <= i < vec@.len() ==> call_requires(title_fn, (&vec@[i],)),
        ensures
            r.tabs@.len() == vec@.len(),
            forall|i: int|
                0 <= i < vec@.len() ==> call_ensures(title_fn, (&vec@[i],), #[trigger] r.tabs@[i]),
            r == (Tabs { tabs: r.tabs, ..self }),
    {
        let mut titles: Vec<String> = Vec::new();
        let mut i: usize = 0;
        while i < vec.len()
            invariant
                0 <= i <= vec@.len(),
                titles@.len() == i,
                forall|j: int| 0 <= j < vec@.len() ==> call_requires(title_fn, (&vec@[j],)),
                forall|j: int|
                    0 <= j < i ==> call_ensures(title_fn, (&vec@[j],), #[trigger] titles@[j]),
            decreases vec@.len() - i,
        {
            titles.push(title_fn(&vec[i]));
            i = i + 1;
        }
        Tabs { tabs: titles, ..self }
    }

    /// Stores the selected tab in the given caller-owned slot instead of
    /// the host's widget memory.
    pub fn index(self, index: usize) -> (r: Self)
        ensures
            r == (Tabs { custom_index: Some(index), ..self }),
    {
        Tabs { custom_index: Some(index), ..self }
    }

    /// Sets the default tab; this has no effect while a caller-owned index
    /// slot is set.
    pub fn default_tab(self, default: usize) -> (r: Self)
        ensures
            r == (Tabs { default, ..self }),
    {
        Tabs { default, ..self }
    }

    pub fn rounding_override(self, rounding_override: Rounding) -> (r: Self)
        ensures
            r == (Tabs { rounding_override: Some(rounding_override), ..self }),
    {
        Tabs { rounding_override: Some(rounding_override), ..self }
    }

    /// The background fill is the colour of the rectangle behind the tab
    /// buttons.
    pub fn bg_fill_override(self, bg_fill_override: Color) -> (r: Self)
        ensures
            r == (Tabs { bg_fill_override: Some(bg_fill_override), ..self }),
    {
        Tabs { bg_fill_override: Some(bg_fill_override), ..self }
    }

    /// The padding of the buttons.
    pub fn outer_button_margin(self, outer_button_margin: Vec2) -> (r: Self)
        ensures
            r == (Tabs { outer_button_margin, ..self }),
    {
        Tabs { outer_button_margin, ..self }
    }

    /// The margin in between buttons.
    pub fn inner_button_margin(self, inner_button_margin: i64) -> (r: Self)
        ensures
            r == (Tabs { inner_button_margin, ..self }),
    {
        Tabs { inner_button_margin, ..self }
    }

    /// How much bigger the background element is than the buttons.
    pub fn bg_margin(self, bg_margin: i64) -> (r: Self)
        ensures
            r == (Tabs { bg_margin, ..self }),
    {
        Tabs { bg_margin, ..self }
    }

    /// Draws a line under the selected tab; `width` is a fraction of the
    /// tab's width in thousandths, a thousand covering the whole tab.
    pub fn selected_line(self, stroke: Stroke, width: i64) -> (r: Self)
        ensures
            r == (Tabs { selected_line: (SelectedLine { stroke, width }), ..self }),
    {
        Tabs { selected_line: SelectedLine { stroke, width }, ..self }
    }

    pub fn selected_line_y_offset(self, selected_line_y_offset: i64) -> (r: Self)
        ensures
            r == (Tabs { selected_line_y_offset, ..self }),
    {
        Tabs { selected_line_y_offset, ..self }
    }

    /// The index the strip shows, given what the host's widget memory
    /// holds for it: the caller-owned slot wins, then the memory, then the
    /// default tab.
    pub open spec fn get_index_spec(self, memory: Option<usize>) -> usize {
        match self.custom_index {
            Some(i) => i,
            None => match memory {
                Some(m) => m,
                None => self.default,
            },
        }
    }

    /// Returns the index the strip shows, given what the host's widget
    /// memory holds for it.
    pub fn get_index(&self, memory: Option<usize>) -> (r: usize)
        ensures
            r == self.get_index_spec(memory),
    {
        match self.custom_index {
            Some(i) => i,
            None => match memory {
                Some(m) => m,
                None => self.default,
            },
        }
    }

    /// Records a newly selected index: a caller-owned slot takes it
    /// directly, otherwise it is returned for the host's widget memory.
    pub fn set_index(&mut self, index: usize) -> (memory_write: Option<usize>)
        ensures
            old(self).custom_index is Some ==> *final(self) == (Tabs {
                custom_index: Some(index),
                ..*old(self)
            }) && memory_write is None,
            old(self).custom_index is None ==> *final(self) == *old(self) && memory_write
                == Some(index),
    {
        match self.custom_index {
            Some(_) => {
                self.custom_index = Some(index);
                None
            },
            None => Some(index),
        }
    }

    /// The selected index after one frame: the clicked tab where one was
    /// clicked, the current tab otherwise.
    pub fn next_index(current: usize, clicked: Option<usize>) -> (r: usize)
        ensures
            r == match clicked {
                Some(i) => i,
                None => current,
            },
    {
        match clicked {
            Some(i) => i,
            None => current,
        }
    }

    /// The componentwise maximum of the first `n` sizes, starting from
    /// zero.
    pub open spec fn max_size_prefix(sizes: Seq<Vec2>, n: int) -> Vec2
        decreases n,
    {
        if n <= 0 {
            Vec2 { x: 0, y: 0 }
        } else {
            let prev = Self::max_size_prefix(sizes, n - 1);
            Vec2 {
                x: if sizes[n - 1].x > prev.x {
                    sizes[n - 1].x
                } else {
                    prev.x
                },
                y: if sizes[n - 1].y > prev.y {
                    sizes[n - 1].y
                } else {
                    prev.y
                },
            }
        }
    }

    /// The size of the largest title, so that every button gets the same
    /// size.
    pub fn max_button_size(sizes: &Vec<Vec2>) -> (r: Vec2)
        requires
            forall|i: int|
                0 <= i < sizes@.len() ==> 0 <= #[trigger] sizes@[i].x <= COORD_LIMIT && 0
                    <= sizes@[i].y <= COORD_LIMIT,
        ensures
            r == Self::max_size_prefix(sizes@, sizes@.len() as int),
            0 <= r.x <= COORD_LIMIT,
            0 <= r.y <= COORD_LIMIT,
    {
        let mut best = Vec2 { x: 0, y: 0 };
        let mut i: usize = 0;
        while i < sizes.len()
            invariant
                0 <= i <= sizes@.len(),
                forall|j: int|
                    0 <= j < sizes@.len() ==> 0 <= #[trigger] sizes@[j].x <= COORD_LIMIT && 0
                        <= sizes@[j].y <= COORD_LIMIT,
                best == Self::max_size_prefix(sizes@, i as int),
                0 <= best.x <= COORD_LIMIT,
                0 <= best.y <= COORD_LIMIT,
            decreases sizes@.len() - i,
        {
            let s = sizes[i];
            best = Vec2 {
                x: if s.x > best.x {
                    s.x
                } else {
                    best.x
                },
                y: if s.y > best.y {
                    s.y
                } else {
                    best.y
                },
            };
            i = i + 1;
        }
        best
    }

    /// The common button size: the largest title padded by the outer
    /// button margin.
    pub open spec fn button_size_spec(self, sizes: Seq<Vec2>) -> Vec2 {
        let m = Self::max_size_prefix(sizes, sizes.len() as int);
        Vec2 {
            x: (m.x + self.outer_button_margin.x) as i64,
            y: (m.y + self.outer_button_margin.y) as i64,
        }
    }

    /// Returns the common button size for the given title sizes.
    pub fn button_size(&self, sizes: &Vec<Vec2>) -> (r: Vec2)
        requires
            forall|i: int|
                0 <= i < sizes@.len() ==> 0 <= #[trigger] sizes@[i].x <= COORD_LIMIT && 0
                    <= sizes@[i].y <= COORD_LIMIT,
            0 <= self.outer_button_margin.x <= COORD_LIMIT,
            0 <= self.outer_button_margin.y <= COORD_LIMIT,
        ensures
            r == self.button_size_spec(sizes@),
            0 <= r.x <= 2 * COORD_LIMIT,
            0 <= r.y <= 2 * COORD_LIMIT,
    {
        let m = Self::max_button_size(sizes);
        Vec2 { x: m.x + self.outer_button_margin.x, y: m.y + self.outer_button_margin.y }
    }

    /// The whole strip's size: along the strip's axis, one button plus the
    /// inner margin for every tab; across it, one button.
    pub open spec fn tabs_size_spec(self, button: Vec2) -> Vec2 {
        if self.vertical {
            Vec2 {
                x: button.x,
                y: ((button.y + self.inner_button_margin) * self.tabs@.len()) as i64,
            }
        } else {
            Vec2 {
                x: ((button.x + self.inner_button_margin) * self.tabs@.len()) as i64,
                y: button.y,
            }
        }
    }

    /// Returns the whole strip's size for the given button size.
    pub fn tabs_size(&self, button: Vec2) -> (r: Vec2)
        requires
            0 <= button.x <= 2 * COORD_LIMIT,
            0 <= button.y <= 2 * COORD_LIMIT,
            0 <= self.inner_button_margin <= COORD_LIMIT,
            self.tabs@.len() <= MAX_TABS,
        ensures
            r == self.tabs_size_spec(button),
    {
        let n: i64 = self.tabs.len() as i64;
        proof {
            assert(0 <= (button.x + self.inner_button_margin) * n <= 3 * COORD_LIMIT
                * MAX_TABS) by (nonlinear_arith)
                requires
                    0 <= button.x + self.inner_button_margin <= 3 * COORD_LIMIT && 0 <= n
                        <= MAX_TABS,
            ;
            assert(0 <= (button.y + self.inner_button_margin) * n <= 3 * COORD_LIMIT
                * MAX_TABS) by (nonlinear_arith)
                requires
                    0 <= button.y + self.inner_button_margin <= 3 * COORD_LIMIT && 0 <= n
                        <= MAX_TABS,
            ;
        }
        if self.vertical {
            Vec2 { x: button.x, y: (button.y + self.inner_button_margin) * n }
        } else {
            Vec2 { x: (button.x + self.inner_button_margin) * n, y: button.y }
        }
    }

    /// The button size aligned to the rectangle the host actually gave the
    /// strip: along the strip's axis each button takes an equal share of
    /// the space left after the inner margin.
    pub open spec fn aligned_button_size_spec(self, button: Vec2, rect: Rect) -> Vec2 {
        if self.vertical {
            Vec2 {
                x: button.x,
                y: ((rect.height_spec() - self.inner_button_margin) / self.tabs@.len() as int)
                    as i64,
            }
        } else {
            Vec2 {
                x: ((rect.width_spec() - self.inner_button_margin) / self.tabs@.len() as int)
                    as i64,
                y: button.y,
            }
        }
    }

    /// Returns the button size aligned to the allocated rectangle.
    pub fn aligned_button_size(&self, button: Vec2, rect: Rect) -> (r: Vec2)
        requires
            pos_ok(rect.min),
            pos_ok(rect.max),
            0 <= self.inner_button_margin,
            self.inner_button_margin <= rect.width_spec(),
            self.inner_button_margin <= rect.height_spec(),
            1 <= self.tabs@.len() <= MAX_TABS,
        ensures
            r == self.aligned_button_size_spec(button, rect),
    {
        let n: i64 = self.tabs.len() as i64;
        if self.vertical {
            Vec2 { x: button.x, y: (rect.max.y - rect.min.y - self.inner_button_margin) / n }
        } else {
            Vec2 { x: (rect.max.x - rect.min.x - self.inner_button_margin) / n, y: button.y }
        }
    }

    /// Where button `i` sits: the strip's corner, moved along the axis by
    /// `i` buttons and inner margins.
    pub open spec fn button_pos_spec(self, rect: Rect, button: Vec2, i: int) -> Pos2 {
        if self.vertical {
            Pos2 {
                x: rect.min.x,
                y: (rect.min.y + (button.y + self.inner_button_margin) * i) as i64,
            }
        } else {
            Pos2 {
                x: (rect.min.x + (button.x + self.inner_button_margin) * i) as i64,
                y: rect.min.y,
            }
        }
    }

    /// Returns the position of button `i`.
    pub fn button_pos(&self, rect: Rect, button: Vec2, i: usize) -> (r: Pos2)
        requires
            pos_ok(rect.min),
            0 <= button.x <= 2 * COORD_LIMIT,
            0 <= button.y <= 2 * COORD_LIMIT,
            0 <= self.inner_button_margin <= COORD_LIMIT,
            i < self.tabs@.len() <= MAX_TABS,
        ensures
            r == self.button_pos_spec(rect, button, i as int),
    {
        let step_x: i64 = button.x + self.inner_button_margin;
        let step_y: i64 = button.y + self.inner_button_margin;
        proof {
            assert(0 <= step_x * i <= 3 * COORD_LIMIT * MAX_TABS) by (nonlinear_arith)
                requires
                    0 <= step_x <= 3 * COORD_LIMIT && 0 <= i <= MAX_TABS,
            ;
            assert(0 <= step_y * i <= 3 * COORD_LIMIT * MAX_TABS) by (nonlinear_arith)
                requires
                    0 <= step_y <= 3 * COORD_LIMIT && 0 <= i <= MAX_TABS,
            ;
        }
        if self.vertical {
            Pos2 { x: rect.min.x, y: rect.min.y + step_y * (i as i64) }
        } else {
            Pos2 { x: rect.min.x + step_x * (i as i64), y: rect.min.y }
        }
    }

    /// The colour behind the tab buttons: the override where one is set,
    /// the inactive widget fill otherwise.
    pub open spec fn bg_color_spec(self, visuals: Visuals) -> Color {
        match self.bg_fill_override {
            Some(c) => c,
            None => visuals.widgets.inactive.bg_fill,
        }
    }

    /// The rounding of the background element: the override where one is
    /// set, the noninteractive rounding otherwise.
    pub open spec fn bg_rounding_spec(self, visuals: Visuals) -> Rounding {
        match self.rounding_override {
            Some(r) => r,
            None => visuals.widgets.noninteractive.rounding,
        }
    }

    /// The background element: the allocated rectangle grown by the
    /// background margin, painted only while its colour is not fully
    /// transparent.
    pub open spec fn bg_shape_spec(self, rect: Rect, visuals: Visuals) -> Option<Shape> {
        let color = self.bg_color_spec(visuals);
        if color.a > 0 {
            Some(
                Shape::RectFilled {
                    rect: Rect {
                        min: Pos2 {
                            x: (rect.min.x - self.bg_margin) as i64,
                            y: (rect.min.y - self.bg_margin) as i64,
                        },
                        max: Pos2 {
                            x: (rect.max.x + self.bg_margin) as i64,
                            y: (rect.max.y + self.bg_margin) as i64,
                        },
                    },
                    rounding: self.bg_rounding_spec(visuals),
                    fill: color,
                },
            )
        } else {
            None
        }
    }

    /// Returns the background element, if its colour is visible at all.
    pub fn bg_shape(&self, rect: Rect, visuals: &Visuals) -> (r: Option<Shape>)
        requires
            pos_ok(rect.min),
            pos_ok(rect.max),
            0 <= self.bg_margin <= COORD_LIMIT,
        ensures
            r == self.bg_shape_spec(rect, *visuals),
    {
        let color: Color = match self.bg_fill_override {
            Some(c) => c,
            None => visuals.widgets.inactive.bg_fill,
        };
        if color.a > 0 {
            let rounding: Rounding = match self.rounding_override {
                Some(r) => r,
                None => visuals.widgets.noninteractive.rounding,
            };
            Some(
                Shape::RectFilled {
                    rect: Rect {
                        min: Pos2 {
                            x: rect.min.x - self.bg_margin,
                            y: rect.min.y - self.bg_margin,
                        },
                        max: Pos2 {
                            x: rect.max.x + self.bg_margin,
                            y: rect.max.y + self.bg_margin,
                        },
                    },
                    rounding,
                    fill: color,
                },
            )
        } else {
            None
        }
    }

    /// The line under the selected tab: centred under the button, covering
    /// the configured fraction of its width, just below the button plus
    /// the configured offset.
    pub open spec fn selected_line_shape_spec(self, button_pos: Pos2, button: Vec2) -> Option<
        Shape,
    > {
        if self.selected_line.width > 0 {
            let center = button_pos.x + scale_spec(button.x, 500);
            let offset = scale_spec(scale_spec(button.x, 500) as i64, self.selected_line.width);
            Some(
                Shape::HLine {
                    x0: (center - offset) as i64,
                    x1: (center + offset) as i64,
                    y: (button_pos.y + button.y + self.selected_line_y_offset) as i64,
                    stroke: self.selected_line.stroke,
                },
            )
        } else {
            None
        }
    }

    /// Returns the line under the selected tab, where one is configured.
    pub fn selected_line_shape(&self, button_pos: Pos2, button: Vec2) -> (r: Option<Shape>)
        requires
            pos_ok(button_pos),
            0 <= button.x <= COORD_LIMIT,
            0 <= button.y <= COORD_LIMIT,
            coord_ok(self.selected_line_y_offset),
            self.selected_line.width <= 1000,
        ensures
            r == self.selected_line_shape_spec(button_pos, button),
    {
        if self.selected_line.width > 0 {
            let hx: i64 = scale(button.x, 500);
            let center: i64 = button_pos.x + hx;
            let offset: i64 = scale(hx, self.selected_line.width);
            Some(
                Shape::HLine {
                    x0: center - offset,
                    x1: center + offset,
                    y: button_pos.y + button.y + self.selected_line_y_offset,
                    stroke: self.selected_line.stroke,
                },
            )
        } else {
            None
        }
    }
}

} // verus!
