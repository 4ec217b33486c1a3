//! Widget extensions and native-theme helpers for an immediate-mode GUI
//! toolkit.
//!
//! The crate works on a plain-value model of the toolkit's style types:
//! colours are four bytes, and every length is an `i64` count of thousandths
//! of a logical pixel (see [`style::PX`]), so all layout and theming
//! arithmetic is exact. A thin rendering layer outside this crate converts
//! the model to the toolkit's own types when drawing.

use vstd::prelude::*;

pub mod custom_frame;
pub mod native_visuals;
pub mod painter;
pub mod prelude;
pub mod style;
pub mod switch;
pub mod tabs;
pub mod visuals_modifiers;
pub mod widget_placement;

use crate::style::{Rounding, WidgetVisuals, Widgets};

verus! {

/// Interaction state of a widget during one frame, as the host toolkit
/// reports it.
#[derive(Debug, Clone, Copy, PartialEq, Eq, Structural)]
pub enum WidgetState {
    Active,
    Hovered,
    Inactive,
    Noninteractive,
    Open,
}

impl Default for WidgetState {
    fn default() -> (r: Self)
        ensures
            r == WidgetState::Inactive,
    {
        WidgetState::Inactive
    }
}

/// Extra operations on a widget style table.
pub trait WidgetsExtension: Sized {
    /// The style that this table holds for the given interaction state.
    spec fn state_spec(&self, state: WidgetState) -> WidgetVisuals;

    /// This table with the style of one interaction state replaced.
    spec fn with_state_spec(&self, state: WidgetState, v: WidgetVisuals) -> Self;

    /// Sets the rounding for all widget states.
    fn set_all_rounding(&mut self, rounding: Rounding)
        ensures
            forall|s: WidgetState|
                #[trigger] final(self).state_spec(s) == (WidgetVisuals {
                    rounding,
                    ..old(self).state_spec(s)
                }),
    ;

    /// Modifies the visuals of every widget state with the given modifier.
    fn modify_all<F: Fn(WidgetVisuals) -> WidgetVisuals>(&mut self, modifier: F)
        requires
            forall|w: WidgetVisuals| #[trigger] call_requires(modifier, (w,)),
        ensures
            forall|s: WidgetState|
                call_ensures(
                    modifier,
                    (old(self).state_spec(s),),
                    #[trigger] final(self).state_spec(s),
                ),
    ;

    /// Returns the visuals of the given interaction state.
    fn get_state(&self, state: WidgetState) -> (r: &WidgetVisuals)
        ensures
            *r == self.state_spec(state),
    ;

    /// Returns the visuals of the given interaction state, for mutation.
    fn get_state_mut(&mut self, state: WidgetState) -> (r: &mut WidgetVisuals)
        ensures
            *r == old(self).state_spec(state),
            *final(self) == old(self).with_state_spec(state, *final(r)),
    ;
}

impl WidgetsExtension for Widgets {
    open spec fn state_spec(&self, state: WidgetState) -> WidgetVisuals {
        match state {
            WidgetState::Active => self.active,
            WidgetState::Hovered => self.hovered,
            WidgetState::Inactive => self.inactive,
            WidgetState::Noninteractive => self.noninteractive,
            WidgetState::Open => self.open,
        }
    }

    open spec fn with_state_spec(&self, state: WidgetState, v: WidgetVisuals) -> Widgets {
        match state {
            WidgetState::Active => Widgets { active: v, ..*self },
            WidgetState::Hovered => Widgets { hovered: v, ..*self },
            WidgetState::Inactive => Widgets { inactive: v, ..*self },
            WidgetState::Noninteractive => Widgets { noninteractive: v, ..*self },
            WidgetState::Open => Widgets { open: v, ..*self },
        }
    }

    fn set_all_rounding(&mut self, rounding: Rounding) {
        self.active = WidgetVisuals { rounding, ..self.active };
        self.hovered = WidgetVisuals { rounding, ..self.hovered };
        self.inactive = WidgetVisuals { rounding, ..self.inactive };
        self.noninteractive = WidgetVisuals { rounding, ..self.noninteractive };
        self.open = WidgetVisuals { rounding, ..self.open };
        assert forall|s: WidgetState|
            #[trigger] self.state_spec(s) == (WidgetVisuals {
                rounding,
                ..old(self).state_spec(s)
            }) by {
            match s {
                WidgetState::Active => {},
                WidgetState::Hovered => {},
                WidgetState::Inactive => {},
                WidgetState::Noninteractive => {},
                WidgetState::Open => {},
            }
        }
    }

    fn modify_all<F: Fn(WidgetVisuals) -> WidgetVisuals>(&mut self, modifier: F) {
        self.active = modifier(self.active);
        self.hovered = modifier(self.hovered);
        self.inactive = modifier(self.inactive);
        self.noninteractive = modifier(self.noninteractive);
        self.open = modifier(self.open);
        assert forall|s: WidgetState|
            call_ensures(
                modifier,
                (old(self).state_spec(s),),
                #[trigger] self.state_spec(s),
            ) by {
            match s {
                WidgetState::Active => {},
                WidgetState::Hovered => {},
                WidgetState::Inactive => {},
                WidgetState::Noninteractive => {},
                WidgetState::Open => {},
            }
        }
    }

    fn get_state(&self, state: WidgetState) -> (r: &WidgetVisuals) {
        match state {
            WidgetState::Active => &self.active,
            WidgetState::Hovered => &self.hovered,
            WidgetState::Inactive => &self.inactive,
            WidgetState::Noninteractive => &self.noninteractive,
            WidgetState::Open => &self.open,
        }
    }

    fn get_state_mut(&mut self, state: WidgetState) -> (r: &mut WidgetVisuals) {
        match state {
            WidgetState::Active => &mut self.active,
            WidgetState::Hovered => &mut self.hovered,
            WidgetState::Inactive => &mut self.inactive,
            WidgetState::Noninteractive => &mut self.noninteractive,
            WidgetState::Open => &mut self.open,
        }
    }
}

/// The parts of a host-toolkit widget response that decide the widget's
/// interaction state.
#[derive(Debug, Clone, Copy, PartialEq, Eq, Structural, Default)]
pub struct Interaction {
    /// Whether the widget senses clicks or drags at all.
    pub interactive: bool,
    /// Whether a pointer button is down on the widget.
    pub pointer_down: bool,
    /// Whether the widget has keyboard focus.
    pub focused: bool,
    /// Whether the pointer hovers the widget.
    pub hovered: bool,
    /// Whether the widget is highlighted.
    pub highlighted: bool,
}

/// Classification of a widget response into an interaction state.
pub trait ResponseExtension {
    /// The interaction state that this response selects.
    spec fn widget_state_spec(&self) -> WidgetState;

    /// Returns the interaction state of this response.
    fn get_widget_state(&self) -> (r: WidgetState)
        ensures
            r == self.widget_state_spec(),
    ;
}

impl ResponseExtension for Interaction {
    open spec fn widget_state_spec(&self) -> WidgetState {
        if !self.interactive {
            WidgetState::Noninteractive
        } else if self.pointer_down || self.focused {
            WidgetState::Active
        } else if self.hovered || self.highlighted {
            WidgetState::Hovered
        } else {
            WidgetState::Inactive
        }
    }

    fn get_widget_state(&self) -> (r: WidgetState) {
        if !self.interactive {
            WidgetState::Noninteractive
        } else if self.pointer_down || self.focused {
            WidgetState::Active
        } else if self.hovered || self.highlighted {
            WidgetState::Hovered
        } else {
            WidgetState::Inactive
        }
    }
}

/// Mixing a colour towards a fixed target, with the mix fraction given in
/// thousandths.
pub trait ColorExtension: Sized {
    /// The result of mixing this colour towards mid gray.
    spec fn grayed_spec(self, fraction: i64) -> Self;

    /// The result of mixing this colour towards white.
    spec fn lighten_spec(self, fraction: i64) -> Self;

    /// The result of mixing this colour towards black.
    spec fn darken_spec(self, fraction: i64) -> Self;

    /// Mixes this colour towards mid gray by `fraction` thousandths.
    fn grayed(self, fraction: i64) -> (r: Self)
        requires
            0 <= fraction <= 1000,
        ensures
            r == self.grayed_spec(fraction),
    ;

    /// Mixes this colour towards white by `fraction` thousandths.
    fn lighten(self, fraction: i64) -> (r: Self)
        requires
            0 <= fraction <= 1000,
        ensures
            r == self.lighten_spec(fraction),
    ;

    /// Mixes this colour towards black by `fraction` thousandths.
    fn darken(self, fraction: i64) -> (r: Self)
        requires
            0 <= fraction <= 1000,
        ensures
            r == self.darken_spec(fraction),
    ;
}

/// Linear interpolation of one byte channel: `a` moved towards `b` by `t`
/// thousandths, with the remainder truncated.
pub open spec fn lerp8_spec(a: u8, b: u8, t: i64) -> u8 {
    if b >= a {
        (a + (t * (b - a)) / 1000) as u8
    } else {
        (a - (t * (a - b)) / 1000) as u8
    }
}

/// Proof that moving `t` thousandths of the distance `d` never moves further
/// than `d` itself.
proof fn lemma_lerp_step_bounds(d: int, t: int)
    requires
        0 <= d,
        0 <= t <= 1000,
    ensures
        0 <= (t * d) / 1000 <= d,
{
    assert(0 <= t * d && t * d <= 1000 * d) by (nonlinear_arith)
        requires
            0 <= d && 0 <= t <= 1000,
    ;
    assert((1000 * d) / 1000 == d) by (nonlinear_arith);
    vstd::arithmetic::div_mod::lemma_div_is_ordered(0, t * d, 1000);
    vstd::arithmetic::div_mod::lemma_div_is_ordered(t * d, 1000 * d, 1000);
}

/// One byte channel moved from `a` towards `b` by `t` thousandths.
pub fn lerp8(a: u8, b: u8, t: i64) -> (r: u8)
    requires
        0 <= t <= 1000,
    ensures
        r == lerp8_spec(a, b, t),
{
    if b >= a {
        let d: i64 = b as i64 - a as i64;
        proof {
            lemma_lerp_step_bounds(d as int, t as int);
        }
        let v: i64 = a as i64 + (t * d) / 1000;
        v as u8
    } else {
        let d: i64 = a as i64 - b as i64;
        proof {
            lemma_lerp_step_bounds(d as int, t as int);
        }
        let v: i64 = a as i64 - (t * d) / 1000;
        v as u8
    }
}

impl ColorExtension for crate::style::Color {
    open spec fn grayed_spec(self, fraction: i64) -> Self {
        crate::style::Color {
            r: lerp8_spec(self.r, 128, fraction),
            g: lerp8_spec(self.g, 128, fraction),
            b: lerp8_spec(self.b, 128, fraction),
            a: lerp8_spec(self.a, 255, fraction),
        }
    }

    open spec fn lighten_spec(self, fraction: i64) -> Self {
        crate::style::Color {
            r: lerp8_spec(self.r, 255, fraction),
            g: lerp8_spec(self.g, 255, fraction),
            b: lerp8_spec(self.b, 255, fraction),
            a: lerp8_spec(self.a, 255, fraction),
        }
    }

    open spec fn darken_spec(self, fraction: i64) -> Self {
        crate::style::Color {
            r: lerp8_spec(self.r, 0, fraction),
            g: lerp8_spec(self.g, 0, fraction),
            b: lerp8_spec(self.b, 0, fraction),
            a: lerp8_spec(self.a, 255, fraction),
        }
    }

    fn grayed(self, fraction: i64) -> (r: Self) {
        crate::style::Color {
            r: lerp8(self.r, 128, fraction),
            g: lerp8(self.g, 128, fraction),
            b: lerp8(self.b, 128, fraction),
            a: lerp8(self.a, 255, fraction),
        }
    }

    fn lighten(self, fraction: i64) -> (r: Self) {
        crate::style::Color {
            r: lerp8(self.r, 255, fraction),
            g: lerp8(self.g, 255, fraction),
            b: lerp8(self.b, 255, fraction),
            a: lerp8(self.a, 255, fraction),
        }
    }

    fn darken(self, fraction: i64) -> (r: Self) {
        crate::style::Color {
            r: lerp8(self.r, 0, fraction),
            g: lerp8(self.g, 0, fraction),
            b: lerp8(self.b, 0, fraction),
            a: lerp8(self.a, 255, fraction),
        }
    }
}

} // verus!
