//! Wrapping a widget to place it with custom size, margin, enabled state
//! and visuals.

use vstd::prelude::*;

use crate::style::{Margin, Vec2, Visuals};
use crate::visuals_modifiers::no_background_spec;

verus! {

/// A named modification of the visuals that a placement applies before its
/// widget draws.
#[derive(Debug, Clone, Copy, PartialEq, Eq, Structural)]
pub enum VisualsModifier {
    /// Remove the background of widgets.
    NoBackground,
}

/// The visuals after one modifier has run.
pub open spec fn apply_modifier_spec(m: VisualsModifier, v: Visuals) -> Visuals {
    match m {
        VisualsModifier::NoBackground => no_background_spec(v),
    }
}

/// The visuals after the first `n` modifiers have run in order.
pub open spec fn apply_modifiers_prefix(ms: Seq<VisualsModifier>, n: int, v: Visuals) -> Visuals
    decreases n,
{
    if n <= 0 {
        v
    } else {
        apply_modifier_spec(ms[n - 1], apply_modifiers_prefix(ms, n - 1, v))
    }
}

/// Applies one modifier to the visuals.
pub fn apply_modifier(m: VisualsModifier, visuals: &mut Visuals)
    ensures
        *final(visuals) == apply_modifier_spec(m, *old(visuals)),
{
    match m {
        VisualsModifier::NoBackground => crate::visuals_modifiers::no_background(visuals),
    }
}

/// Wraps around a widget, and is used to more easily place a widget with
/// custom properties such as size, margin or enabled status.
#[derive(Debug, Clone)]
pub struct WidgetPlacement<T: Sized> {
    pub widget: T,
    pub margin: Option<Margin>,
    pub size: Option<Vec2>,
    pub enabled: Option<bool>,
    pub visible: Option<bool>,
    pub visuals_modifiers: Vec<VisualsModifier>,
}

/// Widgets that can be wrapped in a [`WidgetPlacement`].
pub trait PlaceWidget: Sized {
    /// Creates a [`WidgetPlacement`] that wraps this widget.
    fn place(self) -> (r: WidgetPlacement<Self>)
        ensures
            r.widget == self,
            r.margin is None,
            r.size is None,
            r.enabled is None,
            r.visible is None,
            r.visuals_modifiers@ == Seq::<VisualsModifier>::empty(),
    ;
}

impl<T: Sized> PlaceWidget for T {
    fn place(self) -> (r: WidgetPlacement<Self>) {
        WidgetPlacement::new(self)
    }
}

impl<T: Sized> WidgetPlacement<T> {
    /// Wraps a widget with no placement overrides.
    pub fn new(widget: T) -> (r: Self)
        ensures
            r.widget == widget,
            r.margin is None,
            r.size is None,
            r.enabled is None,
            r.visible is None,
            r.visuals_modifiers@ == Seq::<VisualsModifier>::empty(),
    {
        let r = WidgetPlacement {
            widget,
            margin: None,
            size: None,
            enabled: None,
            visible: None,
            visuals_modifiers: Vec::new(),
        };
        proof {
            assert(r.visuals_modifiers@ =~= Seq::<VisualsModifier>::empty());
        }
        r
    }

    /// Sets the margin around the widget.
    pub fn margin(self, margin: Margin) -> (r: Self)
        ensures
            r == (WidgetPlacement { margin: Some(margin), ..self }),
    {
        WidgetPlacement { margin: Some(margin), ..self }
    }

    /// Overrides the size of the widget.
    pub fn size(self, size: Vec2) -> (r: Self)
        ensures
            r == (WidgetPlacement { size: Some(size), ..self }),
    {
        WidgetPlacement { size: Some(size), ..self }
    }

    /// Overrides whether the widget is enabled.
    pub fn enabled(self, enabled: bool) -> (r: Self)
        ensures
            r == (WidgetPlacement { enabled: Some(enabled), ..self }),
    {
        WidgetPlacement { enabled: Some(enabled), ..self }
    }

    /// Overrides whether the widget is visible.
    pub fn visible(self, visible: bool) -> (r: Self)
        ensures
            r == (WidgetPlacement { visible: Some(visible), ..self }),
    {
        WidgetPlacement { visible: Some(visible), ..self }
    }

    /// Adds a modifier that rewrites the visuals used for this widget.
    ///
    /// Multiple visuals modifiers can be applied to the same widget
    /// placement; they run in the order they were added. Modifiers are
    /// drawn from the closed [`VisualsModifier`] set rather than being
    /// arbitrary functions, so that each application carries an exact
    /// contract; a rendering layer that wants free-form rewrites can apply
    /// its own on top of this placement's.
    pub fn visuals_modifier(self, modifier: VisualsModifier) -> (r: Self)
        ensures
            r.widget == self.widget,
            r.margin == self.margin,
            r.size == self.size,
            r.enabled == self.enabled,
            r.visible == self.visible,
            r.visuals_modifiers@ == self.visuals_modifiers@.push(modifier),
    {
        let mut r = self;
        r.visuals_modifiers.push(modifier);
        r
    }

    /// Runs every modifier of this placement over the visuals, in order.
    pub fn apply_visuals_modifiers(&self, visuals: &mut Visuals)
        ensures
            *final(visuals) == apply_modifiers_prefix(
                self.visuals_modifiers@,
                self.visuals_modifiers@.len() as int,
                *old(visuals),
            ),
    {
        let ghost v0 = *visuals;
        let mut i: usize = 0;
        while i < self.visuals_modifiers.len()
            invariant
                0 <= i <= self.visuals_modifiers@.len(),
                *visuals == apply_modifiers_prefix(self.visuals_modifiers@, i as int, v0),
            decreases self.visuals_modifiers@.len() - i,
        {
            apply_modifier(self.visuals_modifiers[i], visuals);
            i = i + 1;
        }
    }
}

} // verus!
