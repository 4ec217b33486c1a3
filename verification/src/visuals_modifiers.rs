//! Functions that modify visuals, usually used with widget placements.

use vstd::prelude::*;

use crate::style::{Color, Visuals, WidgetVisuals, Widgets};

verus! {

/// One widget state with its backgrounds made transparent.
pub open spec fn without_background(w: WidgetVisuals) -> WidgetVisuals {
    WidgetVisuals {
        bg_fill: Color::transparent_spec(),
        weak_bg_fill: Color::transparent_spec(),
        ..w
    }
}

/// The visuals with every widget background made transparent.
pub open spec fn no_background_spec(v: Visuals) -> Visuals {
    Visuals {
        widgets: Widgets {
            noninteractive: without_background(v.widgets.noninteractive),
            inactive: without_background(v.widgets.inactive),
            hovered: without_background(v.widgets.hovered),
            active: without_background(v.widgets.active),
            open: without_background(v.widgets.open),
        },
        ..v
    }
}

/// Removes the background of widgets.
pub fn no_background(visuals: &mut Visuals)
    ensures
        *final(visuals) == no_background_spec(*old(visuals)),
{
    let clear: Color = Color::transparent();
    visuals.widgets.noninteractive.bg_fill = clear;
    visuals.widgets.noninteractive.weak_bg_fill = clear;
    visuals.widgets.inactive.bg_fill = clear;
    visuals.widgets.inactive.weak_bg_fill = clear;
    visuals.widgets.hovered.bg_fill = clear;
    visuals.widgets.hovered.weak_bg_fill = clear;
    visuals.widgets.active.bg_fill = clear;
    visuals.widgets.active.weak_bg_fill = clear;
    visuals.widgets.open.bg_fill = clear;
    visuals.widgets.open.weak_bg_fill = clear;
}

} // verus!
