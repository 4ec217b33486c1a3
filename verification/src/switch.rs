//! A toggle switch in the style of the host toolkit's widget gallery.

use vstd::prelude::*;

use crate::painter::{pos_ok, scale, scale_spec, COORD_LIMIT};
use crate::style::{Rect, Vec2};

verus! {

/// A toggle switch over a boolean.
#[derive(Debug, Clone, Copy, PartialEq, Eq, Structural)]
pub struct Switch {
    pub on: bool,
}

impl Switch {
    pub fn new(on: bool) -> (r: Self)
        ensures
            r.on == on,
    {
        Switch { on }
    }

    /// One frame's update: a click flips the switch, and the switch
    /// reports a change exactly when it was clicked.
    pub fn update(&mut self, clicked: bool) -> (changed: bool)
        ensures
            final(self).on == (old(self).on != clicked),
            changed == clicked,
    {
        if clicked {
            self.on = !self.on;
        }
        clicked
    }

    /// The space the switch asks for: twice as wide as the row height it
    /// sits in.
    pub fn desired_size(interact_height: i64) -> (r: Vec2)
        requires
            0 <= interact_height <= COORD_LIMIT,
        ensures
            r.x == 2 * interact_height,
            r.y == interact_height,
    {
        Vec2 { x: 2 * interact_height, y: interact_height }
    }

    /// The radius of the switch's track and knob: half the allocated
    /// height.
    pub open spec fn radius_spec(rect: Rect) -> int {
        rect.height_spec() / 2
    }

    /// Returns the radius of the switch's track and knob.
    pub fn radius(rect: Rect) -> (r: i64)
        requires
            pos_ok(rect.min),
            pos_ok(rect.max),
            rect.min.y <= rect.max.y,
        ensures
            r == Self::radius_spec(rect),
            0 <= r <= COORD_LIMIT,
    {
        proof {
            vstd::arithmetic::div_mod::lemma_div_is_ordered(0, rect.height_spec(), 2);
            vstd::arithmetic::div_mod::lemma_div_is_ordered(
                rect.height_spec(),
                2 * COORD_LIMIT,
                2,
            );
        }
        (rect.max.y - rect.min.y) / 2
    }

    /// The knob's centre slides from the left end of the track to the
    /// right as `how_on` runs from zero to a thousand.
    pub open spec fn knob_center_x_spec(rect: Rect, how_on: i64) -> int {
        let radius = Self::radius_spec(rect);
        let x0 = rect.min.x + radius;
        let x1 = rect.max.x - radius;
        x0 + scale_spec(((x1 - x0)) as i64, how_on)
    }

    /// Returns the knob centre for an animation position of `how_on`
    /// thousandths.
    pub fn knob_center_x(rect: Rect, how_on: i64) -> (r: i64)
        requires
            pos_ok(rect.min),
            pos_ok(rect.max),
            rect.min.y <= rect.max.y,
            rect.height_spec() <= rect.width_spec() <= COORD_LIMIT,
            0 <= how_on <= 1000,
        ensures
            r == Self::knob_center_x_spec(rect, how_on),
    {
        let radius: i64 = Self::radius(rect);
        let x0: i64 = rect.min.x + radius;
        let x1: i64 = rect.max.x - radius;
        x0 + scale(x1 - x0, how_on)
    }

    /// The knob is three quarters of the track radius.
    pub open spec fn knob_radius_spec(rect: Rect) -> int {
        scale_spec(Self::radius_spec(rect) as i64, 750)
    }

    /// Returns the knob radius.
    pub fn knob_radius(rect: Rect) -> (r: i64)
        requires
            pos_ok(rect.min),
            pos_ok(rect.max),
            rect.min.y <= rect.max.y,
        ensures
            r == Self::knob_radius_spec(rect),
    {
        let radius: i64 = Self::radius(rect);
        scale(radius, 750)
    }
}

} // verus!
