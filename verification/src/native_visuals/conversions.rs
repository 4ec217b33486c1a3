//! Typed conversions from modelled CSS values to the crate's style types.

use vstd::prelude::*;

use crate::native_visuals::css_values::{
    spec_parse_milli, CssBorder, CssBorderRadius, CssBorderWidth, CssColorValue,
    CssLengthPercentage, CssSize2D, parse_milli, MILLI_LIMIT,
};
use crate::style::{Color, Rounding, Stroke};

verus! {

/// Conversion of a modelled CSS value into the matching style value of the
/// host toolkit's model.
pub trait ToEgui {
    type Output;

    /// The style value this CSS value converts to.
    spec fn to_egui_spec(&self) -> Self::Output;

    /// Converts this CSS value to its style value.
    fn to_egui(&self) -> (r: Self::Output)
        ensures
            r == self.to_egui_spec(),
    ;
}

/// Writing a converted value over a style field, leaving the field alone
/// where the conversion yields nothing.
pub trait OptionReplace {
    type Value;

    /// The value the field holds after the replacement.
    spec fn replace_spec(&self, old_value: Self::Value) -> Self::Value;

    /// Replaces `value` with the converted value, if there is one.
    fn option_replace(&self, value: &mut Self::Value)
        ensures
            *final(value) == self.replace_spec(*old(value)),
    ;
}

impl<Value, T: ToEgui<Output = Option<Value>>> OptionReplace for T {
    type Value = Value;

    open spec fn replace_spec(&self, old_value: Value) -> Value {
        match self.to_egui_spec() {
            Some(v) => v,
            None => old_value,
        }
    }

    fn option_replace(&self, value: &mut Value) {
        if let Some(v) = self.to_egui() {
            *value = v;
        }
    }
}

impl ToEgui for CssColorValue {
    type Output = Option<Color>;

    open spec fn to_egui_spec(&self) -> Option<Color> {
        match *self {
            CssColorValue::Rgba(c) => Some(c),
            CssColorValue::Unsupported => None,
        }
    }

    fn to_egui(&self) -> (r: Option<Color>) {
        match *self {
            CssColorValue::Rgba(c) => Some(c),
            CssColorValue::Unsupported => None,
        }
    }
}

impl ToEgui for CssBorderWidth {
    type Output = i64;

    /// Keyword widths take the thin, medium and thick widths of one, two and
    /// three pixels; an explicit length its parsed value, with two pixels
    /// standing in where no pixel value can be read.
    open spec fn to_egui_spec(&self) -> i64 {
        match self {
            CssBorderWidth::Thin => 1000,
            CssBorderWidth::Medium => 2000,
            CssBorderWidth::Thick => 3000,
            CssBorderWidth::Px(s) => match spec_parse_milli(s@) {
                Some(v) => v as i64,
                None => 2000,
            },
            CssBorderWidth::NonPx => 2000,
        }
    }

    fn to_egui(&self) -> (r: i64) {
        match self {
            CssBorderWidth::Thin => 1000,
            CssBorderWidth::Medium => 2000,
            CssBorderWidth::Thick => 3000,
            CssBorderWidth::Px(s) => match parse_milli(s.as_str()) {
                Some(v) => v,
                None => 2000,
            },
            CssBorderWidth::NonPx => 2000,
        }
    }
}

impl ToEgui for CssLengthPercentage {
    type Output = Option<i64>;

    /// A pixel length converts to its parsed value; a percentage to twenty
    /// pixels per unit of its fraction; `calc()` and unreadable values to
    /// nothing.
    open spec fn to_egui_spec(&self) -> Option<i64> {
        match self {
            CssLengthPercentage::Px(s) => match spec_parse_milli(s@) {
                Some(v) => Some(v as i64),
                None => None,
            },
            CssLengthPercentage::NonPx => None,
            CssLengthPercentage::Percent(s) => match spec_parse_milli(s@) {
                Some(v) => Some((v * 20) as i64),
                None => None,
            },
            CssLengthPercentage::Calc => None,
        }
    }

    fn to_egui(&self) -> (r: Option<i64>) {
        match self {
            CssLengthPercentage::Px(s) => parse_milli(s.as_str()),
            CssLengthPercentage::NonPx => None,
            CssLengthPercentage::Percent(s) => match parse_milli(s.as_str()) {
                Some(v) => Some(v * 20),
                None => None,
            },
            CssLengthPercentage::Calc => None,
        }
    }
}

impl ToEgui for CssSize2D {
    type Output = (Option<i64>, Option<i64>);

    open spec fn to_egui_spec(&self) -> (Option<i64>, Option<i64>) {
        (self.x.to_egui_spec(), self.y.to_egui_spec())
    }

    fn to_egui(&self) -> (r: (Option<i64>, Option<i64>)) {
        (self.x.to_egui(), self.y.to_egui())
    }
}

impl ToEgui for CssBorderRadius {
    type Output = Option<Rounding>;

    /// The rounding takes each corner's first radius; one unreadable corner
    /// makes the whole radius unusable.
    open spec fn to_egui_spec(&self) -> Option<Rounding> {
        match (
            self.top_left.x.to_egui_spec(),
            self.top_right.x.to_egui_spec(),
            self.bottom_left.x.to_egui_spec(),
            self.bottom_right.x.to_egui_spec(),
        ) {
            (Some(nw), Some(ne), Some(sw), Some(se)) => Some(Rounding { nw, ne, sw, se }),
            _ => None,
        }
    }

    fn to_egui(&self) -> (r: Option<Rounding>) {
        match (
            self.top_left.x.to_egui(),
            self.top_right.x.to_egui(),
            self.bottom_left.x.to_egui(),
            self.bottom_right.x.to_egui(),
        ) {
            (Some(nw), Some(ne), Some(sw), Some(se)) => Some(Rounding { nw, ne, sw, se }),
            _ => None,
        }
    }
}

impl OptionReplace for CssBorder {
    type Value = Stroke;

    /// A border always rewrites the stroke width; it rewrites the stroke
    /// colour only where its colour converts.
    open spec fn replace_spec(&self, old_value: Stroke) -> Stroke {
        Stroke {
            width: self.width.to_egui_spec(),
            color: match self.color.to_egui_spec() {
                Some(c) => c,
                None => old_value.color,
            },
        }
    }

    fn option_replace(&self, value: &mut Stroke) {
        value.width = self.width.to_egui();
        self.color.option_replace(&mut value.color);
    }
}

} // verus!
