//! A plain-value model of the few CSS property values that theme loading
//! reads, together with the trusted bridge to the CSS parser crate.
//!
//! The parser crate hands every numeric leaf over as decimal text with
//! exactly three fraction digits; [`parse_milli`] turns that text into an
//! exact count of thousandths, so all value conversion downstream of the
//! parser is verified integer arithmetic.

use vstd::prelude::*;

use crate::style::Color;
use lightningcss::properties::border::BorderSideWidth;
use lightningcss::properties::border_radius::BorderRadius;
use lightningcss::properties::Property;
use lightningcss::rules::CssRule;
use lightningcss::stylesheet::{ParserOptions, PrinterOptions, StyleSheet};
use lightningcss::traits::ToCss;
use lightningcss::values::color::CssColor;
use lightningcss::values::percentage::DimensionPercentage;

verus! {

/// A CSS colour, reduced to the one case the theme loader uses.
#[derive(Debug, Clone, Copy, PartialEq, Eq, Structural)]
pub enum CssColorValue {
    /// A colour that converts to the sRGB space.
    Rgba(Color),
    /// Any colour that does not convert to a single sRGB value.
    Unsupported,
}

/// A CSS border width.
#[derive(Debug, Clone, PartialEq)]
pub enum CssBorderWidth {
    Thin,
    Medium,
    Thick,
    /// An explicit length in pixels, as decimal text with three fraction
    /// digits.
    Px(String),
    /// An explicit length in a unit that does not convert to pixels.
    NonPx,
}

/// A CSS length-or-percentage value.
#[derive(Debug, Clone, PartialEq)]
pub enum CssLengthPercentage {
    /// A length in pixels, as decimal text with three fraction digits.
    Px(String),
    /// A length in a unit that does not convert to pixels.
    NonPx,
    /// A percentage, as the unit fraction in decimal text with three
    /// fraction digits (so `50%` reads `0.500`).
    Percent(String),
    /// A `calc()` expression.
    Calc,
}

/// A pair of length-or-percentage values, one per axis.
#[derive(Debug, Clone, PartialEq)]
pub struct CssSize2D {
    pub x: CssLengthPercentage,
    pub y: CssLengthPercentage,
}

/// The parts of a CSS `border` shorthand that theme loading reads.
#[derive(Debug, Clone, PartialEq)]
pub struct CssBorder {
    pub width: CssBorderWidth,
    pub color: CssColorValue,
}

/// The corner radii of a CSS `border-radius` shorthand.
#[derive(Debug, Clone, PartialEq)]
pub struct CssBorderRadius {
    pub top_left: CssSize2D,
    pub top_right: CssSize2D,
    pub bottom_left: CssSize2D,
    pub bottom_right: CssSize2D,
}

/// A declared property of a style rule, reduced to the properties the theme
/// loader handles.
#[derive(Debug, Clone, PartialEq)]
pub enum ThemeProperty {
    BackgroundColor(CssColorValue),
    TextColor(CssColorValue),
    Border(CssBorder),
    BorderRadius(CssBorderRadius),
    /// Any other property.
    Other,
}

/// One top-level rule of a parsed style sheet.
#[derive(Debug, Clone, PartialEq)]
pub enum RuleModel {
    /// A style rule: its selectors, each printed back to text where the
    /// printer succeeds, and its declared properties in source order.
    Style { selectors: Vec<Option<String>>, properties: Vec<ThemeProperty> },
    /// Any other kind of rule.
    Other,
}

/// Whether `c` is a decimal digit.
pub open spec fn is_digit(c: char) -> bool {
    '0' <= c && c <= '9'
}

/// The value of a decimal digit.
pub open spec fn digit_val(c: char) -> int {
    c as int - 48
}

/// Whether every character of `s` is a decimal digit.
pub open spec fn all_digits(s: Seq<char>) -> bool {
    forall|i: int| 0 <= i < s.len() ==> is_digit(#[trigger] s[i])
}

/// The number denoted by a sequence of decimal digits, most significant
/// first.
pub open spec fn digits_val(s: Seq<char>) -> int
    decreases s.len(),
{
    if s.len() == 0 {
        0
    } else {
        10 * digits_val(s.drop_last()) + digit_val(s.last())
    }
}

/// The largest number that `c` decimal digits can denote.
pub open spec fn max_digits_val(c: int) -> int {
    if c <= 0 {
        0
    } else if c == 1 {
        9
    } else if c == 2 {
        99
    } else if c == 3 {
        999
    } else if c == 4 {
        9999
    } else if c == 5 {
        99999
    } else if c == 6 {
        999999
    } else if c == 7 {
        9999999
    } else if c == 8 {
        99999999
    } else if c == 9 {
        999999999
    } else {
        9999999999
    }
}

/// The number of thousandths denoted by decimal text of the fixed shape
/// `[-]digits.ddd`: an optional minus sign, one to ten integer digits, a
/// decimal point, and exactly three fraction digits. Anything else denotes
/// nothing.
pub open spec fn spec_parse_milli(s: Seq<char>) -> Option<int> {
    if s.len() > 0 && s[0] == '-' {
        match spec_parse_unsigned_milli(s.skip(1)) {
            Some(v) => Some(-v),
            None => None,
        }
    } else {
        spec_parse_unsigned_milli(s)
    }
}

/// The unsigned case of [`spec_parse_milli`].
pub open spec fn spec_parse_unsigned_milli(s: Seq<char>) -> Option<int> {
    if 5 <= s.len() <= 14 && s[s.len() - 4] == '.' && all_digits(s.take(s.len() - 4))
        && all_digits(s.skip(s.len() - 3)) {
        Some(digits_val(s.take(s.len() - 4)) * 1000 + digits_val(s.skip(s.len() - 3)))
    } else {
        None
    }
}

/// Every parsed value fits comfortably in an `i64`: ten integer digits and
/// three fraction digits stay below this bound.
pub const MILLI_LIMIT: i64 = 10000000000000;

/// Appending one digit multiplies the denoted number by ten and adds the
/// digit.
proof fn lemma_digits_val_step(s: Seq<char>, a: int, k: int)
    requires
        0 <= a <= k < s.len(),
    ensures
        digits_val(s.subrange(a, k + 1)) == 10 * digits_val(s.subrange(a, k)) + digit_val(s[k]),
{
    assert(s.subrange(a, k + 1).drop_last() =~= s.subrange(a, k));
    assert(s.subrange(a, k + 1).last() == s[k]);
}

/// A sequence of at most ten digits denotes a number between zero and
/// [`max_digits_val`] of its length.
proof fn lemma_digits_val_bound(s: Seq<char>)
    requires
        all_digits(s),
        s.len() <= 10,
    ensures
        0 <= digits_val(s) <= max_digits_val(s.len() as int),
    decreases s.len(),
{
    if s.len() > 0 {
        assert(all_digits(s.drop_last())) by {
            assert(forall|i: int|
                0 <= i < s.drop_last().len() ==> #[trigger] s.drop_last()[i] == s[i]);
        }
        lemma_digits_val_bound(s.drop_last());
        assert(is_digit(s.last()));
    }
}

/// Parses the digit run `s[from..to]` as a decimal number.
fn parse_digits(s: &str, from: usize, to: usize) -> (r: Option<i64>)
    requires
        from <= to <= s@.len(),
        to - from <= 10,
        s@.len() <= usize::MAX,
    ensures
        match r {
            Some(v) => all_digits(s@.subrange(from as int, to as int)) && v == digits_val(
                s@.subrange(from as int, to as int),
            ) && 0 <= v <= max_digits_val(to - from),
            None => !all_digits(s@.subrange(from as int, to as int)),
        },
{
    let mut acc: i64 = 0;
    let mut k: usize = from;
    proof {
        assert(s@.subrange(from as int, from as int) =~= Seq::<char>::empty());
    }
    while k < to
        invariant
            from <= k <= to <= s@.len(),
            to - from <= 10,
            all_digits(s@.subrange(from as int, k as int)),
            acc == digits_val(s@.subrange(from as int, k as int)),
            0 <= acc <= max_digits_val(k - from),
        decreases to - k,
    {
        let c: char = s.get_char(k);
        let cv: u32 = c as u32;
        if cv < 48 || cv > 57 {
            proof {
                assert(s@.subrange(from as int, to as int)[k - from] == s@[k as int]);
                assert(!is_digit(s@[k as int]));
            }
            return None;
        }
        proof {
            assert(is_digit(s@[k as int]));
        }
        let d: i64 = (cv as i64) - 48;
        proof {
            lemma_digits_val_step(s@, from as int, k as int);
            assert(s@.subrange(from as int, (k + 1) as int).drop_last() =~= s@.subrange(
                from as int,
                k as int,
            ));
            assert(forall|i: int|
                0 <= i < k + 1 - from ==> #[trigger] s@.subrange(from as int, (k + 1) as int)[i]
                    == s@[from + i]);
        }
        acc = acc * 10 + d;
        k = k + 1;
    }
    proof {
        assert(s@.subrange(from as int, to as int) =~= s@.subrange(from as int, k as int));
    }
    Some(acc)
}

/// Parses decimal text of the fixed shape `[-]digits.ddd` into a count of
/// thousandths; anything else parses to nothing. The result always lies
/// strictly between `-MILLI_LIMIT` and `MILLI_LIMIT`.
pub fn parse_milli(s: &str) -> (r: Option<i64>)
    ensures
        match (r, spec_parse_milli(s@)) {
            (Some(a), Some(b)) => a == b && -MILLI_LIMIT < a < MILLI_LIMIT,
            (None, None) => true,
            _ => false,
        },
{
    let len: usize = s.unicode_len();
    let negative: bool = len > 0 && s.get_char(0) == '-';
    let start: usize = if negative { 1 } else { 0 };
    let ghost body: Seq<char> = s@.skip(start as int);
    proof {
        if negative {
            assert(body =~= s@.subrange(1, s@.len() as int));
        } else {
            assert(body =~= s@);
        }
    }
    if len - start < 5 || len - start > 14 {
        return None;
    }
    let dot: usize = len - 4;
    proof {
        assert(body.len() == len - start);
        assert(body[body.len() - 4] == s@[dot as int]);
    }
    if s.get_char(dot) != '.' {
        return None;
    }
    let int_part: Option<i64> = parse_digits(s, start, dot);
    proof {
        assert(body.take(body.len() - 4) =~= s@.subrange(start as int, dot as int));
    }
    let int_val: i64 = match int_part {
        Some(v) => v,
        None => {
            return None;
        },
    };
    let frac_part: Option<i64> = parse_digits(s, dot + 1, len);
    proof {
        assert(body.skip(body.len() - 3) =~= s@.subrange((dot + 1) as int, len as int));
    }
    let frac_val: i64 = match frac_part {
        Some(v) => v,
        None => {
            return None;
        },
    };
    let magnitude: i64 = int_val * 1000 + frac_val;
    if negative {
        Some(-magnitude)
    } else {
        Some(magnitude)
    }
}

/// The rule models that the CSS parser yields for given text, or nothing
/// where the text does not parse. Parsing with default options depends on
/// the text alone, so the outcome deserves a name that contracts can speak
/// of; what the name denotes on given text is known only by calling
/// [`parse_rule_models`].
pub uninterp spec fn parsed_rule_models(css: Seq<char>) -> Option<Seq<RuleModel>>;

/// Relies on `lightningcss::stylesheet::StyleSheet::parse` to parse CSS
/// text, and reduces each top-level rule to a [`RuleModel`]. Returns
/// exactly what [`parsed_rule_models`] names for the text: the reduced
/// rules, or nothing where the parser reports an error.
#[verifier::external_body]
pub(crate) fn parse_rule_models(css: &str) -> (r: Option<Vec<RuleModel>>)
    ensures
        match (r, parsed_rule_models(css@)) {
            (Some(v), Some(s)) => v@ == s,
            (None, None) => true,
            _ => false,
        },
{
    match StyleSheet::parse(css, ParserOptions::default()) {
        Ok(sheet) => Some(sheet.rules.0.iter().map(rule_model).collect()),
        Err(_) => None,
    }
}

#[verifier::external_type_specification]
#[verifier::external_body]
#[verifier::reject_recursive_types(R)]
pub struct ExCssRule<'i, R>(CssRule<'i, R>);

/// Relies on the public fields of `lightningcss::rules::style::StyleRule`:
/// reduces a style rule to its printed selectors and its properties, and
/// every other kind of rule to [`RuleModel::Other`].
#[verifier::external_body]
pub(crate) fn rule_model<R>(rule: &CssRule<'_, R>) -> (r: RuleModel) {
    match rule {
        CssRule::Style(style) => RuleModel::Style {
            selectors: style
                .selectors
                .0
                .iter()
                .map(|s| s.to_css_string(PrinterOptions::default()).ok())
                .collect(),
            properties: style.declarations.iter().map(|(p, _)| property_model(p)).collect(),
        },
        _ => RuleModel::Other,
    }
}

#[verifier::external_type_specification]
#[verifier::external_body]
pub struct ExProperty<'i>(Property<'i>);

/// Relies on the variants of `lightningcss::properties::Property`: moves
/// the four properties that theme loading handles into the model and folds
/// every other variant into [`ThemeProperty::Other`].
#[verifier::external_body]
pub(crate) fn property_model(p: &Property<'_>) -> (r: ThemeProperty) {
    match p {
        Property::BackgroundColor(c) => ThemeProperty::BackgroundColor(css_color_value(c)),
        Property::Color(c) => ThemeProperty::TextColor(css_color_value(c)),
        Property::Border(b) => ThemeProperty::Border(
            CssBorder { width: border_width_value(&b.width), color: css_color_value(&b.color) },
        ),
        Property::BorderRadius(r, _) => ThemeProperty::BorderRadius(border_radius_value(r)),
        _ => ThemeProperty::Other,
    }
}

#[verifier::external_type_specification]
#[verifier::external_body]
pub struct ExCssColor(CssColor);

/// Relies on `lightningcss::values::color::CssColor::to_rgb`: a colour that
/// converts to a single sRGB value comes back as its four byte channels,
/// any other outcome as [`CssColorValue::Unsupported`].
#[verifier::external_body]
pub(crate) fn css_color_value(c: &CssColor) -> (r: CssColorValue) {
    match c.to_rgb() {
        Ok(CssColor::RGBA(rgba)) => CssColorValue::Rgba(
            Color { r: rgba.red, g: rgba.green, b: rgba.blue, a: rgba.alpha },
        ),
        _ => CssColorValue::Unsupported,
    }
}

#[verifier::external_type_specification]
#[verifier::external_body]
pub struct ExBorderSideWidth(BorderSideWidth);

/// Relies on the variants of
/// `lightningcss::properties::border::BorderSideWidth` and on
/// `Length::to_px`: an explicit length becomes its pixel value printed with
/// three fraction digits, or [`CssBorderWidth::NonPx`] where no pixel value
/// exists.
#[verifier::external_body]
pub(crate) fn border_width_value(w: &BorderSideWidth) -> (r: CssBorderWidth) {
    match w {
        BorderSideWidth::Thin => CssBorderWidth::Thin,
        BorderSideWidth::Medium => CssBorderWidth::Medium,
        BorderSideWidth::Thick => CssBorderWidth::Thick,
        BorderSideWidth::Length(l) => match l.to_px() {
            Some(px) => CssBorderWidth::Px(format!("{:.3}", px)),
            None => CssBorderWidth::NonPx,
        },
    }
}

#[verifier::external_type_specification]
#[verifier::external_body]
#[verifier::reject_recursive_types(D)]
pub struct ExDimensionPercentage<D>(DimensionPercentage<D>);

#[verifier::external_type_specification]
#[verifier::external_body]
pub struct ExLengthValue(lightningcss::values::length::LengthValue);

/// Relies on the variants of
/// `lightningcss::values::percentage::DimensionPercentage` and on
/// `LengthValue::to_px`: dimensions become their pixel value printed with
/// three fraction digits, percentages their unit fraction printed the same
/// way.
#[verifier::external_body]
pub(crate) fn length_percentage_value(
    lp: &lightningcss::values::length::LengthPercentage,
) -> (r: CssLengthPercentage) {
    match lp {
        DimensionPercentage::Dimension(len) => match len.to_px() {
            Some(px) => CssLengthPercentage::Px(format!("{:.3}", px)),
            None => CssLengthPercentage::NonPx,
        },
        DimensionPercentage::Percentage(p) => CssLengthPercentage::Percent(format!("{:.3}", p.0)),
        DimensionPercentage::Calc(_) => CssLengthPercentage::Calc,
    }
}

#[verifier::external_type_specification]
#[verifier::external_body]
pub struct ExBorderRadius(BorderRadius);

#[verifier::external_type_specification]
#[verifier::external_body]
#[verifier::reject_recursive_types(T)]
pub struct ExSize2D<T>(lightningcss::values::size::Size2D<T>);

/// Relies on the fields of `lightningcss::values::size::Size2D`: the two
/// values move into the model one for one.
#[verifier::external_body]
pub(crate) fn size2d_value(
    s: &lightningcss::values::size::Size2D<lightningcss::values::length::LengthPercentage>,
) -> (v: CssSize2D) {
    CssSize2D { x: length_percentage_value(&s.0), y: length_percentage_value(&s.1) }
}

/// Relies on the fields of
/// `lightningcss::properties::border_radius::BorderRadius`: each corner's
/// radii move into the model one for one.
#[verifier::external_body]
pub(crate) fn border_radius_value(r: &BorderRadius) -> (v: CssBorderRadius) {
    CssBorderRadius {
        top_left: size2d_value(&r.top_left),
        top_right: size2d_value(&r.top_right),
        bottom_left: size2d_value(&r.bottom_left),
        bottom_right: size2d_value(&r.bottom_right),
    }
}

} // verus!
