use egui_extended::native_visuals::conversions::{OptionReplace, ToEgui};
use egui_extended::native_visuals::css_values::{
    CssBorder, CssBorderRadius, CssBorderWidth, CssColorValue, CssLengthPercentage, CssSize2D,
};
use egui_extended::style::{Color, Rounding, Stroke};

fn px(s: &str) -> CssLengthPercentage {
    CssLengthPercentage::Px(s.to_owned())
}

fn corner(s: &str) -> CssSize2D {
    CssSize2D { x: px(s), y: px(s) }
}

#[test]
fn border_width_conversions() {
    assert_eq!(CssBorderWidth::Thin.to_egui(), 1000);
    assert_eq!(CssBorderWidth::Medium.to_egui(), 2000);
    assert_eq!(CssBorderWidth::Thick.to_egui(), 3000);
    assert_eq!(CssBorderWidth::Px("1.500".to_owned()).to_egui(), 1500);
    assert_eq!(CssBorderWidth::Px("-0.750".to_owned()).to_egui(), -750);
    // Unreadable text falls back to the medium width, as a length without
    // a pixel value does.
    assert_eq!(CssBorderWidth::Px("wide".to_owned()).to_egui(), 2000);
    assert_eq!(CssBorderWidth::NonPx.to_egui(), 2000);
}

#[test]
fn length_percentage_conversions() {
    assert_eq!(px("2.000").to_egui(), Some(2000));
    assert_eq!(px("nope").to_egui(), None);
    assert_eq!(CssLengthPercentage::NonPx.to_egui(), None);
    // A percentage counts twenty pixels per unit of its fraction.
    assert_eq!(
        CssLengthPercentage::Percent("0.250".to_owned()).to_egui(),
        Some(5000)
    );
    assert_eq!(CssLengthPercentage::Calc.to_egui(), None);
}

#[test]
fn size2d_converts_both_axes() {
    let s = CssSize2D { x: px("1.000"), y: CssLengthPercentage::Calc };
    assert_eq!(s.to_egui(), (Some(1000), None));
}

#[test]
fn border_radius_needs_every_corner() {
    let all = CssBorderRadius {
        top_left: corner("1.000"),
        top_right: corner("2.000"),
        bottom_left: corner("3.000"),
        bottom_right: corner("4.000"),
    };
    assert_eq!(
        all.to_egui(),
        Some(Rounding { nw: 1000, ne: 2000, sw: 3000, se: 4000 })
    );
    let broken = CssBorderRadius {
        top_left: corner("1.000"),
        top_right: CssSize2D { x: CssLengthPercentage::Calc, y: px("2.000") },
        bottom_left: corner("3.000"),
        bottom_right: corner("4.000"),
    };
    assert_eq!(broken.to_egui(), None);
}

#[test]
fn option_replace_keeps_the_old_value_on_nothing() {
    let mut c = Color::from_gray(10);
    CssColorValue::Unsupported.option_replace(&mut c);
    assert_eq!(c, Color::from_gray(10));
    CssColorValue::Rgba(Color::from_gray(200)).option_replace(&mut c);
    assert_eq!(c, Color::from_gray(200));
}

#[test]
fn border_replaces_width_and_only_a_real_color() {
    let mut stroke = Stroke { width: 1000, color: Color::from_gray(10) };
    let b = CssBorder { width: CssBorderWidth::Thick, color: CssColorValue::Unsupported };
    b.option_replace(&mut stroke);
    assert_eq!(stroke, Stroke { width: 3000, color: Color::from_gray(10) });
    let b = CssBorder {
        width: CssBorderWidth::Px("0.500".to_owned()),
        color: CssColorValue::Rgba(Color::from_rgb(1, 2, 3)),
    };
    b.option_replace(&mut stroke);
    assert_eq!(stroke, Stroke { width: 500, color: Color::from_rgb(1, 2, 3) });
}
