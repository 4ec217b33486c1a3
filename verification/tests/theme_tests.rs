use egui_extended::native_visuals::css_values::parse_milli;
use egui_extended::native_visuals::theme_loaders::gtk;
use egui_extended::style::{Color, Rounding, Stroke, Visuals};

#[test]
fn parse_milli_whole_and_fraction() {
    assert_eq!(parse_milli("1.500"), Some(1500));
    assert_eq!(parse_milli("0.000"), Some(0));
    assert_eq!(parse_milli("12.345"), Some(12345));
    assert_eq!(parse_milli("1234567890.123"), Some(1234567890123));
}

#[test]
fn parse_milli_negative() {
    assert_eq!(parse_milli("-0.250"), Some(-250));
    assert_eq!(parse_milli("-3.000"), Some(-3000));
}

#[test]
fn parse_milli_rejects_other_shapes() {
    assert_eq!(parse_milli(""), None);
    assert_eq!(parse_milli("10"), None);
    assert_eq!(parse_milli("1.5"), None);
    assert_eq!(parse_milli("1.5000"), None);
    assert_eq!(parse_milli(".500"), None);
    assert_eq!(parse_milli("abc"), None);
    assert_eq!(parse_milli("NaN"), None);
    assert_eq!(parse_milli("inf"), None);
    assert_eq!(parse_milli("1.5a0"), None);
    assert_eq!(parse_milli("12345678901.000"), None);
    assert_eq!(parse_milli("--1.000"), None);
}

#[test]
fn gtk_background_color_sets_panel_fill() {
    let mut visuals = Visuals::dark();
    gtk(".background { background-color: #ff0000; }", &mut visuals);
    assert_eq!(visuals.panel_fill, Color { r: 255, g: 0, b: 0, a: 255 });
}

#[test]
fn gtk_text_color_sets_noninteractive_strokes() {
    let mut visuals = Visuals::dark();
    gtk(".background { color: rgb(10, 20, 30); }", &mut visuals);
    let expected = Color { r: 10, g: 20, b: 30, a: 255 };
    assert_eq!(visuals.widgets.noninteractive.fg_stroke.color, expected);
    assert_eq!(visuals.widgets.noninteractive.bg_stroke.color, expected);
    // The background colour itself was not declared, so the panel keeps its
    // stock fill.
    assert_eq!(visuals.panel_fill, Visuals::dark().panel_fill);
}

#[test]
fn gtk_border_sets_every_bg_stroke() {
    let mut visuals = Visuals::dark();
    gtk("button { border: 1.5px solid #0000ff; }", &mut visuals);
    let expected = Stroke { width: 1500, color: Color { r: 0, g: 0, b: 255, a: 255 } };
    assert_eq!(visuals.widgets.noninteractive.bg_stroke, expected);
    assert_eq!(visuals.widgets.inactive.bg_stroke, expected);
    assert_eq!(visuals.widgets.hovered.bg_stroke, expected);
    assert_eq!(visuals.widgets.active.bg_stroke, expected);
    assert_eq!(visuals.widgets.open.bg_stroke, expected);
}

#[test]
fn gtk_border_keyword_widths() {
    let mut visuals = Visuals::dark();
    gtk("button { border: thin solid #102030; }", &mut visuals);
    assert_eq!(visuals.widgets.active.bg_stroke.width, 1000);
    let mut visuals = Visuals::dark();
    gtk("button { border: thick solid #102030; }", &mut visuals);
    assert_eq!(visuals.widgets.active.bg_stroke.width, 3000);
}

#[test]
fn gtk_border_non_pixel_unit_defaults_to_two_pixels() {
    let mut visuals = Visuals::dark();
    gtk("button { border: 2em solid #ff0000; }", &mut visuals);
    assert_eq!(visuals.widgets.active.bg_stroke.width, 2000);
    assert_eq!(
        visuals.widgets.active.bg_stroke.color,
        Color { r: 255, g: 0, b: 0, a: 255 }
    );
}

#[test]
fn gtk_border_radius_sets_every_rounding() {
    let mut visuals = Visuals::dark();
    gtk("button { border-radius: 4px; }", &mut visuals);
    let expected = Rounding { nw: 4000, ne: 4000, sw: 4000, se: 4000 };
    assert_eq!(visuals.widgets.noninteractive.rounding, expected);
    assert_eq!(visuals.widgets.inactive.rounding, expected);
    assert_eq!(visuals.widgets.hovered.rounding, expected);
    assert_eq!(visuals.widgets.active.rounding, expected);
    assert_eq!(visuals.widgets.open.rounding, expected);
}

#[test]
fn gtk_border_radius_percentage_counts_twenty_pixels_per_unit() {
    let mut visuals = Visuals::dark();
    gtk("button { border-radius: 50%; }", &mut visuals);
    assert_eq!(visuals.widgets.active.rounding, Rounding::same(10000));
}

#[test]
fn gtk_unknown_selector_changes_nothing() {
    let mut visuals = Visuals::dark();
    gtk("#somewhere-else { background-color: red; border-radius: 9px; }", &mut visuals);
    assert_eq!(visuals, Visuals::dark());
}

#[test]
fn gtk_unhandled_property_changes_nothing() {
    let mut visuals = Visuals::light();
    gtk(".background { font-size: 12px; }", &mut visuals);
    assert_eq!(visuals, Visuals::light());
}

#[test]
fn gtk_rule_with_both_selectors_applies_both_handlers() {
    let mut visuals = Visuals::dark();
    gtk(
        ".background { background-color: #010203; } button { border-radius: 1px; }",
        &mut visuals,
    );
    assert_eq!(visuals.panel_fill, Color { r: 1, g: 2, b: 3, a: 255 });
    assert_eq!(visuals.widgets.hovered.rounding, Rounding::same(1000));
}

#[test]
fn gtk_later_declaration_wins() {
    let mut visuals = Visuals::dark();
    gtk(
        "button { border-radius: 1px; } button { border-radius: 6px; }",
        &mut visuals,
    );
    assert_eq!(visuals.widgets.active.rounding, Rounding::same(6000));
}

#[test]
fn gtk_unparseable_css_changes_nothing() {
    // A stray closing brace at the top level is a parse error, and a parse
    // error must leave the visuals exactly as they were.
    let mut visuals = Visuals::dark();
    gtk("} .background { background-color: #ff0000; }", &mut visuals);
    assert_eq!(visuals, Visuals::dark());
    let mut visuals = Visuals::light();
    gtk("@media {", &mut visuals);
    assert_eq!(visuals, Visuals::light());
}
