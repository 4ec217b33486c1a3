use egui_extended::native_visuals::{
    gtk_theme_file_name, native_with_scheme, parse_gnome_theme_name, resolve_dark_mode,
    NativeThemeColorMode, SystemColorScheme,
};
use egui_extended::style::{Color, Rounding, Visuals};
use egui_extended::switch::Switch;
use egui_extended::visuals_modifiers::no_background;
use egui_extended::widget_placement::{PlaceWidget, VisualsModifier, WidgetPlacement};
use egui_extended::{
    ColorExtension, Interaction, ResponseExtension, WidgetState, WidgetsExtension,
};

#[test]
fn widget_state_of_interactions() {
    let mut i = Interaction::default();
    i.interactive = false;
    assert_eq!(i.get_widget_state(), WidgetState::Noninteractive);
    i.interactive = true;
    assert_eq!(i.get_widget_state(), WidgetState::Inactive);
    i.hovered = true;
    assert_eq!(i.get_widget_state(), WidgetState::Hovered);
    i.pointer_down = true;
    assert_eq!(i.get_widget_state(), WidgetState::Active);
    i.pointer_down = false;
    i.focused = true;
    assert_eq!(i.get_widget_state(), WidgetState::Active);
    i.focused = false;
    i.hovered = false;
    i.highlighted = true;
    assert_eq!(i.get_widget_state(), WidgetState::Hovered);
}

#[test]
fn color_lighten_darken_gray() {
    let c = Color::from_gray(100);
    assert_eq!(c.lighten(500), Color { r: 177, g: 177, b: 177, a: 255 });
    assert_eq!(c.darken(500), Color { r: 50, g: 50, b: 50, a: 255 });
    assert_eq!(c.grayed(500), Color { r: 114, g: 114, b: 114, a: 255 });
    assert_eq!(c.lighten(0), c);
    assert_eq!(c.darken(1000), Color { r: 0, g: 0, b: 0, a: 255 });
    assert_eq!(c.lighten(1000), Color::from_gray(255));
}

#[test]
fn widgets_set_all_rounding() {
    let mut w = Visuals::dark().widgets;
    w.set_all_rounding(Rounding::same(7000));
    assert_eq!(w.active.rounding, Rounding::same(7000));
    assert_eq!(w.noninteractive.rounding, Rounding::same(7000));
    assert_eq!(w.open.rounding, Rounding::same(7000));
    // Everything else stays.
    assert_eq!(w.active.bg_fill, Visuals::dark().widgets.active.bg_fill);
}

#[test]
fn widgets_get_state_picks_the_matching_entry() {
    let w = Visuals::light().widgets;
    assert_eq!(*w.get_state(WidgetState::Active), w.active);
    assert_eq!(*w.get_state(WidgetState::Hovered), w.hovered);
    assert_eq!(*w.get_state(WidgetState::Inactive), w.inactive);
    assert_eq!(*w.get_state(WidgetState::Noninteractive), w.noninteractive);
    assert_eq!(*w.get_state(WidgetState::Open), w.open);
}

#[test]
fn widgets_get_state_mut_writes_through() {
    let mut w = Visuals::dark().widgets;
    w.get_state_mut(WidgetState::Hovered).expansion = 42;
    assert_eq!(w.hovered.expansion, 42);
}

#[test]
fn widgets_modify_all_applies_to_every_state() {
    let mut w = Visuals::dark().widgets;
    w.modify_all(|mut v| {
        v.expansion = 9;
        v
    });
    assert_eq!(w.active.expansion, 9);
    assert_eq!(w.inactive.expansion, 9);
    assert_eq!(w.noninteractive.expansion, 9);
    assert_eq!(w.hovered.expansion, 9);
    assert_eq!(w.open.expansion, 9);
}

#[test]
fn no_background_clears_fills_only() {
    let mut v = Visuals::dark();
    no_background(&mut v);
    assert_eq!(v.widgets.active.bg_fill, Color::transparent());
    assert_eq!(v.widgets.inactive.weak_bg_fill, Color::transparent());
    assert_eq!(v.widgets.hovered.bg_stroke, Visuals::dark().widgets.hovered.bg_stroke);
    assert_eq!(v.panel_fill, Visuals::dark().panel_fill);
}

#[test]
fn resolve_dark_mode_follows_request_then_system() {
    assert!(!resolve_dark_mode(NativeThemeColorMode::Light, SystemColorScheme::Dark));
    assert!(resolve_dark_mode(NativeThemeColorMode::Dark, SystemColorScheme::Light));
    assert!(resolve_dark_mode(
        NativeThemeColorMode::SystemDefault,
        SystemColorScheme::Dark
    ));
    assert!(resolve_dark_mode(
        NativeThemeColorMode::SystemDefault,
        SystemColorScheme::Unspecified
    ));
    assert!(!resolve_dark_mode(
        NativeThemeColorMode::SystemDefault,
        SystemColorScheme::Light
    ));
}

#[test]
fn native_with_scheme_returns_stock_visuals() {
    assert_eq!(
        native_with_scheme(NativeThemeColorMode::Light, SystemColorScheme::Dark),
        Visuals::light()
    );
    assert_eq!(
        native_with_scheme(NativeThemeColorMode::SystemDefault, SystemColorScheme::Dark),
        Visuals::dark()
    );
}

#[test]
fn gtk_theme_file_name_follows_mode() {
    assert_eq!(gtk_theme_file_name(true), "gtk-dark.css");
    assert_eq!(gtk_theme_file_name(false), "gtk.css");
}

#[test]
fn gnome_theme_name_is_trimmed_and_unquoted() {
    let raw: Vec<u8> = b"  'Adwaita-dark'\n".to_vec();
    assert_eq!(parse_gnome_theme_name(&raw), b"Adwaita-dark".to_vec());
    let bare: Vec<u8> = b"Breeze".to_vec();
    assert_eq!(parse_gnome_theme_name(&bare), b"Breeze".to_vec());
    let empty: Vec<u8> = b" '' ".to_vec();
    assert_eq!(parse_gnome_theme_name(&empty), Vec::<u8>::new());
}

#[test]
fn switch_update_flips_on_click() {
    let mut s = Switch::new(false);
    assert!(s.update(true));
    assert!(s.on);
    assert!(!s.update(false));
    assert!(s.on);
    assert!(s.update(true));
    assert!(!s.on);
}

#[test]
fn placement_builder_accumulates() {
    let p: WidgetPlacement<u32> = 5u32.place();
    assert_eq!(p.widget, 5);
    assert!(p.margin.is_none());
    let p = p.enabled(false).visuals_modifier(VisualsModifier::NoBackground);
    assert_eq!(p.enabled, Some(false));
    assert_eq!(p.visuals_modifiers, vec![VisualsModifier::NoBackground]);
}

#[test]
fn placement_modifiers_apply_in_order() {
    let p: WidgetPlacement<u32> = 1u32.place().visuals_modifier(VisualsModifier::NoBackground);
    let mut v = Visuals::dark();
    p.apply_visuals_modifiers(&mut v);
    assert_eq!(v.widgets.active.bg_fill, Color::transparent());
}
