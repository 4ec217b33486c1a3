use egui_extended::custom_frame::title_bar_buttons::{
    order_for_platform, TitleBarButton, TitleBarButtons,
};
use egui_extended::custom_frame::TitleBarButtonsKind;
use egui_extended::painter::Shape;
use egui_extended::style::{Color, Pos2, Rect, Stroke, Vec2, Visuals};
use egui_extended::switch::Switch;
use egui_extended::tabs::Tabs;
use egui_extended::WidgetState;

fn rect(x0: i64, y0: i64, x1: i64, y1: i64) -> Rect {
    Rect { min: Pos2 { x: x0, y: y0 }, max: Pos2 { x: x1, y: y1 } }
}

#[test]
fn kind_button_sizes() {
    assert_eq!(
        TitleBarButtonsKind::Windows.button_size(),
        Vec2 { x: 40000, y: 20000 }
    );
    assert_eq!(TitleBarButtonsKind::Mac.button_size(), Vec2 { x: 20000, y: 20000 });
    assert_eq!(
        TitleBarButtonsKind::Breeze.button_size(),
        Vec2 { x: 20000, y: 20000 }
    );
    assert_eq!(TitleBarButtonsKind::Breeze.shrink_amount(), 5000);
    assert_eq!(TitleBarButtonsKind::Windows.shrink_amount(), 0);
}

#[test]
fn kind_for_platform() {
    assert_eq!(
        TitleBarButtonsKind::for_platform(true, false),
        TitleBarButtonsKind::Breeze
    );
    assert_eq!(
        TitleBarButtonsKind::for_platform(false, true),
        TitleBarButtonsKind::Mac
    );
    assert_eq!(
        TitleBarButtonsKind::for_platform(false, false),
        TitleBarButtonsKind::Windows
    );
}

#[test]
fn title_bar_buttons_defaults() {
    let b = TitleBarButtons::new();
    assert_eq!(b.kind, TitleBarButtonsKind::Windows);
    assert!(b.focused);
    assert!(!b.maximized);
    assert_eq!(b.icon_size, 9000);
    assert_eq!(
        b.order,
        vec![
            TitleBarButton::Minimize,
            TitleBarButton::Maximize,
            TitleBarButton::Close
        ]
    );
}

#[test]
fn title_bar_button_rects_share_the_strip() {
    let b = TitleBarButtons::new();
    let strip = rect(0, 0, 120000, 20000);
    assert_eq!(b.button_rect(strip, 0), rect(0, 0, 40000, 20000));
    assert_eq!(b.button_rect(strip, 1), rect(40000, 0, 80000, 20000));
    assert_eq!(b.button_rect(strip, 2), rect(80000, 0, 120000, 20000));
}

#[test]
fn title_bar_button_rects_shrink_for_breeze() {
    let b = TitleBarButtons::new().kind(TitleBarButtonsKind::Breeze);
    let strip = rect(0, 0, 60000, 20000);
    assert_eq!(b.button_rect(strip, 0), rect(5000, 5000, 15000, 15000));
}

#[test]
fn windows_background_fill_uses_close_colors() {
    let b = TitleBarButtons::new();
    let visuals = Visuals::dark();
    assert_eq!(
        b.background_fill(TitleBarButton::Close, WidgetState::Hovered, &visuals),
        Some(Color { r: 255, g: 50, b: 50, a: 255 })
    );
    assert_eq!(
        b.background_fill(TitleBarButton::Close, WidgetState::Active, &visuals),
        Some(Color { r: 255, g: 128, b: 128, a: 255 })
    );
    assert_eq!(
        b.background_fill(TitleBarButton::Maximize, WidgetState::Hovered, &visuals),
        Some(visuals.widgets.hovered.bg_fill)
    );
    assert_eq!(
        b.background_fill(TitleBarButton::Close, WidgetState::Inactive, &visuals),
        None
    );
    let breeze = b.kind(TitleBarButtonsKind::Breeze);
    assert_eq!(
        breeze.background_fill(TitleBarButton::Close, WidgetState::Hovered, &visuals),
        None
    );
}

#[test]
fn windows_close_icon_is_a_white_cross_on_dark() {
    let kind = TitleBarButtonsKind::Windows;
    let mut out: Vec<Shape> = Vec::new();
    let pos = Pos2 { x: 10000, y: 10000 };
    kind.paint_close_button(
        &mut out,
        pos,
        6000,
        &Visuals::dark(),
        true,
        WidgetState::Hovered,
        None,
    );
    let stroke = Stroke { width: 1000, color: Color::from_gray(255) };
    assert_eq!(
        out,
        vec![
            Shape::LineSegment {
                a: Pos2 { x: 7000, y: 7000 },
                b: Pos2 { x: 13000, y: 13000 },
                stroke
            },
            Shape::LineSegment {
                a: Pos2 { x: 13000, y: 7000 },
                b: Pos2 { x: 7000, y: 13000 },
                stroke
            },
        ]
    );
}

#[test]
fn breeze_hovered_close_paints_background_circle() {
    let kind = TitleBarButtonsKind::Breeze;
    let mut out: Vec<Shape> = Vec::new();
    let pos = Pos2 { x: 0, y: 0 };
    kind.paint_close_button(
        &mut out,
        pos,
        4000,
        &Visuals::dark(),
        true,
        WidgetState::Hovered,
        None,
    );
    assert_eq!(out.len(), 3);
    assert_eq!(
        out[0],
        Shape::CircleFilled {
            center: pos,
            radius: 4000,
            fill: Color { r: 255, g: 150, b: 150, a: 255 }
        }
    );
    // Hovered breeze icons always stroke in black.
    match out[1] {
        Shape::LineSegment { stroke, .. } => {
            assert_eq!(stroke, Stroke { width: 700, color: Color::from_gray(0) });
        }
        _ => panic!("expected a line segment"),
    }
}

#[test]
fn mac_minimize_inactive_is_just_the_circle() {
    let kind = TitleBarButtonsKind::Mac;
    let mut out: Vec<Shape> = Vec::new();
    let pos = Pos2 { x: 500, y: 600 };
    kind.paint_minimize_button(&mut out, pos, 5000, &Visuals::light(), true, WidgetState::Inactive);
    assert_eq!(
        out,
        vec![Shape::Circle {
            center: pos,
            radius: 5000,
            fill: Color { r: 255, g: 190, b: 50, a: 255 },
            stroke: Stroke { width: 500, color: Color { r: 150, g: 85, b: 25, a: 255 } },
        }]
    );
}

#[test]
fn mac_restore_equals_maximize() {
    let kind = TitleBarButtonsKind::Mac;
    let pos = Pos2 { x: 0, y: 0 };
    let mut restored: Vec<Shape> = Vec::new();
    let mut maximized: Vec<Shape> = Vec::new();
    kind.paint_restore_button(&mut restored, pos, 5000, &Visuals::dark(), true, WidgetState::Hovered);
    kind.paint_maximize_button(
        &mut maximized,
        pos,
        5000,
        &Visuals::dark(),
        true,
        WidgetState::Hovered,
    );
    assert_eq!(restored, maximized);
}

#[test]
fn switch_geometry() {
    assert_eq!(Switch::desired_size(20000), Vec2 { x: 40000, y: 20000 });
    let r = rect(0, 0, 40000, 20000);
    assert_eq!(Switch::radius(r), 10000);
    assert_eq!(Switch::knob_radius(r), 7500);
    assert_eq!(Switch::knob_center_x(r, 0), 10000);
    assert_eq!(Switch::knob_center_x(r, 500), 20000);
    assert_eq!(Switch::knob_center_x(r, 1000), 30000);
}

#[test]
fn tabs_defaults_and_builders() {
    let t = Tabs::new("strip".to_owned(), false)
        .tab("one".to_owned())
        .tab("two".to_owned());
    assert_eq!(t.tabs, vec!["one".to_owned(), "two".to_owned()]);
    assert_eq!(t.outer_button_margin, Vec2 { x: 20000, y: 15000 });
    assert_eq!(t.inner_button_margin, 3000);
    assert_eq!(t.bg_margin, 1500);
    assert!(!t.vertical);
}

#[test]
fn tabs_index_precedence() {
    let t = Tabs::new("strip".to_owned(), false).default_tab(2);
    assert_eq!(t.get_index(None), 2);
    assert_eq!(t.get_index(Some(1)), 1);
    let t = t.index(5);
    assert_eq!(t.get_index(Some(1)), 5);
}

#[test]
fn tabs_set_index_prefers_the_custom_slot() {
    let mut t = Tabs::new("strip".to_owned(), false).index(0);
    assert_eq!(t.set_index(3), None);
    assert_eq!(t.custom_index, Some(3));
    let mut t = Tabs::new("strip".to_owned(), false);
    assert_eq!(t.set_index(3), Some(3));
    assert_eq!(t.custom_index, None);
}

#[test]
fn tabs_button_and_strip_sizes() {
    let t = Tabs::new("strip".to_owned(), false)
        .tab("a".to_owned())
        .tab("b".to_owned());
    let sizes = vec![Vec2 { x: 30000, y: 10000 }, Vec2 { x: 20000, y: 12000 }];
    let button = t.button_size(&sizes);
    // The largest title on each axis, plus the outer margin.
    assert_eq!(button, Vec2 { x: 50000, y: 27000 });
    let total = t.tabs_size(button);
    assert_eq!(total, Vec2 { x: 106000, y: 27000 });
    let vertical = Tabs::new("strip".to_owned(), true)
        .tab("a".to_owned())
        .tab("b".to_owned());
    let total = vertical.tabs_size(button);
    assert_eq!(total, Vec2 { x: 50000, y: 60000 });
}

#[test]
fn tabs_aligned_size_and_positions() {
    let t = Tabs::new("strip".to_owned(), false)
        .tab("a".to_owned())
        .tab("b".to_owned());
    let strip = rect(1000, 2000, 107000, 29000);
    let button = t.aligned_button_size(Vec2 { x: 50000, y: 27000 }, strip);
    assert_eq!(button, Vec2 { x: 51500, y: 27000 });
    assert_eq!(t.button_pos(strip, button, 0), Pos2 { x: 1000, y: 2000 });
    assert_eq!(t.button_pos(strip, button, 1), Pos2 { x: 55500, y: 2000 });
}

#[test]
fn tabs_background_shape() {
    let t = Tabs::new("strip".to_owned(), false).tab("a".to_owned());
    let visuals = Visuals::dark();
    let strip = rect(0, 0, 10000, 10000);
    let shape = t.bg_shape(strip, &visuals).expect("stock fill is opaque");
    assert_eq!(
        shape,
        Shape::RectFilled {
            rect: rect(-1500, -1500, 11500, 11500),
            rounding: visuals.widgets.noninteractive.rounding,
            fill: visuals.widgets.inactive.bg_fill,
        }
    );
    let hidden = t.bg_fill_override(Color::transparent());
    assert_eq!(hidden.bg_shape(strip, &visuals), None);
}

#[test]
fn tabs_selected_line() {
    let t = Tabs::new("strip".to_owned(), false).tab("a".to_owned());
    let pos = Pos2 { x: 1000, y: 2000 };
    let button = Vec2 { x: 40000, y: 20000 };
    assert_eq!(t.selected_line_shape(pos, button), None);
    let stroke = Stroke { width: 1000, color: Color::from_gray(200) };
    let t = t.selected_line(stroke, 500).selected_line_y_offset(250);
    assert_eq!(
        t.selected_line_shape(pos, button),
        Some(Shape::HLine { x0: 11000, x1: 31000, y: 22250, stroke })
    );
}

#[test]
fn breeze_and_windows_strokes() {
    let dark = Visuals::dark();
    let light = Visuals::light();
    let breeze_idle = TitleBarButtonsKind::breeze_stroke(&dark, WidgetState::Inactive);
    assert_eq!(breeze_idle, Stroke { width: 700, color: Color::from_gray(255) });
    let breeze_hot = TitleBarButtonsKind::breeze_stroke(&dark, WidgetState::Hovered);
    assert_eq!(breeze_hot, Stroke { width: 700, color: Color::from_gray(0) });
    let focused = TitleBarButtonsKind::windows_stroke(&light, true);
    assert_eq!(focused, Stroke { width: 1000, color: Color::from_gray(0) });
    let unfocused = TitleBarButtonsKind::windows_stroke(&dark, false);
    // Half grayed: every channel moves halfway towards mid gray.
    assert_eq!(unfocused.color, Color { r: 192, g: 192, b: 192, a: 255 });
}

#[test]
fn vertical_tabs_stack_downwards() {
    let t = Tabs::new("strip".to_owned(), true)
        .tab("a".to_owned())
        .tab("b".to_owned());
    let strip = rect(0, 0, 50000, 60000);
    let button = Vec2 { x: 50000, y: 27000 };
    let aligned = t.aligned_button_size(button, strip);
    assert_eq!(aligned, Vec2 { x: 50000, y: 28500 });
    assert_eq!(t.button_pos(strip, aligned, 1), Pos2 { x: 0, y: 31500 });
}

#[test]
fn default_title_bar_buttons_match_new() {
    assert_eq!(TitleBarButtons::default(), TitleBarButtons::new());
}

#[test]
fn platform_order() {
    assert_eq!(
        order_for_platform(true),
        vec![
            TitleBarButton::Close,
            TitleBarButton::Minimize,
            TitleBarButton::Maximize
        ]
    );
}

#[test]
fn tabs_from_vec_titles() {
    let items = vec![1u32, 2, 3];
    let t = Tabs::new("strip".to_owned(), false)
        .tabs_from_vec(&items, |n: &u32| format!("tab {n}"));
    assert_eq!(
        t.tabs,
        vec!["tab 1".to_owned(), "tab 2".to_owned(), "tab 3".to_owned()]
    );
}
