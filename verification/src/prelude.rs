//! The crate's common imports, gathered in one place.

pub use crate::custom_frame::title_bar_buttons::{
    order_for_platform, TitleBarButton, TitleBarButtons,
};
pub use crate::custom_frame::TitleBarButtonsKind;
pub use crate::native_visuals::conversions::{OptionReplace, ToEgui};
pub use crate::native_visuals::theme_loaders::{gtk, walk_style_sheet, ThemeTarget};
pub use crate::native_visuals::{
    gtk_theme_file_name, native_with_scheme, parse_gnome_theme_name, resolve_dark_mode,
    NativeTheme, NativeThemeColorMode, NativeVisuals, SystemColorScheme,
};
pub use crate::painter::Shape;
pub use crate::style::{
    Color, Margin, Pos2, Rect, Rounding, Stroke, Vec2, Visuals, WidgetVisuals, Widgets,
};
pub use crate::switch::Switch;
pub use crate::tabs::Tabs;
pub use crate::visuals_modifiers::no_background;
pub use crate::widget_placement::{PlaceWidget, VisualsModifier, WidgetPlacement};
pub use crate::{ColorExtension, Interaction, ResponseExtension, WidgetState, WidgetsExtension};
