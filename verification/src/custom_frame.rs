//! Title-bar buttons in native platform styles, for use with a custom
//! window frame.

pub mod title_bar_buttons;
pub mod title_bar_buttons_kind;

pub use title_bar_buttons_kind::TitleBarButtonsKind;
