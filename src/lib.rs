//! Navigation and key-binding state of a terminal kanban board: which screen
//! is shown, which of its regions holds the input focus, and how key presses
//! resolve into commands.

pub mod action;
pub mod app_status;
pub mod focus;
pub mod key;
pub mod keybindings;
pub mod text;
pub mod ui_mode;

pub use action::Action;
pub use app_status::AppStatus;
pub use focus::Focus;
pub use key::Key;
pub use keybindings::{KeyBindingEnum, KeyBindings};
pub use ui_mode::UiMode;
