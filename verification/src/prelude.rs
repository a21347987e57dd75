//! Convenience re-exports of the items an application touches most.

pub use crate::window::input::{ButtonState, Input, Key, KeyState, Mouse};
pub use crate::window::message::{KeyLookup, Message, WindowMessage};
pub use crate::window::settings::WindowSettings;
pub use crate::window::stage::Stage;
pub use crate::window::state::{
    CursorMode, Flow, Fullscreen, Position, Size, Theme, Visibility,
};
pub use crate::window::{MessageIterator, Window};
