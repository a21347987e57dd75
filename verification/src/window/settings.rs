//! Configuration a window is built from.
use vstd::prelude::*;
use vstd::string::StringExecFns;

pub use crate::window::state::{CursorMode, Flow, Fullscreen, Position, Size, Theme, Visibility};

verus! {

/// Configures the window to be built. Values not set through the `with_`
/// methods keep the defaults of [`WindowSettings::default`].
#[derive(Clone, Debug)]
pub struct WindowSettings {
    pub title: String,
    pub size: Size,
    pub position: Option<Position>,
    pub flow: Flow,
    pub theme: Theme,
    pub visibility: Visibility,
    pub fullscreen: Option<Fullscreen>,
    pub cursor_mode: CursorMode,
    pub close_on_x: bool,
}

impl Default for WindowSettings {
    /// An 800 by 600 window titled "Window", placed by the platform,
    /// blocking on message retrieval, following the system theme, shown,
    /// windowed, with a free cursor, closing when its close button is used.
    fn default() -> (r: Self)
        ensures
            r.title@ == "Window"@,
            r.size == (Size { width: 800, height: 600 }),
            r.position is None,
            r.flow == Flow::Wait,
            r.theme == Theme::Auto,
            r.visibility == Visibility::Shown,
            r.fullscreen is None,
            r.cursor_mode == CursorMode::Normal,
            r.close_on_x,
    {
        WindowSettings {
            title: String::from_str("Window"),
            size: Size { width: 800, height: 600 },
            position: None,
            flow: Flow::Wait,
            theme: Theme::Auto,
            visibility: Visibility::Shown,
            fullscreen: None,
            cursor_mode: CursorMode::Normal,
            close_on_x: true,
        }
    }
}

impl WindowSettings {
    /// Replaces the title.
    pub fn with_title(self, title: &str) -> (r: Self)
        ensures
            r.title@ == title@,
            r == (WindowSettings { title: r.title, ..self }),
    {
        WindowSettings { title: String::from_str(title), ..self }
    }

    /// Replaces the size of the whole window frame.
    pub fn with_size(self, size: Size) -> (r: Self)
        ensures
            r == (WindowSettings { size, ..self }),
    {
        WindowSettings { size, ..self }
    }

    /// Replaces the initial position; `None` lets the platform place the
    /// window.
    pub fn with_position(self, position: Option<Position>) -> (r: Self)
        ensures
            r == (WindowSettings { position, ..self }),
    {
        WindowSettings { position, ..self }
    }

    /// Replaces the blocking policy for message retrieval.
    pub fn with_flow(self, flow: Flow) -> (r: Self)
        ensures
            r == (WindowSettings { flow, ..self }),
    {
        WindowSettings { flow, ..self }
    }

    /// Replaces the requested theme.
    pub fn with_theme(self, theme: Theme) -> (r: Self)
        ensures
            r == (WindowSettings { theme, ..self }),
    {
        WindowSettings { theme, ..self }
    }

    /// Replaces the initial visibility.
    pub fn with_visibility(self, visibility: Visibility) -> (r: Self)
        ensures
            r == (WindowSettings { visibility, ..self }),
    {
        WindowSettings { visibility, ..self }
    }

    /// Replaces the fullscreen descriptor.
    pub fn with_fullscreen(self, fullscreen: Option<Fullscreen>) -> (r: Self)
        ensures
            r == (WindowSettings { fullscreen, ..self }),
    {
        WindowSettings { fullscreen, ..self }
    }

    /// Replaces the cursor mode.
    pub fn with_cursor_mode(self, cursor_mode: CursorMode) -> (r: Self)
        ensures
            r == (WindowSettings { cursor_mode, ..self }),
    {
        WindowSettings { cursor_mode, ..self }
    }

    /// Sets whether an external close request (the window's close button)
    /// closes the window.
    pub fn with_close_on_x(self, close_on_x: bool) -> (r: Self)
        ensures
            r == (WindowSettings { close_on_x, ..self }),
    {
        WindowSettings { close_on_x, ..self }
    }
}

} // verus!
