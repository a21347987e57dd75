//! Plain value types held in the window's shared state snapshot.
use vstd::prelude::*;

verus! {

/// Blocking policy for message retrieval, chosen at construction and fixed
/// for the window's lifetime. `Wait` blocks until a message exists; `Poll`
/// returns an empty placeholder immediately when none is ready.
#[derive(Clone, Copy, Debug, PartialEq, Eq, Structural)]
pub enum Flow {
    Wait,
    Poll,
}

impl Default for Flow {
    fn default() -> (r: Self)
        ensures
            r == Flow::Wait,
    {
        Flow::Wait
    }
}

/// Requested color theme. `Auto` and `Dark` are resolved against the
/// platform's capabilities when a theme command is applied; see
/// [`resolve_theme`].
#[derive(Clone, Copy, Debug, PartialEq, Eq, Structural)]
pub enum Theme {
    Auto,
    Dark,
    Light,
}

impl Default for Theme {
    fn default() -> (r: Self)
        ensures
            r == Theme::Auto,
    {
        Theme::Auto
    }
}

/// Whether a window element (the frame, its decorations, the cursor) is
/// shown or hidden.
#[derive(Clone, Copy, Debug, PartialEq, Eq, Structural)]
pub enum Visibility {
    Shown,
    Hidden,
}

impl Default for Visibility {
    fn default() -> (r: Self)
        ensures
            r == Visibility::Shown,
    {
        Visibility::Shown
    }
}

/// Fullscreen descriptor. Only a borderless mode exists: the window covers
/// the monitor it is on without changing the display mode.
#[derive(Clone, Copy, Debug, PartialEq, Eq, Structural)]
pub enum Fullscreen {
    Borderless,
}

/// How the cursor is constrained while the window has focus.
#[derive(Clone, Copy, Debug, PartialEq, Eq, Structural)]
pub enum CursorMode {
    Normal,
    Confined,
}

impl Default for CursorMode {
    fn default() -> (r: Self)
        ensures
            r == CursorMode::Normal,
    {
        CursorMode::Normal
    }
}

/// A size in physical pixels.
#[derive(Clone, Copy, Debug, PartialEq, Eq, Structural)]
pub struct Size {
    pub width: i32,
    pub height: i32,
}

/// A position in physical pixels, relative to the desktop origin.
#[derive(Clone, Copy, Debug, PartialEq, Eq, Structural)]
pub struct Position {
    pub x: i32,
    pub y: i32,
}

/// Style flags of the window frame.
#[derive(Clone, Copy, Debug, PartialEq, Eq, Structural)]
pub struct StyleInfo {
    pub visibility: Visibility,
    pub decorations: Visibility,
    pub fullscreen: Option<Fullscreen>,
    pub resizeable: bool,
}

/// Cursor configuration.
#[derive(Clone, Copy, Debug, PartialEq, Eq, Structural)]
pub struct CursorInfo {
    pub mode: CursorMode,
    pub visibility: Visibility,
}

/// The theme a window actually gets for a requested theme, given what the
/// platform reports: whether dark mode is supported at all, and whether the
/// system-wide preference is currently dark.
pub open spec fn spec_resolve_theme(theme: Theme, dark_mode_supported: bool, system_dark_mode: bool) -> Theme {
    match theme {
        Theme::Auto => if system_dark_mode {
            Theme::Dark
        } else {
            Theme::Light
        },
        Theme::Dark => if dark_mode_supported {
            Theme::Dark
        } else {
            Theme::Light
        },
        Theme::Light => Theme::Light,
    }
}

/// Resolves a requested theme against the platform's reported dark-mode
/// support. The platform thread queries the two booleans from the native
/// system when it applies a theme command.
#[verifier::when_used_as_spec(spec_resolve_theme)]
pub fn resolve_theme(theme: Theme, dark_mode_supported: bool, system_dark_mode: bool) -> (r: Theme)
    ensures
        r == spec_resolve_theme(theme, dark_mode_supported, system_dark_mode),
{
    match theme {
        Theme::Auto => if system_dark_mode {
            Theme::Dark
        } else {
            Theme::Light
        },
        Theme::Dark => if dark_mode_supported {
            Theme::Dark
        } else {
            Theme::Light
        },
        Theme::Light => Theme::Light,
    }
}

} // verus!
