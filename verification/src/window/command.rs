//! Configuration commands queued by the window handle and applied, in FIFO
//! order, by the platform thread against the native resource.
use vstd::prelude::*;

use crate::window::state::{CursorMode, Fullscreen, Position, Size, Theme, Visibility};

verus! {

/// One queued configuration change. A command carries all data needed to
/// apply itself, so applying it never reads the shared state.
#[derive(Clone, Debug, PartialEq)]
pub enum Command {
    SetPosition(Position),
    SetSize(Size),
    SetVisibility(Visibility),
    SetDecorations(Visibility),
    SetTheme(Theme),
    SetFullscreen(Option<Fullscreen>),
    SetCursorMode(CursorMode),
    SetCursorVisibility(Visibility),
    /// Replaces the native window text with the given title followed by the
    /// given subtitle.
    SetWindowText(String, String),
    Redraw,
    Close,
    Destroy,
}

/// The mathematical value of a [`Command`]: the same variants, with text
/// carried as character sequences.
#[verifier::ext_equal]
pub enum CommandView {
    SetPosition(Position),
    SetSize(Size),
    SetVisibility(Visibility),
    SetDecorations(Visibility),
    SetTheme(Theme),
    SetFullscreen(Option<Fullscreen>),
    SetCursorMode(CursorMode),
    SetCursorVisibility(Visibility),
    SetWindowText(Seq<char>, Seq<char>),
    Redraw,
    Close,
    Destroy,
}

impl View for Command {
    type V = CommandView;

    open spec fn view(&self) -> CommandView {
        match self {
            Command::SetPosition(p) => CommandView::SetPosition(*p),
            Command::SetSize(s) => CommandView::SetSize(*s),
            Command::SetVisibility(v) => CommandView::SetVisibility(*v),
            Command::SetDecorations(v) => CommandView::SetDecorations(*v),
            Command::SetTheme(t) => CommandView::SetTheme(*t),
            Command::SetFullscreen(f) => CommandView::SetFullscreen(*f),
            Command::SetCursorMode(m) => CommandView::SetCursorMode(*m),
            Command::SetCursorVisibility(v) => CommandView::SetCursorVisibility(*v),
            Command::SetWindowText(title, subtitle) => CommandView::SetWindowText(title@, subtitle@),
            Command::Redraw => CommandView::Redraw,
            Command::Close => CommandView::Close,
            Command::Destroy => CommandView::Destroy,
        }
    }
}

} // verus!
