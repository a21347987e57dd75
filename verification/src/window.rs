//! The window handle and the state it coordinates between the consumer
//! thread and the platform thread.
//!
//! [`Window`] here is the protocol core: one value holding the shared
//! state snapshot, the FIFO command queue, the two handshake gates and the
//! single-slot message mailbox. Every operation is a verified transition
//! whose contract names the corresponding spec function in
//! [`model`]. The runtime that shares one `Window` between two real
//! threads — a lock around it, one condition variable per gate, and the
//! native calls the drained commands are applied with — sits outside this
//! crate and drives the protocol only through these operations.

pub mod command;
pub mod input;
pub mod message;
pub mod model;
pub mod settings;
pub mod stage;
pub mod state;

use vstd::prelude::*;

use crate::window::command::Command;
use crate::window::input::{ButtonState, Input, Key, KeyState, Mouse};
use crate::window::message::{Message, WindowMessage};
use crate::window::model::{
    publish_enabled, spec_after_take, spec_begin_iteration, spec_cached_button, spec_cached_key,
    spec_close, spec_drain, spec_exit_loop, spec_next_message, spec_publish,
    spec_request_destroy, spec_request_next_frame, spec_request_redraw, spec_set_cursor_mode,
    spec_set_cursor_visibility, spec_set_decorations, spec_set_fullscreen, spec_set_position,
    spec_set_size, spec_set_subtitle, spec_set_theme, spec_set_title, spec_set_visibility,
    spec_taken, WindowView,
};
use crate::window::settings::WindowSettings;
use crate::window::stage::Stage;
use crate::window::state::{
    CursorInfo, CursorMode, Flow, Fullscreen, Position, Size, StyleInfo, Theme, Visibility,
};

verus! {

/// The commands a fresh window queues so that the native resource matches
/// the requested settings: position first when one was requested, then
/// size, decorations, theme, visibility and fullscreen, unconditionally —
/// at construction there is no prior native state for an idempotence check
/// to compare against.
pub open spec fn spec_initial_commands(settings: WindowSettings) -> Seq<command::CommandView> {
    let tail = seq![
        command::CommandView::SetSize(settings.size),
        command::CommandView::SetDecorations(Visibility::Shown),
        command::CommandView::SetTheme(settings.theme),
        command::CommandView::SetVisibility(settings.visibility),
        command::CommandView::SetFullscreen(settings.fullscreen),
    ];
    match settings.position {
        Some(position) => seq![command::CommandView::SetPosition(position)] + tail,
        None => tail,
    }
}

/// One window's coordinated state: the shared snapshot both threads read,
/// the command queue, the handshake gates and the message mailbox.
///
/// Its mathematical value is a [`WindowView`]; every method's contract
/// says which transition of [`model`] it performs on that view.
#[derive(Debug)]
pub struct Window {
    title: String,
    subtitle: String,
    size: Size,
    position: Option<Position>,
    style: StyleInfo,
    theme: Theme,
    cursor: CursorInfo,
    flow: Flow,
    close_on_x: bool,
    requested_redraw: bool,
    input: Input,
    stage: Stage,
    commands: Vec<Command>,
    next_frame: bool,
    new_message: bool,
    mailbox: Option<Message>,
}

impl View for Window {
    type V = WindowView;

    closed spec fn view(&self) -> WindowView {
        WindowView {
            stage: self.stage,
            flow: self.flow,
            title: self.title@,
            subtitle: self.subtitle@,
            size: self.size,
            position: self.position,
            style: self.style,
            theme: self.theme,
            cursor: self.cursor,
            close_on_x: self.close_on_x,
            requested_redraw: self.requested_redraw,
            commands: self.commands@.map_values(|c: Command| c@),
            next_frame: self.next_frame,
            new_message: self.new_message,
            mailbox: self.mailbox,
        }
    }
}

/// Lifts pushing one command to the view of the queue.
proof fn lemma_commands_view_push(s: Seq<Command>, c: Command)
    ensures
        s.push(c).map_values(|x: Command| x@) == s.map_values(|x: Command| x@).push(c@),
{
    assert(s.push(c).map_values(|x: Command| x@) =~= s.map_values(|x: Command| x@).push(c@));
}

impl Window {
    /// Well-formed window state: the cached input tables have their fixed
    /// sizes, and the message gate is raised exactly while the mailbox
    /// holds a message.
    pub closed spec fn wf(self) -> bool {
        &&& self.input.wf()
        &&& (self.new_message <==> self.mailbox is Some)
    }

    /// The cached input table, for stating what the input getters read.
    pub closed spec fn spec_input(self) -> Input {
        self.input
    }

    /// Creates a [`WindowSettings`] with the default configuration, to be
    /// refined through its `with_` methods and handed to [`Window::new`].
    pub fn builder() -> (r: WindowSettings)
        ensures
            r.title@ == "Window"@,
            r.size == (Size { width: 800, height: 600 }),
            r.position is None,
            r.flow == Flow::Wait,
            r.theme == Theme::Auto,
            r.visibility == Visibility::Shown,
            r.fullscreen is None,
            r.cursor_mode == CursorMode::Normal,
            r.close_on_x,
    {
        WindowSettings::default()
    }

    /// Builds the window state for the given settings: the shared snapshot
    /// mirrors the settings, the queue holds the initial configuration
    /// commands of [`spec_initial_commands`], the gates are down, the
    /// mailbox is empty, no input is cached, and the stage is `Ready`.
    ///
    /// The native resource itself is created by the platform thread; this
    /// value is what the two threads then coordinate over.
    pub fn new(settings: WindowSettings) -> (w: Window)
        ensures
            w.wf(),
            w@.stage == Stage::Ready,
            w@.flow == settings.flow,
            w@.title == settings.title@,
            w@.subtitle == Seq::<char>::empty(),
            w@.size == settings.size,
            w@.position == settings.position,
            w@.style == (StyleInfo {
                visibility: settings.visibility,
                decorations: Visibility::Shown,
                fullscreen: settings.fullscreen,
                resizeable: true,
            }),
            w@.theme == settings.theme,
            w@.cursor == (CursorInfo { mode: settings.cursor_mode, visibility: Visibility::Shown }),
            w@.close_on_x == settings.close_on_x,
            !w@.requested_redraw,
            !w@.next_frame,
            !w@.new_message,
            w@.mailbox is None,
            w@.commands == spec_initial_commands(settings),
            forall|code: u16| w.spec_input().spec_key(code) == KeyState::Released,
            forall|button: Mouse| w.spec_input().spec_mouse(button) == ButtonState::Released,
    {
        let style = StyleInfo {
            visibility: settings.visibility,
            decorations: Visibility::Shown,
            fullscreen: settings.fullscreen,
            resizeable: true,
        };

        let mut commands: Vec<Command> = Vec::new();
        if let Some(position) = settings.position {
            commands.push(Command::SetPosition(position));
        }
        commands.push(Command::SetSize(settings.size));
        commands.push(Command::SetDecorations(Visibility::Shown));
        commands.push(Command::SetTheme(settings.theme));
        commands.push(Command::SetVisibility(settings.visibility));
        commands.push(Command::SetFullscreen(settings.fullscreen));
        proof {
            assert(commands@.map_values(|c: Command| c@) =~= spec_initial_commands(settings));
        }

        Window {
            title: settings.title,
            subtitle: String::new(),
            size: settings.size,
            position: settings.position,
            style,
            theme: settings.theme,
            cursor: CursorInfo { mode: settings.cursor_mode, visibility: Visibility::Shown },
            flow: settings.flow,
            close_on_x: settings.close_on_x,
            requested_redraw: false,
            input: Input::new(),
            stage: Stage::Ready,
            commands,
            next_frame: false,
            new_message: false,
            mailbox: None,
        }
    }

    // GETTERS

    /// Current lifecycle stage.
    pub fn stage(&self) -> (r: Stage)
        ensures
            r == self@.stage,
    {
        self.stage
    }

    /// Cached frame visibility.
    pub fn visibility(&self) -> (r: Visibility)
        ensures
            r == self@.style.visibility,
    {
        self.style.visibility
    }

    /// Cached requested theme.
    pub fn theme(&self) -> (r: Theme)
        ensures
            r == self@.theme,
    {
        self.theme
    }

    /// The blocking policy chosen at construction.
    pub fn flow(&self) -> (r: Flow)
        ensures
            r == self@.flow,
    {
        self.flow
    }

    /// A snapshot of the title.
    pub fn title(&self) -> (r: String)
        ensures
            r@ == self@.title,
    {
        self.title.clone()
    }

    /// A snapshot of the subtitle.
    pub fn subtitle(&self) -> (r: String)
        ensures
            r@ == self@.subtitle,
    {
        self.subtitle.clone()
    }

    /// Cached size of the window frame.
    pub fn outer_size(&self) -> (r: Size)
        ensures
            r == self@.size,
    {
        self.size
    }

    /// Cached size of the client area. The model keeps one size; the frame
    /// adjustment between the two rectangles is the platform thread's
    /// concern when it applies a size command.
    pub fn inner_size(&self) -> (r: Size)
        ensures
            r == self@.size,
    {
        self.size
    }

    /// Cached frame position; `None` until a position was requested.
    pub fn outer_position(&self) -> (r: Option<Position>)
        ensures
            r == self@.position,
    {
        self.position
    }

    /// Cached client-area position; the model keeps one position.
    pub fn inner_position(&self) -> (r: Option<Position>)
        ensures
            r == self@.position,
    {
        self.position
    }

    /// Cached fullscreen descriptor.
    pub fn fullscreen(&self) -> (r: Option<Fullscreen>)
        ensures
            r == self@.style.fullscreen,
    {
        self.style.fullscreen
    }

    /// Cached state of one key.
    pub fn key(&self, keycode: Key) -> (r: KeyState)
        requires
            self.wf(),
        ensures
            r == self.spec_input().spec_key(keycode.code),
    {
        self.input.key(keycode)
    }

    /// Cached state of one mouse button.
    pub fn mouse(&self, button: Mouse) -> (r: ButtonState)
        requires
            self.wf(),
        ensures
            r == self.spec_input().spec_mouse(button),
    {
        self.input.mouse(button)
    }

    /// Cached state of the Shift modifier.
    pub fn shift(&self) -> (r: KeyState)
        requires
            self.wf(),
        ensures
            r == self.spec_input().spec_key(input::VK_SHIFT),
    {
        self.input.shift()
    }

    /// Cached state of the Control modifier.
    pub fn ctrl(&self) -> (r: KeyState)
        requires
            self.wf(),
        ensures
            r == self.spec_input().spec_key(input::VK_CONTROL),
    {
        self.input.ctrl()
    }

    /// Cached state of the Alt modifier.
    pub fn alt(&self) -> (r: KeyState)
        requires
            self.wf(),
        ensures
            r == self.spec_input().spec_key(input::VK_MENU),
    {
        self.input.alt()
    }

    /// Cached state of the left system key.
    pub fn win(&self) -> (r: KeyState)
        requires
            self.wf(),
        ensures
            r == self.spec_input().spec_key(input::VK_LWIN),
    {
        self.input.win()
    }

    /// Whether a close request has been taken (the stage is `Closing` or
    /// past it).
    pub fn is_closing(&self) -> (r: bool)
        ensures
            r == self@.stage.spec_is_closing(),
    {
        self.stage.is_closing()
    }

    /// Whether the consumer has asked for the next message. The platform
    /// thread's frame gate waits on this.
    pub fn frame_requested(&self) -> (r: bool)
        ensures
            r == self@.next_frame,
    {
        self.next_frame
    }

    /// Whether an undelivered message sits in the mailbox. The consumer's
    /// message gate waits on this; the platform thread must not publish
    /// while it holds.
    pub fn message_ready(&self) -> (r: bool)
        ensures
            r == self@.new_message,
    {
        self.new_message
    }

    // SETTERS

    /// Requests a new frame position. A no-op when the cached position
    /// already is the requested one or the native resource is gone;
    /// otherwise the cache is updated and one position command queued.
    pub fn set_outer_position(&mut self, position: Position)
        requires
            old(self).wf(),
        ensures
            final(self).wf(),
            final(self)@ == spec_set_position(old(self)@, position),
            final(self).spec_input() == old(self).spec_input(),
    {
        if self.stage.commands_accepted() && !matches!(self.position, Some(p) if p == position) {
            self.position = Some(position);
            let ghost before = self.commands@;
            self.commands.push(Command::SetPosition(position));
            proof {
                lemma_commands_view_push(before, Command::SetPosition(position));
            }
        }
    }

    /// Requests a new size for the window frame. A no-op when the cached
    /// size already is the requested one or the native resource is gone.
    pub fn set_outer_size(&mut self, size: Size)
        requires
            old(self).wf(),
        ensures
            final(self).wf(),
            final(self)@ == spec_set_size(old(self)@, size),
            final(self).spec_input() == old(self).spec_input(),
    {
        if self.stage.commands_accepted() && !(self.size == size) {
            self.size = size;
            let ghost before = self.commands@;
            self.commands.push(Command::SetSize(size));
            proof {
                lemma_commands_view_push(before, Command::SetSize(size));
            }
        }
    }

    /// Requests a new size for the client area. The model keeps one cached
    /// size, so this is the same transition as [`Window::set_outer_size`];
    /// the platform thread adjusts for the frame when applying.
    pub fn set_inner_size(&mut self, size: Size)
        requires
            old(self).wf(),
        ensures
            final(self).wf(),
            final(self)@ == spec_set_size(old(self)@, size),
            final(self).spec_input() == old(self).spec_input(),
    {
        self.set_outer_size(size);
    }

    /// Requests frame visibility. Idempotent against the cached value.
    pub fn set_visibility(&mut self, visibility: Visibility)
        requires
            old(self).wf(),
        ensures
            final(self).wf(),
            final(self)@ == spec_set_visibility(old(self)@, visibility),
            final(self).spec_input() == old(self).spec_input(),
    {
        if self.stage.commands_accepted() && !(self.style.visibility == visibility) {
            self.style = StyleInfo { visibility, ..self.style };
            let ghost before = self.commands@;
            self.commands.push(Command::SetVisibility(visibility));
            proof {
                lemma_commands_view_push(before, Command::SetVisibility(visibility));
            }
        }
    }

    /// Requests decoration visibility. Idempotent against the cached
    /// value.
    pub fn set_decorations(&mut self, decorations: Visibility)
        requires
            old(self).wf(),
        ensures
            final(self).wf(),
            final(self)@ == spec_set_decorations(old(self)@, decorations),
            final(self).spec_input() == old(self).spec_input(),
    {
        if self.stage.commands_accepted() && !(self.style.decorations == decorations) {
            self.style = StyleInfo { decorations, ..self.style };
            let ghost before = self.commands@;
            self.commands.push(Command::SetDecorations(decorations));
            proof {
                lemma_commands_view_push(before, Command::SetDecorations(decorations));
            }
        }
    }

    /// Requests a theme. Idempotent against the cached requested theme;
    /// the platform resolves `Auto` and `Dark` against its dark-mode
    /// support when the command is applied (see
    /// [`state::resolve_theme`]).
    pub fn set_theme(&mut self, theme: Theme)
        requires
            old(self).wf(),
        ensures
            final(self).wf(),
            final(self)@ == spec_set_theme(old(self)@, theme),
            final(self).spec_input() == old(self).spec_input(),
    {
        if self.stage.commands_accepted() && !(self.theme == theme) {
            self.theme = theme;
            let ghost before = self.commands@;
            self.commands.push(Command::SetTheme(theme));
            proof {
                lemma_commands_view_push(before, Command::SetTheme(theme));
            }
        }
    }

    /// Requests a fullscreen mode, or windowed with `None`. Idempotent
    /// against the cached value.
    pub fn set_fullscreen(&mut self, fullscreen: Option<Fullscreen>)
        requires
            old(self).wf(),
        ensures
            final(self).wf(),
            final(self)@ == spec_set_fullscreen(old(self)@, fullscreen),
            final(self).spec_input() == old(self).spec_input(),
    {
        let same = match (self.style.fullscreen, fullscreen) {
            (Some(a), Some(b)) => a == b,
            (None, None) => true,
            _ => false,
        };
        if self.stage.commands_accepted() && !same {
            self.style = StyleInfo { fullscreen, ..self.style };
            let ghost before = self.commands@;
            self.commands.push(Command::SetFullscreen(fullscreen));
            proof {
                lemma_commands_view_push(before, Command::SetFullscreen(fullscreen));
            }
        }
    }

    /// Requests a cursor mode. Idempotent against the cached value.
    pub fn set_cursor_mode(&mut self, cursor_mode: CursorMode)
        requires
            old(self).wf(),
        ensures
            final(self).wf(),
            final(self)@ == spec_set_cursor_mode(old(self)@, cursor_mode),
            final(self).spec_input() == old(self).spec_input(),
    {
        if self.stage.commands_accepted() && !(self.cursor.mode == cursor_mode) {
            self.cursor = CursorInfo { mode: cursor_mode, ..self.cursor };
            let ghost before = self.commands@;
            self.commands.push(Command::SetCursorMode(cursor_mode));
            proof {
                lemma_commands_view_push(before, Command::SetCursorMode(cursor_mode));
            }
        }
    }

    /// Requests cursor visibility. Idempotent against the cached value.
    pub fn set_cursor_visibility(&mut self, cursor_visibility: Visibility)
        requires
            old(self).wf(),
        ensures
            final(self).wf(),
            final(self)@ == spec_set_cursor_visibility(old(self)@, cursor_visibility),
            final(self).spec_input() == old(self).spec_input(),
    {
        if self.stage.commands_accepted() && !(self.cursor.visibility == cursor_visibility) {
            self.cursor = CursorInfo { visibility: cursor_visibility, ..self.cursor };
            let ghost before = self.commands@;
            self.commands.push(Command::SetCursorVisibility(cursor_visibility));
            proof {
                lemma_commands_view_push(before, Command::SetCursorVisibility(cursor_visibility));
            }
        }
    }

    /// Sets the title. Idempotent against the cached title; the queued
    /// command carries the full new window text, new title then unchanged
    /// subtitle.
    pub fn set_title(&mut self, title: String)
        requires
            old(self).wf(),
        ensures
            final(self).wf(),
            final(self)@ == spec_set_title(old(self)@, title@),
            final(self).spec_input() == old(self).spec_input(),
    {
        if self.stage.commands_accepted() && !(title == self.title) {
            let command = Command::SetWindowText(title.clone(), self.subtitle.clone());
            self.title = title;
            let ghost before = self.commands@;
            self.commands.push(command);
            proof {
                lemma_commands_view_push(before, command);
            }
        }
    }

    /// Sets the text shown after the title. Idempotent against the cached
    /// subtitle; the queued command carries the full new window text.
    pub fn set_subtitle(&mut self, subtitle: String)
        requires
            old(self).wf(),
        ensures
            final(self).wf(),
            final(self)@ == spec_set_subtitle(old(self)@, subtitle@),
            final(self).spec_input() == old(self).spec_input(),
    {
        if self.stage.commands_accepted() && !(subtitle == self.subtitle) {
            let command = Command::SetWindowText(self.title.clone(), subtitle.clone());
            self.subtitle = subtitle;
            let ghost before = self.commands@;
            self.commands.push(command);
            proof {
                lemma_commands_view_push(before, command);
            }
        }
    }

    /// Requests a redraw. A no-op while one is already pending; the flag
    /// clears when the platform thread publishes the draw message.
    pub fn request_redraw(&mut self)
        requires
            old(self).wf(),
        ensures
            final(self).wf(),
            final(self)@ == spec_request_redraw(old(self)@),
            final(self).spec_input() == old(self).spec_input(),
    {
        if self.stage.commands_accepted() && !self.requested_redraw {
            self.requested_redraw = true;
            let ghost before = self.commands@;
            self.commands.push(Command::Redraw);
            proof {
                lemma_commands_view_push(before, Command::Redraw);
            }
        }
    }

    /// Requests the window be closed: the stage advances to `Closing` and
    /// one close command is queued. A no-op when the window is already
    /// closing or past.
    pub fn close(&mut self)
        requires
            old(self).wf(),
        ensures
            final(self).wf(),
            final(self)@ == spec_close(old(self)@),
            final(self).spec_input() == old(self).spec_input(),
    {
        if !self.stage.is_closing() {
            self.stage = Stage::Closing;
            let ghost before = self.commands@;
            self.commands.push(Command::Close);
            proof {
                lemma_commands_view_push(before, Command::Close);
            }
        }
    }

    /// Queues the destroy command that makes the platform thread tear the
    /// native resource down; a no-op once it is already gone. Part of the
    /// teardown protocol: the owner queues this, then calls
    /// [`Window::exit_loop`], then joins the platform thread.
    pub fn request_destroy(&mut self)
        requires
            old(self).wf(),
        ensures
            final(self).wf(),
            final(self)@ == spec_request_destroy(old(self)@),
            final(self).spec_input() == old(self).spec_input(),
    {
        if self.stage.commands_accepted() {
            let ghost before = self.commands@;
            self.commands.push(Command::Destroy);
            proof {
                lemma_commands_view_push(before, Command::Destroy);
            }
        }
    }

    /// Forces the terminal stage and raises the frame gate so a platform
    /// thread blocked waiting for a frame request wakes up and observes
    /// the exit.
    pub fn exit_loop(&mut self)
        requires
            old(self).wf(),
        ensures
            final(self).wf(),
            final(self)@ == spec_exit_loop(old(self)@),
            final(self).spec_input() == old(self).spec_input(),
    {
        self.stage = Stage::ExitLoop;
        self.next_frame = true;
    }

    // THE HANDSHAKE

    /// The consumer's half of the handshake: announces readiness for one
    /// more message by raising the frame gate.
    pub fn request_next_frame(&mut self)
        requires
            old(self).wf(),
        ensures
            final(self).wf(),
            final(self)@ == spec_request_next_frame(old(self)@),
            final(self).spec_input() == old(self).spec_input(),
    {
        self.next_frame = true;
    }

    /// The platform thread removes the whole pending queue, to apply each
    /// command, in order, to the native resource.
    pub fn drain_commands(&mut self) -> (drained: Vec<Command>)
        requires
            old(self).wf(),
        ensures
            final(self).wf(),
            final(self)@ == spec_drain(old(self)@),
            drained@.map_values(|c: Command| c@) == old(self)@.commands,
            final(self).spec_input() == old(self).spec_input(),
    {
        let mut drained: Vec<Command> = Vec::new();
        core::mem::swap(&mut drained, &mut self.commands);
        proof {
            assert(Seq::<Command>::empty().map_values(|c: Command| c@) =~= Seq::<
                command::CommandView,
            >::empty());
        }
        drained
    }

    /// The platform thread's half of the handshake: publishes one
    /// translated message into the empty mailbox, raises the message gate
    /// and consumes the frame request. Key and mouse-button messages are
    /// recorded in the cached input table as they pass through; a draw
    /// message clears the pending-redraw flag.
    ///
    /// Requires [`publish_enabled`]: the consumer asked for a frame, the
    /// previous message was taken out — writing over an undelivered
    /// message would lose it — and the loop has not terminated.
    pub fn producer_publish(&mut self, message: Message)
        requires
            old(self).wf(),
            publish_enabled(old(self)@),
        ensures
            final(self).wf(),
            final(self)@ == spec_publish(old(self)@, message),
            forall|code: u16|
                final(self).spec_input().spec_key(code) == spec_cached_key(
                    old(self).spec_input().spec_key(code),
                    message,
                    code,
                ),
            forall|button: Mouse|
                final(self).spec_input().spec_mouse(button) == spec_cached_button(
                    old(self).spec_input().spec_mouse(button),
                    message,
                    button,
                ),
    {
        match message {
            Message::Window(WindowMessage::Key { key, state, .. }) => {
                self.input.update_key(key, state);
            },
            Message::Window(WindowMessage::MouseButton { button, state, .. }) => {
                self.input.update_mouse(button, state);
            },
            Message::Window(WindowMessage::Draw) => {
                self.requested_redraw = false;
            },
            _ => {},
        }
        self.mailbox = Some(message);
        self.new_message = true;
        self.next_frame = false;
    }

    /// The consumer empties the mailbox and lowers the message gate,
    /// returning the message, or the empty placeholder when nothing was
    /// ready. Under `Flow::Wait` the caller blocks on the message gate
    /// first, so a message is present.
    fn take_message(&mut self) -> (r: Option<Message>)
        requires
            old(self).wf(),
            old(self)@.flow == Flow::Wait ==> old(self)@.new_message,
        ensures
            final(self).wf(),
            final(self)@ == spec_after_take(old(self)@),
            r == Some(spec_taken(old(self)@)),
            final(self).spec_input() == old(self).spec_input(),
    {
        let taken = match self.mailbox {
            Some(message) => message,
            None => Message::Empty,
        };
        self.mailbox = None;
        self.new_message = false;
        Some(taken)
    }

    /// Advances the handshake by one consumer step and returns the next
    /// message, or `None` once no message will ever come again.
    ///
    /// The frame gate is raised first, whatever the stage. Before looping
    /// no message is delivered. While looping, the mailbox value (or the
    /// empty placeholder under `Flow::Poll`) is delivered, and an external
    /// close request closes the window when `close_on_x` is set. A closing
    /// window delivers `Closing`, then — the native resource now gone —
    /// `Closed`, and from the terminal stage every further call returns
    /// `None`.
    ///
    /// Under `Flow::Wait` in the looping stage the caller blocks on the
    /// message gate before calling, so a message is present.
    pub fn next_message(&mut self) -> (r: Option<Message>)
        requires
            old(self).wf(),
            old(self)@.flow == Flow::Wait && old(self)@.stage == Stage::Looping ==> old(
                self,
            )@.new_message,
        ensures
            final(self).wf(),
            final(self)@ == spec_next_message(old(self)@).0,
            r == spec_next_message(old(self)@).1,
            final(self).spec_input() == old(self).spec_input(),
    {
        self.next_frame = true;

        match self.stage {
            Stage::Setup | Stage::Ready => None,
            Stage::Looping => {
                let message = match self.take_message() {
                    Some(message) => message,
                    None => Message::Empty,
                };
                let close_requested = matches!(
                    message,
                    Message::Window(WindowMessage::CloseRequested)
                );
                if close_requested && self.close_on_x {
                    self.close();
                }
                Some(message)
            },
            Stage::Closing => {
                self.mailbox = None;
                self.new_message = false;
                self.stage = Stage::Destroyed;
                Some(Message::Window(WindowMessage::Closing))
            },
            Stage::Destroyed => {
                self.stage = Stage::ExitLoop;
                Some(Message::Window(WindowMessage::Closed))
            },
            Stage::ExitLoop => None,
        }
    }

    /// Begins message iteration: a ready window moves to the looping
    /// stage; a window in any other stage is left as it is, and a window
    /// already past its loop simply yields nothing.
    pub fn iter(self) -> (it: MessageIterator)
        requires
            self.wf(),
        ensures
            it.window.wf(),
            it.window@ == spec_begin_iteration(self@),
            it.window.spec_input() == self.spec_input(),
    {
        let mut window = self;
        if matches!(window.stage, Stage::Ready) {
            window.stage = Stage::Looping;
        }
        MessageIterator { window }
    }
}

/// Pull-based iteration over a window's messages: each step advances the
/// handshake once. The window is carried by value and can be taken back
/// with [`MessageIterator::into_window`].
pub struct MessageIterator {
    /// The window being iterated.
    pub window: Window,
}

impl MessageIterator {
    /// One iteration step: exactly [`Window::next_message`] on the carried
    /// window.
    pub fn next(&mut self) -> (r: Option<Message>)
        requires
            old(self).window.wf(),
            old(self).window@.flow == Flow::Wait && old(self).window@.stage == Stage::Looping
                ==> old(self).window@.new_message,
        ensures
            final(self).window.wf(),
            final(self).window@ == spec_next_message(old(self).window@).0,
            r == spec_next_message(old(self).window@).1,
            final(self).window.spec_input() == old(self).window.spec_input(),
    {
        self.window.next_message()
    }

    /// Hands the window back.
    pub fn into_window(self) -> (w: Window)
        ensures
            w == self.window,
    {
        self.window
    }
}

/// Pull-based iteration over a borrowed window: each step advances the
/// handshake once, and the window stays with its owner.
pub struct MessageIteratorMut<'a> {
    /// The window being iterated.
    pub window: &'a mut Window,
}

impl Window {
    /// Begins message iteration over a borrowed window: a ready window
    /// moves to the looping stage; any other stage is left as it is.
    pub fn iter_mut(&mut self) -> (it: MessageIteratorMut)
        requires
            old(self).wf(),
        ensures
            it.window.wf(),
            it.window@ == spec_begin_iteration(old(self)@),
            it.window.spec_input() == old(self).spec_input(),
            *final(self) == *final(it.window),
    {
        if matches!(self.stage, Stage::Ready) {
            self.stage = Stage::Looping;
        }
        MessageIteratorMut { window: self }
    }
}

impl<'a> MessageIteratorMut<'a> {
    /// One iteration step: exactly [`Window::next_message`] on the
    /// borrowed window.
    pub fn next(&mut self) -> (r: Option<Message>)
        requires
            old(self).window.wf(),
            old(self).window@.flow == Flow::Wait && old(self).window@.stage == Stage::Looping
                ==> old(self).window@.new_message,
        ensures
            final(self).window.wf(),
            final(self).window@ == spec_next_message(old(self).window@).0,
            r == spec_next_message(old(self).window@).1,
            final(self).window.spec_input() == old(self).window.spec_input(),
            *final(old(self).window) == *final(final(self).window),
    {
        self.window.next_message()
    }
}

} // verus!
