//! The mathematical model of one window: its shared state, command queue,
//! handshake gates and mailbox, and the transition each handle operation
//! performs on them.
//!
//! Every executable operation on [`crate::window::Window`] promises in its
//! contract that the window's view moves exactly as the spec function here
//! of the same name says. The proof functions at the end state the protocol
//! laws over those transitions.
use vstd::prelude::*;

use crate::window::command::CommandView;
use crate::window::input::{ButtonState, KeyState, Mouse, KEY_TABLE_LEN};
use crate::window::message::{Message, WindowMessage};
use crate::window::stage::Stage;
use crate::window::state::{
    CursorInfo, CursorMode, Flow, Fullscreen, Position, Size, StyleInfo, Theme, Visibility,
};

verus! {

/// The abstract state of one window: everything both threads coordinate
/// over, with text as character sequences and the command queue as a
/// sequence of command values.
///
/// The cached input table is modelled separately (see
/// [`crate::window::input::Input`]); no transition here depends on it.
#[verifier::ext_equal]
pub struct WindowView {
    /// Lifecycle stage; moves strictly forward.
    pub stage: Stage,
    /// Blocking policy, fixed at construction.
    pub flow: Flow,
    /// Window title.
    pub title: Seq<char>,
    /// Text appended after the title in the native window text.
    pub subtitle: Seq<char>,
    /// Cached frame size.
    pub size: Size,
    /// Cached frame position; `None` until one is requested.
    pub position: Option<Position>,
    /// Cached style flags.
    pub style: StyleInfo,
    /// Cached requested theme.
    pub theme: Theme,
    /// Cached cursor configuration.
    pub cursor: CursorInfo,
    /// Whether an external close request closes the window.
    pub close_on_x: bool,
    /// Whether a redraw command is already pending.
    pub requested_redraw: bool,
    /// The pending configuration commands, oldest first.
    pub commands: Seq<CommandView>,
    /// Handshake gate set by the consumer when it is ready for the next
    /// message.
    pub next_frame: bool,
    /// Handshake gate set by the platform thread when the mailbox is
    /// filled, cleared by the consumer when it takes the message.
    pub new_message: bool,
    /// The single-slot holder of the one undelivered message.
    pub mailbox: Option<Message>,
}

/// One handle request, as the interpreter of request sequences sees it.
pub enum Request {
    SetPosition(Position),
    SetSize(Size),
    SetVisibility(Visibility),
    SetDecorations(Visibility),
    SetTheme(Theme),
    SetFullscreen(Option<Fullscreen>),
    SetCursorMode(CursorMode),
    SetCursorVisibility(Visibility),
    SetTitle(Seq<char>),
    SetSubtitle(Seq<char>),
    Redraw,
    Close,
}

// ---------------------------------------------------------------------------
// Setter transitions. Each compares the requested value against the cached
// one, and is the identity when they agree or when the native resource is
// already gone; otherwise it updates the cache and appends exactly one
// command.
// ---------------------------------------------------------------------------

/// Transition of `set_outer_position`.
pub open spec fn spec_set_position(v: WindowView, position: Position) -> WindowView {
    if !v.stage.accepts_commands() || v.position == Some(position) {
        v
    } else {
        WindowView {
            position: Some(position),
            commands: v.commands.push(CommandView::SetPosition(position)),
            ..v
        }
    }
}

/// Transition of `set_outer_size` and `set_inner_size`.
pub open spec fn spec_set_size(v: WindowView, size: Size) -> WindowView {
    if !v.stage.accepts_commands() || v.size == size {
        v
    } else {
        WindowView { size, commands: v.commands.push(CommandView::SetSize(size)), ..v }
    }
}

/// Transition of `set_visibility`.
pub open spec fn spec_set_visibility(v: WindowView, visibility: Visibility) -> WindowView {
    if !v.stage.accepts_commands() || v.style.visibility == visibility {
        v
    } else {
        WindowView {
            style: StyleInfo { visibility, ..v.style },
            commands: v.commands.push(CommandView::SetVisibility(visibility)),
            ..v
        }
    }
}

/// Transition of `set_decorations`.
pub open spec fn spec_set_decorations(v: WindowView, decorations: Visibility) -> WindowView {
    if !v.stage.accepts_commands() || v.style.decorations == decorations {
        v
    } else {
        WindowView {
            style: StyleInfo { decorations, ..v.style },
            commands: v.commands.push(CommandView::SetDecorations(decorations)),
            ..v
        }
    }
}

/// Transition of `set_theme`.
pub open spec fn spec_set_theme(v: WindowView, theme: Theme) -> WindowView {
    if !v.stage.accepts_commands() || v.theme == theme {
        v
    } else {
        WindowView { theme, commands: v.commands.push(CommandView::SetTheme(theme)), ..v }
    }
}

/// Transition of `set_fullscreen`.
pub open spec fn spec_set_fullscreen(v: WindowView, fullscreen: Option<Fullscreen>) -> WindowView {
    if !v.stage.accepts_commands() || v.style.fullscreen == fullscreen {
        v
    } else {
        WindowView {
            style: StyleInfo { fullscreen, ..v.style },
            commands: v.commands.push(CommandView::SetFullscreen(fullscreen)),
            ..v
        }
    }
}

/// Transition of `set_cursor_mode`.
pub open spec fn spec_set_cursor_mode(v: WindowView, mode: CursorMode) -> WindowView {
    if !v.stage.accepts_commands() || v.cursor.mode == mode {
        v
    } else {
        WindowView {
            cursor: CursorInfo { mode, ..v.cursor },
            commands: v.commands.push(CommandView::SetCursorMode(mode)),
            ..v
        }
    }
}

/// Transition of `set_cursor_visibility`.
pub open spec fn spec_set_cursor_visibility(v: WindowView, visibility: Visibility) -> WindowView {
    if !v.stage.accepts_commands() || v.cursor.visibility == visibility {
        v
    } else {
        WindowView {
            cursor: CursorInfo { visibility, ..v.cursor },
            commands: v.commands.push(CommandView::SetCursorVisibility(visibility)),
            ..v
        }
    }
}

/// Transition of `set_title`. The queued command carries the full new
/// native window text: the new title with the unchanged subtitle.
pub open spec fn spec_set_title(v: WindowView, title: Seq<char>) -> WindowView {
    if !v.stage.accepts_commands() || v.title == title {
        v
    } else {
        WindowView {
            title,
            commands: v.commands.push(CommandView::SetWindowText(title, v.subtitle)),
            ..v
        }
    }
}

/// Transition of `set_subtitle`.
pub open spec fn spec_set_subtitle(v: WindowView, subtitle: Seq<char>) -> WindowView {
    if !v.stage.accepts_commands() || v.subtitle == subtitle {
        v
    } else {
        WindowView {
            subtitle,
            commands: v.commands.push(CommandView::SetWindowText(v.title, subtitle)),
            ..v
        }
    }
}

/// Transition of `request_redraw`: idempotent through the
/// `requested_redraw` flag, which the platform thread clears when it
/// publishes the draw message.
pub open spec fn spec_request_redraw(v: WindowView) -> WindowView {
    if !v.stage.accepts_commands() || v.requested_redraw {
        v
    } else {
        WindowView {
            requested_redraw: true,
            commands: v.commands.push(CommandView::Redraw),
            ..v
        }
    }
}

/// Transition of `close`: a no-op once the window is closing or past;
/// otherwise the stage advances to `Closing` and one close command is
/// queued.
pub open spec fn spec_close(v: WindowView) -> WindowView {
    if v.stage.spec_is_closing() {
        v
    } else {
        WindowView { stage: Stage::Closing, commands: v.commands.push(CommandView::Close), ..v }
    }
}

/// Transition of `request_destroy`: queues the destroy command that makes
/// the platform thread tear the native resource down, unless it is already
/// gone.
pub open spec fn spec_request_destroy(v: WindowView) -> WindowView {
    if !v.stage.accepts_commands() {
        v
    } else {
        WindowView { commands: v.commands.push(CommandView::Destroy), ..v }
    }
}

/// Transition of `exit_loop`: forces the terminal stage and releases the
/// platform thread from any outstanding frame wait.
pub open spec fn spec_exit_loop(v: WindowView) -> WindowView {
    WindowView { stage: Stage::ExitLoop, next_frame: true, ..v }
}

// ---------------------------------------------------------------------------
// Handshake transitions.
// ---------------------------------------------------------------------------

/// Transition of `request_next_frame`: the consumer's half of the
/// handshake, announcing it is ready for one more message.
pub open spec fn spec_request_next_frame(v: WindowView) -> WindowView {
    WindowView { next_frame: true, ..v }
}

/// The platform thread may write the mailbox: the consumer has asked for a
/// frame, the previous message has been taken out, and the loop has not
/// terminated.
pub open spec fn publish_enabled(v: WindowView) -> bool {
    &&& v.next_frame
    &&& v.mailbox is None
    &&& v.stage != Stage::ExitLoop
}

/// Transition of `producer_publish`: the platform thread fills the empty
/// mailbox with one translated message and raises the message gate,
/// consuming the frame request. Publishing the pending draw message clears
/// the redraw flag, so a redraw may be requested again.
pub open spec fn spec_publish(v: WindowView, message: Message) -> WindowView {
    WindowView {
        mailbox: Some(message),
        new_message: true,
        next_frame: false,
        requested_redraw: if message == Message::Window(WindowMessage::Draw) {
            false
        } else {
            v.requested_redraw
        },
        ..v
    }
}

/// The cached state of one key after a message is published: a key message
/// for a code the table covers records its state; everything else leaves
/// the cache alone.
pub open spec fn spec_cached_key(previous: KeyState, message: Message, code: u16) -> KeyState {
    match message {
        Message::Window(WindowMessage::Key { key, state, .. }) => if key.code == code && code
            < KEY_TABLE_LEN {
            state
        } else {
            previous
        },
        _ => previous,
    }
}

/// The cached state of one mouse button after a message is published.
pub open spec fn spec_cached_button(
    previous: ButtonState,
    message: Message,
    button: Mouse,
) -> ButtonState {
    match message {
        Message::Window(WindowMessage::MouseButton { button: b, state, .. }) => if b == button {
            state
        } else {
            previous
        },
        _ => previous,
    }
}

/// The message the consumer takes: the mailbox value, or the empty
/// placeholder when nothing is ready.
pub open spec fn spec_taken(v: WindowView) -> Message {
    match v.mailbox {
        Some(m) => m,
        None => Message::Empty,
    }
}

/// State after the consumer empties the mailbox and lowers the message
/// gate.
pub open spec fn spec_after_take(v: WindowView) -> WindowView {
    WindowView { mailbox: None, new_message: false, ..v }
}

/// Transition of `drain_commands`: the platform thread removes the whole
/// queue, to apply it in order.
pub open spec fn spec_drain(v: WindowView) -> WindowView {
    WindowView { commands: Seq::empty(), ..v }
}

/// Transition of `iter`: the first iteration call moves a ready window
/// into the looping stage; in any other stage it changes nothing.
pub open spec fn spec_begin_iteration(v: WindowView) -> WindowView {
    if v.stage == Stage::Ready {
        WindowView { stage: Stage::Looping, ..v }
    } else {
        v
    }
}

/// Transition and result of `next_message`. The frame gate is raised
/// first, whatever the stage. Before looping no message is delivered; in
/// the looping stage the mailbox (or the empty placeholder) is delivered,
/// and an external close request closes the window when `close_on_x` is
/// set; a closing window reports `Closing` and then, once the native
/// resource is gone, `Closed`; the terminal stage delivers nothing, ever.
pub open spec fn spec_next_message(v: WindowView) -> (WindowView, Option<Message>) {
    let signalled = spec_request_next_frame(v);
    match v.stage {
        Stage::Setup | Stage::Ready => (signalled, None),
        Stage::Looping => {
            let taken = spec_taken(signalled);
            let after = spec_after_take(signalled);
            if taken == Message::Window(WindowMessage::CloseRequested) && v.close_on_x {
                (spec_close(after), Some(taken))
            } else {
                (after, Some(taken))
            }
        },
        Stage::Closing => (
            WindowView { stage: Stage::Destroyed, ..spec_after_take(signalled) },
            Some(Message::Window(WindowMessage::Closing)),
        ),
        Stage::Destroyed => (
            WindowView { stage: Stage::ExitLoop, ..signalled },
            Some(Message::Window(WindowMessage::Closed)),
        ),
        Stage::ExitLoop => (signalled, None),
    }
}

// ---------------------------------------------------------------------------
// The request interpreter: what a sequence of handle calls does to the
// state, and which commands it leaves in the queue.
// ---------------------------------------------------------------------------

/// Applies one request.
pub open spec fn apply_request(v: WindowView, r: Request) -> WindowView {
    match r {
        Request::SetPosition(position) => spec_set_position(v, position),
        Request::SetSize(size) => spec_set_size(v, size),
        Request::SetVisibility(visibility) => spec_set_visibility(v, visibility),
        Request::SetDecorations(decorations) => spec_set_decorations(v, decorations),
        Request::SetTheme(theme) => spec_set_theme(v, theme),
        Request::SetFullscreen(fullscreen) => spec_set_fullscreen(v, fullscreen),
        Request::SetCursorMode(mode) => spec_set_cursor_mode(v, mode),
        Request::SetCursorVisibility(visibility) => spec_set_cursor_visibility(v, visibility),
        Request::SetTitle(title) => spec_set_title(v, title),
        Request::SetSubtitle(subtitle) => spec_set_subtitle(v, subtitle),
        Request::Redraw => spec_request_redraw(v),
        Request::Close => spec_close(v),
    }
}

/// Applies a sequence of requests, oldest first.
pub open spec fn apply_requests(v: WindowView, rs: Seq<Request>) -> WindowView
    decreases rs.len(),
{
    if rs.len() == 0 {
        v
    } else {
        apply_requests(apply_request(v, rs[0]), rs.skip(1))
    }
}

/// The commands a sequence of requests appends to the queue, in request
/// order.
pub open spec fn emitted_commands(v: WindowView, rs: Seq<Request>) -> Seq<CommandView>
    decreases rs.len(),
{
    if rs.len() == 0 {
        Seq::empty()
    } else {
        let next = apply_request(v, rs[0]);
        next.commands.skip(v.commands.len() as int) + emitted_commands(next, rs.skip(1))
    }
}

// ---------------------------------------------------------------------------
// Laws.
// ---------------------------------------------------------------------------

/// Each request leaves the queued commands it found untouched, in place,
/// and appends anything new behind them.
pub proof fn lemma_request_appends(v: WindowView, r: Request)
    ensures
        apply_request(v, r).commands.len() >= v.commands.len(),
        apply_request(v, r).commands.subrange(0, v.commands.len() as int) == v.commands,
        apply_request(v, r).commands == v.commands + apply_request(v, r).commands.skip(
            v.commands.len() as int,
        ),
{
    let after = apply_request(v, r).commands;
    assert(after == v.commands || (exists|c: CommandView| after == v.commands.push(c)));
    assert(after.subrange(0, v.commands.len() as int) =~= v.commands);
    assert(after =~= v.commands + after.skip(v.commands.len() as int));
}

/// FIFO ordering: however many setter calls are issued before the platform
/// thread next drains the queue, the commands they queued stand behind the
/// ones already pending, in exactly the order the calls were made — the
/// order `emitted_commands` lists them in. Draining hands the queue over
/// unchanged, so the platform thread applies them in that same order.
pub proof fn lemma_setters_fifo(v: WindowView, rs: Seq<Request>)
    ensures
        apply_requests(v, rs).commands == v.commands + emitted_commands(v, rs),
    decreases rs.len(),
{
    if rs.len() == 0 {
        assert(apply_requests(v, rs).commands =~= v.commands + emitted_commands(v, rs));
    } else {
        let next = apply_request(v, rs[0]);
        lemma_request_appends(v, rs[0]);
        lemma_setters_fifo(next, rs.skip(1));
        assert(apply_requests(v, rs).commands =~= v.commands + emitted_commands(v, rs));
    }
}

/// The lifecycle only moves forward: no request ever lowers the stage
/// index.
pub proof fn lemma_request_stage_forward(v: WindowView, r: Request)
    ensures
        apply_request(v, r).stage.index() >= v.stage.index(),
        v.stage == Stage::ExitLoop ==> apply_request(v, r).stage == Stage::ExitLoop,
{
}

/// The lifecycle only moves forward under any sequence of requests.
pub proof fn lemma_requests_stage_forward(v: WindowView, rs: Seq<Request>)
    ensures
        apply_requests(v, rs).stage.index() >= v.stage.index(),
        v.stage == Stage::ExitLoop ==> apply_requests(v, rs).stage == Stage::ExitLoop,
    decreases rs.len(),
{
    if rs.len() > 0 {
        lemma_request_stage_forward(v, rs[0]);
        lemma_requests_stage_forward(apply_request(v, rs[0]), rs.skip(1));
    }
}

/// The lifecycle only moves forward through message retrieval.
pub proof fn lemma_next_message_stage_forward(v: WindowView)
    ensures
        spec_next_message(v).0.stage.index() >= v.stage.index(),
{
}

/// Terminality of the exit stage: once the stage is `ExitLoop`, any
/// further requests leave it there, and every further `next_message`
/// delivers nothing and leaves the stage there.
pub proof fn lemma_exit_loop_terminal(v: WindowView, rs: Seq<Request>)
    requires
        v.stage == Stage::ExitLoop,
    ensures
        apply_requests(v, rs).stage == Stage::ExitLoop,
        spec_next_message(apply_requests(v, rs)).1 is None,
        spec_next_message(apply_requests(v, rs)).0.stage == Stage::ExitLoop,
{
    lemma_requests_stage_forward(v, rs);
}

/// Mailbox single-slot protocol: publishing is only enabled into an empty
/// mailbox; it fills the one slot and disables further publishing until
/// the consumer has taken the message out, which empties the slot again.
pub proof fn lemma_mailbox_single_slot(v: WindowView, message: Message)
    requires
        publish_enabled(v),
    ensures
        spec_publish(v, message).mailbox == Some(message),
        !publish_enabled(spec_publish(v, message)),
        spec_after_take(spec_publish(v, message)).mailbox is None,
{
}

/// Idempotence of the visibility setter: when a change of visibility is
/// requested, exactly one command is queued, and repeating the same
/// request queues nothing further and changes nothing at all.
pub proof fn lemma_set_visibility_idempotent(v: WindowView, visibility: Visibility)
    requires
        v.stage.accepts_commands(),
        v.style.visibility != visibility,
    ensures
        spec_set_visibility(v, visibility).commands == v.commands.push(
            CommandView::SetVisibility(visibility),
        ),
        spec_set_visibility(spec_set_visibility(v, visibility), visibility)
            == spec_set_visibility(v, visibility),
{
}

/// Idempotence of `close`: a second close request is a no-op — the stage
/// stays where the first request put it and no duplicate command is
/// queued.
pub proof fn lemma_close_idempotent(v: WindowView)
    ensures
        spec_close(spec_close(v)) == spec_close(v),
        v.stage.spec_is_closing() ==> spec_close(v) == v,
{
}

/// Every handle request is idempotent: issuing the same request twice in a
/// row leaves exactly the state — and so exactly the queued commands — of
/// issuing it once.
pub proof fn lemma_requests_idempotent(v: WindowView, r: Request)
    ensures
        apply_request(apply_request(v, r), r) == apply_request(v, r),
{
}

/// The per-cycle ordering guarantee: when the platform thread runs one
/// handshake cycle, every command queued before the cycle — the pending
/// ones first, then whatever the given requests appended, in call order —
/// leaves with the drain, and only then is the cycle's one message
/// published, into an empty queue.
pub proof fn lemma_commands_drained_before_event(
    v: WindowView,
    rs: Seq<Request>,
    message: Message,
)
    requires
        publish_enabled(spec_drain(apply_requests(v, rs))),
    ensures
        ({
            let queued = apply_requests(v, rs);
            let published = spec_publish(spec_drain(queued), message);
            &&& queued.commands == v.commands + emitted_commands(v, rs)
            &&& published.commands == Seq::<CommandView>::empty()
            &&& published.mailbox == Some(message)
        }),
{
    lemma_setters_fifo(v, rs);
}

} // verus!
