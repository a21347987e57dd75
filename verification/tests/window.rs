use witer::window::command::Command;
use witer::window::input::{ButtonState, Key, KeyState, Mouse};
use witer::window::message::{Message, WindowMessage};
use witer::window::settings::WindowSettings;
use witer::window::stage::Stage;
use witer::window::state::{Flow, Position, Size, Theme, Visibility};
use witer::window::Window;

fn fresh_window(settings: WindowSettings) -> Window {
    let mut window = Window::new(settings);
    // Discard the initial configuration commands so tests observe only
    // what they queue themselves.
    let _ = window.drain_commands();
    window
}

#[test]
fn new_window_is_ready_and_mirrors_settings() {
    let settings = WindowSettings::default()
        .with_title("Main")
        .with_size(Size { width: 640, height: 480 })
        .with_flow(Flow::Poll)
        .with_theme(Theme::Dark);
    let window = Window::new(settings);
    assert_eq!(window.stage(), Stage::Ready);
    assert_eq!(window.title(), "Main");
    assert_eq!(window.subtitle(), "");
    assert_eq!(window.outer_size(), Size { width: 640, height: 480 });
    assert_eq!(window.inner_size(), Size { width: 640, height: 480 });
    assert_eq!(window.outer_position(), None);
    assert_eq!(window.inner_position(), None);
    assert_eq!(window.flow(), Flow::Poll);
    assert_eq!(window.theme(), Theme::Dark);
    assert_eq!(window.visibility(), Visibility::Shown);
    assert_eq!(window.fullscreen(), None);
    assert!(!window.is_closing());
    assert!(!window.frame_requested());
    assert!(!window.message_ready());
}

#[test]
fn new_window_queues_initial_commands_in_order() {
    let settings = WindowSettings::default()
        .with_size(Size { width: 300, height: 200 })
        .with_position(Some(Position { x: 10, y: 20 }))
        .with_theme(Theme::Dark)
        .with_visibility(Visibility::Hidden);
    let mut window = Window::new(settings);
    let drained = window.drain_commands();
    assert_eq!(
        drained,
        vec![
            Command::SetPosition(Position { x: 10, y: 20 }),
            Command::SetSize(Size { width: 300, height: 200 }),
            Command::SetDecorations(Visibility::Shown),
            Command::SetTheme(Theme::Dark),
            Command::SetVisibility(Visibility::Hidden),
            Command::SetFullscreen(None),
        ]
    );
    // The queue is now empty.
    assert_eq!(window.drain_commands(), vec![]);
}

#[test]
fn setters_queue_commands_in_call_order() {
    let mut window = fresh_window(WindowSettings::default());
    window.set_title("First".to_string());
    window.set_outer_size(Size { width: 1024, height: 768 });
    window.set_visibility(Visibility::Hidden);
    window.set_outer_position(Position { x: 5, y: 6 });
    window.set_subtitle(" - edited".to_string());
    let drained = window.drain_commands();
    assert_eq!(
        drained,
        vec![
            Command::SetWindowText("First".to_string(), "".to_string()),
            Command::SetSize(Size { width: 1024, height: 768 }),
            Command::SetVisibility(Visibility::Hidden),
            Command::SetPosition(Position { x: 5, y: 6 }),
            Command::SetWindowText("First".to_string(), " - edited".to_string()),
        ]
    );
}

#[test]
fn set_visibility_twice_queues_exactly_one_command() {
    let settings = WindowSettings::default().with_visibility(Visibility::Hidden);
    let mut window = fresh_window(settings);
    window.set_visibility(Visibility::Shown);
    window.set_visibility(Visibility::Shown);
    let drained = window.drain_commands();
    assert_eq!(drained, vec![Command::SetVisibility(Visibility::Shown)]);
    assert_eq!(window.visibility(), Visibility::Shown);
}

#[test]
fn each_setter_is_idempotent_against_the_cache() {
    let mut window = fresh_window(WindowSettings::default());
    window.set_outer_size(Size { width: 800, height: 600 });  // the cached size
    window.set_theme(Theme::Auto);
    window.set_visibility(Visibility::Shown);
    window.set_decorations(Visibility::Shown);
    window.set_fullscreen(None);
    window.set_cursor_mode(witer::window::state::CursorMode::Normal);
    window.set_cursor_visibility(Visibility::Shown);
    window.set_title("Window".to_string());
    window.set_subtitle("".to_string());
    assert_eq!(window.drain_commands(), vec![]);
}

#[test]
fn request_redraw_is_idempotent_until_draw_is_published() {
    let settings = WindowSettings::default().with_flow(Flow::Poll);
    let mut window = fresh_window(settings);
    window.request_redraw();
    window.request_redraw();
    assert_eq!(window.drain_commands(), vec![Command::Redraw]);

    // Publishing the draw message re-arms the flag.
    let mut it = window.iter();
    it.window.request_next_frame();
    it.window.producer_publish(Message::Window(WindowMessage::Draw));
    assert_eq!(it.next(), Some(Message::Window(WindowMessage::Draw)));
    let mut window = it.into_window();
    window.request_redraw();
    assert_eq!(window.drain_commands(), vec![Command::Redraw]);
}

#[test]
fn close_twice_is_a_no_op() {
    let mut window = fresh_window(WindowSettings::default());
    window.close();
    assert_eq!(window.stage(), Stage::Closing);
    let after_first = window.drain_commands();
    assert_eq!(after_first, vec![Command::Close]);

    window.close();
    assert_eq!(window.stage(), Stage::Closing);
    assert_eq!(window.drain_commands(), vec![]);
}

#[test]
fn setters_are_rejected_after_destruction() {
    let settings = WindowSettings::default().with_flow(Flow::Poll);
    let mut window = fresh_window(settings);
    window.close();
    let mut it = window.iter();
    // Closing -> Closing message, Destroyed -> Closed message.
    assert_eq!(it.next(), Some(Message::Window(WindowMessage::Closing)));
    assert_eq!(it.next(), Some(Message::Window(WindowMessage::Closed)));
    let mut window = it.into_window();
    let _ = window.drain_commands();
    window.set_visibility(Visibility::Hidden);
    window.set_title("gone".to_string());
    window.request_redraw();
    window.request_destroy();
    assert_eq!(window.drain_commands(), vec![]);
    // The optimistic cache is untouched too.
    assert_eq!(window.visibility(), Visibility::Shown);
    assert_eq!(window.title(), "Window");
}

#[test]
fn poll_close_sequence_is_closing_closed_then_none() {
    let settings = WindowSettings::default().with_flow(Flow::Poll);
    let mut window = fresh_window(settings);
    window.close();

    let mut it = window.iter();
    let mut seen = Vec::new();
    while let Some(message) = it.next() {
        seen.push(message);
    }
    assert_eq!(
        seen,
        vec![
            Message::Window(WindowMessage::Closing),
            Message::Window(WindowMessage::Closed),
        ]
    );
    // Terminal: every further pull yields nothing.
    assert_eq!(it.next(), None);
    let mut window = it.into_window();
    assert_eq!(window.stage(), Stage::ExitLoop);
    assert_eq!(window.next_message(), None);
    assert_eq!(window.next_message(), None);
}

#[test]
fn external_close_request_sequence_under_wait_flow() {
    let settings = WindowSettings::default().with_flow(Flow::Wait).with_close_on_x(true);
    let mut it = fresh_window(settings).iter();
    assert_eq!(it.window.stage(), Stage::Looping);

    // The platform thread publishes the native close request.
    it.window.request_next_frame();
    it.window.producer_publish(Message::Window(WindowMessage::CloseRequested));

    let mut seen = Vec::new();
    while let Some(message) = it.next() {
        seen.push(message);
    }
    assert_eq!(
        seen,
        vec![
            Message::Window(WindowMessage::CloseRequested),
            Message::Window(WindowMessage::Closing),
            Message::Window(WindowMessage::Closed),
        ]
    );
    assert_eq!(it.next(), None);
    assert_eq!(it.into_window().stage(), Stage::ExitLoop);
}

#[test]
fn close_on_x_disabled_keeps_looping() {
    let settings = WindowSettings::default().with_flow(Flow::Wait).with_close_on_x(false);
    let mut it = fresh_window(settings).iter();
    it.window.request_next_frame();
    it.window.producer_publish(Message::Window(WindowMessage::CloseRequested));
    assert_eq!(it.next(), Some(Message::Window(WindowMessage::CloseRequested)));
    let window = it.into_window();
    assert_eq!(window.stage(), Stage::Looping);
    assert!(!window.is_closing());
}

#[test]
fn poll_flow_returns_empty_placeholder_without_a_message() {
    let settings = WindowSettings::default().with_flow(Flow::Poll);
    let mut it = fresh_window(settings).iter();
    assert_eq!(it.next(), Some(Message::Empty));
    assert_eq!(it.next(), Some(Message::Empty));
}

#[test]
fn next_message_before_looping_yields_nothing() {
    let settings = WindowSettings::default();
    let mut window = fresh_window(settings);
    assert_eq!(window.stage(), Stage::Ready);
    assert_eq!(window.next_message(), None);
    // The pull signalled readiness for a frame but did not start the loop.
    assert!(window.frame_requested());
    assert_eq!(window.stage(), Stage::Ready);
}

#[test]
fn handshake_delivers_one_message_per_cycle() {
    let settings = WindowSettings::default().with_flow(Flow::Wait);
    let mut it = fresh_window(settings).iter();

    it.window.request_next_frame();
    assert!(it.window.frame_requested());
    it.window.producer_publish(Message::Window(WindowMessage::Moved));
    // Publishing consumed the frame request and raised the message gate.
    assert!(!it.window.frame_requested());
    assert!(it.window.message_ready());

    assert_eq!(it.next(), Some(Message::Window(WindowMessage::Moved)));
    // The pull emptied the mailbox and asked for the next frame.
    assert!(!it.window.message_ready());
    assert!(it.window.frame_requested());

    // The next cycle can begin.
    it.window.producer_publish(Message::Window(WindowMessage::Draw));
    assert_eq!(it.next(), Some(Message::Window(WindowMessage::Draw)));
}

#[test]
fn published_key_messages_fill_the_input_cache() {
    let settings = WindowSettings::default().with_flow(Flow::Wait);
    let mut it = fresh_window(settings).iter();

    let key = Key { code: 0x41 };
    it.window.request_next_frame();
    it.window.producer_publish(Message::Window(WindowMessage::Key {
        key,
        state: KeyState::Pressed,
        scan_code: 30,
        is_extended_key: false,
    }));
    assert_eq!(it.next(), Some(Message::Window(WindowMessage::Key {
        key,
        state: KeyState::Pressed,
        scan_code: 30,
        is_extended_key: false,
    })));
    let window = it.into_window();
    assert_eq!(window.key(key), KeyState::Pressed);
    assert_eq!(window.key(Key { code: 0x42 }), KeyState::Released);
    assert_eq!(window.shift(), KeyState::Released);
}

#[test]
fn published_mouse_messages_fill_the_input_cache() {
    let settings = WindowSettings::default().with_flow(Flow::Wait);
    let mut it = fresh_window(settings).iter();

    it.window.request_next_frame();
    it.window.producer_publish(Message::Window(WindowMessage::MouseButton {
        button: Mouse::Left,
        state: ButtonState::Pressed,
        x: 12,
        y: 34,
        is_double_click: false,
    }));
    let _ = it.next();
    let window = it.into_window();
    assert_eq!(window.mouse(Mouse::Left), ButtonState::Pressed);
    assert_eq!(window.mouse(Mouse::Right), ButtonState::Released);
}

#[test]
fn iter_mut_advances_the_borrowed_window() {
    let settings = WindowSettings::default().with_flow(Flow::Poll);
    let mut window = fresh_window(settings);
    window.close();
    {
        let mut it = window.iter_mut();
        assert_eq!(it.next(), Some(Message::Window(WindowMessage::Closing)));
        assert_eq!(it.next(), Some(Message::Window(WindowMessage::Closed)));
        assert_eq!(it.next(), None);
    }
    assert_eq!(window.stage(), Stage::ExitLoop);
    assert_eq!(window.next_message(), None);
}

#[test]
fn exit_loop_is_terminal_for_every_operation() {
    let mut window = fresh_window(WindowSettings::default().with_flow(Flow::Poll));
    window.exit_loop();
    assert_eq!(window.stage(), Stage::ExitLoop);
    assert!(window.frame_requested());

    window.set_visibility(Visibility::Hidden);
    window.close();
    window.request_redraw();
    assert_eq!(window.stage(), Stage::ExitLoop);
    assert_eq!(window.drain_commands(), vec![]);
    assert_eq!(window.next_message(), None);
    assert_eq!(window.stage(), Stage::ExitLoop);
}

#[test]
fn teardown_queues_destroy_then_forces_exit() {
    let mut window = fresh_window(WindowSettings::default());
    window.request_destroy();
    window.exit_loop();
    assert_eq!(window.drain_commands(), vec![Command::Destroy]);
    assert_eq!(window.stage(), Stage::ExitLoop);
    // A second destroy request after the exit changes nothing.
    window.request_destroy();
    assert_eq!(window.drain_commands(), vec![]);
}

#[test]
fn many_rapid_cycles_never_overlap_in_the_mailbox() {
    let settings = WindowSettings::default().with_flow(Flow::Wait);
    let mut it = fresh_window(settings).iter();
    for i in 0..1000i16 {
        it.window.request_next_frame();
        // The slot is free before every write...
        assert!(!it.window.message_ready());
        let message = Message::Window(WindowMessage::Cursor { x: i % 100, y: i % 7 });
        it.window.producer_publish(message);
        // ...holds exactly the one message after it...
        assert!(it.window.message_ready());
        assert_eq!(it.next(), Some(message));
        // ...and is free again once the consumer took it.
        assert!(!it.window.message_ready());
    }
}

#[test]
fn window_text_commands_carry_title_and_subtitle_together() {
    let mut window = fresh_window(WindowSettings::default());
    window.set_subtitle(" - 60 fps".to_string());
    window.set_title("Game".to_string());
    assert_eq!(window.title(), "Game");
    assert_eq!(window.subtitle(), " - 60 fps");
    assert_eq!(
        window.drain_commands(),
        vec![
            // The first command still composes with the then-current title.
            Command::SetWindowText("Window".to_string(), " - 60 fps".to_string()),
            Command::SetWindowText("Game".to_string(), " - 60 fps".to_string()),
        ]
    );
}

#[test]
fn a_burst_of_mixed_calls_keeps_fifo_order_with_no_ops_dropped() {
    let settings = WindowSettings::default().with_theme(Theme::Light);
    let mut window = fresh_window(settings);
    window.set_theme(Theme::Light);  // cached: dropped
    window.set_outer_position(Position { x: 1, y: 1 });
    window.set_outer_position(Position { x: 1, y: 1 });  // repeated: dropped
    window.set_theme(Theme::Dark);
    window.request_redraw();
    window.set_outer_size(Size { width: 800, height: 600 });  // cached: dropped
    window.set_outer_size(Size { width: 801, height: 600 });
    assert_eq!(
        window.drain_commands(),
        vec![
            Command::SetPosition(Position { x: 1, y: 1 }),
            Command::SetTheme(Theme::Dark),
            Command::Redraw,
            Command::SetSize(Size { width: 801, height: 600 }),
        ]
    );
}

#[test]
fn builder_returns_the_default_settings() {
    let settings = Window::builder();
    assert_eq!(settings.title, "Window");
    assert_eq!(settings.size, Size { width: 800, height: 600 });
    assert_eq!(settings.flow, Flow::Wait);
    assert_eq!(settings.theme, Theme::Auto);
    assert_eq!(settings.visibility, Visibility::Shown);
    assert!(settings.close_on_x);
}
