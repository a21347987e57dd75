use witer::window::settings::WindowSettings;
use witer::window::state::{
    resolve_theme, CursorMode, Flow, Fullscreen, Position, Size, Theme, Visibility,
};

#[test]
fn default_settings() {
    let settings = WindowSettings::default();
    assert_eq!(settings.title, "Window");
    assert_eq!(settings.size, Size { width: 800, height: 600 });
    assert_eq!(settings.position, None);
    assert_eq!(settings.flow, Flow::Wait);
    assert_eq!(settings.theme, Theme::Auto);
    assert_eq!(settings.visibility, Visibility::Shown);
    assert_eq!(settings.fullscreen, None);
    assert_eq!(settings.cursor_mode, CursorMode::Normal);
    assert!(settings.close_on_x);
}

#[test]
fn with_methods_replace_one_field_each() {
    let settings = WindowSettings::default()
        .with_title("Demo")
        .with_size(Size { width: 1, height: 2 })
        .with_position(Some(Position { x: 3, y: 4 }))
        .with_flow(Flow::Poll)
        .with_theme(Theme::Light)
        .with_visibility(Visibility::Hidden)
        .with_fullscreen(Some(Fullscreen::Borderless))
        .with_cursor_mode(CursorMode::Confined)
        .with_close_on_x(false);
    assert_eq!(settings.title, "Demo");
    assert_eq!(settings.size, Size { width: 1, height: 2 });
    assert_eq!(settings.position, Some(Position { x: 3, y: 4 }));
    assert_eq!(settings.flow, Flow::Poll);
    assert_eq!(settings.theme, Theme::Light);
    assert_eq!(settings.visibility, Visibility::Hidden);
    assert_eq!(settings.fullscreen, Some(Fullscreen::Borderless));
    assert_eq!(settings.cursor_mode, CursorMode::Confined);
    assert!(!settings.close_on_x);
}

#[test]
fn with_title_keeps_the_other_fields() {
    let settings = WindowSettings::default().with_flow(Flow::Poll).with_title("kept?");
    assert_eq!(settings.title, "kept?");
    assert_eq!(settings.flow, Flow::Poll);
    assert_eq!(settings.size, Size { width: 800, height: 600 });
}

#[test]
fn theme_resolution_against_platform_support() {
    // Auto follows the system preference.
    assert_eq!(resolve_theme(Theme::Auto, true, true), Theme::Dark);
    assert_eq!(resolve_theme(Theme::Auto, true, false), Theme::Light);
    // Dark needs platform support.
    assert_eq!(resolve_theme(Theme::Dark, true, false), Theme::Dark);
    assert_eq!(resolve_theme(Theme::Dark, false, true), Theme::Light);
    // Light is always light.
    assert_eq!(resolve_theme(Theme::Light, true, true), Theme::Light);
}
