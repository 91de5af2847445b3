use blinker::lifecycle::ShellState;
use blinker::relay::{menu_click_event_name, relay_tray_click, QUIT_EXIT_CODE};

#[test]
fn event_name_and_exit_code() {
    assert_eq!(menu_click_event_name(), "menu-item-click");
    assert_eq!(QUIT_EXIT_CODE, 0);
}

#[test]
fn startup_state_is_hidden_and_running() {
    let s = ShellState::new();
    assert!(!s.window_visible);
    assert!(!s.terminated);
    assert_eq!(s.menu.nodes.len(), 9);
}

#[test]
fn quit_click_terminates_with_exit_code_zero() {
    let mut s = ShellState::new();
    let out = s.on_tray_menu_click("quit");
    assert_eq!(out.payload.message, "quit");
    assert_eq!(out.exit_code, Some(0));
    assert!(!out.show_and_focus_window);
    assert!(s.terminated);
}

#[test]
fn relay_decision_for_quit() {
    let out = relay_tray_click("quit");
    assert_eq!(out.exit_code, Some(QUIT_EXIT_CODE));
    assert_eq!(out.payload.message, "quit");
    assert!(!out.show_and_focus_window);
}

#[test]
fn about_click_shows_window_from_hidden() {
    let mut s = ShellState::new();
    assert!(!s.window_visible);
    let out = s.on_tray_menu_click("showAbout");
    assert_eq!(out.payload.message, "showAbout");
    assert_eq!(out.exit_code, None);
    assert!(out.show_and_focus_window);
    assert!(s.window_visible);
    assert!(!s.terminated);
}

#[test]
fn about_click_shows_window_from_shown() {
    let mut s = ShellState::new();
    s.on_tray_menu_click("showAbout");
    assert!(s.window_visible);
    let out = s.on_tray_menu_click("showAbout");
    assert!(out.show_and_focus_window);
    assert!(s.window_visible);
}

#[test]
fn other_click_broadcasts_only() {
    let mut s = ShellState::new();
    let menu_before = s.menu.clone();
    let out = s.on_tray_menu_click("toggleTimer");
    assert_eq!(out.payload.message, "toggleTimer");
    assert_eq!(out.exit_code, None);
    assert!(!out.show_and_focus_window);
    assert!(!s.window_visible);
    assert!(!s.terminated);
    assert_eq!(s.menu, menu_before);
}

#[test]
fn other_click_for_unlisted_identifier() {
    let mut s = ShellState::new();
    let out = s.on_tray_menu_click("somethingElse");
    assert_eq!(out.payload.message, "somethingElse");
    assert_eq!(out.exit_code, None);
    assert!(!out.show_and_focus_window);
    assert!(!s.terminated);
}

#[test]
fn close_request_hides_and_keeps_running() {
    let mut s = ShellState::new();
    s.on_tray_menu_click("showAbout");
    assert!(s.window_visible);
    let r = s.on_window_close_requested();
    assert!(r.hide_window);
    assert!(r.prevent_close);
    assert!(!s.window_visible);
    assert!(!s.terminated);
}

#[test]
fn close_then_about_restores_window() {
    let mut s = ShellState::new();
    s.on_tray_menu_click("showAbout");
    s.on_window_close_requested();
    assert!(!s.window_visible);
    let out = s.on_tray_menu_click("showAbout");
    assert!(out.show_and_focus_window);
    assert!(s.window_visible);
    assert!(!s.terminated);
}

#[test]
fn exit_request_never_terminates() {
    let mut s = ShellState::new();
    let r = s.on_exit_requested();
    assert!(r.prevent_exit);
    assert!(!s.terminated);

    s.on_tray_menu_click("showAbout");
    let visible_before = s.window_visible;
    let r = s.on_exit_requested();
    assert!(r.prevent_exit);
    assert!(!s.terminated);
    assert_eq!(s.window_visible, visible_before);
}
