use blinker::error::ShellError;
use blinker::menu::{build_menu, MenuItem, MenuNode, TrayMenu};
use blinker::update::MenuUpdate;

fn item<'a>(menu: &'a TrayMenu, id: &str) -> &'a MenuItem {
    for node in menu.nodes.iter() {
        if let MenuNode::Item(it) = node {
            if it.id == id {
                return it;
            }
        }
    }
    panic!("no item with id {}", id);
}

#[test]
fn initial_menu_layout() {
    let m = build_menu();
    assert_eq!(m.nodes.len(), 9);
    let entries = [
        (0usize, "toggleTimer", "Stop the timer"),
        (2, "launchOnStartup", "Launch the application on system startup"),
        (4, "playSound", "Play sounds with notifications"),
        (6, "showAbout", "About Blinker"),
        (8, "quit", "Quit"),
    ];
    for (i, id, title) in entries {
        match &m.nodes[i] {
            MenuNode::Item(it) => {
                assert_eq!(it.id, id);
                assert_eq!(it.title, title);
                assert!(!it.selected);
            }
            MenuNode::Separator => panic!("expected an entry at index {}", i),
        }
    }
    for i in [1usize, 3, 5, 7] {
        assert!(matches!(m.nodes[i], MenuNode::Separator));
    }
}

#[test]
fn toggle_activate_sets_stop_title() {
    let mut m = build_menu();
    let r = m.set_menu_item_state("toggleTimer", "activate");
    assert_eq!(r, Ok(MenuUpdate::SetTitle("Stop the timer".to_string())));
    assert_eq!(item(&m, "toggleTimer").title, "Stop the timer");
    assert!(!item(&m, "toggleTimer").selected);
}

#[test]
fn toggle_other_mode_sets_start_title() {
    let mut m = build_menu();
    let r = m.set_menu_item_state("toggleTimer", "deactivate");
    assert_eq!(r, Ok(MenuUpdate::SetTitle("Start the timer".to_string())));
    assert_eq!(item(&m, "toggleTimer").title, "Start the timer");

    let r = m.set_menu_item_state("toggleTimer", "");
    assert_eq!(r, Ok(MenuUpdate::SetTitle("Start the timer".to_string())));
    assert_eq!(item(&m, "toggleTimer").title, "Start the timer");
}

#[test]
fn toggle_update_is_idempotent() {
    let mut m = build_menu();
    m.set_menu_item_state("toggleTimer", "activate").unwrap();
    let once = m.clone();
    m.set_menu_item_state("toggleTimer", "activate").unwrap();
    assert_eq!(m, once);

    m.set_menu_item_state("toggleTimer", "deactivate").unwrap();
    let once = m.clone();
    m.set_menu_item_state("toggleTimer", "deactivate").unwrap();
    assert_eq!(m, once);
}

#[test]
fn non_toggle_activate_selects() {
    let mut m = build_menu();
    let r = m.set_menu_item_state("playSound", "activate");
    assert_eq!(r, Ok(MenuUpdate::SetSelected(true)));
    assert!(item(&m, "playSound").selected);
    assert_eq!(item(&m, "playSound").title, "Play sounds with notifications");
}

#[test]
fn non_toggle_other_mode_deselects() {
    let mut m = build_menu();
    m.set_menu_item_state("launchOnStartup", "activate").unwrap();
    assert!(item(&m, "launchOnStartup").selected);
    let r = m.set_menu_item_state("launchOnStartup", "whatever");
    assert_eq!(r, Ok(MenuUpdate::SetSelected(false)));
    assert!(!item(&m, "launchOnStartup").selected);
}

#[test]
fn non_toggle_update_is_idempotent() {
    let mut m = build_menu();
    m.set_menu_item_state("playSound", "activate").unwrap();
    let once = m.clone();
    m.set_menu_item_state("playSound", "activate").unwrap();
    assert_eq!(m, once);
}

#[test]
fn update_touches_only_the_addressed_entry() {
    let mut m = build_menu();
    let before = m.clone();
    m.set_menu_item_state("playSound", "activate").unwrap();
    for (a, b) in m.nodes.iter().zip(before.nodes.iter()) {
        match (a, b) {
            (MenuNode::Item(x), MenuNode::Item(y)) if x.id == "playSound" => {
                assert_eq!(x.title, y.title);
                assert!(x.selected && !y.selected);
            }
            _ => assert_eq!(a, b),
        }
    }
}

#[test]
fn unknown_item_is_a_typed_error() {
    let mut m = build_menu();
    let before = m.clone();
    let r = m.set_menu_item_state("doesNotExist", "activate");
    assert_eq!(r, Err(ShellError::UnknownMenuItem));
    assert_eq!(m, before);
}

#[test]
fn unknown_item_error_for_every_mode() {
    let mut m = build_menu();
    let r = m.set_menu_item_state("", "deactivate");
    assert_eq!(r, Err(ShellError::UnknownMenuItem));
}

#[test]
fn error_descriptions() {
    assert_eq!(ShellError::UnknownMenuItem.describe(), "unknown menu item");
    assert_eq!(ShellError::BroadcastFailed.describe(), "event broadcast failed");
    assert_eq!(
        ShellError::WindowUnavailable.describe(),
        "main window unavailable"
    );
}
