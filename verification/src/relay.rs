use vstd::prelude::*;

use crate::menu::{quit_id, show_about_id};
use crate::text::str_eq;

verus! {

/// Payload of the event sent to every front-end listener on a tray click:
/// the clicked entry's identifier, and nothing else.
#[derive(Clone, Debug, PartialEq, Eq)]
pub struct EventPayload {
    pub message: String,
}

/// Name of the event broadcast to the front end on every tray click.
pub fn menu_click_event_name() -> (r: &'static str)
    ensures
        r@ == "menu-item-click"@,
{
    "menu-item-click"
}

/// The process exits with this code on the tray's Quit action, the sole
/// normal termination path.
pub const QUIT_EXIT_CODE: i32 = 0;

/// Everything a tray click decided: the broadcast that is always sent, and
/// at most one built-in action reserved to the shell.
#[derive(Clone, Debug, PartialEq, Eq)]
pub struct TrayClickOutcome {
    /// Broadcast this payload under the menu-click event name, to all
    /// listeners, before anything else happens.
    pub payload: EventPayload,
    /// `Some(code)` exactly on the Quit entry: terminate the process with
    /// `code` immediately after the broadcast.
    pub exit_code: Option<i32>,
    /// True exactly on the About entry: make the main window visible and
    /// grant it input focus.
    pub show_and_focus_window: bool,
}

/// Decide what a click on the tray entry `id` does. Every click broadcasts
/// the identifier to the front end; the Quit and About entries additionally
/// trigger the shell's two built-in actions; no other entry has any further
/// effect.
pub fn relay_tray_click(id: &str) -> (out: TrayClickOutcome)
    ensures
        out.payload.message@ == id@,
        out.exit_code == (if id@ == quit_id() {
            Some(QUIT_EXIT_CODE)
        } else {
            None::<i32>
        }),
        out.show_and_focus_window <==> id@ == show_about_id(),
{
    let message = id.to_owned();
    let exit_code = if str_eq(id, "quit") {
        Some(QUIT_EXIT_CODE)
    } else {
        None
    };
    let show_and_focus_window = str_eq(id, "showAbout");
    TrayClickOutcome { payload: EventPayload { message }, exit_code, show_and_focus_window }
}

} // verus!
