use vstd::prelude::*;

use crate::menu::{build_menu, initial_menu, quit_id, show_about_id, TrayMenu};
use crate::relay::{relay_tray_click, TrayClickOutcome};

verus! {

// ---------------------------------------------------------------------------
// The shell's state transitions, as functions on its observable state.
// ---------------------------------------------------------------------------

/// Whether the main window is visible after a click on the tray entry `id`:
/// the About entry shows it; every other entry leaves it as it was.
pub open spec fn visible_after_tray_click(prior: bool, id: Seq<char>) -> bool {
    id == show_about_id() || prior
}

/// Whether the process has decided to terminate after a click on the tray
/// entry `id`: only the Quit entry terminates.
pub open spec fn terminated_after_tray_click(id: Seq<char>) -> bool {
    id == quit_id()
}

/// Whether the main window is visible after a close request: never — the
/// request is downgraded to hiding the window.
pub open spec fn visible_after_close_request(prior: bool) -> bool {
    false
}

// ---------------------------------------------------------------------------
// The shell context and its handlers.
// ---------------------------------------------------------------------------

/// The process-wide shell context: the tray menu model, whether the main
/// window is visible, and whether the process has decided to terminate.
/// Once `terminated` holds, the process is gone and no handler runs again.
#[derive(Debug)]
pub struct ShellState {
    pub menu: TrayMenu,
    pub window_visible: bool,
    pub terminated: bool,
}

impl ShellState {
    /// The state at startup: the freshly built tray menu, and the main
    /// window hidden so the process sits in the tray.
    pub fn new() -> (s: ShellState)
        ensures
            s.menu@ == initial_menu(),
            s.menu.wf(),
            !s.window_visible,
            !s.terminated,
    {
        ShellState { menu: build_menu(), window_visible: false, terminated: false }
    }

    /// Handle a click on the tray entry `id`: decide the broadcast and the
    /// built-in action, and record their effect on the shell. The menu is
    /// never touched here.
    pub fn on_tray_menu_click(&mut self, id: &str) -> (out: TrayClickOutcome)
        requires
            !old(self).terminated,
        ensures
            out.payload.message@ == id@,
            out.exit_code == (if id@ == quit_id() {
                Some(crate::relay::QUIT_EXIT_CODE)
            } else {
                None::<i32>
            }),
            out.show_and_focus_window <==> id@ == show_about_id(),
            final(self).menu == old(self).menu,
            final(self).terminated == terminated_after_tray_click(id@),
            final(self).window_visible == visible_after_tray_click(
                old(self).window_visible,
                id@,
            ),
    {
        let out = relay_tray_click(id);
        if out.exit_code.is_some() {
            self.terminated = true;
        }
        if out.show_and_focus_window {
            self.window_visible = true;
        }
        out
    }

    /// Handle the user's close request on the main window: suppress the
    /// close, hide the window instead, and keep the process alive. The
    /// window object survives and the About entry can show it again.
    pub fn on_window_close_requested(&mut self) -> (r: CloseRequestResponse)
        requires
            !old(self).terminated,
        ensures
            r.hide_window,
            r.prevent_close,
            !final(self).terminated,
            final(self).window_visible == visible_after_close_request(
                old(self).window_visible,
            ),
            final(self).menu == old(self).menu,
    {
        self.window_visible = false;
        CloseRequestResponse { hide_window: true, prevent_close: true }
    }

    /// Handle an application-level exit request (for instance, the last
    /// window closed): suppress it and change nothing, so the process stays
    /// resident in the tray.
    pub fn on_exit_requested(&mut self) -> (r: ExitRequestResponse)
        requires
            !old(self).terminated,
        ensures
            r.prevent_exit,
            *final(self) == *old(self),
    {
        ExitRequestResponse { prevent_exit: true }
    }
}

/// What the runtime must do with a window close request.
#[derive(Debug)]
pub struct CloseRequestResponse {
    /// Hide the window.
    pub hide_window: bool,
    /// Suppress the default close, so the window is not destroyed.
    pub prevent_close: bool,
}

/// What the runtime must do with an application exit request.
#[derive(Debug)]
pub struct ExitRequestResponse {
    /// Suppress the default exit, so the process keeps running.
    pub prevent_exit: bool,
}

// ---------------------------------------------------------------------------
// Laws of the window lifecycle.
// ---------------------------------------------------------------------------

/// Law: a click on the About entry makes the window visible whatever its
/// prior state, and never terminates the process.
pub proof fn lemma_about_always_shows_window(prior_visible: bool)
    ensures
        visible_after_tray_click(prior_visible, show_about_id()),
        !terminated_after_tray_click(show_about_id()),
{
    crate::menu::lemma_menu_ids_distinct();
}

/// Law: a close request hides the window without terminating the process,
/// and the window stays reachable — the next click on the About entry makes
/// it visible again.
pub proof fn lemma_close_then_about_restores_window(prior_visible: bool)
    ensures
        !visible_after_close_request(prior_visible),
        visible_after_tray_click(
            visible_after_close_request(prior_visible),
            show_about_id(),
        ),
{
}

/// Law: a click on any entry other than Quit never terminates the process,
/// and a click on any entry other than About leaves the window as it was.
pub proof fn lemma_other_clicks_have_no_window_or_process_effect(
    prior_visible: bool,
    id: Seq<char>,
)
    requires
        id != quit_id(),
        id != show_about_id(),
    ensures
        !terminated_after_tray_click(id),
        visible_after_tray_click(prior_visible, id) == prior_visible,
{
}

} // verus!
