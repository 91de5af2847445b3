use vstd::prelude::*;

verus! {

/// Typed errors of the shell. Each condition that the surrounding runtime
/// used to treat as fatal surfaces as one of these instead, so callers can
/// recover: report `UnknownMenuItem` to the caller, log `BroadcastFailed`
/// and continue, and treat `WindowUnavailable` as a no-op.
#[derive(Clone, Copy, Debug, PartialEq, Eq)]
pub enum ShellError {
    /// The requested identifier names no entry of the tray menu.
    UnknownMenuItem,
    /// The event channel could not deliver a broadcast.
    BroadcastFailed,
    /// The main window handle is missing.
    WindowUnavailable,
}

impl ShellError {
    /// A short description of the error, for logs and messages.
    pub fn describe(&self) -> (r: &'static str)
        ensures
            r@ == (match self {
                ShellError::UnknownMenuItem => "unknown menu item"@,
                ShellError::BroadcastFailed => "event broadcast failed"@,
                ShellError::WindowUnavailable => "main window unavailable"@,
            }),
    {
        match self {
            ShellError::UnknownMenuItem => "unknown menu item",
            ShellError::BroadcastFailed => "event broadcast failed",
            ShellError::WindowUnavailable => "main window unavailable",
        }
    }
}

} // verus!
