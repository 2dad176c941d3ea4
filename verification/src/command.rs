//! Changes to a window: what the platform is asked to do, and what its
//! answer means.

use crate::error::{outcome, ErrorView, WindowInspectorError};
use vstd::prelude::*;

verus! {

/// A change to a window, for the platform to carry out. The fields are the
/// arguments of the platform call of the same name.
#[derive(Debug, Clone, Copy, PartialEq, Eq)]
pub enum WindowCommand {
    /// Bring the window to the foreground.
    SetForegroundWindow { hwnd: usize },
    /// Move and resize the window.
    MoveWindow { hwnd: usize, x: i32, y: i32, width: i32, height: i32, repaint: bool },
    /// Place the window in the Z order.
    SetWindowPos { hwnd: usize, insert_after: isize, x: i32, y: i32, cx: i32, cy: i32, flags: u32 },
}

/// A command for a window that exists; for any other handle, the error
/// that says so.
pub open spec fn guarded(
    exists: bool,
    hwnd: usize,
    command: WindowCommand,
) -> Result<WindowCommand, ErrorView> {
    if exists {
        Ok(command)
    } else {
        Err(ErrorView::WindowNotExist { hwnd })
    }
}

/// The value of a command, or of the error in its place.
pub open spec fn planned(
    command: Result<WindowCommand, WindowInspectorError>,
) -> Result<WindowCommand, ErrorView> {
    match command {
        Ok(command) => Ok(command),
        Err(error) => Err(error@),
    }
}

/// What a command yields, given the message of its failure where it
/// failed: each command has its own error.
pub open spec fn command_outcome(
    command: WindowCommand,
    failure: Option<Seq<char>>,
) -> Result<(), ErrorView> {
    match failure {
        None => Ok(()),
        Some(error_message) => Err(
            match command {
                WindowCommand::SetForegroundWindow { .. } => ErrorView::SetForegroundWindowFailed,
                WindowCommand::MoveWindow { hwnd, .. } => ErrorView::MoveWindowFailed {
                    hwnd,
                    error_message,
                },
                WindowCommand::SetWindowPos { hwnd, .. } => ErrorView::SetWindowPosFailed {
                    hwnd,
                    error_message,
                },
            },
        ),
    }
}

/// The value of the failure of a command, if any.
pub open spec fn failure_view(failure: Option<String>) -> Option<Seq<char>> {
    match failure {
        Some(error_message) => Some(error_message@),
        None => None,
    }
}

/// The result of a command that the platform carried out: success where
/// it reported no failure, otherwise the error of that command with the
/// message the platform gave.
pub fn command_result(
    command: WindowCommand,
    failure: Option<String>,
) -> (result: Result<(), WindowInspectorError>)
    ensures
        outcome(result) == command_outcome(command, failure_view(failure)),
{
    match failure {
        None => Ok(()),
        Some(error_message) => match command {
            WindowCommand::SetForegroundWindow { .. } => Err(
                WindowInspectorError::SetForegroundWindowFailed,
            ),
            WindowCommand::MoveWindow { hwnd, .. } => Err(
                WindowInspectorError::MoveWindowFailed { hwnd, error_message },
            ),
            WindowCommand::SetWindowPos { hwnd, .. } => Err(
                WindowInspectorError::SetWindowPosFailed { hwnd, error_message },
            ),
        },
    }
}

} // verus!
