//! The foreground window.

use crate::command::{guarded, planned, WindowCommand};
use crate::error::WindowInspectorError;
use vstd::prelude::*;

verus! {

/// Whether the window is in the foreground, given the handle of the
/// window that is.
pub fn is_foreground(hwnd: usize, foreground_hwnd: usize) -> (foreground: bool)
    ensures
        foreground == (hwnd == foreground_hwnd),
{
    hwnd == foreground_hwnd
}

/// Brings a window to the foreground: the command for it, provided the
/// window exists.
pub fn set_foreground_window(
    hwnd: usize,
    exists: bool,
) -> (command: Result<WindowCommand, WindowInspectorError>)
    ensures
        planned(command) == guarded(exists, hwnd, WindowCommand::SetForegroundWindow { hwnd }),
{
    if !exists {
        return Err(WindowInspectorError::WindowNotExist { hwnd });
    }
    Ok(WindowCommand::SetForegroundWindow { hwnd })
}

} // verus!
