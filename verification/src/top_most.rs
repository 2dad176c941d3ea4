//! Windows that stay on top of the others.

use crate::command::{guarded, planned, WindowCommand};
use crate::error::{outcome, ErrorView, WindowInspectorError};
use vstd::prelude::*;

verus! {

/// The extended window style of a window that stays on top.
pub const WS_EX_TOPMOST: i32 = 0x0000_0008;

/// Z order position: above all windows that do not stay on top.
pub const HWND_TOPMOST: isize = -1;

/// Z order position: above all windows that do not stay on top, but
/// behind those that do.
pub const HWND_NOTOPMOST: isize = -2;

/// Placement flag: keep the size.
pub const SWP_NOSIZE: u32 = 0x0001;

/// Placement flag: keep the position.
pub const SWP_NOMOVE: u32 = 0x0002;

/// Whether an extended window style says that the window stays on top.
pub open spec fn has_top_most_style(ex_style: i32) -> bool {
    ex_style & WS_EX_TOPMOST != 0
}

/// What reading the top-most state yields: an error for a handle that
/// names no window and for an extended style that could not be read,
/// which shows as zero; otherwise whether the style has the top-most bit.
pub open spec fn top_most_outcome(
    hwnd: usize,
    exists: bool,
    ex_style: i32,
    error_code: u32,
) -> Result<bool, ErrorView> {
    if !exists {
        Err(ErrorView::WindowNotExist { hwnd })
    } else if ex_style == 0 {
        Err(ErrorView::GetWindowLongWFailed { error_code })
    } else {
        Ok(has_top_most_style(ex_style))
    }
}

/// The command that makes a window stay on top, or stop doing so, and
/// leaves its position and size alone.
pub open spec fn top_most_command(hwnd: usize, is_top_most: bool) -> WindowCommand {
    WindowCommand::SetWindowPos {
        hwnd,
        insert_after: if is_top_most {
            HWND_TOPMOST
        } else {
            HWND_NOTOPMOST
        },
        x: 0,
        y: 0,
        cx: 0,
        cy: 0,
        flags: SWP_NOMOVE | SWP_NOSIZE,
    }
}

/// Whether the window stays on top, from its extended style as read by
/// the platform and the error code the platform held after reading.
pub fn get_window_top_most(
    hwnd: usize,
    exists: bool,
    ex_style: i32,
    error_code: u32,
) -> (top_most: Result<bool, WindowInspectorError>)
    ensures
        outcome(top_most) == top_most_outcome(hwnd, exists, ex_style, error_code),
{
    if !exists {
        return Err(WindowInspectorError::WindowNotExist { hwnd });
    }
    if ex_style == 0 {
        return Err(WindowInspectorError::GetWindowLongWFailed { error_code });
    }
    Ok((ex_style & WS_EX_TOPMOST) != 0)
}

/// Sets whether a window stays on top: the command for it, provided the
/// window exists.
pub fn set_window_top_most_status(
    hwnd: usize,
    is_top_most: bool,
    exists: bool,
) -> (command: Result<WindowCommand, WindowInspectorError>)
    ensures
        planned(command) == guarded(exists, hwnd, top_most_command(hwnd, is_top_most)),
{
    if !exists {
        return Err(WindowInspectorError::WindowNotExist { hwnd });
    }
    Ok(
        WindowCommand::SetWindowPos {
            hwnd,
            insert_after: if is_top_most {
                HWND_TOPMOST
            } else {
                HWND_NOTOPMOST
            },
            x: 0,
            y: 0,
            cx: 0,
            cy: 0,
            flags: SWP_NOMOVE | SWP_NOSIZE,
        },
    )
}

/// Makes a window stay on top.
pub fn set_window_top_most(
    hwnd: usize,
    exists: bool,
) -> (command: Result<WindowCommand, WindowInspectorError>)
    ensures
        planned(command) == guarded(exists, hwnd, top_most_command(hwnd, true)),
{
    set_window_top_most_status(hwnd, true, exists)
}

/// Makes a window stop staying on top.
pub fn cancel_window_top_most(
    hwnd: usize,
    exists: bool,
) -> (command: Result<WindowCommand, WindowInspectorError>)
    ensures
        planned(command) == guarded(exists, hwnd, top_most_command(hwnd, false)),
{
    set_window_top_most_status(hwnd, false, exists)
}

/// What toggling yields: the error of reading the state where that
/// failed; otherwise the command for the opposite state, provided the
/// window still exists.
pub open spec fn toggle_outcome(
    hwnd: usize,
    top_most: Result<bool, ErrorView>,
    exists: bool,
) -> Result<WindowCommand, ErrorView> {
    match top_most {
        Err(error) => Err(error),
        Ok(is_top_most) => guarded(exists, hwnd, top_most_command(hwnd, !is_top_most)),
    }
}

/// Toggles whether a window stays on top, from its state as read by
/// [`get_window_top_most`] and whether the window exists after that.
pub fn toggle_window_top_most(
    hwnd: usize,
    top_most: Result<bool, WindowInspectorError>,
    exists: bool,
) -> (command: Result<WindowCommand, WindowInspectorError>)
    ensures
        planned(command) == toggle_outcome(hwnd, outcome(top_most), exists),
{
    match top_most {
        Err(error) => Err(error),
        Ok(is_top_most) => {
            if is_top_most {
                cancel_window_top_most(hwnd, exists)
            } else {
                set_window_top_most(hwnd, exists)
            }
        },
    }
}

} // verus!
