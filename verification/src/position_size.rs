//! Where a window is and how large, and moving it.

use crate::command::{guarded, planned, WindowCommand};
use crate::error::{outcome, ErrorView, WindowInspectorError};
use vstd::prelude::*;

verus! {

/// A rectangle by its edges, as the platform reports it.
#[derive(Debug, Clone, Copy, PartialEq, Eq)]
pub struct Rect {
    pub left: i32,
    pub top: i32,
    pub right: i32,
    pub bottom: i32,
}

/// A point.
#[derive(Debug, Clone, Copy, PartialEq, Eq)]
pub struct Point {
    pub x: i32,
    pub y: i32,
}

/// Which reading of a rectangle failed.
#[derive(Debug, Clone, Copy, PartialEq, Eq)]
pub enum RectSource {
    /// The outer rectangle of the window, shadow included.
    WindowRect,
    /// The extended frame bounds of the window, without the shadow.
    ExtendedFrameBounds,
    /// The client area of the window.
    ClientRect,
}

/// The distance from `low` to `high` as an unsigned number. Where `high`
/// is below `low`, or the distance does not fit, it wraps around.
pub open spec fn extent(low: i32, high: i32) -> u32 {
    ((high - low) % 0x1_0000_0000) as u32
}

/// A size as a signed number: sizes above the largest signed number wrap
/// around to the negative ones.
pub open spec fn signed_size(size: u32) -> i32 {
    if size <= i32::MAX {
        size as i32
    } else {
        (size - 0x1_0000_0000) as i32
    }
}

/// Position and size of a rectangle: left, top, width, height.
pub open spec fn xywh(rect: Rect) -> (i32, i32, u32, u32) {
    (rect.left, rect.top, extent(rect.left, rect.right), extent(rect.top, rect.bottom))
}

/// The error for a rectangle that could not be read.
pub open spec fn rect_error(
    source: RectSource,
    hwnd: usize,
    error_message: Seq<char>,
) -> ErrorView {
    match source {
        RectSource::WindowRect => ErrorView::GetWindowRectFailed { hwnd, error_message },
        RectSource::ExtendedFrameBounds => ErrorView::DwmGetWindowAttributeFailed {
            hwnd,
            error_message,
        },
        RectSource::ClientRect => ErrorView::GetClientRectFailed { hwnd, error_message },
    }
}

/// The rectangle of a window from what the platform read, or the error
/// for it: the window must exist and the reading must have succeeded.
pub open spec fn rect_outcome(
    source: RectSource,
    hwnd: usize,
    exists: bool,
    rect: Result<Rect, Seq<char>>,
) -> Result<Rect, ErrorView> {
    if !exists {
        Err(ErrorView::WindowNotExist { hwnd })
    } else {
        match rect {
            Ok(rect) => Ok(rect),
            Err(error_message) => Err(rect_error(source, hwnd, error_message)),
        }
    }
}

/// The value of a rectangle as read, or of the message in its place.
pub open spec fn rect_view(rect: Result<Rect, String>) -> Result<Rect, Seq<char>> {
    match rect {
        Ok(rect) => Ok(rect),
        Err(error_message) => Err(error_message@),
    }
}

/// Position and size of the rectangle that was read, or the error.
pub open spec fn xywh_outcome(
    rect: Result<Rect, ErrorView>,
) -> Result<(i32, i32, u32, u32), ErrorView> {
    match rect {
        Ok(rect) => Ok(xywh(rect)),
        Err(error) => Err(error),
    }
}

/// The distance from `low` to `high`, wrapping around.
pub fn span(low: i32, high: i32) -> (distance: u32)
    ensures
        distance == extent(low, high),
{
    let difference: i64 = high as i64 - low as i64;
    if difference < 0 {
        (difference + 0x1_0000_0000) as u32
    } else {
        difference as u32
    }
}

/// A size as the platform takes it, wrapping around.
pub fn to_signed_size(size: u32) -> (signed: i32)
    ensures
        signed == signed_size(size),
{
    if size <= 0x7FFF_FFFF {
        size as i32
    } else {
        (size as i64 - 0x1_0000_0000) as i32
    }
}

fn read_rect(
    source: RectSource,
    hwnd: usize,
    exists: bool,
    rect: Result<Rect, String>,
) -> (read: Result<Rect, WindowInspectorError>)
    ensures
        outcome(read) == rect_outcome(source, hwnd, exists, rect_view(rect)),
{
    if !exists {
        return Err(WindowInspectorError::WindowNotExist { hwnd });
    }
    match rect {
        Ok(rect) => Ok(rect),
        Err(error_message) => Err(
            match source {
                RectSource::WindowRect => WindowInspectorError::GetWindowRectFailed {
                    hwnd,
                    error_message,
                },
                RectSource::ExtendedFrameBounds => {
                    WindowInspectorError::DwmGetWindowAttributeFailed { hwnd, error_message }
                },
                RectSource::ClientRect => WindowInspectorError::GetClientRectFailed {
                    hwnd,
                    error_message,
                },
            },
        ),
    }
}

/// Position and size of a window, shadow included, relative to the
/// screen: (x, y, width, height), from its outer rectangle as read by the
/// platform.
pub fn get_window_xywh_include_shadow(
    hwnd: usize,
    exists: bool,
    rect: Result<Rect, String>,
) -> (xywh: Result<(i32, i32, u32, u32), WindowInspectorError>)
    ensures
        outcome(xywh) == xywh_outcome(
            rect_outcome(RectSource::WindowRect, hwnd, exists, rect_view(rect)),
        ),
{
    match read_rect(RectSource::WindowRect, hwnd, exists, rect) {
        Ok(rect) => Ok(
            (rect.left, rect.top, span(rect.left, rect.right), span(rect.top, rect.bottom)),
        ),
        Err(error) => Err(error),
    }
}

/// Position and size of a window without its shadow, relative to the
/// screen: (x, y, width, height), from its extended frame bounds as read
/// by the platform.
pub fn get_window_xywh_exclude_shadow(
    hwnd: usize,
    exists: bool,
    rect: Result<Rect, String>,
) -> (xywh: Result<(i32, i32, u32, u32), WindowInspectorError>)
    ensures
        outcome(xywh) == xywh_outcome(
            rect_outcome(RectSource::ExtendedFrameBounds, hwnd, exists, rect_view(rect)),
        ),
{
    match read_rect(RectSource::ExtendedFrameBounds, hwnd, exists, rect) {
        Ok(rect) => Ok(
            (rect.left, rect.top, span(rect.left, rect.right), span(rect.top, rect.bottom)),
        ),
        Err(error) => Err(error),
    }
}

/// What reading the client origin yields: the point on the screen to
/// which the platform mapped it, where the window exists and the mapping
/// succeeded.
pub open spec fn client_xy_outcome(
    hwnd: usize,
    exists: bool,
    origin: Option<Point>,
) -> Result<(i32, i32), ErrorView> {
    if !exists {
        Err(ErrorView::WindowNotExist { hwnd })
    } else {
        match origin {
            Some(point) => Ok((point.x, point.y)),
            None => Err(ErrorView::ClientToScreenFailed { hwnd }),
        }
    }
}

/// The top left corner of the client area, relative to the screen:
/// (x, y), from the client origin as the platform mapped it to the
/// screen, if it could.
pub fn get_client_xy(
    hwnd: usize,
    exists: bool,
    origin: Option<Point>,
) -> (xy: Result<(i32, i32), WindowInspectorError>)
    ensures
        outcome(xy) == client_xy_outcome(hwnd, exists, origin),
{
    if !exists {
        return Err(WindowInspectorError::WindowNotExist { hwnd });
    }
    match origin {
        Some(point) => Ok((point.x, point.y)),
        None => Err(WindowInspectorError::ClientToScreenFailed { hwnd }),
    }
}

/// The size of the rectangle that was read, or the error.
pub open spec fn wh_outcome(rect: Result<Rect, ErrorView>) -> Result<(u32, u32), ErrorView> {
    match rect {
        Ok(rect) => Ok((extent(rect.left, rect.right), extent(rect.top, rect.bottom))),
        Err(error) => Err(error),
    }
}

/// The size of the client area: (width, height), from the client
/// rectangle as read by the platform.
pub fn get_client_wh(
    hwnd: usize,
    exists: bool,
    rect: Result<Rect, String>,
) -> (wh: Result<(u32, u32), WindowInspectorError>)
    ensures
        outcome(wh) == wh_outcome(
            rect_outcome(RectSource::ClientRect, hwnd, exists, rect_view(rect)),
        ),
{
    match read_rect(RectSource::ClientRect, hwnd, exists, rect) {
        Ok(rect) => Ok((span(rect.left, rect.right), span(rect.top, rect.bottom))),
        Err(error) => Err(error),
    }
}

/// Position and size together: the first error where there is one, that
/// of the position before that of the size.
pub open spec fn client_xywh_outcome(
    xy: Result<(i32, i32), ErrorView>,
    wh: Result<(u32, u32), ErrorView>,
) -> Result<(i32, i32, u32, u32), ErrorView> {
    match xy {
        Err(error) => Err(error),
        Ok((x, y)) => match wh {
            Err(error) => Err(error),
            Ok((width, height)) => Ok((x, y, width, height)),
        },
    }
}

/// Position and size of the client area, relative to the screen:
/// (x, y, width, height), from the results of [`get_client_xy`] and
/// [`get_client_wh`].
pub fn get_client_xywh(
    xy: Result<(i32, i32), WindowInspectorError>,
    wh: Result<(u32, u32), WindowInspectorError>,
) -> (xywh: Result<(i32, i32, u32, u32), WindowInspectorError>)
    ensures
        outcome(xywh) == client_xywh_outcome(outcome(xy), outcome(wh)),
{
    match xy {
        Err(error) => Err(error),
        Ok((x, y)) => match wh {
            Err(error) => Err(error),
            Ok((width, height)) => Ok((x, y, width, height)),
        },
    }
}

/// The command that moves a window and repaints it.
pub open spec fn move_command(
    hwnd: usize,
    x: i32,
    y: i32,
    width: u32,
    height: u32,
) -> WindowCommand {
    WindowCommand::MoveWindow {
        hwnd,
        x,
        y,
        width: signed_size(width),
        height: signed_size(height),
        repaint: true,
    }
}

/// Moves a window to a position and size: the command for it, provided
/// the window exists.
pub fn move_window_to_xywh(
    hwnd: usize,
    exists: bool,
    x: i32,
    y: i32,
    width: u32,
    height: u32,
) -> (command: Result<WindowCommand, WindowInspectorError>)
    ensures
        planned(command) == guarded(exists, hwnd, move_command(hwnd, x, y, width, height)),
{
    if !exists {
        return Err(WindowInspectorError::WindowNotExist { hwnd });
    }
    Ok(
        WindowCommand::MoveWindow {
            hwnd,
            x,
            y,
            width: to_signed_size(width),
            height: to_signed_size(height),
            repaint: true,
        },
    )
}

} // verus!
