//! The one error type of the library.

use vstd::prelude::*;

verus! {

/// What can go wrong while a window is looked up, read or changed.
///
/// Window handles are carried as plain integers; messages are the text the
/// platform gave for the failed call.
#[derive(Debug, PartialEq, Eq)]
pub enum WindowInspectorError {
    /// A lookup was asked for with neither a class name nor a title.
    WindowClassTitleBothEmpty,
    /// The window finder found no window for the class name and title.
    FindWindowExWFailed { window_class: String, window_title: String, error_message: String },
    /// The text of a window (class name or title) could not be read.
    GetClassNameWFailed { error_code: u32 },
    /// The window could not be brought to the foreground.
    SetForegroundWindowFailed,
    /// The outer rectangle of the window could not be read.
    GetWindowRectFailed { hwnd: usize, error_message: String },
    /// The frame bounds of the window could not be read.
    DwmGetWindowAttributeFailed { hwnd: usize, error_message: String },
    /// The client origin could not be mapped to screen coordinates.
    ClientToScreenFailed { hwnd: usize },
    /// The client rectangle of the window could not be read.
    GetClientRectFailed { hwnd: usize, error_message: String },
    /// The window could not be moved.
    MoveWindowFailed { hwnd: usize, error_message: String },
    /// The process that owns the window could not be determined.
    GetWindowThreadProcessIdFailed { error_code: u32 },
    /// The process could not be opened for querying.
    OpenProcessFailed { process_id: u32, error_message: String },
    /// The image path of the process could not be read.
    QueryFullProcessImageNameWFailed { process_id: u32, error_message: String },
    /// The extended style of the window could not be read.
    GetWindowLongWFailed { error_code: u32 },
    /// The window could not be placed in the Z order.
    SetWindowPosFailed { hwnd: usize, error_message: String },
    /// The handle does not name a window.
    WindowNotExist { hwnd: usize },
}

/// The mathematical value of a [`WindowInspectorError`]: the same variants,
/// with every text as its sequence of characters.
pub enum ErrorView {
    WindowClassTitleBothEmpty,
    FindWindowExWFailed {
        window_class: Seq<char>,
        window_title: Seq<char>,
        error_message: Seq<char>,
    },
    GetClassNameWFailed { error_code: u32 },
    SetForegroundWindowFailed,
    GetWindowRectFailed { hwnd: usize, error_message: Seq<char> },
    DwmGetWindowAttributeFailed { hwnd: usize, error_message: Seq<char> },
    ClientToScreenFailed { hwnd: usize },
    GetClientRectFailed { hwnd: usize, error_message: Seq<char> },
    MoveWindowFailed { hwnd: usize, error_message: Seq<char> },
    GetWindowThreadProcessIdFailed { error_code: u32 },
    OpenProcessFailed { process_id: u32, error_message: Seq<char> },
    QueryFullProcessImageNameWFailed { process_id: u32, error_message: Seq<char> },
    GetWindowLongWFailed { error_code: u32 },
    SetWindowPosFailed { hwnd: usize, error_message: Seq<char> },
    WindowNotExist { hwnd: usize },
}

impl View for WindowInspectorError {
    type V = ErrorView;

    open spec fn view(&self) -> ErrorView {
        match *self {
            WindowInspectorError::WindowClassTitleBothEmpty => ErrorView::WindowClassTitleBothEmpty,
            WindowInspectorError::FindWindowExWFailed {
                window_class,
                window_title,
                error_message,
            } =>
                ErrorView::FindWindowExWFailed {
                    window_class: window_class@,
                    window_title: window_title@,
                    error_message: error_message@,
                },
            WindowInspectorError::GetClassNameWFailed { error_code } =>
                ErrorView::GetClassNameWFailed { error_code },
            WindowInspectorError::SetForegroundWindowFailed => ErrorView::SetForegroundWindowFailed,
            WindowInspectorError::GetWindowRectFailed { hwnd, error_message } =>
                ErrorView::GetWindowRectFailed { hwnd, error_message: error_message@ },
            WindowInspectorError::DwmGetWindowAttributeFailed { hwnd, error_message } =>
                ErrorView::DwmGetWindowAttributeFailed { hwnd, error_message: error_message@ },
            WindowInspectorError::ClientToScreenFailed { hwnd } =>
                ErrorView::ClientToScreenFailed { hwnd },
            WindowInspectorError::GetClientRectFailed { hwnd, error_message } =>
                ErrorView::GetClientRectFailed { hwnd, error_message: error_message@ },
            WindowInspectorError::MoveWindowFailed { hwnd, error_message } =>
                ErrorView::MoveWindowFailed { hwnd, error_message: error_message@ },
            WindowInspectorError::GetWindowThreadProcessIdFailed { error_code } =>
                ErrorView::GetWindowThreadProcessIdFailed { error_code },
            WindowInspectorError::OpenProcessFailed { process_id, error_message } =>
                ErrorView::OpenProcessFailed { process_id, error_message: error_message@ },
            WindowInspectorError::QueryFullProcessImageNameWFailed { process_id, error_message } =>
                ErrorView::QueryFullProcessImageNameWFailed {
                    process_id,
                    error_message: error_message@,
                },
            WindowInspectorError::GetWindowLongWFailed { error_code } =>
                ErrorView::GetWindowLongWFailed { error_code },
            WindowInspectorError::SetWindowPosFailed { hwnd, error_message } =>
                ErrorView::SetWindowPosFailed { hwnd, error_message: error_message@ },
            WindowInspectorError::WindowNotExist { hwnd } => ErrorView::WindowNotExist { hwnd },
        }
    }
}

/// The value of a result whose error is a [`WindowInspectorError`].
pub open spec fn outcome<T>(result: Result<T, WindowInspectorError>) -> Result<T, ErrorView> {
    match result {
        Ok(value) => Ok(value),
        Err(error) => Err(error@),
    }
}

} // verus!
