//! The class name and the title of a window.

use crate::error::{ErrorView, WindowInspectorError};
use crate::wide::utf16_lossy;
use vstd::prelude::*;

verus! {

/// What reading a text of a window yields, from the code units that the
/// platform copied and the error code it held after copying: an error for
/// a handle that names no window and where nothing was copied, otherwise
/// the text that the code units stand for.
pub open spec fn text_outcome(
    hwnd: usize,
    exists: bool,
    units: Seq<u16>,
    error_code: u32,
) -> Result<Seq<char>, ErrorView> {
    if !exists {
        Err(ErrorView::WindowNotExist { hwnd })
    } else if units.len() == 0 {
        Err(ErrorView::GetClassNameWFailed { error_code })
    } else {
        Ok(utf16_lossy(units))
    }
}

/// The value of a text or of the error in its place.
pub open spec fn text_view(
    text: Result<String, WindowInspectorError>,
) -> Result<Seq<char>, ErrorView> {
    match text {
        Ok(text) => Ok(text@),
        Err(error) => Err(error@),
    }
}

fn read_text(
    hwnd: usize,
    exists: bool,
    units: &[u16],
    error_code: u32,
) -> (text: Result<String, WindowInspectorError>)
    ensures
        text_view(text) == text_outcome(hwnd, exists, units@, error_code),
{
    if !exists {
        return Err(WindowInspectorError::WindowNotExist { hwnd });
    }
    if units.len() == 0 {
        return Err(WindowInspectorError::GetClassNameWFailed { error_code });
    }
    Ok(String::from_utf16_lossy(units))
}

/// The class name of a window, from the code units that the platform
/// copied.
pub fn get_window_class(
    hwnd: usize,
    exists: bool,
    units: &[u16],
    error_code: u32,
) -> (class: Result<String, WindowInspectorError>)
    ensures
        text_view(class) == text_outcome(hwnd, exists, units@, error_code),
{
    read_text(hwnd, exists, units, error_code)
}

/// The title of a window, from the code units that the platform copied.
/// A title that could not be read is reported with the same error as a
/// class name that could not; so is an empty title.
pub fn get_window_title(
    hwnd: usize,
    exists: bool,
    units: &[u16],
    error_code: u32,
) -> (title: Result<String, WindowInspectorError>)
    ensures
        text_view(title) == text_outcome(hwnd, exists, units@, error_code),
{
    read_text(hwnd, exists, units, error_code)
}

} // verus!
