//! The process that owns a window.

use crate::class_title::text_view;
use crate::error::{outcome, ErrorView, WindowInspectorError};
use vstd::prelude::*;

verus! {

/// What the platform found when asked for the image of a process.
#[derive(Debug, PartialEq, Eq)]
pub enum ProcessImage {
    /// The process could not be opened.
    OpenProcessFailed { error_message: String },
    /// The process was opened, but its image path could not be read.
    QueryFailed { error_message: String },
    /// The image path of the process.
    Path { path: String },
}

/// The value of a [`ProcessImage`].
pub enum ProcessImageView {
    OpenProcessFailed { error_message: Seq<char> },
    QueryFailed { error_message: Seq<char> },
    Path { path: Seq<char> },
}

impl View for ProcessImage {
    type V = ProcessImageView;

    open spec fn view(&self) -> ProcessImageView {
        match *self {
            ProcessImage::OpenProcessFailed { error_message } => {
                ProcessImageView::OpenProcessFailed { error_message: error_message@ }
            },
            ProcessImage::QueryFailed { error_message } => ProcessImageView::QueryFailed {
                error_message: error_message@,
            },
            ProcessImage::Path { path } => ProcessImageView::Path { path: path@ },
        }
    }
}

/// What asking for the process of a window yields, from the thread and
/// process identifiers that the platform reported and the error code it
/// held after that: without a thread there is no answer.
pub open spec fn process_outcome(
    thread_id: u32,
    process_id: u32,
    error_code: u32,
) -> Result<u32, ErrorView> {
    if thread_id == 0 {
        Err(ErrorView::GetWindowThreadProcessIdFailed { error_code })
    } else {
        Ok(process_id)
    }
}

/// What asking for the path of a process yields.
pub open spec fn path_outcome(
    process_id: u32,
    image: ProcessImageView,
) -> Result<Seq<char>, ErrorView> {
    match image {
        ProcessImageView::OpenProcessFailed { error_message } => Err(
            ErrorView::OpenProcessFailed { process_id, error_message },
        ),
        ProcessImageView::QueryFailed { error_message } => Err(
            ErrorView::QueryFullProcessImageNameWFailed { process_id, error_message },
        ),
        ProcessImageView::Path { path } => Ok(path),
    }
}

/// What asking for the path of the process of a window yields: the error
/// of the first question where it failed, otherwise the answer to the
/// second.
pub open spec fn process_path_outcome(
    process: Result<u32, ErrorView>,
    image: ProcessImageView,
) -> Result<Seq<char>, ErrorView> {
    match process {
        Err(error) => Err(error),
        Ok(process_id) => path_outcome(process_id, image),
    }
}

/// The process that owns a window, from the identifiers that the platform
/// reported for the window.
pub fn get_window_process(
    thread_id: u32,
    process_id: u32,
    error_code: u32,
) -> (process: Result<u32, WindowInspectorError>)
    ensures
        outcome(process) == process_outcome(thread_id, process_id, error_code),
{
    if thread_id == 0 {
        return Err(WindowInspectorError::GetWindowThreadProcessIdFailed { error_code });
    }
    Ok(process_id)
}

/// The path of the image of a process, from what the platform found.
pub fn get_process_path(
    process_id: u32,
    image: ProcessImage,
) -> (path: Result<String, WindowInspectorError>)
    ensures
        text_view(path) == path_outcome(process_id, image@),
{
    match image {
        ProcessImage::OpenProcessFailed { error_message } => Err(
            WindowInspectorError::OpenProcessFailed { process_id, error_message },
        ),
        ProcessImage::QueryFailed { error_message } => Err(
            WindowInspectorError::QueryFullProcessImageNameWFailed { process_id, error_message },
        ),
        ProcessImage::Path { path } => Ok(path),
    }
}

/// The path of the image of the process that owns a window, from the
/// result of [`get_window_process`] and what the platform found for that
/// process.
pub fn get_window_process_path(
    process: Result<u32, WindowInspectorError>,
    image: ProcessImage,
) -> (path: Result<String, WindowInspectorError>)
    ensures
        text_view(path) == process_path_outcome(outcome(process), image@),
{
    match process {
        Err(error) => Err(error),
        Ok(process_id) => get_process_path(process_id, image),
    }
}

} // verus!
