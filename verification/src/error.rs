//! The failures an action of the player can report.

use vstd::prelude::*;

verus! {

/// Why an action of the player failed.
#[derive(Debug, Clone, PartialEq, Eq)]
pub enum VideoError {
    /// The host has no window.
    WindowNotFound,
    /// The window has no document.
    DocumentNotFound,
    /// The document holds no element with the given id.
    ElementNotFound(String),
    /// The host refused an operation; the text says which.
    VideoOperationFailed(String),
    /// The shared player state could not be reached.
    StateError(String),
}

/// The mathematical value of a [`VideoError`].
pub enum VideoErrorView {
    WindowNotFound,
    DocumentNotFound,
    ElementNotFound(Seq<char>),
    VideoOperationFailed(Seq<char>),
    StateError(Seq<char>),
}

impl View for VideoError {
    type V = VideoErrorView;

    open spec fn view(&self) -> VideoErrorView {
        match self {
            VideoError::WindowNotFound => VideoErrorView::WindowNotFound,
            VideoError::DocumentNotFound => VideoErrorView::DocumentNotFound,
            VideoError::ElementNotFound(id) => VideoErrorView::ElementNotFound(id@),
            VideoError::VideoOperationFailed(detail) => VideoErrorView::VideoOperationFailed(
                detail@,
            ),
            VideoError::StateError(detail) => VideoErrorView::StateError(detail@),
        }
    }
}

impl VideoErrorView {
    /// The text shown to the user for this failure.
    pub open spec fn message(self) -> Seq<char> {
        match self {
            VideoErrorView::WindowNotFound => "Window not found"@,
            VideoErrorView::DocumentNotFound => "Document not found"@,
            VideoErrorView::ElementNotFound(id) => "Element not found: "@ + id,
            VideoErrorView::VideoOperationFailed(detail) => "Video operation failed: "@ + detail,
            VideoErrorView::StateError(detail) => "State error: "@ + detail,
        }
    }
}

impl VideoError {
    /// The text shown to the user for this failure.
    pub fn message(&self) -> (r: String)
        ensures
            r@ == self@.message(),
    {
        match self {
            VideoError::WindowNotFound => String::from_str("Window not found"),
            VideoError::DocumentNotFound => String::from_str("Document not found"),
            VideoError::ElementNotFound(id) => String::from_str("Element not found: ").concat(
                id.as_str(),
            ),
            VideoError::VideoOperationFailed(detail) => String::from_str(
                "Video operation failed: ",
            ).concat(detail.as_str()),
            VideoError::StateError(detail) => String::from_str("State error: ").concat(
                detail.as_str(),
            ),
        }
    }

    /// The failure for an element that the document does not hold.
    pub fn element_not_found(id: &str) -> (r: VideoError)
        ensures
            r@ == VideoErrorView::ElementNotFound(id@),
    {
        VideoError::ElementNotFound(String::from_str(id))
    }

    /// The failure for an operation that the host refused.
    pub fn operation_failed(detail: &str) -> (r: VideoError)
        ensures
            r@ == VideoErrorView::VideoOperationFailed(detail@),
    {
        VideoError::VideoOperationFailed(String::from_str(detail))
    }

    /// The failure for a player state whose guard was poisoned by an earlier
    /// panic; `detail` describes the guard's own error.
    pub fn state_locked(detail: &str) -> (r: VideoError)
        ensures
            r@ == VideoErrorView::StateError("Failed to lock state: "@ + detail@),
    {
        VideoError::StateError(String::from_str("Failed to lock state: ").concat(detail))
    }
}

/// The view of a result whose error is a [`VideoError`].
pub open spec fn result_view<T>(r: Result<T, VideoError>) -> Result<T, VideoErrorView> {
    match r {
        Ok(v) => Ok(v),
        Err(e) => Err(e@),
    }
}

} // verus!
