//! The error surface: the element that shows the last failure, and the one
//! way every action reports its outcome through it.

use vstd::prelude::*;
use crate::dom::get_element_by_id;
use crate::error::VideoError;
use crate::error::VideoErrorView;
use crate::error::result_view;
use crate::logger::LogLevel;
use crate::logger::LogRecordView;
use crate::logger::Logger;
use crate::page::Page;
use crate::page::PageView;

verus! {

/// A page together with the outcome of an action on it.
pub struct Step<T> {
    pub page: PageView,
    pub outcome: Result<T, VideoErrorView>,
}

impl PageView {
    /// The page after `message` is written to the console as an error. An
    /// empty message writes nothing.
    pub open spec fn logged(self, message: Seq<char>) -> PageView {
        if message.len() == 0 {
            self
        } else {
            self.with_console_line(
                LogRecordView { level: LogLevel::Error, text: message, style: None },
            )
        }
    }

    /// The page after `message` is written to the console as information. An
    /// empty message writes nothing.
    pub open spec fn noted(self, message: Seq<char>) -> PageView {
        if message.len() == 0 {
            self
        } else {
            self.with_console_line(
                LogRecordView { level: LogLevel::Info, text: message, style: None },
            )
        }
    }

    /// Showing `message`: it is logged, then written into the element
    /// `errorMessage`, which is made visible. Without that element only the
    /// log line is written, and the lookup's failure is the outcome.
    pub open spec fn show_error(self, message: Seq<char>) -> Step<()> {
        let logged = self.logged(message);
        match logged.locate("errorMessage"@) {
            Ok(i) => Step {
                page: logged.with_text(i, Some(message)).with_class(i, "error-message show"@),
                outcome: Ok(()),
            },
            Err(e) => Step { page: logged, outcome: Err(e) },
        }
    }

    /// Hiding the error: the element `errorMessage` loses its text and its
    /// visibility. Without that element nothing changes, and the lookup's
    /// failure is the outcome.
    pub open spec fn hide_error(self) -> Step<()> {
        match self.locate("errorMessage"@) {
            Ok(i) => Step {
                page: self.with_text(i, None).with_class(i, "error-message"@),
                outcome: Ok(()),
            },
            Err(e) => Step { page: self, outcome: Err(e) },
        }
    }
}

/// How an action's outcome reaches the error surface: success hides the
/// error, and fails only if that cannot be done; a failure is shown, as far
/// as it can be, and stays the outcome.
pub open spec fn surfaced<T>(step: Step<T>) -> Step<T> {
    match step.outcome {
        Ok(v) => {
            let hidden = step.page.hide_error();
            Step {
                page: hidden.page,
                outcome: match hidden.outcome {
                    Ok(_) => Ok(v),
                    Err(e) => Err(e),
                },
            }
        },
        Err(e) => Step { page: step.page.show_error(e.message()).page, outcome: Err(e) },
    }
}

/// How the outcome of a step that leaves the error surface alone on success
/// reaches it: only a failure is shown, as far as it can be.
pub open spec fn failure_shown<T>(step: Step<T>) -> Step<T> {
    match step.outcome {
        Ok(_) => step,
        Err(e) => Step { page: step.page.show_error(e.message()).page, outcome: Err(e) },
    }
}

/// The page after an action together with the view of what it returned.
pub open spec fn step_of<T>(page: &Page, r: Result<T, VideoError>) -> Step<T> {
    Step { page: page@, outcome: result_view(r) }
}

/// Writes `message` to the console as information.
pub fn note(page: &mut Page, message: &str)
    ensures
        final(page)@ == old(page)@.noted(message@),
{
    match Logger::info(message) {
        Ok(record) => {
            page.push_console_line(record);
        },
        Err(_) => {},
    }
}

/// Writes `message` into the error element, makes it visible and logs it.
pub fn show_error(page: &mut Page, message: &str) -> (r: Result<(), VideoError>)
    ensures
        step_of(final(page), r) == old(page)@.show_error(message@),
{
    match Logger::error(message) {
        Ok(record) => {
            page.push_console_line(record);
        },
        Err(_) => {},
    }
    match get_element_by_id(page, "errorMessage") {
        Ok(i) => {
            page.set_text(i, Some(String::from_str(message)));
            page.set_class(i, "error-message show");
            Ok(())
        },
        Err(e) => Err(e),
    }
}

/// Clears the error element and its visibility.
pub fn hide_error(page: &mut Page) -> (r: Result<(), VideoError>)
    ensures
        step_of(final(page), r) == old(page)@.hide_error(),
{
    match get_element_by_id(page, "errorMessage") {
        Ok(i) => {
            page.set_text(i, None);
            page.set_class(i, "error-message");
            Ok(())
        },
        Err(e) => Err(e),
    }
}

/// Reports the outcome of an action through the error surface.
pub fn surface<T>(page: &mut Page, outcome: Result<T, VideoError>) -> (r: Result<T, VideoError>)
    ensures
        step_of(final(page), r) == surfaced(step_of(old(page), outcome)),
{
    match outcome {
        Ok(v) => match hide_error(page) {
            Ok(_) => Ok(v),
            Err(e) => Err(e),
        },
        Err(e) => {
            let message = e.message();
            let _ = show_error(page, message.as_str());
            Err(e)
        },
    }
}

/// Shows a failure on the error surface and leaves success as it is.
pub fn show_failure<T>(page: &mut Page, outcome: Result<T, VideoError>) -> (r: Result<
    T,
    VideoError,
>)
    ensures
        step_of(final(page), r) == failure_shown(step_of(old(page), outcome)),
{
    match outcome {
        Ok(v) => Ok(v),
        Err(e) => {
            let message = e.message();
            let _ = show_error(page, message.as_str());
            Err(e)
        },
    }
}

/// The failure of a host operation that the host refused: what was
/// attempted, and what the host said of it.
pub open spec fn refusal(operation: Seq<char>, detail: Seq<char>) -> VideoErrorView {
    VideoErrorView::VideoOperationFailed(operation + ": "@ + detail)
}

/// Reports that the host refused an operation which the page had given no
/// reason to expect refused: the failure is shown on the error surface and
/// returned.
pub fn operation_refused(page: &mut Page, operation: &str, detail: &str) -> (r: VideoError)
    ensures
        r@ == refusal(operation@, detail@),
        final(page)@ == old(page)@.show_error(refusal(operation@, detail@).message()).page,
{
    let mut text = String::from_str(operation);
    text.append(": ");
    text.append(detail);
    let error = VideoError::VideoOperationFailed(text);
    let message = error.message();
    let _ = show_error(page, message.as_str());
    error
}

} // verus!
