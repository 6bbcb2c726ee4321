//! Fullscreen: entering and leaving it, and the button that shows it.

use vstd::prelude::*;
use crate::dom::check_document;
use crate::dom::get_element_by_id;
use crate::dom::get_video_element;
use crate::error::VideoError;
use crate::error::VideoErrorView;
use crate::error::result_view;
use crate::page::Page;
use crate::page::PageView;
use crate::surface::Step;
use crate::surface::note;
use crate::surface::step_of;
use crate::surface::surface;
use crate::surface::surfaced;

verus! {

/// What the fullscreen button reads.
pub open spec fn fullscreen_label(fullscreen: bool) -> Seq<char> {
    if fullscreen {
        "Exit Fullscreen"@
    } else {
        "Fullscreen"@
    }
}

impl PageView {
    /// Leaving fullscreen if some element is shown so, with the outcome
    /// `false`; else asking for it on the video, with the outcome `true`,
    /// which the host may refuse. The video is looked up either way.
    pub open spec fn toggle_fullscreen(self) -> Step<bool> {
        let entered = self.noted("Entering toggle_fullscreen()"@);
        match entered.locate_video() {
            Err(e) => Step { page: entered, outcome: Err(e) },
            Ok(video) => if entered.fullscreen {
                Step {
                    page: entered.noted("Exiting fullscreen mode"@).with_fullscreen_left(),
                    outcome: Ok(false),
                }
            } else if entered.fullscreen_enabled {
                Step {
                    page: entered.noted("Entering fullscreen mode"@).with_fullscreen_entered(
                        video,
                    ),
                    outcome: Ok(true),
                }
            } else {
                Step {
                    page: entered.noted("Entering fullscreen mode"@),
                    outcome: Err(
                        VideoErrorView::VideoOperationFailed(
                            "Failed to enter fullscreen: the host refused the request"@,
                        ),
                    ),
                }
            },
        }
    }

    /// Whether some element is shown fullscreen.
    pub open spec fn is_fullscreen(self) -> Result<bool, VideoErrorView> {
        match self.document_error() {
            Some(e) => Err(e),
            None => Ok(self.fullscreen),
        }
    }

    /// Writing the label for `fullscreen` on the button `fullscreenButton`.
    pub open spec fn label_fullscreen_button(self, fullscreen: bool) -> Step<()> {
        match self.locate("fullscreenButton"@) {
            Err(e) => Step { page: self, outcome: Err(e) },
            Ok(button) => Step {
                page: self.with_text(button, Some(fullscreen_label(fullscreen))),
                outcome: Ok(()),
            },
        }
    }

    /// Toggling fullscreen, then labelling the button with what it is now.
    pub open spec fn set_fullscreen_button_text(self) -> Step<()> {
        let toggled = self.noted("Entering set_fullscreen_button_text()"@).toggle_fullscreen();
        match toggled.outcome {
            Err(e) => Step { page: toggled.page, outcome: Err(e) },
            Ok(fullscreen) => toggled.page.label_fullscreen_button(fullscreen),
        }
    }

    /// Relabelling the button `fullscreenButton` from the document's own
    /// state.
    pub open spec fn update_fullscreen_button_text(self) -> Step<()> {
        let entered = self.noted("Entering update_fullscreen_button_text()"@).noted(
            "Entering is_fullscreen()"@,
        );
        match entered.is_fullscreen() {
            Err(e) => Step { page: entered, outcome: Err(e) },
            Ok(fullscreen) => entered.label_fullscreen_button(fullscreen),
        }
    }
}

fn toggle_fullscreen_inner(page: &mut Page) -> (r: Result<bool, VideoError>)
    ensures
        step_of(final(page), r) == old(page)@.toggle_fullscreen(),
{
    note(page, "Entering toggle_fullscreen()");
    match get_video_element(page) {
        Err(e) => Err(e),
        Ok(video) => if page.fullscreen {
            note(page, "Exiting fullscreen mode");
            page.leave_fullscreen();
            Ok(false)
        } else if page.fullscreen_enabled {
            note(page, "Entering fullscreen mode");
            page.enter_fullscreen(video);
            Ok(true)
        } else {
            note(page, "Entering fullscreen mode");
            Err(
                VideoError::operation_failed(
                    "Failed to enter fullscreen: the host refused the request",
                ),
            )
        },
    }
}

fn label_fullscreen_button(page: &mut Page, fullscreen: bool) -> (r: Result<(), VideoError>)
    ensures
        step_of(final(page), r) == old(page)@.label_fullscreen_button(fullscreen),
{
    match get_element_by_id(page, "fullscreenButton") {
        Ok(button) => {
            page.set_text(button, Some(String::from_str(if fullscreen {
                "Exit Fullscreen"
            } else {
                "Fullscreen"
            })));
            Ok(())
        },
        Err(e) => Err(e),
    }
}

/// Leaves fullscreen if the document shows an element fullscreen, and
/// returns `false`; else asks for fullscreen on the video and returns
/// `true`. A request that the host refuses is a `VideoOperationFailed`.
///
/// The outcome goes through the error surface.
pub fn toggle_fullscreen(page: &mut Page) -> (r: Result<bool, VideoError>)
    ensures
        step_of(final(page), r) == surfaced(old(page)@.toggle_fullscreen()),
{
    let outcome = toggle_fullscreen_inner(page);
    surface(page, outcome)
}

/// Whether the document shows an element fullscreen.
pub fn is_fullscreen(page: &mut Page) -> (r: Result<bool, VideoError>)
    ensures
        final(page)@ == old(page)@.noted("Entering is_fullscreen()"@),
        result_view(r) == old(page)@.is_fullscreen(),
{
    note(page, "Entering is_fullscreen()");
    match check_document(page) {
        Err(e) => Err(e),
        Ok(_) => Ok(page.fullscreen),
    }
}

/// Toggles fullscreen and labels the fullscreen button with the new state:
/// `Exit Fullscreen` or `Fullscreen`.
///
/// The outcome goes through the error surface.
pub fn set_fullscreen_button_text(page: &mut Page) -> (r: Result<(), VideoError>)
    ensures
        step_of(final(page), r) == surfaced(old(page)@.set_fullscreen_button_text()),
{
    note(page, "Entering set_fullscreen_button_text()");
    let outcome = match toggle_fullscreen_inner(page) {
        Err(e) => Err(e),
        Ok(fullscreen) => label_fullscreen_button(page, fullscreen),
    };
    surface(page, outcome)
}

/// Relabels the fullscreen button from the document's own state, whoever
/// changed it.
///
/// The outcome goes through the error surface.
pub fn update_fullscreen_button_text(page: &mut Page) -> (r: Result<(), VideoError>)
    ensures
        step_of(final(page), r) == surfaced(old(page)@.update_fullscreen_button_text()),
{
    note(page, "Entering update_fullscreen_button_text()");
    let outcome = match is_fullscreen(page) {
        Err(e) => Err(e),
        Ok(fullscreen) => label_fullscreen_button(page, fullscreen),
    };
    surface(page, outcome)
}

} // verus!
