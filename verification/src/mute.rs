//! Muting: the video's flag, the button that shows it, and the player's own
//! record of it.

use vstd::prelude::*;
use crate::dom::get_element_by_id;
use crate::dom::get_video_element;
use crate::error::VideoError;
use crate::error::VideoErrorView;
use crate::error::result_view;
use crate::page::Page;
use crate::page::PageView;
use crate::state::VideoState;
use crate::surface::Step;
use crate::surface::note;
use crate::surface::step_of;
use crate::surface::surface;
use crate::surface::surfaced;

verus! {

/// What the mute button reads for a video that is muted or not.
pub open spec fn mute_label(muted: bool) -> Seq<char> {
    if muted {
        "Unmute"@
    } else {
        "Mute"@
    }
}

/// The line that tells of the flag the video is about to get.
pub open spec fn toggling_note(muted: bool) -> Seq<char> {
    "Toggling mute state to: "@ + (if muted {
        "true"@
    } else {
        "false"@
    })
}

impl PageView {
    /// Flipping the video's mute flag and relabelling the button
    /// `muteButton`; the outcome is the new flag. Without the video or the
    /// button nothing changes.
    pub open spec fn toggle_mute(self) -> Step<bool> {
        let entered = self.noted("Entering toggle_mute()"@);
        match entered.locate_video() {
            Err(e) => Step { page: entered, outcome: Err(e) },
            Ok(video) => match entered.locate("muteButton"@) {
                Err(e) => Step { page: entered, outcome: Err(e) },
                Ok(button) => {
                    let muted = !entered.media(video)->0.muted;
                    Step {
                        page: entered.noted(toggling_note(muted)).with_muted(video, muted).noted(
                            "Entering set_mute_button_text()"@,
                        ).with_text(button, Some(mute_label(muted))),
                        outcome: Ok(muted),
                    }
                },
            },
        }
    }

    /// Writing the label for `muted` on the button `muteButton`, with no
    /// line on the console.
    pub open spec fn label_mute_button(self, muted: bool) -> Step<()> {
        match self.locate("muteButton"@) {
            Err(e) => Step { page: self, outcome: Err(e) },
            Ok(button) => Step {
                page: self.with_text(button, Some(mute_label(muted))),
                outcome: Ok(()),
            },
        }
    }

    /// Whether the video is muted.
    pub open spec fn is_video_muted(self) -> Result<bool, VideoErrorView> {
        match self.locate_video() {
            Err(e) => Err(e),
            Ok(video) => Ok(self.media(video)->0.muted),
        }
    }

    /// Writing the label for `muted` on the button `muteButton`.
    pub open spec fn set_mute_button_text(self, muted: bool) -> Step<()> {
        self.noted("Entering set_mute_button_text()"@).label_mute_button(muted)
    }

    /// Relabelling the button `muteButton` from the video's own flag.
    pub open spec fn update_mute_button_text(self) -> Step<()> {
        let entered = self.noted("Entering update_mute_button_text()"@).noted(
            "Entering is_video_muted()"@,
        );
        match entered.is_video_muted() {
            Err(e) => Step { page: entered, outcome: Err(e) },
            Ok(muted) => entered.label_mute_button(muted),
        }
    }
}

fn mute_label_text(muted: bool) -> (r: &'static str)
    ensures
        r@ == mute_label(muted),
{
    if muted {
        "Unmute"
    } else {
        "Mute"
    }
}

fn toggle_mute_inner(page: &mut Page) -> (r: Result<bool, VideoError>)
    ensures
        step_of(final(page), r) == old(page)@.toggle_mute(),
{
    note(page, "Entering toggle_mute()");
    let video = match get_video_element(page) {
        Ok(i) => i,
        Err(e) => {
            return Err(e);
        },
    };
    let button = match get_element_by_id(page, "muteButton") {
        Ok(i) => i,
        Err(e) => {
            return Err(e);
        },
    };
    match page.media(video) {
        Some(media) => {
            let muted = !media.muted;
            note(page, String::from_str("Toggling mute state to: ").concat(if muted {
                "true"
            } else {
                "false"
            }).as_str());
            page.set_muted(video, muted);
            note(page, "Entering set_mute_button_text()");
            page.set_text(button, Some(String::from_str(mute_label_text(muted))));
            Ok(muted)
        },
        None => Err(VideoError::element_not_found("videoPlayer")),
    }
}

/// Flips the video's mute flag and relabels the mute button: `Unmute` when
/// the video is now muted, `Mute` when it is not. Returns the new flag.
///
/// The outcome goes through the error surface.
pub fn toggle_mute(page: &mut Page) -> (r: Result<bool, VideoError>)
    ensures
        step_of(final(page), r) == surfaced(old(page)@.toggle_mute()),
{
    let outcome = toggle_mute_inner(page);
    surface(page, outcome)
}

/// Whether the video is muted.
pub fn is_video_muted(page: &mut Page) -> (r: Result<bool, VideoError>)
    ensures
        final(page)@ == old(page)@.noted("Entering is_video_muted()"@),
        result_view(r) == old(page)@.is_video_muted(),
{
    note(page, "Entering is_video_muted()");
    match get_video_element(page) {
        Err(e) => Err(e),
        Ok(video) => match page.media(video) {
            Some(media) => Ok(media.muted),
            None => Err(VideoError::element_not_found("videoPlayer")),
        },
    }
}

fn label_mute_button(page: &mut Page, is_muted: bool) -> (r: Result<(), VideoError>)
    ensures
        step_of(final(page), r) == old(page)@.label_mute_button(is_muted),
{
    match get_element_by_id(page, "muteButton") {
        Ok(button) => {
            page.set_text(button, Some(String::from_str(mute_label_text(is_muted))));
            Ok(())
        },
        Err(e) => Err(e),
    }
}

/// Writes the label for `is_muted` on the mute button.
///
/// The outcome goes through the error surface.
pub fn set_mute_button_text(page: &mut Page, is_muted: bool) -> (r: Result<(), VideoError>)
    ensures
        step_of(final(page), r) == surfaced(old(page)@.set_mute_button_text(is_muted)),
{
    note(page, "Entering set_mute_button_text()");
    let outcome = label_mute_button(page, is_muted);
    surface(page, outcome)
}

/// Relabels the mute button from the video's own flag, whoever changed it.
///
/// The outcome goes through the error surface.
pub fn update_mute_button_text(page: &mut Page) -> (r: Result<(), VideoError>)
    ensures
        step_of(final(page), r) == surfaced(old(page)@.update_mute_button_text()),
{
    note(page, "Entering update_mute_button_text()");
    let outcome = match is_video_muted(page) {
        Err(e) => Err(e),
        Ok(muted) => label_mute_button(page, muted),
    };
    surface(page, outcome)
}

/// The player's record of whether it is muted.
pub fn get_is_muted(page: &mut Page, state: &VideoState) -> (r: bool)
    ensures
        final(page)@ == old(page)@.noted("Entering get_is_muted()"@),
        r == state.is_muted,
{
    note(page, "Entering get_is_muted()");
    state.is_muted
}

/// Records whether the player is muted, then hides the error; the record is
/// kept even if the error cannot be hidden.
pub fn set_is_muted(page: &mut Page, state: &mut VideoState, value: bool) -> (r: Result<
    (),
    VideoError,
>)
    ensures
        *final(state) == (VideoState { is_muted: value, ..*old(state) }),
        step_of(final(page), r) == old(page)@.noted("Entering set_is_muted()"@).hide_error(),
{
    note(page, "Entering set_is_muted()");
    state.is_muted = value;
    crate::surface::hide_error(page)
}

} // verus!
