//! Playing and pausing, and the button that shows which comes next.

use vstd::prelude::*;
use crate::dom::get_element_by_id;
use crate::dom::get_video_element;
use crate::error::VideoError;
use crate::error::VideoErrorView;
use crate::error::result_view;
use crate::page::Page;
use crate::page::PageView;
use crate::surface::Step;
use crate::surface::failure_shown;
use crate::surface::note;
use crate::surface::show_failure;
use crate::surface::step_of;
use crate::surface::surface;
use crate::surface::surfaced;

verus! {

/// What the toggle button reads for a video that is paused or not: the
/// action a click would take.
pub open spec fn play_label(paused: bool) -> Seq<char> {
    if paused {
        "Play"@
    } else {
        "Pause"@
    }
}

/// What the `disabled` attribute reads.
pub open spec fn disabled_value(disabled: bool) -> Seq<char> {
    if disabled {
        "true"@
    } else {
        "false"@
    }
}

impl PageView {
    /// Writing `text` on the button `toggleButton`.
    pub open spec fn set_toggle_play(self, text: Seq<char>) -> Step<()> {
        let entered = self.noted("Entering set_toggle_play()"@);
        match entered.locate("toggleButton"@) {
            Err(e) => Step { page: entered, outcome: Err(e) },
            Ok(button) => Step { page: entered.with_text(button, Some(text)), outcome: Ok(()) },
        }
    }

    /// Pausing a playing video, playing a paused one, and relabelling the
    /// button `toggleButton`. Without the video or the button nothing
    /// changes.
    pub open spec fn play_video(self) -> Step<()> {
        let entered = self.noted("Entering play_video()"@);
        match entered.locate_video() {
            Err(e) => Step { page: entered, outcome: Err(e) },
            Ok(video) => match entered.locate("toggleButton"@) {
                Err(e) => Step { page: entered, outcome: Err(e) },
                Ok(button) => {
                    let paused = !entered.media(video)->0.paused;
                    Step {
                        page: entered.noted("Entering is_video_playing()"@).noted(
                            if paused {
                                "Pausing video"@
                            } else {
                                "Playing video"@
                            },
                        ).with_paused(video, paused).noted("Entering set_toggle_play()"@).with_text(
                            button,
                            Some(play_label(paused)),
                        ),
                        outcome: Ok(()),
                    }
                },
            },
        }
    }

    /// Whether the video is playing.
    pub open spec fn is_video_playing(self) -> Result<bool, VideoErrorView> {
        match self.locate_video() {
            Err(e) => Err(e),
            Ok(video) => Ok(!self.media(video)->0.paused),
        }
    }

    /// Writing the `disabled` attribute of the button `toggleButton`.
    pub open spec fn set_toggle_button_disabled(self, disabled: bool) -> Step<()> {
        let entered = self.noted("Entering set_toggle_button_disabled()"@);
        match entered.locate("toggleButton"@) {
            Err(e) => Step { page: entered, outcome: Err(e) },
            Ok(button) => Step {
                page: entered.with_disabled(button, disabled_value(disabled)),
                outcome: Ok(()),
            },
        }
    }
}

/// Writes `text` on the toggle button. The error surface is left alone, so
/// that the video's own events can relabel the button at any time.
pub fn set_toggle_play(page: &mut Page, text: &str) -> (r: Result<(), VideoError>)
    ensures
        step_of(final(page), r) == old(page)@.set_toggle_play(text@),
{
    note(page, "Entering set_toggle_play()");
    match get_element_by_id(page, "toggleButton") {
        Ok(button) => {
            page.set_text(button, Some(String::from_str(text)));
            Ok(())
        },
        Err(e) => Err(e),
    }
}

fn play_video_inner(page: &mut Page) -> (r: Result<(), VideoError>)
    ensures
        step_of(final(page), r) == old(page)@.play_video(),
{
    note(page, "Entering play_video()");
    let video = match get_video_element(page) {
        Ok(i) => i,
        Err(e) => {
            return Err(e);
        },
    };
    let button = match get_element_by_id(page, "toggleButton") {
        Ok(i) => i,
        Err(e) => {
            return Err(e);
        },
    };
    match page.media(video) {
        Some(media) => {
            let paused = !media.paused;
            note(page, "Entering is_video_playing()");
            note(page, if paused {
                "Pausing video"
            } else {
                "Playing video"
            });
            page.set_paused(video, paused);
            note(page, "Entering set_toggle_play()");
            page.set_text(button, Some(String::from_str(if paused {
                "Play"
            } else {
                "Pause"
            })));
            Ok(())
        },
        None => Err(VideoError::element_not_found("videoPlayer")),
    }
}

/// Pauses the video if it plays and plays it if it is paused, and relabels
/// the toggle button: `Play` once paused, `Pause` once playing.
///
/// The outcome goes through the error surface.
pub fn play_video(page: &mut Page) -> (r: Result<(), VideoError>)
    ensures
        step_of(final(page), r) == surfaced(old(page)@.play_video()),
{
    let outcome = play_video_inner(page);
    surface(page, outcome)
}

/// Whether the video is playing.
pub fn is_video_playing(page: &mut Page) -> (r: Result<bool, VideoError>)
    ensures
        final(page)@ == old(page)@.noted("Entering is_video_playing()"@),
        result_view(r) == old(page)@.is_video_playing(),
{
    note(page, "Entering is_video_playing()");
    match get_video_element(page) {
        Err(e) => Err(e),
        Ok(video) => match page.media(video) {
            Some(media) => Ok(!media.paused),
            None => Err(VideoError::element_not_found("videoPlayer")),
        },
    }
}

fn set_toggle_button_disabled_inner(page: &mut Page, disabled: bool) -> (r: Result<(), VideoError>)
    ensures
        step_of(final(page), r) == old(page)@.set_toggle_button_disabled(disabled),
{
    note(page, "Entering set_toggle_button_disabled()");
    match get_element_by_id(page, "toggleButton") {
        Ok(button) => {
            page.set_disabled(button, if disabled {
                "true"
            } else {
                "false"
            });
            Ok(())
        },
        Err(e) => Err(e),
    }
}

/// Writes the `disabled` attribute of the toggle button: `true` or `false`.
/// A failure is shown on the error surface; success leaves it alone.
pub fn set_toggle_button_disabled(page: &mut Page, disabled: bool) -> (r: Result<(), VideoError>)
    ensures
        step_of(final(page), r) == failure_shown(
            old(page)@.set_toggle_button_disabled(disabled),
        ),
{
    let outcome = set_toggle_button_disabled_inner(page, disabled);
    show_failure(page, outcome)
}

} // verus!
