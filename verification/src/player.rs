//! Starting the player: giving the video its source and wiring the page.

use vstd::prelude::*;
use crate::dom::get_video_element;
use crate::element_ids::ElementIds;
use crate::error::VideoError;
use crate::error::VideoErrorView;
use crate::event_listeners::setup_event_listeners;
use crate::page::Page;
use crate::page::PageView;
use crate::state::VideoState;
use crate::surface::Step;
use crate::surface::hide_error;
use crate::surface::note;
use crate::surface::step_of;

verus! {

/// The failure `e` of a stage of the start, named by `stage`.
pub open spec fn start_failure(stage: Seq<char>, e: VideoErrorView) -> VideoErrorView {
    VideoErrorView::VideoOperationFailed(stage + e.message())
}

impl PageView {
    /// Giving the video one more source, as the last element of the
    /// document.
    pub open spec fn add_video_source(self, src: Seq<char>, media_type: Seq<char>) -> Step<()> {
        match self.locate_video() {
            Err(e) => Step { page: self, outcome: Err(e) },
            Ok(video) => Step {
                page: self.with_source_appended(video, src, media_type),
                outcome: Ok(()),
            },
        }
    }

    /// Starting the player: the sample video becomes the video's source,
    /// then the page is wired. A stage that fails ends the start, and what
    /// was done before stays done.
    pub open spec fn init_video_player(self, ids: ElementIds) -> Step<()> {
        let sourced = self.add_video_source(
            "https://storage.googleapis.com/gtv-videos-bucket/sample/BigBuckBunny.mp4"@,
            "video/mp4"@,
        );
        match sourced.outcome {
            Err(e) => Step {
                page: sourced.page,
                outcome: Err(start_failure("Failed to add video source: "@, e)),
            },
            Ok(_) => {
                let wired = sourced.page.setup_event_listeners(ids);
                match wired.outcome {
                    Err(e) => Step {
                        page: wired.page,
                        outcome: Err(start_failure("Failed to setup event listeners: "@, e)),
                    },
                    Ok(_) => wired,
                }
            },
        }
    }

    /// Wiring the page, then hiding the error.
    pub open spec fn init_video(self, ids: ElementIds) -> Step<()> {
        let wired = self.setup_event_listeners(ids);
        match wired.outcome {
            Err(_) => wired,
            Ok(_) => wired.page.noted("Entering set_wasm_initialized()"@).hide_error(),
        }
    }
}

/// Gives the video one more source element with the given `src` and `type`.
pub fn add_video_source(page: &mut Page, src: &str, type_attr: &str) -> (r: Result<
    (),
    VideoError,
>)
    ensures
        step_of(final(page), r) == old(page)@.add_video_source(src@, type_attr@),
{
    match get_video_element(page) {
        Err(e) => Err(e),
        Ok(video) => {
            page.append_source(video, src, type_attr);
            Ok(())
        },
    }
}

fn stage_failed(stage: &str, e: VideoError) -> (r: VideoError)
    ensures
        r@ == start_failure(stage@, e@),
{
    let message = e.message();
    VideoError::VideoOperationFailed(String::from_str(stage).concat(message.as_str()))
}

/// Starts the player on the page: adds the sample video as the video's
/// source and registers the listeners for the elements named by
/// `element_ids`.
///
/// A failure of either stage is returned as a `VideoOperationFailed` that
/// names the stage and carries the failure's own text.
pub fn init_video_player(page: &mut Page, element_ids: ElementIds) -> (r: Result<(), VideoError>)
    ensures
        step_of(final(page), r) == old(page)@.init_video_player(element_ids),
{
    match add_video_source(
        page,
        "https://storage.googleapis.com/gtv-videos-bucket/sample/BigBuckBunny.mp4",
        "video/mp4",
    ) {
        Ok(_) => {},
        Err(e) => {
            return Err(stage_failed("Failed to add video source: ", e));
        },
    }
    match setup_event_listeners(page, element_ids) {
        Ok(_) => Ok(()),
        Err(e) => Err(stage_failed("Failed to setup event listeners: ", e)),
    }
}

/// Whether the player has been started.
pub fn get_wasm_initialized(page: &mut Page, state: &VideoState) -> (r: bool)
    ensures
        final(page)@ == old(page)@.noted("Entering get_wasm_initialized()"@),
        r == state.wasm_initialized,
{
    note(page, "Entering get_wasm_initialized()");
    state.wasm_initialized
}

/// Records whether the player has been started, then hides the error; the
/// record is kept even if the error cannot be hidden.
pub fn set_wasm_initialized(page: &mut Page, state: &mut VideoState, value: bool) -> (r: Result<
    (),
    VideoError,
>)
    ensures
        *final(state) == (VideoState { wasm_initialized: value, ..*old(state) }),
        step_of(final(page), r) == old(page)@.noted("Entering set_wasm_initialized()"@).hide_error(),
{
    note(page, "Entering set_wasm_initialized()");
    state.wasm_initialized = value;
    hide_error(page)
}

/// Wires the page and records that the player has been started. If the
/// wiring fails the record stays as it was.
pub fn init_video(page: &mut Page, state: &mut VideoState, element_ids: ElementIds) -> (r: Result<
    (),
    VideoError,
>)
    ensures
        step_of(final(page), r) == old(page)@.init_video(element_ids),
        *final(state) == (if old(page)@.setup_event_listeners(element_ids).outcome is Ok {
            VideoState { wasm_initialized: true, ..*old(state) }
        } else {
            *old(state)
        }),
{
    match setup_event_listeners(page, element_ids) {
        Ok(_) => {},
        Err(e) => {
            return Err(e);
        },
    }
    set_wasm_initialized(page, state, true)
}

} // verus!
