//! The playback speed: the video's rate, the player's record of it, and the
//! menu option that shows it.

use vstd::prelude::*;
use crate::dom::get_element_by_id;
use crate::dom::get_video_element;
use crate::dom::query_selector_all;
use crate::error::VideoError;
use crate::error::VideoErrorView;
use crate::error::result_view;
use crate::menu::hide_menus_inner;
use crate::page::Page;
use crate::page::PageView;
use crate::speed::Number;
use crate::speed::Speed;
use crate::speed::label_number;
use crate::speed::parse_label;
use crate::state::VideoState;
use crate::surface::Step;
use crate::surface::note;
use crate::surface::step_of;
use crate::surface::surface;
use crate::surface::surfaced;

verus! {

/// The `class` attribute of a speed option that is the active one or not.
pub open spec fn option_class(active: bool) -> Seq<char> {
    if active {
        "speed-option active"@
    } else {
        "speed-option"@
    }
}

/// Whether a speed option with the text `text` names exactly `speed`; an
/// option without text, or with a label that writes no number, is a
/// failure.
pub open spec fn names_speed(text: Option<Seq<char>>, speed: Speed) -> Result<
    bool,
    VideoErrorView,
> {
    match text {
        None => Err(VideoErrorView::VideoOperationFailed("No text content found"@)),
        Some(label) => match label_number(label) {
            None => Err(VideoErrorView::VideoOperationFailed("Failed to parse speed: "@ + label)),
            Some(Number::Thousandths(t)) => Ok(t == speed.thousandths),
            Some(Number::Other) => Ok(false),
        },
    }
}

impl PageView {
    /// The rate the video plays at.
    pub open spec fn get_playback_speed(self) -> Result<Speed, VideoErrorView> {
        match self.locate_video() {
            Err(e) => Err(e),
            Ok(video) => Ok(self.media(video)->0.playback_rate),
        }
    }

    /// Marking the first `n` of the speed options `options`, in order:
    /// each becomes active if its label names exactly `speed` and inactive
    /// if it names another number. The first option that names none ends
    /// the marking; the options before it stay marked.
    pub open spec fn mark_options(self, options: Seq<usize>, speed: Speed, n: int) -> Step<()>
        decreases n,
    {
        if n <= 0 {
            Step { page: self, outcome: Ok(()) }
        } else {
            let before = self.mark_options(options, speed, n - 1);
            match before.outcome {
                Err(_) => before,
                Ok(_) => match names_speed(self.elements[options[n - 1] as int].text, speed) {
                    Ok(active) => Step {
                        page: before.page.with_class(options[n - 1] as int, option_class(active)),
                        outcome: Ok(()),
                    },
                    Err(e) => Step { page: before.page, outcome: Err(e) },
                },
            }
        }
    }

    /// Marking every speed option of the speed menu for `speed`.
    pub open spec fn mark_speed_options(self, speed: Speed) -> Step<()> {
        match self.locate("playbackSpeedMenu"@) {
            Err(e) => Step { page: self, outcome: Err(e) },
            Ok(menu) => {
                let options = self.select_all(menu, "speed-option"@);
                self.mark_options(options, speed, options.len() as int)
            },
        }
    }

    /// Marking every speed option of the speed menu for `speed`, with a
    /// line on the console first.
    pub open spec fn update_playback_speed_active_state(self, speed: Speed) -> Step<()> {
        self.noted("Entering update_playback_speed_active_state()"@).mark_speed_options(speed)
    }

    /// Setting the video's rate to `speed`, then marking the speed options,
    /// then hiding the menus; a stage that fails ends it, and what was done
    /// before stays done.
    pub open spec fn set_playback_speed(self, speed: Speed) -> Step<()> {
        let entered = self.noted("Entering set_playback_speed()"@);
        match entered.locate_video() {
            Err(e) => Step { page: entered, outcome: Err(e) },
            Ok(video) => {
                let rated = entered.with_playback_rate(video, speed);
                let marked = rated.update_playback_speed_active_state(speed);
                match marked.outcome {
                    Err(_) => marked,
                    Ok(_) => marked.page.hide_menus(),
                }
            },
        }
    }
}

/// The rate the video plays at.
pub fn get_playback_speed(page: &mut Page) -> (r: Result<Speed, VideoError>)
    ensures
        final(page)@ == old(page)@.noted("Entering get_playback_speed()"@),
        result_view(r) == old(page)@.get_playback_speed(),
{
    note(page, "Entering get_playback_speed()");
    match get_video_element(page) {
        Err(e) => Err(e),
        Ok(video) => match page.media(video) {
            Some(media) => Ok(media.playback_rate),
            None => Err(VideoError::element_not_found("videoPlayer")),
        },
    }
}

/// Whether the speed option `option` names exactly `speed`.
fn option_names_speed(page: &Page, option: usize, speed: Speed) -> (r: Result<bool, VideoError>)
    requires
        option < page@.elements.len(),
    ensures
        result_view(r) == names_speed(page@.elements[option as int].text, speed),
{
    assert(page@.elements[option as int] == page.elements[option as int]@);
    match &page.elements[option].text {
        None => Err(VideoError::operation_failed("No text content found")),
        Some(label) => match parse_label(label.as_str()) {
            None => Err(
                VideoError::VideoOperationFailed(
                    String::from_str("Failed to parse speed: ").concat(label.as_str()),
                ),
            ),
            Some(Number::Thousandths(t)) => Ok(t == speed.thousandths),
            Some(Number::Other) => Ok(false),
        },
    }
}

/// Once an option names no number, no later option is marked.
pub proof fn mark_options_ends(
    page: PageView,
    options: Seq<usize>,
    speed: Speed,
    k: int,
    n: int,
)
    requires
        k <= n,
        page.mark_options(options, speed, k).outcome is Err,
    ensures
        page.mark_options(options, speed, n) == page.mark_options(options, speed, k),
    decreases n - k,
{
    if k < n {
        mark_options_ends(page, options, speed, k, n - 1);
    }
}

fn update_active_state_inner(page: &mut Page, speed: Speed) -> (r: Result<(), VideoError>)
    ensures
        step_of(final(page), r) == old(page)@.update_playback_speed_active_state(speed),
{
    note(page, "Entering update_playback_speed_active_state()");
    mark_speed_options(page, speed)
}

fn mark_speed_options(page: &mut Page, speed: Speed) -> (r: Result<(), VideoError>)
    ensures
        step_of(final(page), r) == old(page)@.mark_speed_options(speed),
{
    let menu = match get_element_by_id(page, "playbackSpeedMenu") {
        Ok(i) => i,
        Err(e) => {
            return Err(e);
        },
    };
    let options = query_selector_all(page, menu, "speed-option");
    let mut k: usize = 0;
    while k < options.len()
        invariant
            k <= options.len(),
            old(page)@.locate("playbackSpeedMenu"@) == Ok::<int, VideoErrorView>(menu as int),
            options@ == old(page)@.select_all(menu as int, "speed-option"@),
            forall|j: int| 0 <= j < options@.len() ==> options@[j] < old(page)@.elements.len(),
            page@.elements.len() == old(page)@.elements.len(),
            forall|i: int|
                0 <= i < page@.elements.len() ==> page@.elements[i].text == old(
                    page,
                )@.elements[i].text,
            old(page)@.mark_options(options@, speed, k as int) == (Step::<()> {
                page: page@,
                outcome: Ok(()),
            }),
        decreases options.len() - k,
    {
        let ghost before = page@;
        let option = options[k];
        match option_names_speed(page, option, speed) {
            Ok(active) => {
                page.set_class(option, if active {
                    "speed-option active"
                } else {
                    "speed-option"
                });
            },
            Err(e) => {
                proof {
                    assert(old(page)@.mark_options(options@, speed, k + 1) == (Step::<()> {
                        page: before,
                        outcome: Err(e@),
                    }));
                    mark_options_ends(old(page)@, options@, speed, k + 1, options@.len() as int);
                }
                return Err(e);
            },
        }
        k = k + 1;
    }
    Ok(())
}

/// Marks the speed option whose label names exactly `speed` as active and
/// every other option as inactive. A label names the number it writes once
/// one trailing `x` is taken off.
///
/// The options are marked in document order. The first option without
/// text, or whose label writes no number, ends the marking with a
/// `VideoOperationFailed`; the options before it stay marked. The outcome
/// goes through the error surface.
pub fn update_playback_speed_active_state(page: &mut Page, speed: Speed) -> (r: Result<
    (),
    VideoError,
>)
    ensures
        step_of(final(page), r) == surfaced(
            old(page)@.update_playback_speed_active_state(speed),
        ),
{
    let outcome = update_active_state_inner(page, speed);
    surface(page, outcome)
}

fn set_playback_speed_inner(page: &mut Page, state: &mut VideoState, speed: Speed) -> (r: Result<
    (),
    VideoError,
>)
    ensures
        step_of(final(page), r) == old(page)@.set_playback_speed(speed),
        *final(state) == (if old(page)@.locate_video() is Ok {
            VideoState { playback_speed: speed, ..*old(state) }
        } else {
            *old(state)
        }),
{
    note(page, "Entering set_playback_speed()");
    let video = match get_video_element(page) {
        Ok(i) => i,
        Err(e) => {
            return Err(e);
        },
    };
    page.set_playback_rate(video, speed);
    state.playback_speed = speed;
    match update_active_state_inner(page, speed) {
        Ok(_) => {},
        Err(e) => {
            return Err(e);
        },
    }
    hide_menus_inner(page)
}

/// Sets the playback speed: the video's rate and the player's record become
/// `speed`, the speed options are marked for it, and the menus are hidden.
///
/// The caller offers only positive speeds. Once the video is found the rate
/// and the record are set, whatever happens to the options and the menus
/// after that. The outcome goes through the error surface.
pub fn set_playback_speed(page: &mut Page, state: &mut VideoState, speed: Speed) -> (r: Result<
    (),
    VideoError,
>)
    requires
        speed.positive(),
    ensures
        step_of(final(page), r) == surfaced(old(page)@.set_playback_speed(speed)),
        *final(state) == (if old(page)@.locate_video() is Ok {
            VideoState { playback_speed: speed, ..*old(state) }
        } else {
            *old(state)
        }),
        old(state).wf() ==> final(state).wf(),
{
    let outcome = set_playback_speed_inner(page, state, speed);
    surface(page, outcome)
}

/// The player's record of the playback speed.
pub fn get_current_playback_speed(page: &mut Page, state: &VideoState) -> (r: Speed)
    ensures
        final(page)@ == old(page)@.noted("Entering get_current_playback_speed()"@),
        r == state.playback_speed,
{
    note(page, "Entering get_current_playback_speed()");
    state.playback_speed
}

} // verus!
