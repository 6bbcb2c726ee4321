//! The video's clock: reading it, showing it, and seeking on it.

use vstd::prelude::*;
use crate::dom::get_element_by_id;
use crate::dom::get_video_element;
use crate::error::VideoError;
use crate::error::VideoErrorView;
use crate::error::result_view;
use crate::page::Page;
use crate::page::PageView;
use crate::surface::Step;
use crate::surface::note;
use crate::surface::step_of;
use crate::surface::surface;
use crate::surface::surfaced;
use crate::text::decimal;
use crate::text::push_decimal;
use crate::text::push_two_digits;
use crate::text::two_digits;

verus! {

/// A time of whole seconds written as `M:SS`: the minutes as they are, a
/// colon, and the seconds within the minute padded to two digits.
pub open spec fn formatted_time(seconds: nat) -> Seq<char> {
    decimal(seconds / 60) + seq![':'] + two_digits(seconds % 60)
}

/// The place on the clock that lies `percentage` hundredths of the way
/// through `duration`, rounded down.
pub open spec fn seek_target(duration: u64, percentage: u32) -> u64 {
    (duration * percentage / 100) as u64
}

impl PageView {
    /// The video's current time in milliseconds.
    pub open spec fn get_video_time(self) -> Result<u64, VideoErrorView> {
        match self.locate_video() {
            Err(e) => Err(e),
            Ok(video) => Ok(self.media(video)->0.current_time),
        }
    }

    /// The video's duration in milliseconds, as far as the host knows it.
    pub open spec fn get_video_duration(self) -> Result<Option<u64>, VideoErrorView> {
        match self.locate_video() {
            Err(e) => Err(e),
            Ok(video) => Ok(self.media(video)->0.duration),
        }
    }

    /// Writing the video's times into the elements `currentTime` and
    /// `totalTime`; the latter is left as it is while the duration is
    /// unknown. Without the video or either element nothing changes.
    pub open spec fn update_time_display(self) -> Step<()> {
        match self.locate_video() {
            Err(e) => Step { page: self, outcome: Err(e) },
            Ok(video) => match self.locate("currentTime"@) {
                Err(e) => Step { page: self, outcome: Err(e) },
                Ok(current) => match self.locate("totalTime"@) {
                    Err(e) => Step { page: self, outcome: Err(e) },
                    Ok(total) => {
                        let media = self.media(video)->0;
                        let shown = self.with_text(
                            current,
                            Some(formatted_time((media.current_time / 1000) as nat)),
                        );
                        Step {
                            page: match media.duration {
                                Some(d) => shown.with_text(
                                    total,
                                    Some(formatted_time((d / 1000) as nat)),
                                ),
                                None => shown,
                            },
                            outcome: Ok(()),
                        }
                    },
                },
            },
        }
    }

    /// Moving the video to `percentage` hundredths of its duration; while
    /// the duration is unknown nothing moves.
    pub open spec fn seek_video(self, percentage: u32) -> Step<()> {
        match self.locate_video() {
            Err(e) => Step { page: self, outcome: Err(e) },
            Ok(video) => {
                let media = self.media(video)->0;
                match media.duration {
                    None => Step { page: self, outcome: Ok(()) },
                    Some(d) => Step {
                        page: self.with_current_time(video, seek_target(d, percentage)),
                        outcome: Ok(()),
                    },
                }
            },
        }
    }
}

/// Writes a time of whole seconds as `M:SS`: `65` is `1:05`.
pub fn format_time(seconds: u64) -> (r: String)
    ensures
        r@ == formatted_time(seconds as nat),
{
    let mut out = String::new();
    push_decimal(&mut out, seconds / 60);
    out.append(":");
    proof {
        reveal_strlit(":");
        assert(":"@ =~= seq![':']);
    }
    push_two_digits(&mut out, seconds % 60);
    assert(out@ =~= formatted_time(seconds as nat));
    out
}

/// The video's current time in milliseconds.
pub fn get_video_time(page: &mut Page) -> (r: Result<u64, VideoError>)
    ensures
        final(page)@ == old(page)@.noted("Entering get_video_time()"@),
        result_view(r) == old(page)@.get_video_time(),
{
    note(page, "Entering get_video_time()");
    match get_video_element(page) {
        Err(e) => Err(e),
        Ok(video) => match page.media(video) {
            Some(media) => Ok(media.current_time),
            None => Err(VideoError::element_not_found("videoPlayer")),
        },
    }
}

/// The video's duration in milliseconds; `None` while the host does not
/// know it.
pub fn get_video_duration(page: &mut Page) -> (r: Result<Option<u64>, VideoError>)
    ensures
        final(page)@ == old(page)@.noted("Entering get_video_duration()"@),
        result_view(r) == old(page)@.get_video_duration(),
{
    note(page, "Entering get_video_duration()");
    match get_video_element(page) {
        Err(e) => Err(e),
        Ok(video) => match page.media(video) {
            Some(media) => Ok(media.duration),
            None => Err(VideoError::element_not_found("videoPlayer")),
        },
    }
}

/// Shows the video's current time and duration, each in whole seconds as
/// `M:SS`. While the duration is unknown the duration's element keeps its
/// text. The error surface is left alone.
pub fn update_time_display(page: &mut Page) -> (r: Result<(), VideoError>)
    ensures
        step_of(final(page), r) == old(page)@.update_time_display(),
{
    let video = match get_video_element(page) {
        Ok(i) => i,
        Err(e) => {
            return Err(e);
        },
    };
    let current = match get_element_by_id(page, "currentTime") {
        Ok(i) => i,
        Err(e) => {
            return Err(e);
        },
    };
    let total = match get_element_by_id(page, "totalTime") {
        Ok(i) => i,
        Err(e) => {
            return Err(e);
        },
    };
    match page.media(video) {
        Some(media) => {
            page.set_text(current, Some(format_time(media.current_time / 1000)));
            match media.duration {
                Some(d) => {
                    page.set_text(total, Some(format_time(d / 1000)));
                },
                None => {},
            }
            Ok(())
        },
        None => Err(VideoError::element_not_found("videoPlayer")),
    }
}

fn seek_video_inner(page: &mut Page, percentage: u32) -> (r: Result<(), VideoError>)
    requires
        old(page)@.get_video_duration() matches Ok(Some(_)) ==> percentage <= 100,
    ensures
        step_of(final(page), r) == old(page)@.seek_video(percentage),
{
    let video = match get_video_element(page) {
        Ok(i) => i,
        Err(e) => {
            return Err(e);
        },
    };
    match page.media(video) {
        Some(media) => {
            match media.duration {
                Some(d) => {
                    proof {
                        assert(0 <= d * percentage <= d * 100) by (nonlinear_arith)
                            requires
                                0 <= d,
                                0 <= percentage <= 100,
                        ;
                    }
                    let wide: u128 = d as u128 * percentage as u128 / 100;
                    page.set_current_time(video, wide as u64);
                },
                None => {},
            }
            Ok(())
        },
        None => Err(VideoError::element_not_found("videoPlayer")),
    }
}

/// Moves the video to `percentage` hundredths of its duration, which is at
/// most a hundred of them. While the duration is unknown the video stays
/// where it is, whatever the percentage.
///
/// The outcome goes through the error surface.
pub fn seek_video(page: &mut Page, percentage: u32) -> (r: Result<(), VideoError>)
    requires
        old(page)@.get_video_duration() matches Ok(Some(_)) ==> percentage <= 100,
    ensures
        step_of(final(page), r) == surfaced(old(page)@.seek_video(percentage)),
{
    let outcome = seek_video_inner(page, percentage);
    surface(page, outcome)
}

} // verus!
