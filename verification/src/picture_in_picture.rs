//! Picture-in-picture, whose state lives in the host alone.

use vstd::prelude::*;
use crate::dom::get_video_element;
use crate::error::VideoError;
use crate::page::Page;
use crate::page::PageView;
use crate::surface::Step;
use crate::surface::step_of;
use crate::surface::surface;
use crate::surface::surfaced;

verus! {

impl PageView {
    /// Leaving picture-in-picture if some element is shown so; else
    /// entering it with the video if the host reports it as enabled; else
    /// nothing. The video is looked up either way.
    pub open spec fn toggle_picture_in_picture(self) -> Step<()> {
        match self.locate_video() {
            Err(e) => Step { page: self, outcome: Err(e) },
            Ok(video) => if self.picture_in_picture {
                Step { page: self.with_picture_in_picture_left(), outcome: Ok(()) }
            } else if self.picture_in_picture_enabled {
                Step { page: self.with_picture_in_picture_entered(video), outcome: Ok(()) }
            } else {
                Step { page: self, outcome: Ok(()) }
            },
        }
    }
}

fn toggle_picture_in_picture_inner(page: &mut Page) -> (r: Result<(), VideoError>)
    ensures
        step_of(final(page), r) == old(page)@.toggle_picture_in_picture(),
{
    match get_video_element(page) {
        Err(e) => Err(e),
        Ok(video) => {
            if page.picture_in_picture {
                page.leave_picture_in_picture();
            } else if page.picture_in_picture_enabled {
                page.enter_picture_in_picture(video);
            }
            Ok(())
        },
    }
}

/// Leaves picture-in-picture if an element is shown so; else enters it
/// with the video, if the host reports picture-in-picture as enabled.
///
/// The outcome goes through the error surface.
pub fn toggle_picture_in_picture(page: &mut Page) -> (r: Result<(), VideoError>)
    ensures
        step_of(final(page), r) == surfaced(old(page)@.toggle_picture_in_picture()),
{
    let outcome = toggle_picture_in_picture_inner(page);
    surface(page, outcome)
}

} // verus!
