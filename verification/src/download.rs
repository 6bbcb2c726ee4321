//! Saving the video: a sequence of host operations, taken one at a time,
//! that gives back every object URL it takes.

use vstd::prelude::*;
use crate::dom::first_source;
use crate::dom::get_video_element;
use crate::error::VideoError;
use crate::error::VideoErrorView;
use crate::menu::hide_menus_inner;
use crate::page::Page;
use crate::page::PageView;
use crate::surface::Step;
use crate::surface::failure_shown;
use crate::surface::note;
use crate::surface::show_failure;
use crate::surface::step_of;
use crate::surface::surface;
use crate::surface::surfaced;
use crate::text::text_view;

verus! {

/// Where a download stands: the host operation it waits for.
#[derive(Debug, Clone, Copy, PartialEq, Eq)]
pub enum Stage {
    Fetching,
    ReadingBlob,
    CreatingUrl,
    CreatingAnchor,
    Appending,
    Clicking,
    Revoking,
    Removing,
    Finished,
}

/// What the host is asked to do next.
#[derive(Debug, Clone, PartialEq, Eq)]
pub enum DownloadAction {
    /// Fetch the given URL with the given method and mode.
    Fetch { url: String, method: String, mode: String },
    /// Read the response's body as a blob.
    ReadBlob,
    /// Create an object URL for the blob.
    CreateObjectUrl,
    /// Create an anchor that links to the given object URL and saves it
    /// under the given file name.
    CreateAnchor { href: String, download: String },
    /// Append the anchor to the document's body.
    AppendAnchor,
    /// Click the anchor.
    ClickAnchor,
    /// Revoke the given object URL.
    RevokeObjectUrl(String),
    /// Remove the anchor from the document's body.
    RemoveAnchor,
    /// Nothing more: the download has ended.
    Finish,
}

/// The mathematical value of a [`DownloadAction`].
pub enum DownloadActionView {
    Fetch { url: Seq<char>, method: Seq<char>, mode: Seq<char> },
    ReadBlob,
    CreateObjectUrl,
    CreateAnchor { href: Seq<char>, download: Seq<char> },
    AppendAnchor,
    ClickAnchor,
    RevokeObjectUrl(Seq<char>),
    RemoveAnchor,
    Finish,
}

impl View for DownloadAction {
    type V = DownloadActionView;

    open spec fn view(&self) -> DownloadActionView {
        match self {
            DownloadAction::Fetch { url, method, mode } => DownloadActionView::Fetch {
                url: url@,
                method: method@,
                mode: mode@,
            },
            DownloadAction::ReadBlob => DownloadActionView::ReadBlob,
            DownloadAction::CreateObjectUrl => DownloadActionView::CreateObjectUrl,
            DownloadAction::CreateAnchor { href, download } => DownloadActionView::CreateAnchor {
                href: href@,
                download: download@,
            },
            DownloadAction::AppendAnchor => DownloadActionView::AppendAnchor,
            DownloadAction::ClickAnchor => DownloadActionView::ClickAnchor,
            DownloadAction::RevokeObjectUrl(url) => DownloadActionView::RevokeObjectUrl(url@),
            DownloadAction::RemoveAnchor => DownloadActionView::RemoveAnchor,
            DownloadAction::Finish => DownloadActionView::Finish,
        }
    }
}

/// What the host answers to an operation.
#[derive(Debug, Clone, PartialEq, Eq)]
pub enum HostReply {
    /// The operation succeeded.
    Done,
    /// The operation succeeded and made the given object URL.
    Url(String),
    /// The operation failed; the text says how.
    Failed(String),
}

/// The mathematical value of a [`HostReply`].
pub enum HostReplyView {
    Done,
    Url(Seq<char>),
    Failed(Seq<char>),
}

impl View for HostReply {
    type V = HostReplyView;

    open spec fn view(&self) -> HostReplyView {
        match self {
            HostReply::Done => HostReplyView::Done,
            HostReply::Url(url) => HostReplyView::Url(url@),
            HostReply::Failed(detail) => HostReplyView::Failed(detail@),
        }
    }
}

/// A download under way.
#[derive(Debug, Clone, PartialEq, Eq)]
pub struct Download {
    /// The URL the video is fetched from.
    pub source: String,
    pub stage: Stage,
    /// The object URL that was made and is not yet given back.
    pub object_url: Option<String>,
    /// Whether the anchor was appended and its removal is still to be asked
    /// for.
    pub anchored: bool,
    /// The first failure met so far.
    pub failure: Option<VideoError>,
}

/// The mathematical value of a [`Download`].
pub struct DownloadView {
    pub source: Seq<char>,
    pub stage: Stage,
    pub object_url: Option<Seq<char>>,
    pub anchored: bool,
    pub failure: Option<VideoErrorView>,
}

impl View for Download {
    type V = DownloadView;

    open spec fn view(&self) -> DownloadView {
        DownloadView {
            source: self.source@,
            stage: self.stage,
            object_url: text_view(self.object_url),
            anchored: self.anchored,
            failure: match self.failure {
                Some(e) => Some(e@),
                None => None,
            },
        }
    }
}

/// What the failure of a stage's operation is called.
pub open spec fn failure_prefix(stage: Stage) -> Seq<char> {
    match stage {
        Stage::Fetching => "Failed to fetch video: "@,
        Stage::ReadingBlob => "Failed to get blob: "@,
        Stage::CreatingUrl => "Failed to create object URL: "@,
        Stage::CreatingAnchor => "Failed to create anchor element: "@,
        Stage::Appending => "Failed to append anchor: "@,
        Stage::Clicking => "Failed to click anchor: "@,
        Stage::Revoking => "Failed to revoke object URL: "@,
        Stage::Removing => "Failed to remove anchor: "@,
        Stage::Finished => Seq::empty(),
    }
}

/// Whether `reply` reports that the operation of `stage` did what the
/// download needs: anything but a failure, and for the object URL the URL
/// itself.
pub open spec fn succeeded(stage: Stage, reply: HostReplyView) -> bool {
    match reply {
        HostReplyView::Failed(_) => false,
        HostReplyView::Url(_) => true,
        HostReplyView::Done => !(stage is CreatingUrl),
    }
}

/// The failure that `reply` amounts to in `stage`.
pub open spec fn failure_of(stage: Stage, reply: HostReplyView) -> VideoErrorView {
    VideoErrorView::VideoOperationFailed(
        failure_prefix(stage) + (match reply {
            HostReplyView::Failed(detail) => detail,
            _ => "no object URL was returned"@,
        }),
    )
}

impl DownloadView {
    /// A download that has fetched nothing yet.
    pub open spec fn begin(source: Seq<char>) -> DownloadView {
        DownloadView {
            source: source,
            stage: Stage::Fetching,
            object_url: None,
            anchored: false,
            failure: None,
        }
    }

    /// Whether the download has ended.
    pub open spec fn finished(self) -> bool {
        self.stage is Finished
    }

    /// Whether the download is at a stage between the making of its object
    /// URL and the revocation of it.
    pub open spec fn holds_url(self) -> bool {
        self.stage is CreatingAnchor || self.stage is Appending || self.stage is Clicking
            || self.stage is Revoking
    }

    /// What holds of every download that was begun and advanced: it has an
    /// object URL exactly from the making of it to its revocation, and its
    /// anchor counts as appended exactly from the appending of it to its
    /// removal.
    pub open spec fn well_formed(self) -> bool {
        &&& self.object_url is Some <==> self.holds_url()
        &&& self.anchored ==> self.stage is Clicking || self.stage is Revoking
            || self.stage is Removing
        &&& self.stage is Clicking || self.stage is Removing ==> self.anchored
    }

    /// What the host is asked to do at this stage.
    pub open spec fn next_action(self) -> DownloadActionView {
        match self.stage {
            Stage::Fetching => DownloadActionView::Fetch {
                url: self.source,
                method: "GET"@,
                mode: "cors"@,
            },
            Stage::ReadingBlob => DownloadActionView::ReadBlob,
            Stage::CreatingUrl => DownloadActionView::CreateObjectUrl,
            Stage::CreatingAnchor => DownloadActionView::CreateAnchor {
                href: match self.object_url {
                    Some(url) => url,
                    None => Seq::empty(),
                },
                download: "video.mp4"@,
            },
            Stage::Appending => DownloadActionView::AppendAnchor,
            Stage::Clicking => DownloadActionView::ClickAnchor,
            Stage::Revoking => DownloadActionView::RevokeObjectUrl(
                match self.object_url {
                    Some(url) => url,
                    None => Seq::empty(),
                },
            ),
            Stage::Removing => DownloadActionView::RemoveAnchor,
            Stage::Finished => DownloadActionView::Finish,
        }
    }

    /// The stage that follows once the host has answered `reply`.
    ///
    /// Before an object URL exists a failure ends the download. Once it
    /// exists every path leads through its revocation, and, if the anchor
    /// hangs in the document, through the anchor's removal.
    pub open spec fn next_stage(self, reply: HostReplyView) -> Stage {
        let ok = succeeded(self.stage, reply);
        match self.stage {
            Stage::Fetching => if ok {
                Stage::ReadingBlob
            } else {
                Stage::Finished
            },
            Stage::ReadingBlob => if ok {
                Stage::CreatingUrl
            } else {
                Stage::Finished
            },
            Stage::CreatingUrl => if reply is Url {
                Stage::CreatingAnchor
            } else {
                Stage::Finished
            },
            Stage::CreatingAnchor => if ok {
                Stage::Appending
            } else {
                Stage::Revoking
            },
            Stage::Appending => if ok {
                Stage::Clicking
            } else {
                Stage::Revoking
            },
            Stage::Clicking => Stage::Revoking,
            Stage::Revoking => if self.anchored {
                Stage::Removing
            } else {
                Stage::Finished
            },
            Stage::Removing => Stage::Finished,
            Stage::Finished => Stage::Finished,
        }
    }

    /// The download once the host has answered `reply` to the operation of
    /// its stage. A finished download stays as it is.
    pub open spec fn advance(self, reply: HostReplyView) -> DownloadView {
        if self.stage is Finished {
            self
        } else {
            DownloadView {
                source: self.source,
                stage: self.next_stage(reply),
                object_url: match self.stage {
                    Stage::CreatingUrl => match reply {
                        HostReplyView::Url(url) => Some(url),
                        _ => None,
                    },
                    Stage::Revoking => None,
                    _ => self.object_url,
                },
                anchored: match self.stage {
                    Stage::Appending => succeeded(self.stage, reply),
                    Stage::Removing => false,
                    _ => self.anchored,
                },
                failure: if self.failure is None && !succeeded(self.stage, reply) {
                    Some(failure_of(self.stage, reply))
                } else {
                    self.failure
                },
            }
        }
    }

    /// What the download comes to: its first failure, or success.
    pub open spec fn result(self) -> Result<(), VideoErrorView> {
        match self.failure {
            Some(e) => Err(e),
            None => Ok(()),
        }
    }
}

impl PageView {
    /// Where the video is fetched from: the `src` of the first source
    /// element below the video, found once the menus are hidden.
    pub open spec fn download_source(self) -> Step<Seq<char>> {
        let hidden = self.noted("Entering download_video()"@).hide_menus();
        match hidden.outcome {
            Err(e) => Step { page: hidden.page, outcome: Err(e) },
            Ok(_) => Step {
                page: hidden.page,
                outcome: match hidden.page.locate_video() {
                    Err(e) => Err(e),
                    Ok(video) => match hidden.page.first_source(video) {
                        None => Err(
                            VideoErrorView::VideoOperationFailed("No source element found"@),
                        ),
                        Some(source) => match hidden.page.elements[source].src {
                            None => Err(
                                VideoErrorView::VideoOperationFailed("No source URL found"@),
                            ),
                            Some(url) => Ok(url),
                        },
                    },
                },
            },
        }
    }

}

/// The view of the result of beginning a download.
pub open spec fn begun_view(r: Result<Download, VideoError>) -> Result<DownloadView, VideoErrorView> {
    match r {
        Ok(d) => Ok(d@),
        Err(e) => Err(e@),
    }
}

/// The view of a step that yields a string.
pub open spec fn text_step(page: &Page, r: Result<String, VideoError>) -> Step<Seq<char>> {
    Step {
        page: page@,
        outcome: match r {
            Ok(text) => Ok(text@),
            Err(e) => Err(e@),
        },
    }
}

fn download_source(page: &mut Page) -> (r: Result<String, VideoError>)
    ensures
        text_step(final(page), r) == old(page)@.download_source(),
{
    note(page, "Entering download_video()");
    match hide_menus_inner(page) {
        Ok(_) => {},
        Err(e) => {
            return Err(e);
        },
    }
    let video = match get_video_element(page) {
        Ok(i) => i,
        Err(e) => {
            return Err(e);
        },
    };
    let source = match first_source(page, video) {
        Some(i) => i,
        None => {
            return Err(VideoError::operation_failed("No source element found"));
        },
    };
    assert(page@.elements[source as int] == page.elements[source as int]@);
    match &page.elements[source].src {
        Some(url) => Ok(url.clone()),
        None => Err(VideoError::operation_failed("No source URL found")),
    }
}

/// Begins saving the video: hides the menus and finds where the video comes
/// from, the `src` of the first source element below it.
///
/// Returns the download, whose first operation is the fetch of that URL. A
/// failure to get that far is shown on the error surface and returned.
pub fn download_video(page: &mut Page) -> (r: Result<Download, VideoError>)
    ensures
        final(page)@ == failure_shown(old(page)@.download_source()).page,
        begun_view(r) == (match old(page)@.download_source().outcome {
            Ok(url) => Ok(DownloadView::begin(url)),
            Err(e) => Err(e),
        }),
        r matches Ok(download) ==> download@.well_formed(),
{
    let found = download_source(page);
    match show_failure(page, found) {
        Ok(url) => Ok(
            Download {
                source: url,
                stage: Stage::Fetching,
                object_url: None,
                anchored: false,
                failure: None,
            },
        ),
        Err(e) => Err(e),
    }
}

fn failure_prefix_text(stage: Stage) -> (r: &'static str)
    ensures
        r@ == failure_prefix(stage),
{
    match stage {
        Stage::Fetching => "Failed to fetch video: ",
        Stage::ReadingBlob => "Failed to get blob: ",
        Stage::CreatingUrl => "Failed to create object URL: ",
        Stage::CreatingAnchor => "Failed to create anchor element: ",
        Stage::Appending => "Failed to append anchor: ",
        Stage::Clicking => "Failed to click anchor: ",
        Stage::Revoking => "Failed to revoke object URL: ",
        Stage::Removing => "Failed to remove anchor: ",
        Stage::Finished => {
            proof {
                reveal_strlit("");
                assert(""@ =~= Seq::<char>::empty());
            }
            ""
        },
    }
}

impl Download {
    /// Whether the download has ended.
    pub fn is_finished(&self) -> (r: bool)
        ensures
            r == self@.finished(),
    {
        match self.stage {
            Stage::Finished => true,
            _ => false,
        }
    }

    /// What the host is asked to do now.
    pub fn next_action(&self) -> (r: DownloadAction)
        ensures
            r@ == self@.next_action(),
    {
        match self.stage {
            Stage::Fetching => DownloadAction::Fetch {
                url: self.source.clone(),
                method: String::from_str("GET"),
                mode: String::from_str("cors"),
            },
            Stage::ReadingBlob => DownloadAction::ReadBlob,
            Stage::CreatingUrl => DownloadAction::CreateObjectUrl,
            Stage::CreatingAnchor => DownloadAction::CreateAnchor {
                href: match &self.object_url {
                    Some(url) => url.clone(),
                    None => String::new(),
                },
                download: String::from_str("video.mp4"),
            },
            Stage::Appending => DownloadAction::AppendAnchor,
            Stage::Clicking => DownloadAction::ClickAnchor,
            Stage::Revoking => DownloadAction::RevokeObjectUrl(
                match &self.object_url {
                    Some(url) => url.clone(),
                    None => String::new(),
                },
            ),
            Stage::Removing => DownloadAction::RemoveAnchor,
            Stage::Finished => DownloadAction::Finish,
        }
    }

    /// Takes the host's answer to the operation of this stage and moves to
    /// the next; returns what the host is asked to do then.
    pub fn advance(&mut self, reply: HostReply) -> (r: DownloadAction)
        ensures
            final(self)@ == old(self)@.advance(reply@),
            r@ == final(self)@.next_action(),
            old(self)@.well_formed() ==> final(self)@.well_formed(),
    {
        let stage = self.stage;
        let ok = match (&reply, stage) {
            (HostReply::Failed(_), _) => false,
            (HostReply::Url(_), _) => true,
            (HostReply::Done, Stage::CreatingUrl) => false,
            (HostReply::Done, _) => true,
        };
        match stage {
            Stage::Finished => {
                return DownloadAction::Finish;
            },
            _ => {},
        }
        if !ok && self.failure.is_none() {
            let detail = match &reply {
                HostReply::Failed(detail) => detail.clone(),
                _ => String::from_str("no object URL was returned"),
            };
            self.failure = Some(
                VideoError::VideoOperationFailed(
                    String::from_str(failure_prefix_text(stage)).concat(detail.as_str()),
                ),
            );
        }
        match stage {
            Stage::Fetching => {
                self.stage = if ok {
                    Stage::ReadingBlob
                } else {
                    Stage::Finished
                };
            },
            Stage::ReadingBlob => {
                self.stage = if ok {
                    Stage::CreatingUrl
                } else {
                    Stage::Finished
                };
            },
            Stage::CreatingUrl => {
                match reply {
                    HostReply::Url(url) => {
                        self.object_url = Some(url);
                        self.stage = Stage::CreatingAnchor;
                    },
                    _ => {
                        self.object_url = None;
                        self.stage = Stage::Finished;
                    },
                }
            },
            Stage::CreatingAnchor => {
                self.stage = if ok {
                    Stage::Appending
                } else {
                    Stage::Revoking
                };
            },
            Stage::Appending => {
                self.anchored = ok;
                self.stage = if ok {
                    Stage::Clicking
                } else {
                    Stage::Revoking
                };
            },
            Stage::Clicking => {
                self.stage = Stage::Revoking;
            },
            Stage::Revoking => {
                self.object_url = None;
                self.stage = if self.anchored {
                    Stage::Removing
                } else {
                    Stage::Finished
                };
            },
            Stage::Removing => {
                self.anchored = false;
                self.stage = Stage::Finished;
            },
            Stage::Finished => {},
        }
        self.next_action()
    }

    /// Reports what the download came to through the error surface: its
    /// first failure, or success.
    pub fn conclude(self, page: &mut Page) -> (r: Result<(), VideoError>)
        ensures
            step_of(final(page), r) == surfaced(
                Step { page: old(page)@, outcome: self@.result() },
            ),
    {
        let outcome = match self.failure {
            Some(e) => Err(e),
            None => Ok(()),
        };
        surface(page, outcome)
    }
}

/// The download after the host has answered `replies` to its operations,
/// one after another.
pub open spec fn run(download: DownloadView, replies: Seq<HostReplyView>) -> DownloadView
    decreases replies.len(),
{
    if replies.len() == 0 {
        download
    } else {
        run(download, replies.drop_last()).advance(replies.last())
    }
}

/// How many object URLs the host has made over `replies`: the answers with
/// a URL to a request for one.
pub open spec fn urls_created(download: DownloadView, replies: Seq<HostReplyView>) -> nat
    decreases replies.len(),
{
    if replies.len() == 0 {
        0
    } else {
        let before = run(download, replies.drop_last());
        urls_created(download, replies.drop_last()) + (if before.stage is CreatingUrl
            && replies.last() is Url {
            1nat
        } else {
            0nat
        })
    }
}

/// How many revocations the host has been asked for, and has answered, over
/// `replies`.
pub open spec fn urls_revoked(download: DownloadView, replies: Seq<HostReplyView>) -> nat
    decreases replies.len(),
{
    if replies.len() == 0 {
        0
    } else {
        let before = run(download, replies.drop_last());
        urls_revoked(download, replies.drop_last()) + (if before.stage is Revoking {
            1nat
        } else {
            0nat
        })
    }
}

/// How many operations a download at `stage` can still ask for.
pub open spec fn operations_left(stage: Stage) -> nat {
    match stage {
        Stage::Fetching => 8,
        Stage::ReadingBlob => 7,
        Stage::CreatingUrl => 6,
        Stage::CreatingAnchor => 5,
        Stage::Appending => 4,
        Stage::Clicking => 3,
        Stage::Revoking => 2,
        Stage::Removing => 1,
        Stage::Finished => 0,
    }
}

} // verus!
