//! The host page as plain data: the document's elements in document order,
//! the video's media state, and what the host reports of itself.

use vstd::prelude::*;
use crate::logger::LogRecord;
use crate::logger::LogRecordView;
use crate::speed::Speed;
use crate::text::copy_of_text;
use crate::text::text_view;

verus! {

/// The media state of a video element. Times are in milliseconds.
#[derive(Debug, Clone, Copy, PartialEq, Eq)]
pub struct Media {
    pub muted: bool,
    pub paused: bool,
    pub playback_rate: Speed,
    pub current_time: u64,
    /// `None` until the host knows the duration.
    pub duration: Option<u64>,
}

/// What sort of element a node of the document is.
#[derive(Debug, Clone, Copy, PartialEq, Eq)]
pub enum Kind {
    Video(Media),
    Source,
    Other,
}

/// One element of the document.
#[derive(Debug, Clone, PartialEq, Eq)]
pub struct Element {
    /// The `id` attribute; empty for an element without one.
    pub id: String,
    /// The index of the parent element, `None` directly under the document.
    pub parent: Option<usize>,
    pub kind: Kind,
    /// The text content.
    pub text: Option<String>,
    /// The markup last written as the element's content.
    pub html: Option<String>,
    /// The `class` attribute.
    pub class: String,
    /// The `style` attribute.
    pub style: String,
    /// The `src` attribute.
    pub src: Option<String>,
    /// The `type` attribute.
    pub media_type: Option<String>,
    /// The `disabled` attribute.
    pub disabled: Option<String>,
    /// The right edge of the bounding rectangle, in pixels.
    pub right: i32,
    /// The bottom edge of the bounding rectangle, in pixels.
    pub bottom: i32,
}

/// The mathematical value of an [`Element`].
pub struct ElementView {
    pub id: Seq<char>,
    pub parent: Option<usize>,
    pub kind: Kind,
    pub text: Option<Seq<char>>,
    pub html: Option<Seq<char>>,
    pub class: Seq<char>,
    pub style: Seq<char>,
    pub src: Option<Seq<char>>,
    pub media_type: Option<Seq<char>>,
    pub disabled: Option<Seq<char>>,
    pub right: i32,
    pub bottom: i32,
}

impl View for Element {
    type V = ElementView;

    open spec fn view(&self) -> ElementView {
        ElementView {
            id: self.id@,
            parent: self.parent,
            kind: self.kind,
            text: text_view(self.text),
            html: text_view(self.html),
            class: self.class@,
            style: self.style@,
            src: text_view(self.src),
            media_type: text_view(self.media_type),
            disabled: text_view(self.disabled),
            right: self.right,
            bottom: self.bottom,
        }
    }
}

/// What an event listener is attached to.
#[derive(Debug, Clone, Copy, PartialEq, Eq)]
pub enum Target {
    Document,
    Element(usize),
}

/// The events the player listens for.
#[derive(Debug, Clone, Copy, PartialEq, Eq)]
pub enum EventKind {
    Click,
    TimeUpdate,
    LoadedMetadata,
    DurationChange,
    Play,
    Pause,
    VolumeChange,
    FullscreenChange,
}

/// What a listener does when its event arrives.
#[derive(Debug, Clone, Copy, PartialEq, Eq)]
pub enum Handler {
    /// Hide both menus if the click landed outside them.
    DismissMenus { context_menu: usize, speed_menu: usize },
    UpdateTimeDisplay,
    ShowPauseLabel,
    ShowPlayLabel,
    UpdateMuteLabel,
    UpdateFullscreenLabel,
    TogglePlay,
    ToggleMute,
    ToggleFullscreen,
    Download,
    OpenSpeedMenu,
    TogglePictureInPicture,
    SetSpeed(Speed),
    /// The click on a speed option whose label names a number that is no
    /// speed to run at: nothing is done.
    NoSpeed,
    OpenContextMenu,
    /// Fetch the demo post and show it in the given element.
    FetchPost { content: usize },
}

/// One registered event listener.
#[derive(Debug, Clone, Copy, PartialEq, Eq)]
pub struct Listener {
    pub target: Target,
    pub event: EventKind,
    pub handler: Handler,
}

/// The attributes that the player writes.
#[derive(Debug, Clone, Copy, PartialEq, Eq)]
pub enum Attribute {
    Class,
    Style,
    Disabled,
}

/// One operation on the host page, as the host is asked to perform it.
/// Elements are named by their index in the document.
#[derive(Debug, Clone, PartialEq, Eq)]
pub enum HostCall {
    SetTextContent { element: usize, text: Option<String> },
    SetInnerHtml { element: usize, html: String },
    SetAttribute { element: usize, attribute: Attribute, value: String },
    SetMuted { element: usize, muted: bool },
    Play { element: usize },
    Pause { element: usize },
    SetPlaybackRate { element: usize, rate: Speed },
    /// The time is in milliseconds.
    SetCurrentTime { element: usize, time: u64 },
    RequestFullscreen { element: usize },
    ExitFullscreen,
    RequestPictureInPicture { element: usize },
    ExitPictureInPicture,
    /// Append a new source element with the given `src` and `type` to the
    /// element `parent`.
    AppendSource { parent: usize, src: String, media_type: String },
    AddEventListener { listener: Listener },
    /// Write a line to the console.
    Log { record: LogRecord },
}

/// The mathematical value of a [`HostCall`].
pub enum HostCallView {
    SetTextContent { element: usize, text: Option<Seq<char>> },
    SetInnerHtml { element: usize, html: Seq<char> },
    SetAttribute { element: usize, attribute: Attribute, value: Seq<char> },
    SetMuted { element: usize, muted: bool },
    Play { element: usize },
    Pause { element: usize },
    SetPlaybackRate { element: usize, rate: Speed },
    SetCurrentTime { element: usize, time: u64 },
    RequestFullscreen { element: usize },
    ExitFullscreen,
    RequestPictureInPicture { element: usize },
    ExitPictureInPicture,
    AppendSource { parent: usize, src: Seq<char>, media_type: Seq<char> },
    AddEventListener { listener: Listener },
    Log { record: LogRecordView },
}

impl View for HostCall {
    type V = HostCallView;

    open spec fn view(&self) -> HostCallView {
        match self {
            HostCall::SetTextContent { element, text } => HostCallView::SetTextContent {
                element: *element,
                text: text_view(*text),
            },
            HostCall::SetInnerHtml { element, html } => HostCallView::SetInnerHtml {
                element: *element,
                html: html@,
            },
            HostCall::SetAttribute { element, attribute, value } => HostCallView::SetAttribute {
                element: *element,
                attribute: *attribute,
                value: value@,
            },
            HostCall::SetMuted { element, muted } => HostCallView::SetMuted {
                element: *element,
                muted: *muted,
            },
            HostCall::Play { element } => HostCallView::Play { element: *element },
            HostCall::Pause { element } => HostCallView::Pause { element: *element },
            HostCall::SetPlaybackRate { element, rate } => HostCallView::SetPlaybackRate {
                element: *element,
                rate: *rate,
            },
            HostCall::SetCurrentTime { element, time } => HostCallView::SetCurrentTime {
                element: *element,
                time: *time,
            },
            HostCall::RequestFullscreen { element } => HostCallView::RequestFullscreen {
                element: *element,
            },
            HostCall::ExitFullscreen => HostCallView::ExitFullscreen,
            HostCall::RequestPictureInPicture { element } => HostCallView::RequestPictureInPicture {
                element: *element,
            },
            HostCall::ExitPictureInPicture => HostCallView::ExitPictureInPicture,
            HostCall::AppendSource { parent, src, media_type } => HostCallView::AppendSource {
                parent: *parent,
                src: src@,
                media_type: media_type@,
            },
            HostCall::AddEventListener { listener } => HostCallView::AddEventListener {
                listener: *listener,
            },
            HostCall::Log { record } => HostCallView::Log { record: record@ },
        }
    }
}

/// The host page: what the document holds, what the host reports of
/// itself, and every operation performed on it so far.
///
/// The operations are recorded in the order in which they were performed,
/// so that a page read from a browser can have them performed on the
/// browser's own document afterwards.
#[derive(Debug, Clone, PartialEq, Eq)]
pub struct Page {
    pub has_window: bool,
    pub has_document: bool,
    /// The elements of the document, in document order.
    pub elements: Vec<Element>,
    /// Whether some element is shown fullscreen.
    pub fullscreen: bool,
    /// Whether the host grants requests for fullscreen.
    pub fullscreen_enabled: bool,
    /// Whether some element is shown picture-in-picture.
    pub picture_in_picture: bool,
    /// Whether the host reports picture-in-picture as enabled.
    pub picture_in_picture_enabled: bool,
    /// The vertical scroll offset of the window, in pixels.
    pub scroll_y: i32,
    /// The listeners registered so far, oldest first.
    pub listeners: Vec<Listener>,
    /// The lines written to the console so far, oldest first.
    pub console: Vec<LogRecord>,
    /// The operations performed on the page so far, oldest first.
    pub calls: Vec<HostCall>,
}

/// The mathematical value of a [`Page`].
pub struct PageView {
    pub has_window: bool,
    pub has_document: bool,
    pub elements: Seq<ElementView>,
    pub fullscreen: bool,
    pub fullscreen_enabled: bool,
    pub picture_in_picture: bool,
    pub picture_in_picture_enabled: bool,
    pub scroll_y: i32,
    pub listeners: Seq<Listener>,
    pub console: Seq<LogRecordView>,
    pub calls: Seq<HostCallView>,
}

impl View for Page {
    type V = PageView;

    open spec fn view(&self) -> PageView {
        PageView {
            has_window: self.has_window,
            has_document: self.has_document,
            elements: self.elements@.map_values(|e: Element| e@),
            fullscreen: self.fullscreen,
            fullscreen_enabled: self.fullscreen_enabled,
            picture_in_picture: self.picture_in_picture,
            picture_in_picture_enabled: self.picture_in_picture_enabled,
            scroll_y: self.scroll_y,
            listeners: self.listeners@,
            console: self.console@.map_values(|r: LogRecord| r@),
            calls: self.calls@.map_values(|c: HostCall| c@),
        }
    }
}

impl PageView {
    /// The page with one more operation on record.
    pub open spec fn called(self, call: HostCallView) -> PageView {
        PageView { calls: self.calls.push(call), ..self }
    }

    /// The page with element `i` replaced by `element`.
    pub open spec fn with_element(self, i: int, element: ElementView) -> PageView {
        PageView { elements: self.elements.update(i, element), ..self }
    }

    /// The media state of element `i`, if it is a video element.
    pub open spec fn media(self, i: int) -> Option<Media> {
        match self.elements[i].kind {
            Kind::Video(m) => Some(m),
            _ => None,
        }
    }

    /// The page with the media state of element `i` replaced by `media`.
    pub open spec fn with_media(self, i: int, media: Media) -> PageView {
        self.with_element(i, ElementView { kind: Kind::Video(media), ..self.elements[i] })
    }

    /// The page after the text content of element `i` is set.
    pub open spec fn with_text(self, i: int, text: Option<Seq<char>>) -> PageView {
        self.with_element(i, ElementView { text: text, ..self.elements[i] }).called(
            HostCallView::SetTextContent { element: i as usize, text: text },
        )
    }

    /// The page after markup is written as the content of element `i`.
    pub open spec fn with_html(self, i: int, html: Seq<char>) -> PageView {
        self.with_element(i, ElementView { html: Some(html), ..self.elements[i] }).called(
            HostCallView::SetInnerHtml { element: i as usize, html: html },
        )
    }

    /// The page after the `class` attribute of element `i` is set.
    pub open spec fn with_class(self, i: int, class: Seq<char>) -> PageView {
        self.with_element(i, ElementView { class: class, ..self.elements[i] }).called(
            HostCallView::SetAttribute {
                element: i as usize,
                attribute: Attribute::Class,
                value: class,
            },
        )
    }

    /// The page after the `style` attribute of element `i` is set.
    pub open spec fn with_style(self, i: int, style: Seq<char>) -> PageView {
        self.with_element(i, ElementView { style: style, ..self.elements[i] }).called(
            HostCallView::SetAttribute {
                element: i as usize,
                attribute: Attribute::Style,
                value: style,
            },
        )
    }

    /// The page after the `disabled` attribute of element `i` is set.
    pub open spec fn with_disabled(self, i: int, value: Seq<char>) -> PageView {
        self.with_element(i, ElementView { disabled: Some(value), ..self.elements[i] }).called(
            HostCallView::SetAttribute {
                element: i as usize,
                attribute: Attribute::Disabled,
                value: value,
            },
        )
    }

    /// The page after the video `i` is muted or given its sound back. An
    /// element that is no video is left alone.
    pub open spec fn with_muted(self, i: int, muted: bool) -> PageView {
        match self.media(i) {
            Some(media) => self.with_media(i, Media { muted: muted, ..media }).called(
                HostCallView::SetMuted { element: i as usize, muted: muted },
            ),
            None => self,
        }
    }

    /// The page after the video `i` is paused or played. An element that is
    /// no video is left alone.
    pub open spec fn with_paused(self, i: int, paused: bool) -> PageView {
        match self.media(i) {
            Some(media) => self.with_media(i, Media { paused: paused, ..media }).called(
                if paused {
                    HostCallView::Pause { element: i as usize }
                } else {
                    HostCallView::Play { element: i as usize }
                },
            ),
            None => self,
        }
    }

    /// The page after the rate of the video `i` is set. An element that is
    /// no video is left alone.
    pub open spec fn with_playback_rate(self, i: int, rate: Speed) -> PageView {
        match self.media(i) {
            Some(media) => self.with_media(i, Media { playback_rate: rate, ..media }).called(
                HostCallView::SetPlaybackRate { element: i as usize, rate: rate },
            ),
            None => self,
        }
    }

    /// The page after the video `i` is moved to `time`. An element that is
    /// no video is left alone.
    pub open spec fn with_current_time(self, i: int, time: u64) -> PageView {
        match self.media(i) {
            Some(media) => self.with_media(i, Media { current_time: time, ..media }).called(
                HostCallView::SetCurrentTime { element: i as usize, time: time },
            ),
            None => self,
        }
    }

    /// The page with one more element at the end of the document.
    pub open spec fn with_new_element(self, element: ElementView) -> PageView {
        PageView { elements: self.elements.push(element), ..self }
    }

    /// The page after one more listener is registered.
    pub open spec fn with_listener(self, listener: Listener) -> PageView {
        PageView { listeners: self.listeners.push(listener), ..self }.called(
            HostCallView::AddEventListener { listener: listener },
        )
    }

    /// The page after one more line is written to the console.
    pub open spec fn with_console_line(self, record: LogRecordView) -> PageView {
        PageView { console: self.console.push(record), ..self }.called(
            HostCallView::Log { record: record },
        )
    }

    /// The page after element `i` is shown fullscreen.
    pub open spec fn with_fullscreen_entered(self, i: int) -> PageView {
        PageView { fullscreen: true, ..self }.called(
            HostCallView::RequestFullscreen { element: i as usize },
        )
    }

    /// The page after fullscreen is left.
    pub open spec fn with_fullscreen_left(self) -> PageView {
        PageView { fullscreen: false, ..self }.called(HostCallView::ExitFullscreen)
    }

    /// The page after element `i` is shown picture-in-picture.
    pub open spec fn with_picture_in_picture_entered(self, i: int) -> PageView {
        PageView { picture_in_picture: true, ..self }.called(
            HostCallView::RequestPictureInPicture { element: i as usize },
        )
    }

    /// The page after picture-in-picture is left.
    pub open spec fn with_picture_in_picture_left(self) -> PageView {
        PageView { picture_in_picture: false, ..self }.called(HostCallView::ExitPictureInPicture)
    }
}

impl Media {
    /// The media state of a video that has loaded nothing yet: paused at
    /// the start, with sound, at normal speed, of unknown duration.
    pub fn new() -> (r: Media)
        ensures
            r == (Media {
                muted: false,
                paused: true,
                playback_rate: Speed { thousandths: 1000 },
                current_time: 0,
                duration: None,
            }),
    {
        Media {
            muted: false,
            paused: true,
            playback_rate: Speed::normal(),
            current_time: 0,
            duration: None,
        }
    }
}

impl ElementView {
    /// An element with the id `id` and of the kind `kind`, directly under
    /// the document, with no content and no attributes.
    pub open spec fn bare(id: Seq<char>, kind: Kind) -> ElementView {
        ElementView {
            id: id,
            parent: None,
            kind: kind,
            text: None,
            html: None,
            class: Seq::empty(),
            style: Seq::empty(),
            src: None,
            media_type: None,
            disabled: None,
            right: 0,
            bottom: 0,
        }
    }
}

impl PageView {
    /// The page after a new source element with the given `src` and `type`
    /// is appended to the element `parent`; in the document it comes last.
    pub open spec fn with_source_appended(
        self,
        parent: int,
        src: Seq<char>,
        media_type: Seq<char>,
    ) -> PageView {
        self.with_new_element(
            ElementView {
                parent: Some(parent as usize),
                src: Some(src),
                media_type: Some(media_type),
                ..ElementView::bare(Seq::empty(), Kind::Source)
            },
        ).called(
            HostCallView::AppendSource {
                parent: parent as usize,
                src: src,
                media_type: media_type,
            },
        )
    }
}

impl Element {
    /// An element with the id `id`, directly under the document, with no
    /// content and no attributes.
    pub fn new(id: &str) -> (r: Element)
        ensures
            r@ == ElementView::bare(id@, Kind::Other),
    {
        Element {
            id: String::from_str(id),
            parent: None,
            kind: Kind::Other,
            text: None,
            html: None,
            class: String::new(),
            style: String::new(),
            src: None,
            media_type: None,
            disabled: None,
            right: 0,
            bottom: 0,
        }
    }

    /// A video element with the id `id` and the media state `media`,
    /// directly under the document.
    pub fn video(id: &str, media: Media) -> (r: Element)
        ensures
            r@ == ElementView::bare(id@, Kind::Video(media)),
    {
        Element {
            id: String::from_str(id),
            parent: None,
            kind: Kind::Video(media),
            text: None,
            html: None,
            class: String::new(),
            style: String::new(),
            src: None,
            media_type: None,
            disabled: None,
            right: 0,
            bottom: 0,
        }
    }
}

/// A page in which one element was replaced has the view in which that
/// element's view was replaced.
proof fn element_replaced(before: &Page, after: &Page, i: int)
    requires
        0 <= i < before.elements@.len(),
        after.elements@ =~= before.elements@.update(i, after.elements@[i]),
        *after == (Page { elements: after.elements, ..*before }),
    ensures
        after@ == before@.with_element(i, after.elements@[i]@),
{
    assert(after@.elements =~= before@.with_element(i, after.elements@[i]@).elements);
}

impl Page {
    /// A page with a window and an empty document, where the host grants
    /// fullscreen and picture-in-picture, and on which nothing has been
    /// done yet.
    pub fn new() -> (r: Page)
        ensures
            r@ == (PageView {
                has_window: true,
                has_document: true,
                elements: Seq::empty(),
                fullscreen: false,
                fullscreen_enabled: true,
                picture_in_picture: false,
                picture_in_picture_enabled: true,
                scroll_y: 0,
                listeners: Seq::empty(),
                console: Seq::empty(),
                calls: Seq::empty(),
            }),
    {
        let r = Page {
            has_window: true,
            has_document: true,
            elements: Vec::new(),
            fullscreen: false,
            fullscreen_enabled: true,
            picture_in_picture: false,
            picture_in_picture_enabled: true,
            scroll_y: 0,
            listeners: Vec::new(),
            console: Vec::new(),
            calls: Vec::new(),
        };
        assert(r@.elements =~= Seq::empty());
        assert(r@.console =~= Seq::empty());
        assert(r@.calls =~= Seq::empty());
        r
    }

    /// Puts one more operation on record.
    fn record(&mut self, call: HostCall)
        ensures
            final(self)@ == old(self)@.called(call@),
    {
        self.calls.push(call);
        assert(self@.calls =~= old(self)@.called(call@).calls);
    }

    /// Replaces the media state of element `i`, off the record.
    fn put_media(&mut self, i: usize, media: Media)
        requires
            i < old(self)@.elements.len(),
        ensures
            final(self)@ == old(self)@.with_media(i as int, media),
    {
        self.elements[i].kind = Kind::Video(media);
        proof {
            element_replaced(old(self), self, i as int);
        }
    }

    /// Sets the text content of element `i`.
    pub fn set_text(&mut self, i: usize, text: Option<String>)
        requires
            i < old(self)@.elements.len(),
        ensures
            final(self)@ == old(self)@.with_text(i as int, text_view(text)),
    {
        let copy = copy_of_text(&text);
        self.elements[i].text = text;
        proof {
            element_replaced(old(self), self, i as int);
        }
        self.record(HostCall::SetTextContent { element: i, text: copy });
    }

    /// Writes `html` as the content of element `i`.
    pub fn set_html(&mut self, i: usize, html: String)
        requires
            i < old(self)@.elements.len(),
        ensures
            final(self)@ == old(self)@.with_html(i as int, html@),
    {
        let copy = html.clone();
        self.elements[i].html = Some(html);
        proof {
            element_replaced(old(self), self, i as int);
        }
        self.record(HostCall::SetInnerHtml { element: i, html: copy });
    }

    /// Sets the `class` attribute of element `i`.
    pub fn set_class(&mut self, i: usize, class: &str)
        requires
            i < old(self)@.elements.len(),
        ensures
            final(self)@ == old(self)@.with_class(i as int, class@),
    {
        self.elements[i].class = String::from_str(class);
        proof {
            element_replaced(old(self), self, i as int);
        }
        self.record(
            HostCall::SetAttribute {
                element: i,
                attribute: Attribute::Class,
                value: String::from_str(class),
            },
        );
    }

    /// Sets the `style` attribute of element `i`.
    pub fn set_style(&mut self, i: usize, style: String)
        requires
            i < old(self)@.elements.len(),
        ensures
            final(self)@ == old(self)@.with_style(i as int, style@),
    {
        let copy = style.clone();
        self.elements[i].style = style;
        proof {
            element_replaced(old(self), self, i as int);
        }
        self.record(
            HostCall::SetAttribute { element: i, attribute: Attribute::Style, value: copy },
        );
    }

    /// Sets the `disabled` attribute of element `i`.
    pub fn set_disabled(&mut self, i: usize, value: &str)
        requires
            i < old(self)@.elements.len(),
        ensures
            final(self)@ == old(self)@.with_disabled(i as int, value@),
    {
        self.elements[i].disabled = Some(String::from_str(value));
        proof {
            element_replaced(old(self), self, i as int);
        }
        self.record(
            HostCall::SetAttribute {
                element: i,
                attribute: Attribute::Disabled,
                value: String::from_str(value),
            },
        );
    }

    /// The media state of element `i`, if it is a video element.
    pub fn media(&self, i: usize) -> (r: Option<Media>)
        requires
            i < self@.elements.len(),
        ensures
            r == self@.media(i as int),
    {
        match self.elements[i].kind {
            Kind::Video(m) => Some(m),
            _ => None,
        }
    }

    /// Mutes the video `i` or gives it its sound back.
    pub fn set_muted(&mut self, i: usize, muted: bool)
        requires
            i < old(self)@.elements.len(),
        ensures
            final(self)@ == old(self)@.with_muted(i as int, muted),
    {
        match self.media(i) {
            Some(media) => {
                self.put_media(
                    i,
                    Media {
                        muted: muted,
                        paused: media.paused,
                        playback_rate: media.playback_rate,
                        current_time: media.current_time,
                        duration: media.duration,
                    },
                );
                self.record(HostCall::SetMuted { element: i, muted: muted });
            },
            None => {},
        }
    }

    /// Pauses the video `i` or plays it.
    pub fn set_paused(&mut self, i: usize, paused: bool)
        requires
            i < old(self)@.elements.len(),
        ensures
            final(self)@ == old(self)@.with_paused(i as int, paused),
    {
        match self.media(i) {
            Some(media) => {
                self.put_media(
                    i,
                    Media {
                        muted: media.muted,
                        paused: paused,
                        playback_rate: media.playback_rate,
                        current_time: media.current_time,
                        duration: media.duration,
                    },
                );
                if paused {
                    self.record(HostCall::Pause { element: i });
                } else {
                    self.record(HostCall::Play { element: i });
                }
            },
            None => {},
        }
    }

    /// Sets the rate of the video `i`.
    pub fn set_playback_rate(&mut self, i: usize, rate: Speed)
        requires
            i < old(self)@.elements.len(),
        ensures
            final(self)@ == old(self)@.with_playback_rate(i as int, rate),
    {
        match self.media(i) {
            Some(media) => {
                self.put_media(
                    i,
                    Media {
                        muted: media.muted,
                        paused: media.paused,
                        playback_rate: rate,
                        current_time: media.current_time,
                        duration: media.duration,
                    },
                );
                self.record(HostCall::SetPlaybackRate { element: i, rate: rate });
            },
            None => {},
        }
    }

    /// Moves the video `i` to `time`, in milliseconds.
    pub fn set_current_time(&mut self, i: usize, time: u64)
        requires
            i < old(self)@.elements.len(),
        ensures
            final(self)@ == old(self)@.with_current_time(i as int, time),
    {
        match self.media(i) {
            Some(media) => {
                self.put_media(
                    i,
                    Media {
                        muted: media.muted,
                        paused: media.paused,
                        playback_rate: media.playback_rate,
                        current_time: time,
                        duration: media.duration,
                    },
                );
                self.record(HostCall::SetCurrentTime { element: i, time: time });
            },
            None => {},
        }
    }

    /// Puts `element` at the end of the document and returns its index.
    /// This builds a page; it is no operation on the host and goes off the
    /// record.
    pub fn push_element(&mut self, element: Element) -> (r: usize)
        ensures
            r == old(self)@.elements.len(),
            final(self)@ == old(self)@.with_new_element(element@),
    {
        let r = self.elements.len();
        self.elements.push(element);
        assert(self@.elements =~= old(self)@.with_new_element(element@).elements);
        r
    }

    /// Shows element `i` fullscreen.
    pub fn enter_fullscreen(&mut self, i: usize)
        ensures
            final(self)@ == old(self)@.with_fullscreen_entered(i as int),
    {
        self.fullscreen = true;
        self.record(HostCall::RequestFullscreen { element: i });
    }

    /// Leaves fullscreen.
    pub fn leave_fullscreen(&mut self)
        ensures
            final(self)@ == old(self)@.with_fullscreen_left(),
    {
        self.fullscreen = false;
        self.record(HostCall::ExitFullscreen);
    }

    /// Shows element `i` picture-in-picture.
    pub fn enter_picture_in_picture(&mut self, i: usize)
        ensures
            final(self)@ == old(self)@.with_picture_in_picture_entered(i as int),
    {
        self.picture_in_picture = true;
        self.record(HostCall::RequestPictureInPicture { element: i });
    }

    /// Leaves picture-in-picture.
    pub fn leave_picture_in_picture(&mut self)
        ensures
            final(self)@ == old(self)@.with_picture_in_picture_left(),
    {
        self.picture_in_picture = false;
        self.record(HostCall::ExitPictureInPicture);
    }

    /// Appends a new source element with the given `src` and `type` to the
    /// element `parent`; in the document it comes last.
    pub fn append_source(&mut self, parent: usize, src: &str, media_type: &str)
        ensures
            final(self)@ == old(self)@.with_source_appended(parent as int, src@, media_type@),
    {
        let element = Element {
            id: String::new(),
            parent: Some(parent),
            kind: Kind::Source,
            text: None,
            html: None,
            class: String::new(),
            style: String::new(),
            src: Some(String::from_str(src)),
            media_type: Some(String::from_str(media_type)),
            disabled: None,
            right: 0,
            bottom: 0,
        };
        self.push_element(element);
        self.record(
            HostCall::AppendSource {
                parent: parent,
                src: String::from_str(src),
                media_type: String::from_str(media_type),
            },
        );
    }

    /// Registers `listener`.
    pub fn push_listener(&mut self, listener: Listener)
        ensures
            final(self)@ == old(self)@.with_listener(listener),
    {
        self.listeners.push(listener);
        self.record(HostCall::AddEventListener { listener: listener });
    }

    /// Writes `record` to the console.
    pub fn push_console_line(&mut self, record: LogRecord)
        ensures
            final(self)@ == old(self)@.with_console_line(record@),
    {
        let copy = record.duplicate();
        self.console.push(record);
        assert(self@.console =~= old(self)@.console.push(record@));
        self.record(HostCall::Log { record: copy });
    }
}

} // verus!
