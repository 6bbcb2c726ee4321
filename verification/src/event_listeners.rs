//! Wiring the page's events to the player's actions.

use vstd::prelude::*;
use crate::dom::get_element_by_id;
use crate::dom::get_video_element_by_id;
use crate::dom::query_selector_all;
use crate::element_ids::ElementClasses;
use crate::element_ids::ElementIds;
use crate::error::VideoError;
use crate::error::VideoErrorView;
use crate::fullscreen::toggle_fullscreen;
use crate::fullscreen::update_fullscreen_button_text;
use crate::menu::dismiss_menus;
use crate::menu::position_context_menu;
use crate::menu::position_playback_speed_menu;
use crate::mute::toggle_mute;
use crate::mute::update_mute_button_text;
use crate::page::EventKind;
use crate::page::Handler;
use crate::page::Listener;
use crate::page::Page;
use crate::page::PageView;
use crate::page::Target;
use crate::picture_in_picture::toggle_picture_in_picture;
use crate::play_pause::play_video;
use crate::play_pause::set_toggle_play;
use crate::playback_speed::set_playback_speed;
use crate::speed::Number;
use crate::speed::Speed;
use crate::speed::label_number;
use crate::speed::parse_label;
use crate::state::VideoState;
use crate::surface::Step;
use crate::surface::failure_shown;
use crate::surface::step_of;
use crate::surface::surfaced;
use crate::time::update_time_display;

verus! {

/// A listener for clicks on element `element`.
pub open spec fn on_click(element: int, handler: Handler) -> Listener {
    Listener { target: Target::Element(element as usize), event: EventKind::Click, handler: handler }
}

/// A listener on element `element`.
pub open spec fn on_element(element: int, event: EventKind, handler: Handler) -> Listener {
    Listener { target: Target::Element(element as usize), event: event, handler: handler }
}

/// A listener on the document.
pub open spec fn on_document(event: EventKind, handler: Handler) -> Listener {
    Listener { target: Target::Document, event: event, handler: handler }
}

/// What a click on a speed option with the label `label` does: it sets the
/// speed that the label names, if that is a positive number of whole
/// thousandths, and nothing if the label names another number. A label that
/// names no number has no handler.
pub open spec fn option_handler(label: Seq<char>) -> Option<Handler> {
    match label_number(label) {
        Some(Number::Thousandths(t)) => Some(
            if t > 0 {
                Handler::SetSpeed(Speed { thousandths: t })
            } else {
                Handler::NoSpeed
            },
        ),
        Some(Number::Other) => Some(Handler::NoSpeed),
        None => None,
    }
}

/// The listener for a click on the speed option `option`. An option without
/// text, or whose label names no number, cannot be wired.
pub open spec fn option_listener(page: PageView, option: int) -> Result<Listener, VideoErrorView> {
    match page.elements[option].text {
        None => Err(VideoErrorView::VideoOperationFailed("No text content found"@)),
        Some(label) => match option_handler(label) {
            Some(handler) => Ok(on_click(option, handler)),
            None => Err(VideoErrorView::VideoOperationFailed("Failed to parse speed: "@ + label)),
        },
    }
}

impl PageView {
    /// The page after the listeners are registered that need only the video
    /// and the two menus: the click anywhere that dismisses the menus, then
    /// the video's own events, then the document's change of fullscreen.
    pub open spec fn with_core_listeners(self, video: int, context_menu: int, speed_menu: int)
        -> PageView {
        self.with_listener(
            on_document(
                EventKind::Click,
                Handler::DismissMenus {
                    context_menu: context_menu as usize,
                    speed_menu: speed_menu as usize,
                },
            ),
        ).with_listener(
            on_element(video, EventKind::TimeUpdate, Handler::UpdateTimeDisplay),
        ).with_listener(
            on_element(video, EventKind::LoadedMetadata, Handler::UpdateTimeDisplay),
        ).with_listener(
            on_element(video, EventKind::DurationChange, Handler::UpdateTimeDisplay),
        ).with_listener(on_element(video, EventKind::Play, Handler::ShowPauseLabel)).with_listener(
            on_element(video, EventKind::Pause, Handler::ShowPlayLabel),
        ).with_listener(
            on_element(video, EventKind::VolumeChange, Handler::UpdateMuteLabel),
        ).with_listener(on_document(EventKind::FullscreenChange, Handler::UpdateFullscreenLabel))
    }

    /// Wiring the video and the menus that every other listener relies on.
    pub open spec fn wire_core(self, ids: ElementIds) -> Step<()> {
        match self.locate_video_named(ids.video_player@) {
            Err(e) => Step { page: self, outcome: Err(e) },
            Ok(video) => match self.locate(ids.context_menu@) {
                Err(e) => Step { page: self, outcome: Err(e) },
                Ok(context_menu) => match self.locate(ids.playback_speed_menu@) {
                    Err(e) => Step { page: self, outcome: Err(e) },
                    Ok(speed_menu) => Step {
                        page: self.with_core_listeners(video, context_menu, speed_menu),
                        outcome: Ok(()),
                    },
                },
            },
        }
    }

    /// Wiring a click on the element with the id `id`.
    pub open spec fn wire_button(self, id: Seq<char>, handler: Handler) -> Step<()> {
        match self.locate(id) {
            Err(e) => Step { page: self, outcome: Err(e) },
            Ok(button) => Step {
                page: self.with_listener(on_click(button, handler)),
                outcome: Ok(()),
            },
        }
    }

    /// Wiring a click on the item at `position` among the items of the
    /// context menu; `missing` names the item in the failure if the menu
    /// has too few.
    pub open spec fn wire_menu_item(
        self,
        ids: ElementIds,
        position: int,
        missing: Seq<char>,
        handler: Handler,
    ) -> Step<()> {
        match self.locate(ids.context_menu@) {
            Err(e) => Step { page: self, outcome: Err(e) },
            Ok(menu) => {
                let items = self.select_all(menu, "context-menu-item"@);
                if position < items.len() {
                    Step {
                        page: self.with_listener(on_click(items[position] as int, handler)),
                        outcome: Ok(()),
                    }
                } else {
                    Step { page: self, outcome: Err(VideoErrorView::ElementNotFound(missing)) }
                }
            },
        }
    }

    /// Wiring the first `n` of the speed options `options`, in order, up to
    /// the first that cannot be wired.
    pub open spec fn wire_options(self, options: Seq<usize>, n: int) -> Step<()>
        decreases n,
    {
        if n <= 0 {
            Step { page: self, outcome: Ok(()) }
        } else {
            let before = self.wire_options(options, n - 1);
            match before.outcome {
                Err(_) => before,
                Ok(_) => match option_listener(self, options[n - 1] as int) {
                    Ok(listener) => Step {
                        page: before.page.with_listener(listener),
                        outcome: Ok(()),
                    },
                    Err(e) => Step { page: before.page, outcome: Err(e) },
                },
            }
        }
    }

    /// Wiring every speed option of the speed menu.
    pub open spec fn wire_speed_options(self, ids: ElementIds) -> Step<()> {
        match self.locate(ids.playback_speed_menu@) {
            Err(e) => Step { page: self, outcome: Err(e) },
            Ok(menu) => {
                let options = self.select_all(menu, "speed-option"@);
                self.wire_options(options, options.len() as int)
            },
        }
    }

    /// Wiring the whole player, stage by stage; the first stage that fails
    /// ends it, and what was wired before stays wired.
    pub open spec fn setup_event_listeners(self, ids: ElementIds) -> Step<()> {
        let core = self.wire_core(ids);
        if core.outcome is Err {
            core
        } else {
            let play = core.page.wire_button(ids.toggle_button@, Handler::TogglePlay);
            if play.outcome is Err {
                play
            } else {
                let mute = play.page.wire_button(ids.mute_button@, Handler::ToggleMute);
                if mute.outcome is Err {
                    mute
                } else {
                    let full = mute.page.wire_button(
                        ids.fullscreen_button@,
                        Handler::ToggleFullscreen,
                    );
                    if full.outcome is Err {
                        full
                    } else {
                        full.page.wire_menus(ids)
                    }
                }
            }
        }
    }

    /// The later stages of the wiring: the three items of the context menu,
    /// the speed options, and the button that opens the context menu.
    pub open spec fn wire_menus(self, ids: ElementIds) -> Step<()> {
        let download = self.wire_menu_item(ids, 0, "download button"@, Handler::Download);
        if download.outcome is Err {
            download
        } else {
            let speed = download.page.wire_menu_item(
                ids,
                1,
                "playback speed button"@,
                Handler::OpenSpeedMenu,
            );
            if speed.outcome is Err {
                speed
            } else {
                let pip = speed.page.wire_menu_item(
                    ids,
                    2,
                    "pip button"@,
                    Handler::TogglePictureInPicture,
                );
                if pip.outcome is Err {
                    pip
                } else {
                    let options = pip.page.wire_speed_options(ids);
                    if options.outcome is Err {
                        options
                    } else {
                        options.page.wire_button(ids.menu_button@, Handler::OpenContextMenu)
                    }
                }
            }
        }
    }
}

fn click_listener(element: usize, handler: Handler) -> (r: Listener)
    ensures
        r == on_click(element as int, handler),
{
    Listener { target: Target::Element(element), event: EventKind::Click, handler: handler }
}

fn element_listener(element: usize, event: EventKind, handler: Handler) -> (r: Listener)
    ensures
        r == on_element(element as int, event, handler),
{
    Listener { target: Target::Element(element), event: event, handler: handler }
}

fn document_listener(event: EventKind, handler: Handler) -> (r: Listener)
    ensures
        r == on_document(event, handler),
{
    Listener { target: Target::Document, event: event, handler: handler }
}

fn wire_core(page: &mut Page, ids: &ElementIds) -> (r: Result<(), VideoError>)
    ensures
        step_of(final(page), r) == old(page)@.wire_core(*ids),
{
    let video = match get_video_element_by_id(page, ids.video_player.as_str()) {
        Ok(i) => i,
        Err(e) => {
            return Err(e);
        },
    };
    let context_menu = match get_element_by_id(page, ids.context_menu.as_str()) {
        Ok(i) => i,
        Err(e) => {
            return Err(e);
        },
    };
    let speed_menu = match get_element_by_id(page, ids.playback_speed_menu.as_str()) {
        Ok(i) => i,
        Err(e) => {
            return Err(e);
        },
    };
    page.push_listener(
        document_listener(
            EventKind::Click,
            Handler::DismissMenus { context_menu: context_menu, speed_menu: speed_menu },
        ),
    );
    page.push_listener(element_listener(video, EventKind::TimeUpdate, Handler::UpdateTimeDisplay));
    page.push_listener(
        element_listener(video, EventKind::LoadedMetadata, Handler::UpdateTimeDisplay),
    );
    page.push_listener(
        element_listener(video, EventKind::DurationChange, Handler::UpdateTimeDisplay),
    );
    page.push_listener(element_listener(video, EventKind::Play, Handler::ShowPauseLabel));
    page.push_listener(element_listener(video, EventKind::Pause, Handler::ShowPlayLabel));
    page.push_listener(element_listener(video, EventKind::VolumeChange, Handler::UpdateMuteLabel));
    page.push_listener(
        document_listener(EventKind::FullscreenChange, Handler::UpdateFullscreenLabel),
    );
    Ok(())
}

fn wire_button(page: &mut Page, id: &str, handler: Handler) -> (r: Result<(), VideoError>)
    ensures
        step_of(final(page), r) == old(page)@.wire_button(id@, handler),
{
    match get_element_by_id(page, id) {
        Ok(button) => {
            page.push_listener(click_listener(button, handler));
            Ok(())
        },
        Err(e) => Err(e),
    }
}

fn wire_menu_item(
    page: &mut Page,
    ids: &ElementIds,
    position: usize,
    missing: &str,
    handler: Handler,
) -> (r: Result<(), VideoError>)
    ensures
        step_of(final(page), r) == old(page)@.wire_menu_item(
            *ids,
            position as int,
            missing@,
            handler,
        ),
{
    let menu = match get_element_by_id(page, ids.context_menu.as_str()) {
        Ok(i) => i,
        Err(e) => {
            return Err(e);
        },
    };
    let classes = ElementClasses::new();
    let items = query_selector_all(page, menu, classes.context_menu_item.as_str());
    if position < items.len() {
        page.push_listener(click_listener(items[position], handler));
        Ok(())
    } else {
        Err(VideoError::element_not_found(missing))
    }
}

/// The listener for a click on the speed option `option`.
fn option_click(page: &Page, option: usize) -> (r: Result<Listener, VideoError>)
    requires
        option < page@.elements.len(),
    ensures
        match r {
            Ok(listener) => option_listener(page@, option as int) == Ok::<
                Listener,
                VideoErrorView,
            >(listener),
            Err(e) => option_listener(page@, option as int) == Err::<Listener, VideoErrorView>(e@),
        },
{
    assert(page@.elements[option as int] == page.elements[option as int]@);
    match &page.elements[option].text {
        None => Err(VideoError::operation_failed("No text content found")),
        Some(label) => match parse_label(label.as_str()) {
            Some(Number::Thousandths(t)) => Ok(
                click_listener(
                    option,
                    if t > 0 {
                        Handler::SetSpeed(Speed { thousandths: t })
                    } else {
                        Handler::NoSpeed
                    },
                ),
            ),
            Some(Number::Other) => Ok(click_listener(option, Handler::NoSpeed)),
            None => Err(
                VideoError::VideoOperationFailed(
                    String::from_str("Failed to parse speed: ").concat(label.as_str()),
                ),
            ),
        },
    }
}

fn wire_speed_options(page: &mut Page, ids: &ElementIds) -> (r: Result<(), VideoError>)
    ensures
        step_of(final(page), r) == old(page)@.wire_speed_options(*ids),
{
    let menu = match get_element_by_id(page, ids.playback_speed_menu.as_str()) {
        Ok(i) => i,
        Err(e) => {
            return Err(e);
        },
    };
    let classes = ElementClasses::new();
    let options = query_selector_all(page, menu, classes.speed_option.as_str());
    let mut k: usize = 0;
    while k < options.len()
        invariant
            k <= options.len(),
            old(page)@.locate(ids.playback_speed_menu@) == Ok::<int, VideoErrorView>(menu as int),
            options@ == old(page)@.select_all(menu as int, "speed-option"@),
            forall|j: int| 0 <= j < options@.len() ==> options@[j] < old(page)@.elements.len(),
            page@.elements == old(page)@.elements,
            old(page)@.wire_options(options@, k as int) == (Step::<()> {
                page: page@,
                outcome: Ok(()),
            }),
        decreases options.len() - k,
    {
        let ghost before = page@;
        match option_click(page, options[k]) {
            Ok(listener) => {
                page.push_listener(listener);
            },
            Err(e) => {
                proof {
                    assert(old(page)@.wire_options(options@, k + 1) == (Step::<()> {
                        page: before,
                        outcome: Err(e@),
                    }));
                    wire_options_ends(old(page)@, options@, k + 1, options@.len() as int);
                }
                return Err(e);
            },
        }
        k = k + 1;
    }
    Ok(())
}

/// Once an option cannot be wired, no later option is.
pub proof fn wire_options_ends(page: PageView, options: Seq<usize>, k: int, n: int)
    requires
        k <= n,
        page.wire_options(options, k).outcome is Err,
    ensures
        page.wire_options(options, n) == page.wire_options(options, k),
    decreases n - k,
{
    if k < n {
        wire_options_ends(page, options, k, n - 1);
    }
}

fn wire_menus(page: &mut Page, ids: &ElementIds) -> (r: Result<(), VideoError>)
    ensures
        step_of(final(page), r) == old(page)@.wire_menus(*ids),
{
    match wire_menu_item(page, ids, 0, "download button", Handler::Download) {
        Ok(_) => {},
        Err(e) => {
            return Err(e);
        },
    }
    match wire_menu_item(page, ids, 1, "playback speed button", Handler::OpenSpeedMenu) {
        Ok(_) => {},
        Err(e) => {
            return Err(e);
        },
    }
    match wire_menu_item(page, ids, 2, "pip button", Handler::TogglePictureInPicture) {
        Ok(_) => {},
        Err(e) => {
            return Err(e);
        },
    }
    match wire_speed_options(page, ids) {
        Ok(_) => {},
        Err(e) => {
            return Err(e);
        },
    }
    wire_button(page, ids.menu_button.as_str(), Handler::OpenContextMenu)
}

/// Registers the player's listeners on the page, in a fixed order: the
/// click anywhere that dismisses the menus, the video's events, the change
/// of fullscreen, the three buttons, the three items of the context menu,
/// one listener for each speed option, and the menu button.
///
/// The first element that is missing, and the first speed option whose
/// label names no positive speed, ends the wiring with its failure; the
/// listeners registered before it stay registered.
pub fn setup_event_listeners(page: &mut Page, element_ids: ElementIds) -> (r: Result<
    (),
    VideoError,
>)
    ensures
        step_of(final(page), r) == old(page)@.setup_event_listeners(element_ids),
{
    match wire_core(page, &element_ids) {
        Ok(_) => {},
        Err(e) => {
            return Err(e);
        },
    }
    match wire_button(page, element_ids.toggle_button.as_str(), Handler::TogglePlay) {
        Ok(_) => {},
        Err(e) => {
            return Err(e);
        },
    }
    match wire_button(page, element_ids.mute_button.as_str(), Handler::ToggleMute) {
        Ok(_) => {},
        Err(e) => {
            return Err(e);
        },
    }
    match wire_button(page, element_ids.fullscreen_button.as_str(), Handler::ToggleFullscreen) {
        Ok(_) => {},
        Err(e) => {
            return Err(e);
        },
    }
    wire_menus(page, &element_ids)
}

/// What a listener is told of the event it handles.
#[derive(Debug, Clone, Copy, PartialEq, Eq)]
pub struct EventInfo {
    /// The element the event was aimed at, if it was aimed at one.
    pub target: Option<usize>,
    /// Where the pointer was, across and down, if the event came from it.
    pub pointer: Option<(i32, i32)>,
}

/// What a listener asks of the host once it has run.
#[derive(Debug, Clone, Copy, PartialEq, Eq)]
pub struct Reaction {
    /// The event must not reach the listeners further out.
    pub stop_propagation: bool,
    /// A download is to be started; it runs on its own and is not waited
    /// for.
    pub start_download: bool,
    /// The demo post is to be fetched and shown in the given element.
    pub fetch_post_into: Option<usize>,
}

/// The page, the player's state and the reaction after a listener has run.
pub struct Handled {
    pub page: PageView,
    pub state: VideoState,
    pub reaction: Reaction,
}

/// The reaction that asks nothing of the host.
pub open spec fn no_reaction() -> Reaction {
    Reaction { stop_propagation: false, start_download: false, fetch_post_into: None }
}

/// What running `handler` on `event` does. The failures of the actions it
/// takes are shown on the error surface as each action shows them, and go
/// no further.
pub open spec fn handled(page: PageView, state: VideoState, handler: Handler, event: EventInfo)
    -> Handled {
    let quiet = Handled { page: page, state: state, reaction: no_reaction() };
    match handler {
        Handler::DismissMenus { context_menu, speed_menu } => Handled {
            page: page.dismiss_menus(context_menu as int, speed_menu as int, event.target),
            ..quiet
        },
        Handler::UpdateTimeDisplay => Handled { page: page.update_time_display().page, ..quiet },
        Handler::ShowPauseLabel => Handled { page: page.set_toggle_play("Pause"@).page, ..quiet },
        Handler::ShowPlayLabel => Handled { page: page.set_toggle_play("Play"@).page, ..quiet },
        Handler::UpdateMuteLabel => Handled {
            page: surfaced(page.update_mute_button_text()).page,
            ..quiet
        },
        Handler::UpdateFullscreenLabel => Handled {
            page: surfaced(page.update_fullscreen_button_text()).page,
            ..quiet
        },
        Handler::TogglePlay => Handled { page: surfaced(page.play_video()).page, ..quiet },
        Handler::ToggleMute => Handled { page: surfaced(page.toggle_mute()).page, ..quiet },
        Handler::ToggleFullscreen => Handled {
            page: surfaced(page.toggle_fullscreen()).page,
            ..quiet
        },
        Handler::Download => Handled {
            reaction: Reaction { start_download: true, ..no_reaction() },
            ..quiet
        },
        Handler::OpenSpeedMenu => match event.target {
            Some(t) => if t < page.elements.len() {
                Handled {
                    page: failure_shown(
                        page.position_playback_speed_menu(
                            page.elements[t as int].right,
                            page.elements[t as int].bottom,
                        ),
                    ).page,
                    ..quiet
                }
            } else {
                quiet
            },
            None => quiet,
        },
        Handler::TogglePictureInPicture => Handled {
            page: surfaced(page.toggle_picture_in_picture()).page,
            ..quiet
        },
        Handler::SetSpeed(speed) => if speed.positive() {
            Handled {
                page: surfaced(page.set_playback_speed(speed)).page,
                state: if page.locate_video() is Ok {
                    VideoState { playback_speed: speed, ..state }
                } else {
                    state
                },
                reaction: no_reaction(),
            }
        } else {
            quiet
        },
        Handler::NoSpeed => quiet,
        Handler::OpenContextMenu => match event.pointer {
            Some((x, y)) => Handled {
                page: surfaced(page.position_context_menu(x, y)).page,
                state: state,
                reaction: Reaction { stop_propagation: true, ..no_reaction() },
            },
            None => quiet,
        },
        Handler::FetchPost { content } => Handled {
            reaction: Reaction { fetch_post_into: Some(content), ..no_reaction() },
            ..quiet
        },
    }
}

/// Runs the listener `handler` for `event`.
///
/// Each handler takes the one action it stands for; the click on the menu
/// button also stops the event, so that the click which opens the menu does
/// not reach the listener that would dismiss it. A failure of the action is
/// shown on the error surface and is not returned: listeners are fired and
/// forgotten.
pub fn handle_event(page: &mut Page, state: &mut VideoState, handler: Handler, event: EventInfo)
    -> (r: Reaction)
    ensures
        (Handled { page: final(page)@, state: *final(state), reaction: r }) == handled(
            old(page)@,
            *old(state),
            handler,
            event,
        ),
        old(state).wf() ==> final(state).wf(),
{
    let mut reaction = Reaction {
        stop_propagation: false,
        start_download: false,
        fetch_post_into: None,
    };
    match handler {
        Handler::DismissMenus { context_menu, speed_menu } => {
            dismiss_menus(page, context_menu, speed_menu, event.target);
        },
        Handler::UpdateTimeDisplay => {
            let _ = update_time_display(page);
        },
        Handler::ShowPauseLabel => {
            let _ = set_toggle_play(page, "Pause");
        },
        Handler::ShowPlayLabel => {
            let _ = set_toggle_play(page, "Play");
        },
        Handler::UpdateMuteLabel => {
            let _ = update_mute_button_text(page);
        },
        Handler::UpdateFullscreenLabel => {
            let _ = update_fullscreen_button_text(page);
        },
        Handler::TogglePlay => {
            let _ = play_video(page);
        },
        Handler::ToggleMute => {
            let _ = toggle_mute(page);
        },
        Handler::ToggleFullscreen => {
            let _ = toggle_fullscreen(page);
        },
        Handler::Download => {
            reaction.start_download = true;
        },
        Handler::OpenSpeedMenu => {
            match event.target {
                Some(t) => {
                    if t < page.elements.len() {
                        assert(page@.elements[t as int] == page.elements[t as int]@);
                        let right = page.elements[t].right;
                        let bottom = page.elements[t].bottom;
                        let _ = position_playback_speed_menu(page, right, bottom);
                    }
                },
                None => {},
            }
        },
        Handler::TogglePictureInPicture => {
            let _ = toggle_picture_in_picture(page);
        },
        Handler::SetSpeed(speed) => {
            if speed.thousandths > 0 {
                let _ = set_playback_speed(page, state, speed);
            }
        },
        Handler::NoSpeed => {},
        Handler::OpenContextMenu => {
            match event.pointer {
                Some((x, y)) => {
                    reaction.stop_propagation = true;
                    let _ = position_context_menu(page, x, y);
                },
                None => {},
            }
        },
        Handler::FetchPost { content } => {
            reaction.fetch_post_into = Some(content);
        },
    }
    reaction
}

} // verus!
