//! What holds of the player's actions taken together.

use vstd::prelude::*;
use crate::dom::located_element;
use crate::dom::name_at;
use crate::dom::same_ids;
use crate::dom::same_ids_locate;
use crate::dom::same_tree;
use crate::dom::same_tree_select;
use crate::dom::selection_rises;
use crate::download::DownloadView;
use crate::download::HostReplyView;
use crate::download::operations_left;
use crate::download::run;
use crate::download::urls_created;
use crate::download::urls_revoked;
use crate::element_ids::ElementIds;
use crate::error::VideoErrorView;
use crate::event_listeners::EventInfo;
use crate::event_listeners::handled;
use crate::event_listeners::on_click;
use crate::event_listeners::on_document;
use crate::event_listeners::option_listener;
use crate::menu::menu_shown;
use crate::mute::mute_label;
use crate::page::ElementView;
use crate::page::EventKind;
use crate::page::Handler;
use crate::page::Listener;
use crate::page::Media;
use crate::page::PageView;
use crate::playback_speed::names_speed;
use crate::playback_speed::option_class;
use crate::speed::Speed;
use crate::state::VideoState;
use crate::surface::Step;
use crate::surface::surfaced;

verus! {

/// Reporting an outcome through the error surface leaves every element's id
/// and kind alone, and changes the text of no element but the error's own.
pub proof fn surfaced_frame<T>(step: Step<T>)
    ensures
        same_ids(step.page, surfaced(step).page),
        forall|i: int|
            0 <= i < step.page.elements.len() ==> (#[trigger] surfaced(step).page.elements[i]).kind
                == step.page.elements[i].kind,
        forall|i: int|
            0 <= i < step.page.elements.len() && step.page.elements[i].id != "errorMessage"@
                ==> (#[trigger] surfaced(step).page.elements[i]) == step.page.elements[i],
{
    located_element(step.page, "errorMessage"@);
    match step.outcome {
        Ok(_) => {},
        Err(e) => {
            let logged = step.page.logged(e.message());
            assert(same_ids(step.page, logged));
            same_ids_locate(step.page, logged, "errorMessage"@);
            located_element(logged, "errorMessage"@);
        },
    }
}

/// What toggling mute does to a page that has the video and the mute
/// button: the ids stay, the video's flag is flipped, and the button shows
/// the label of the new flag.
pub proof fn toggle_mute_flips(page: PageView)
    requires
        page.locate_video() is Ok,
        page.locate("muteButton"@) is Ok,
    ensures
        ({
            let video = page.locate_video()->Ok_0;
            let button = page.locate("muteButton"@)->Ok_0;
            let muted = page.media(video)->0.muted;
            let after = page.toggle_mute();
            &&& same_ids(page, after.page)
            &&& after.outcome == Ok::<bool, VideoErrorView>(!muted)
            &&& after.page.media(video) == Some(Media { muted: !muted, ..page.media(video)->0 })
            &&& after.page.elements[button].text == Some(mute_label(!muted))
        }),
{
    reveal_strlit("muteButton");
    reveal_strlit("videoPlayer");
    assert("muteButton"@.len() == 10);
    assert("videoPlayer"@.len() == 11);
    located_element(page, "muteButton"@);
    located_element(page, "videoPlayer"@);
}

/// Toggling mute twice brings the video back to the mute flag it had and the
/// mute button back to the text it had, on every page whose mute button
/// showed the label of the video's flag to begin with.
pub proof fn toggle_mute_twice_restores(page: PageView)
    requires
        page.locate_video() matches Ok(video) ==> (page.locate("muteButton"@) matches Ok(button)
            ==> page.elements[button].text == Some(mute_label(page.media(video)->0.muted))),
    ensures
        ({
            let once = surfaced(page.toggle_mute());
            let twice = surfaced(once.page.toggle_mute());
            &&& twice.page.locate_video() == page.locate_video()
            &&& twice.page.locate("muteButton"@) == page.locate("muteButton"@)
            &&& page.locate_video() matches Ok(video) ==> twice.page.media(video) == page.media(
                video,
            )
            &&& page.locate("muteButton"@) matches Ok(button) ==> twice.page.elements[button].text
                == page.elements[button].text
            &&& once.outcome matches Ok(muted) ==> twice.outcome == Ok::<bool, VideoErrorView>(
                !muted,
            )
        }),
{
    reveal_strlit("muteButton");
    reveal_strlit("errorMessage");
    reveal_strlit("videoPlayer");
    assert("muteButton"@.len() == 10);
    assert("errorMessage"@.len() == 12);
    assert("videoPlayer"@.len() == 11);
    located_element(page, "muteButton"@);
    located_element(page, "videoPlayer"@);
    let first = page.toggle_mute();
    let once = surfaced(first);
    let second = once.page.toggle_mute();
    let twice = surfaced(second);
    surfaced_frame(first);
    surfaced_frame(second);
    if page.locate_video() is Ok && page.locate("muteButton"@) is Ok {
        let video = page.locate_video()->Ok_0;
        let button = page.locate("muteButton"@)->Ok_0;
        toggle_mute_flips(page);
        same_ids_locate(page, first.page, "muteButton"@);
        same_ids_locate(page, first.page, "videoPlayer"@);
        same_ids_locate(first.page, once.page, "muteButton"@);
        same_ids_locate(first.page, once.page, "videoPlayer"@);
        assert(once.page.elements[video].kind == first.page.elements[video].kind);
        assert(once.page.elements[button] == first.page.elements[button]);
        assert(once.page.locate_video() == Ok::<int, VideoErrorView>(video));
        assert(once.page.locate("muteButton"@) == Ok::<int, VideoErrorView>(button));
        toggle_mute_flips(once.page);
        same_ids_locate(once.page, second.page, "muteButton"@);
        same_ids_locate(once.page, second.page, "videoPlayer"@);
        same_ids_locate(second.page, twice.page, "muteButton"@);
        same_ids_locate(second.page, twice.page, "videoPlayer"@);
        assert(twice.page.elements[video].kind == second.page.elements[video].kind);
        assert(twice.page.elements[button] == second.page.elements[button]);
        assert(same_ids(first.page, second.page));
        same_ids_locate(first.page, second.page, "errorMessage"@);
    } else {
        assert(first.page.elements == page.elements);
        assert(same_ids(page, first.page));
        assert(same_ids(page, once.page));
        same_ids_locate(page, once.page, "muteButton"@);
        same_ids_locate(page, once.page, "videoPlayer"@);
        if page.locate("videoPlayer"@) is Ok {
            let video = page.locate("videoPlayer"@)->Ok_0;
            assert(once.page.elements[video].kind == first.page.elements[video].kind);
        }
        assert(once.page.locate_video() == page.locate_video());
        assert(second.page.elements == once.page.elements);
        assert(same_ids(once.page, second.page));
        assert(same_ids(once.page, twice.page));
        same_ids_locate(once.page, twice.page, "muteButton"@);
        same_ids_locate(once.page, twice.page, "videoPlayer"@);
        if page.locate("videoPlayer"@) is Ok {
            let video = page.locate("videoPlayer"@)->Ok_0;
            assert(twice.page.elements[video].kind == second.page.elements[video].kind);
        }
        if page.locate("muteButton"@) is Ok {
            let button = page.locate("muteButton"@)->Ok_0;
            assert(once.page.elements[button] == first.page.elements[button]);
            assert(twice.page.elements[button] == second.page.elements[button]);
        }
    }
}

/// At every point of a download, whatever the host has answered so far, the
/// object URLs made are those given back and the one still held; the URL is
/// held exactly from its making to its revocation, and an anchor that was
/// appended has its removal still to come.
pub proof fn download_accounts_for_its_url(source: Seq<char>, replies: Seq<HostReplyView>)
    ensures
        ({
            let begun = DownloadView::begin(source);
            let now = run(begun, replies);
            &&& urls_created(begun, replies) == urls_revoked(begun, replies) + (if now.holds_url() {
                1nat
            } else {
                0nat
            })
            &&& now.well_formed()
        }),
    decreases replies.len(),
{
    if replies.len() > 0 {
        download_accounts_for_its_url(source, replies.drop_last());
    }
}

/// A download that has ended has revoked every object URL it made, whatever
/// failed on the way: the click, the removal of the anchor, or anything
/// else.
pub proof fn download_revokes_what_it_creates(source: Seq<char>, replies: Seq<HostReplyView>)
    requires
        run(DownloadView::begin(source), replies).finished(),
    ensures
        urls_created(DownloadView::begin(source), replies) == urls_revoked(
            DownloadView::begin(source),
            replies,
        ),
        run(DownloadView::begin(source), replies).object_url is None,
        !run(DownloadView::begin(source), replies).anchored,
{
    download_accounts_for_its_url(source, replies);
}

/// A download asks for at most eight operations: after eight answers of any
/// kind it has ended, and nothing is tried again.
pub proof fn download_ends(source: Seq<char>, replies: Seq<HostReplyView>)
    ensures
        operations_left(run(DownloadView::begin(source), replies).stage) + replies.len() <= 8
            || run(DownloadView::begin(source), replies).finished(),
        replies.len() >= 8 ==> run(DownloadView::begin(source), replies).finished(),
    decreases replies.len(),
{
    if replies.len() > 0 {
        download_ends(source, replies.drop_last());
    }
}

/// The classes that the player writes on a hidden menu do not list `show`.
pub proof fn hidden_menus_are_not_shown()
    ensures
        !menu_shown("context-menu"@),
        !menu_shown("playback-speed-menu"@),
{
    reveal_strlit("context-menu");
    reveal_strlit("playback-speed-menu");
    reveal_strlit("show");
    let show = "show"@;
    let context = "context-menu"@;
    let speed = "playback-speed-menu"@;
    assert forall|i: int| !name_at(context, show, i) by {
        if name_at(context, show, i) {
            assert(context.subrange(i, i + 4)[0] == 's');
        }
    }
    assert forall|i: int| !name_at(speed, show, i) by {
        if name_at(speed, show, i) {
            assert(speed.subrange(i, i + 4)[0] == 's');
            assert(speed.subrange(i, i + 4)[1] == 'h');
        }
    }
}

/// A click on an element that neither menu contains hides both menus; a
/// click on an element inside either menu leaves the page as it is.
pub proof fn outside_click_dismisses_menus(
    page: PageView,
    context_menu: int,
    speed_menu: int,
    target: usize,
)
    requires
        0 <= context_menu < page.elements.len(),
        0 <= speed_menu < page.elements.len(),
        target < page.elements.len(),
    ensures
        ({
            let after = page.dismiss_menus(context_menu, speed_menu, Some(target));
            &&& !page.contains(context_menu, target as int) && !page.contains(
                speed_menu,
                target as int,
            ) ==> !menu_shown(after.elements[context_menu].class) && !menu_shown(
                after.elements[speed_menu].class,
            )
            &&& page.contains(context_menu, target as int) || page.contains(
                speed_menu,
                target as int,
            ) ==> after == page
        }),
{
    hidden_menus_are_not_shown();
}

/// While the video's duration is unknown, seeking moves nothing: the
/// video's media state, its current time with it, stays what it was,
/// wherever the seek was aimed.
pub proof fn seek_without_duration_moves_nothing(page: PageView, percentage: u32)
    requires
        page.get_video_duration() == Ok::<Option<u64>, VideoErrorView>(None),
    ensures
        page.seek_video(percentage).page == page,
        page.seek_video(percentage).outcome is Ok,
        surfaced(page.seek_video(percentage)).page.get_video_time() == page.get_video_time(),
        surfaced(page.seek_video(percentage)).page.get_video_duration()
            == page.get_video_duration(),
{
    let after = surfaced(page.seek_video(percentage)).page;
    located_element(page, "errorMessage"@);
    located_element(page, "videoPlayer"@);
    assert(same_ids(page, after));
    same_ids_locate(page, after, "videoPlayer"@);
    let video = page.locate_video()->Ok_0;
    assert(after.elements[video].kind == page.elements[video].kind);
}

/// Whether the speed option with the text `text` names exactly `speed`.
pub open spec fn option_matches(text: Option<Seq<char>>, speed: Speed) -> bool {
    names_speed(text, speed) == Ok::<bool, VideoErrorView>(true)
}

/// What marking the first `n` options does when none of them fails: each of
/// them gets the class of an option that matches the speed or does not, and
/// nothing else on the page changes.
pub proof fn marking_marks_each_option(page: PageView, options: Seq<usize>, speed: Speed, n: int)
    requires
        0 <= n <= options.len(),
        forall|k: int| 0 <= k < options.len() ==> options[k] < page.elements.len(),
        forall|j: int, k: int| 0 <= j < k < options.len() ==> options[j] < options[k],
        page.mark_options(options, speed, n).outcome is Ok,
    ensures
        ({
            let after = page.mark_options(options, speed, n).page;
            &&& after == PageView { elements: after.elements, calls: after.calls, ..page }
            &&& after.elements.len() == page.elements.len()
            &&& forall|i: int|
                0 <= i < page.elements.len() ==> #[trigger] after.elements[i] == (ElementView {
                    class: after.elements[i].class,
                    ..page.elements[i]
                })
            &&& forall|k: int|
                0 <= k < n ==> after.elements[#[trigger] options[k] as int].class == option_class(
                    option_matches(page.elements[options[k] as int].text, speed),
                )
            &&& forall|i: int|
                0 <= i < page.elements.len() && (forall|k: int| 0 <= k < n ==> options[k] != i)
                    ==> #[trigger] after.elements[i].class == page.elements[i].class
        }),
    decreases n,
{
    if n > 0 {
        let before = page.mark_options(options, speed, n - 1);
        assert(before.outcome is Ok);
        marking_marks_each_option(page, options, speed, n - 1);
        let after = page.mark_options(options, speed, n).page;
        let last = options[n - 1] as int;
        assert forall|k: int| 0 <= k < n implies after.elements[#[trigger] options[k] as int].class
            == option_class(option_matches(page.elements[options[k] as int].text, speed)) by {
            if k < n - 1 {
                assert(options[k] < options[n - 1]);
            }
        }
    }
}

/// Setting the playback speed, when it succeeds, leaves the video playing
/// at that speed and the speed options marked by exact match: an option is
/// active if its label names exactly the speed, and inactive if it names
/// another number.
///
/// This is stated for pages on which neither the context menu nor the
/// error element is itself a speed option of the speed menu.
pub proof fn set_speed_marks_matching_options(page: PageView, speed: Speed)
    requires
        page.elements.len() <= usize::MAX,
        page.set_playback_speed(speed).outcome is Ok,
        page.locate("playbackSpeedMenu"@) matches Ok(menu) ==> forall|k: int|
            0 <= k < page.select_all(menu, "speed-option"@).len() ==> page.locate("contextMenu"@)
                != Ok::<int, VideoErrorView>(
                #[trigger] page.select_all(menu, "speed-option"@)[k] as int,
            ) && page.locate("errorMessage"@) != Ok::<int, VideoErrorView>(
                page.select_all(menu, "speed-option"@)[k] as int,
            ),
    ensures
        ({
            let after = surfaced(page.set_playback_speed(speed)).page;
            let menu = page.locate("playbackSpeedMenu"@)->Ok_0;
            let options = page.select_all(menu, "speed-option"@);
            &&& page.locate("playbackSpeedMenu"@) is Ok
            &&& after.get_playback_speed() == Ok::<Speed, VideoErrorView>(speed)
            &&& forall|k: int|
                0 <= k < options.len() ==> after.elements[#[trigger] options[k] as int].class
                    == option_class(option_matches(page.elements[options[k] as int].text, speed))
        }),
{
    let entered = page.noted("Entering set_playback_speed()"@);
    let video = page.locate_video()->Ok_0;
    let rated = entered.with_playback_rate(video, speed);
    let noted = rated.noted("Entering update_playback_speed_active_state()"@);
    located_element(page, "videoPlayer"@);
    located_element(page, "playbackSpeedMenu"@);
    located_element(page, "contextMenu"@);
    located_element(page, "errorMessage"@);
    assert(same_ids(page, noted));
    same_ids_locate(page, noted, "playbackSpeedMenu"@);
    let menu = page.locate("playbackSpeedMenu"@)->Ok_0;
    let options = page.select_all(menu, "speed-option"@);
    assert(same_tree(page.elements, noted.elements));
    same_tree_select(page.elements, noted.elements, menu, "speed-option"@, page.elements.len() as int);
    assert(noted.select_all(menu, "speed-option"@) == options);
    selection_rises(page.elements, menu, "speed-option"@, page.elements.len() as int);
    let marked = noted.mark_options(options, speed, options.len() as int);
    assert(marked == rated.update_playback_speed_active_state(speed));
    marking_marks_each_option(noted, options, speed, options.len() as int);
    assert(same_ids(noted, marked.page));
    let leaving = marked.page.noted("Entering hide_menus()"@);
    assert(same_ids(page, leaving));
    same_ids_locate(page, leaving, "playbackSpeedMenu"@);
    same_ids_locate(page, leaving, "contextMenu"@);
    let hidden = marked.page.hide_menus();
    assert(hidden == page.set_playback_speed(speed));
    assert(same_ids(page, hidden.page));
    same_ids_locate(page, hidden.page, "errorMessage"@);
    same_ids_locate(page, hidden.page, "videoPlayer"@);
    let after = surfaced(hidden).page;
    surfaced_frame(hidden);
    same_ids_locate(page, after, "videoPlayer"@);
    assert(after.elements[video].kind == rated.elements[video].kind);
    assert forall|k: int| 0 <= k < options.len() implies after.elements[#[trigger] options[k] as int].class
        == option_class(option_matches(page.elements[options[k] as int].text, speed)) by {
        let option = options[k] as int;
        assert(option != menu);
        assert(noted.elements[option].text == page.elements[option].text);
        assert(marked.page.elements[option].class == option_class(
            option_matches(noted.elements[option].text, speed),
        ));
        assert(hidden.page.elements[option].class == marked.page.elements[option].class);
    }
}

/// When exactly one speed option names the speed that is set, exactly that
/// option is active afterwards.
pub proof fn set_speed_activates_one_option(page: PageView, speed: Speed, chosen: int)
    requires
        page.elements.len() <= usize::MAX,
        page.set_playback_speed(speed).outcome is Ok,
        page.locate("playbackSpeedMenu"@) matches Ok(menu) ==> forall|k: int|
            0 <= k < page.select_all(menu, "speed-option"@).len() ==> page.locate("contextMenu"@)
                != Ok::<int, VideoErrorView>(
                #[trigger] page.select_all(menu, "speed-option"@)[k] as int,
            ) && page.locate("errorMessage"@) != Ok::<int, VideoErrorView>(
                page.select_all(menu, "speed-option"@)[k] as int,
            ),
        page.locate("playbackSpeedMenu"@) matches Ok(menu) ==> forall|k: int|
            0 <= k < page.select_all(menu, "speed-option"@).len() ==> (option_matches(
                page.elements[#[trigger] page.select_all(menu, "speed-option"@)[k] as int].text,
                speed,
            ) <==> k == chosen),
    ensures
        ({
            let after = surfaced(page.set_playback_speed(speed)).page;
            let menu = page.locate("playbackSpeedMenu"@)->Ok_0;
            let options = page.select_all(menu, "speed-option"@);
            forall|k: int|
                0 <= k < options.len() ==> (after.elements[#[trigger] options[k] as int].class
                    == "speed-option active"@ <==> k == chosen)
        }),
{
    set_speed_marks_matching_options(page, speed);
    reveal_strlit("speed-option active");
    reveal_strlit("speed-option");
    assert("speed-option active"@.len() == 19);
    assert("speed-option"@.len() == 12);
}

/// While the video's duration is unknown it is never written out: showing
/// the times leaves the text of the duration's element as it was.
pub proof fn unknown_duration_is_not_shown(page: PageView)
    requires
        page.get_video_duration() == Ok::<Option<u64>, VideoErrorView>(None),
    ensures
        page.locate("totalTime"@) matches Ok(total) ==> page.update_time_display().page.elements[total].text
            == page.elements[total].text,
{
    reveal_strlit("totalTime");
    reveal_strlit("currentTime");
    located_element(page, "totalTime"@);
    located_element(page, "currentTime"@);
    assert("totalTime"@.len() == 9);
    assert("currentTime"@.len() == 11);
}

/// The class that the player writes on the context menu when it opens it
/// lists `show`.
pub proof fn open_context_menu_is_shown()
    ensures
        menu_shown("context-menu show"@),
{
    reveal_strlit("context-menu show");
    reveal_strlit("show");
    assert("context-menu show"@.subrange(13, 17) =~= "show"@);
    assert(name_at("context-menu show"@, "show"@, 13));
}

/// A click on the menu button opens the context menu and is stopped there,
/// so that it cannot reach the listener that dismisses the menus: on a page
/// that has both menus, the context menu is shown afterwards and the speed
/// menu is hidden.
pub proof fn menu_button_click_opens_the_menu(
    page: PageView,
    state: VideoState,
    target: Option<usize>,
    x: i32,
    y: i32,
)
    requires
        page.locate("contextMenu"@) is Ok,
        page.locate("playbackSpeedMenu"@) is Ok,
    ensures
        ({
            let event = EventInfo { target: target, pointer: Some((x, y)) };
            let after = handled(page, state, Handler::OpenContextMenu, event);
            let context_menu = page.locate("contextMenu"@)->Ok_0;
            let speed_menu = page.locate("playbackSpeedMenu"@)->Ok_0;
            &&& after.reaction.stop_propagation
            &&& after.state == state
            &&& menu_shown(after.page.elements[context_menu].class)
            &&& !menu_shown(after.page.elements[speed_menu].class)
        }),
{
    open_context_menu_is_shown();
    hidden_menus_are_not_shown();
    reveal_strlit("contextMenu");
    reveal_strlit("playbackSpeedMenu");
    reveal_strlit("errorMessage");
    assert("contextMenu"@.len() == 11);
    assert("playbackSpeedMenu"@.len() == 17);
    assert("errorMessage"@.len() == 12);
    located_element(page, "contextMenu"@);
    located_element(page, "playbackSpeedMenu"@);
    let opened = page.position_context_menu(x, y);
    assert(same_ids(page, opened.page));
    same_ids_locate(page, opened.page, "errorMessage"@);
    located_element(opened.page, "errorMessage"@);
}

/// Whether `after` is `before` with more listeners registered and nothing
/// else changed, where every added listener that sets a speed sets a
/// positive one.
pub open spec fn wired_on(before: PageView, after: PageView) -> bool {
    &&& after == PageView { listeners: after.listeners, calls: after.calls, ..before }
    &&& before.listeners.len() <= after.listeners.len()
    &&& after.listeners.subrange(0, before.listeners.len() as int) == before.listeners
    &&& forall|k: int|
        before.listeners.len() <= k < after.listeners.len() ==> (
        #[trigger] after.listeners[k].handler matches Handler::SetSpeed(speed)
            ==> speed.positive())
}

proof fn wired_on_twice(first: PageView, second: PageView, third: PageView)
    requires
        wired_on(first, second),
        wired_on(second, third),
    ensures
        wired_on(first, third),
{
    assert(third.listeners.subrange(0, first.listeners.len() as int) =~= first.listeners) by {
        assert forall|k: int| 0 <= k < first.listeners.len() implies third.listeners[k]
            == first.listeners[k] by {
            assert(third.listeners.subrange(0, second.listeners.len() as int)[k]
                == second.listeners[k]);
            assert(second.listeners.subrange(0, first.listeners.len() as int)[k]
                == first.listeners[k]);
        }
    }
    assert forall|k: int| first.listeners.len() <= k < third.listeners.len() implies (
    #[trigger] third.listeners[k].handler matches Handler::SetSpeed(speed)
        ==> speed.positive()) by {
        if k < second.listeners.len() {
            assert(third.listeners.subrange(0, second.listeners.len() as int)[k]
                == second.listeners[k]);
        }
    }
}

proof fn wired_on_one(page: PageView, listener: Listener)
    requires
        listener.handler matches Handler::SetSpeed(speed) ==> speed.positive(),
    ensures
        wired_on(page, page.with_listener(listener)),
{
    assert(page.with_listener(listener).listeners.subrange(0, page.listeners.len() as int)
        =~= page.listeners);
}

proof fn wired_on_options(page: PageView, options: Seq<usize>, n: int)
    requires
        n <= options.len(),
    ensures
        wired_on(page, page.wire_options(options, n).page),
    decreases n,
{
    if n <= 0 {
        assert(page.listeners.subrange(0, page.listeners.len() as int) =~= page.listeners);
    } else {
        wired_on_options(page, options, n - 1);
        let before = page.wire_options(options, n - 1);
        if before.outcome is Ok {
            match option_listener(page, options[n - 1] as int) {
                Ok(listener) => {
                    wired_on_one(before.page, listener);
                    wired_on_twice(page, before.page, before.page.with_listener(listener));
                },
                Err(_) => {},
            }
        }
    }
}

proof fn wired_on_button(page: PageView, id: Seq<char>, handler: Handler)
    requires
        !(handler is SetSpeed),
    ensures
        wired_on(page, page.wire_button(id, handler).page),
{
    assert(page.listeners.subrange(0, page.listeners.len() as int) =~= page.listeners);
    match page.locate(id) {
        Ok(button) => {
            wired_on_one(page, on_click(button, handler));
        },
        Err(_) => {},
    }
}

proof fn wired_on_menu_item(
    page: PageView,
    ids: ElementIds,
    position: int,
    missing: Seq<char>,
    handler: Handler,
)
    requires
        !(handler is SetSpeed),
    ensures
        wired_on(page, page.wire_menu_item(ids, position, missing, handler).page),
{
    assert(page.listeners.subrange(0, page.listeners.len() as int) =~= page.listeners);
    match page.locate(ids.context_menu@) {
        Ok(menu) => {
            let items = page.select_all(menu, "context-menu-item"@);
            if position < items.len() {
                wired_on_one(
                    page,
                    on_click(items[position] as int, handler),
                );
            }
        },
        Err(_) => {},
    }
}

/// Wiring the player only adds listeners, and every listener it adds for a
/// speed option sets a positive speed: the speed options are the only
/// callers of the setting of the speed, and they offer positive speeds
/// alone.
pub proof fn wired_speeds_are_positive(page: PageView, ids: ElementIds)
    ensures
        wired_on(page, page.setup_event_listeners(ids).page),
{
    assert(page.listeners.subrange(0, page.listeners.len() as int) =~= page.listeners);
    let core = page.wire_core(ids);
    assert(wired_on(page, core.page)) by {
        if core.outcome is Ok {
            assert(core.page.listeners.subrange(0, page.listeners.len() as int)
                =~= page.listeners);
        }
    }
    if core.outcome is Ok {
        let play = core.page.wire_button(ids.toggle_button@, Handler::TogglePlay);
        wired_on_button(core.page, ids.toggle_button@, Handler::TogglePlay);
        wired_on_twice(page, core.page, play.page);
        if play.outcome is Ok {
            let mute = play.page.wire_button(ids.mute_button@, Handler::ToggleMute);
            wired_on_button(play.page, ids.mute_button@, Handler::ToggleMute);
            wired_on_twice(page, play.page, mute.page);
            if mute.outcome is Ok {
                let full = mute.page.wire_button(
                    ids.fullscreen_button@,
                    Handler::ToggleFullscreen,
                );
                wired_on_button(mute.page, ids.fullscreen_button@, Handler::ToggleFullscreen);
                wired_on_twice(page, mute.page, full.page);
                if full.outcome is Ok {
                    wired_on_menus(full.page, ids);
                    wired_on_twice(page, full.page, full.page.wire_menus(ids).page);
                }
            }
        }
    }
}

proof fn wired_on_menus(page: PageView, ids: ElementIds)
    ensures
        wired_on(page, page.wire_menus(ids).page),
{
    let download = page.wire_menu_item(ids, 0, "download button"@, Handler::Download);
    wired_on_menu_item(page, ids, 0, "download button"@, Handler::Download);
    if download.outcome is Ok {
        let speed = download.page.wire_menu_item(
            ids,
            1,
            "playback speed button"@,
            Handler::OpenSpeedMenu,
        );
        wired_on_menu_item(download.page, ids, 1, "playback speed button"@, Handler::OpenSpeedMenu);
        wired_on_twice(page, download.page, speed.page);
        if speed.outcome is Ok {
            let pip = speed.page.wire_menu_item(
                ids,
                2,
                "pip button"@,
                Handler::TogglePictureInPicture,
            );
            wired_on_menu_item(
                speed.page,
                ids,
                2,
                "pip button"@,
                Handler::TogglePictureInPicture,
            );
            wired_on_twice(page, speed.page, pip.page);
            if pip.outcome is Ok {
                let options = pip.page.wire_speed_options(ids);
                assert(wired_on(pip.page, options.page)) by {
                    match pip.page.locate(ids.playback_speed_menu@) {
                        Ok(menu) => {
                            let found = pip.page.select_all(menu, "speed-option"@);
                            wired_on_options(pip.page, found, found.len() as int);
                        },
                        Err(_) => {
                            assert(pip.page.listeners.subrange(
                                0,
                                pip.page.listeners.len() as int,
                            ) =~= pip.page.listeners);
                        },
                    }
                }
                wired_on_twice(page, pip.page, options.page);
                if options.outcome is Ok {
                    let last = options.page.wire_button(
                        ids.menu_button@,
                        Handler::OpenContextMenu,
                    );
                    wired_on_button(options.page, ids.menu_button@, Handler::OpenContextMenu);
                    wired_on_twice(page, options.page, last.page);
                }
            }
        }
    }
}

/// The listener that the wiring puts on the document's clicks is the one
/// that dismisses the two menus the wiring found: the first listener it
/// registers names the context menu and the speed menu by the ids given.
pub proof fn wiring_registers_the_dismissal(page: PageView, ids: ElementIds)
    requires
        page.wire_core(ids).outcome is Ok,
    ensures
        page.locate(ids.context_menu@) is Ok,
        page.locate(ids.playback_speed_menu@) is Ok,
        page.setup_event_listeners(ids).page.listeners.len() > page.listeners.len(),
        page.setup_event_listeners(ids).page.listeners[page.listeners.len() as int]
            == on_document(
            EventKind::Click,
            Handler::DismissMenus {
                context_menu: page.locate(ids.context_menu@)->Ok_0 as usize,
                speed_menu: page.locate(ids.playback_speed_menu@)->Ok_0 as usize,
            },
        ),
{
    let core = page.wire_core(ids);
    let wired = page.setup_event_listeners(ids);
    wired_on_rest(core.page, ids);
    assert(core.page.listeners.len() == page.listeners.len() + 8);
    assert(wired.page.listeners.subrange(0, core.page.listeners.len() as int)[page.listeners.len() as int]
        == wired.page.listeners[page.listeners.len() as int]);
}

/// What follows the first stage of the wiring only adds listeners.
proof fn wired_on_rest(core: PageView, ids: ElementIds)
    ensures
        ({
            let play = core.wire_button(ids.toggle_button@, Handler::TogglePlay);
            let mute = play.page.wire_button(ids.mute_button@, Handler::ToggleMute);
            let full = mute.page.wire_button(ids.fullscreen_button@, Handler::ToggleFullscreen);
            let rest = if play.outcome is Err {
                play
            } else if mute.outcome is Err {
                mute
            } else if full.outcome is Err {
                full
            } else {
                full.page.wire_menus(ids)
            };
            wired_on(core, rest.page)
        }),
{
    let play = core.wire_button(ids.toggle_button@, Handler::TogglePlay);
    wired_on_button(core, ids.toggle_button@, Handler::TogglePlay);
    let mute = play.page.wire_button(ids.mute_button@, Handler::ToggleMute);
    wired_on_button(play.page, ids.mute_button@, Handler::ToggleMute);
    wired_on_twice(core, play.page, mute.page);
    let full = mute.page.wire_button(ids.fullscreen_button@, Handler::ToggleFullscreen);
    wired_on_button(mute.page, ids.fullscreen_button@, Handler::ToggleFullscreen);
    wired_on_twice(core, mute.page, full.page);
    wired_on_menus(full.page, ids);
    wired_on_twice(core, full.page, full.page.wire_menus(ids).page);
}

/// What a listener asks of the host does not depend on how its action
/// went: on any two pages and states the same handler answers the same
/// event with the same reaction, so that no failure of an action gets
/// further than the error surface.
pub proof fn reactions_ignore_outcomes(
    first: PageView,
    second: PageView,
    state: VideoState,
    other: VideoState,
    handler: Handler,
    event: EventInfo,
)
    ensures
        handled(first, state, handler, event).reaction == handled(
            second,
            other,
            handler,
            event,
        ).reaction,
{
}

/// The wiring succeeds only on a page that holds every element it names:
/// the video, the two menus, the four buttons, and three items in the
/// context menu. Whichever of them is missing, the wiring fails.
pub proof fn wiring_needs_every_element(page: PageView, ids: ElementIds)
    requires
        page.setup_event_listeners(ids).outcome is Ok,
    ensures
        page.locate_video_named(ids.video_player@) is Ok,
        page.locate(ids.context_menu@) is Ok,
        page.locate(ids.playback_speed_menu@) is Ok,
        page.locate(ids.toggle_button@) is Ok,
        page.locate(ids.mute_button@) is Ok,
        page.locate(ids.fullscreen_button@) is Ok,
        page.locate(ids.menu_button@) is Ok,
        page.select_all(page.locate(ids.context_menu@)->Ok_0, "context-menu-item"@).len() >= 3,
{
    let core = page.wire_core(ids);
    assert(wired_on(page, core.page)) by {
        assert(core.page.listeners.subrange(0, page.listeners.len() as int)
            =~= page.listeners);
    }
    let play = core.page.wire_button(ids.toggle_button@, Handler::TogglePlay);
    wired_on_button(core.page, ids.toggle_button@, Handler::TogglePlay);
    let mute = play.page.wire_button(ids.mute_button@, Handler::ToggleMute);
    wired_on_button(play.page, ids.mute_button@, Handler::ToggleMute);
    let full = mute.page.wire_button(ids.fullscreen_button@, Handler::ToggleFullscreen);
    wired_on_button(mute.page, ids.fullscreen_button@, Handler::ToggleFullscreen);
    let download = full.page.wire_menu_item(ids, 0, "download button"@, Handler::Download);
    wired_on_menu_item(full.page, ids, 0, "download button"@, Handler::Download);
    let speed = download.page.wire_menu_item(
        ids,
        1,
        "playback speed button"@,
        Handler::OpenSpeedMenu,
    );
    wired_on_menu_item(download.page, ids, 1, "playback speed button"@, Handler::OpenSpeedMenu);
    let pip = speed.page.wire_menu_item(ids, 2, "pip button"@, Handler::TogglePictureInPicture);
    wired_on_menu_item(speed.page, ids, 2, "pip button"@, Handler::TogglePictureInPicture);
    let options = pip.page.wire_speed_options(ids);
    assert(wired_on(pip.page, options.page)) by {
        match pip.page.locate(ids.playback_speed_menu@) {
            Ok(menu) => {
                let found = pip.page.select_all(menu, "speed-option"@);
                wired_on_options(pip.page, found, found.len() as int);
            },
            Err(_) => {
                assert(pip.page.listeners.subrange(0, pip.page.listeners.len() as int)
                    =~= pip.page.listeners);
            },
        }
    }
    assert(options.page.elements == page.elements);
    assert(pip.page.elements == page.elements);
}

} // verus!
