use video_player::element_ids::ElementClasses;
use video_player::element_ids::ElementIds;
use video_player::error::VideoError;
use video_player::event_listeners::handle_event;
use video_player::event_listeners::setup_event_listeners;
use video_player::event_listeners::EventInfo;
use video_player::event_listeners::Reaction;
use video_player::page::Element;
use video_player::page::EventKind;
use video_player::page::Handler;
use video_player::page::HostCall;
use video_player::page::Kind;
use video_player::page::Listener;
use video_player::page::Media;
use video_player::page::Page;
use video_player::page::Target;
use video_player::player::add_video_source;
use video_player::player::init_video;
use video_player::player::init_video_player;
use video_player::speed::Speed;
use video_player::state::VideoState;

const VIDEO: usize = 0;
const TOGGLE: usize = 1;
const MUTE: usize = 2;
const FULLSCREEN: usize = 3;
const MENU_BUTTON: usize = 4;
const CURRENT: usize = 5;
const TOTAL: usize = 6;
const ERROR: usize = 7;
const CONTEXT: usize = 8;
const SPEED_MENU: usize = 12;
const FIRST_OPTION: usize = 13;

fn ids() -> ElementIds {
    ElementIds::new(
        "videoPlayer".to_string(),
        "toggleButton".to_string(),
        "muteButton".to_string(),
        "fullscreenButton".to_string(),
        "menuButton".to_string(),
        "currentTime".to_string(),
        "totalTime".to_string(),
        "errorMessage".to_string(),
        "contextMenu".to_string(),
        "playbackSpeedMenu".to_string(),
    )
}

fn player_page() -> Page {
    let mut page = Page::new();
    let mut media = Media::new();
    media.current_time = 65_000;
    media.duration = Some(120_000);
    page.push_element(Element::video("videoPlayer", media));
    for id in
        ["toggleButton", "muteButton", "fullscreenButton", "menuButton", "currentTime", "totalTime", "errorMessage", "contextMenu"]
    {
        page.push_element(Element::new(id));
    }
    page.elements[CONTEXT].class = "context-menu".to_string();
    for _ in 0..3 {
        let mut item = Element::new("");
        item.parent = Some(CONTEXT);
        item.class = "context-menu-item".to_string();
        item.right = 180;
        item.bottom = 64;
        page.push_element(item);
    }
    let mut menu = Element::new("playbackSpeedMenu");
    menu.class = "playback-speed-menu".to_string();
    page.push_element(menu);
    for label in ["0.5x", "1x", "2x"] {
        let mut option = Element::new("");
        option.parent = Some(SPEED_MENU);
        option.class = "speed-option".to_string();
        option.text = Some(label.to_string());
        page.push_element(option);
    }
    page
}

fn on(element: usize, event: EventKind, handler: Handler) -> Listener {
    Listener { target: Target::Element(element), event, handler }
}

fn click(element: usize, handler: Handler) -> Listener {
    on(element, EventKind::Click, handler)
}

fn speed(thousandths: u32) -> Speed {
    Speed::from_thousandths(thousandths).unwrap()
}

fn expected_listeners() -> Vec<Listener> {
    vec![
        Listener {
            target: Target::Document,
            event: EventKind::Click,
            handler: Handler::DismissMenus { context_menu: CONTEXT, speed_menu: SPEED_MENU },
        },
        on(VIDEO, EventKind::TimeUpdate, Handler::UpdateTimeDisplay),
        on(VIDEO, EventKind::LoadedMetadata, Handler::UpdateTimeDisplay),
        on(VIDEO, EventKind::DurationChange, Handler::UpdateTimeDisplay),
        on(VIDEO, EventKind::Play, Handler::ShowPauseLabel),
        on(VIDEO, EventKind::Pause, Handler::ShowPlayLabel),
        on(VIDEO, EventKind::VolumeChange, Handler::UpdateMuteLabel),
        Listener {
            target: Target::Document,
            event: EventKind::FullscreenChange,
            handler: Handler::UpdateFullscreenLabel,
        },
        click(TOGGLE, Handler::TogglePlay),
        click(MUTE, Handler::ToggleMute),
        click(FULLSCREEN, Handler::ToggleFullscreen),
        click(CONTEXT + 1, Handler::Download),
        click(CONTEXT + 2, Handler::OpenSpeedMenu),
        click(CONTEXT + 3, Handler::TogglePictureInPicture),
        click(FIRST_OPTION, Handler::SetSpeed(speed(500))),
        click(FIRST_OPTION + 1, Handler::SetSpeed(speed(1000))),
        click(FIRST_OPTION + 2, Handler::SetSpeed(speed(2000))),
        click(MENU_BUTTON, Handler::OpenContextMenu),
    ]
}

fn nothing() -> EventInfo {
    EventInfo { target: None, pointer: None }
}

fn quiet() -> Reaction {
    Reaction { stop_propagation: false, start_download: false, fetch_post_into: None }
}

fn not_found(id: &str) -> VideoError {
    VideoError::ElementNotFound(id.to_string())
}

#[test]
fn class_names_of_the_markup() {
    let classes = ElementClasses::new();
    assert_eq!(classes.context_menu(), "context-menu");
    assert_eq!(classes.context_menu_show(), "context-menu show");
    assert_eq!(classes.playback_speed_menu(), "playback-speed-menu");
    assert_eq!(classes.playback_speed_menu_show(), "playback-speed-menu show");
    assert_eq!(classes.speed_option(), "speed-option");
    assert_eq!(classes.context_menu_item(), "context-menu-item");
}

#[test]
fn ids_are_kept_in_their_places() {
    let ids = ids();
    assert_eq!(ids.video_player(), "videoPlayer");
    assert_eq!(ids.toggle_button(), "toggleButton");
    assert_eq!(ids.mute_button(), "muteButton");
    assert_eq!(ids.fullscreen_button(), "fullscreenButton");
    assert_eq!(ids.menu_button(), "menuButton");
    assert_eq!(ids.current_time(), "currentTime");
    assert_eq!(ids.total_time(), "totalTime");
    assert_eq!(ids.error_message(), "errorMessage");
    assert_eq!(ids.context_menu(), "contextMenu");
    assert_eq!(ids.playback_speed_menu(), "playbackSpeedMenu");
}

#[test]
fn listeners_are_registered_in_order() {
    let mut page = player_page();
    assert_eq!(setup_event_listeners(&mut page, ids()), Ok(()));
    assert_eq!(page.listeners, expected_listeners());
    let calls: Vec<HostCall> = expected_listeners()
        .into_iter()
        .map(|listener| HostCall::AddEventListener { listener })
        .collect();
    assert_eq!(page.calls, calls);
    let mut unchanged = page.clone();
    unchanged.listeners.clear();
    unchanged.calls.clear();
    assert_eq!(unchanged, player_page());
}

#[test]
fn listeners_follow_the_given_ids() {
    let mut page = player_page();
    page.elements[MUTE].id = "sound".to_string();
    let mut ids = ids();
    ids.mute_button = "sound".to_string();
    assert_eq!(setup_event_listeners(&mut page, ids), Ok(()));
    assert_eq!(page.listeners, expected_listeners());
}

#[test]
fn wiring_stops_at_the_first_missing_element() {
    let cases = [
        (VIDEO, "videoPlayer", 0),
        (CONTEXT, "contextMenu", 0),
        (SPEED_MENU, "playbackSpeedMenu", 0),
        (TOGGLE, "toggleButton", 8),
        (MUTE, "muteButton", 9),
        (FULLSCREEN, "fullscreenButton", 10),
        (MENU_BUTTON, "menuButton", 17),
    ];
    for (element, id, registered) in cases {
        let mut page = player_page();
        page.elements[element].id = "gone".to_string();
        assert_eq!(setup_event_listeners(&mut page, ids()), Err(not_found(id)));
        assert_eq!(page.listeners, expected_listeners()[..registered]);
    }
}

#[test]
fn wiring_needs_the_host() {
    let mut page = player_page();
    page.has_window = false;
    assert_eq!(setup_event_listeners(&mut page, ids()), Err(VideoError::WindowNotFound));
    page.has_window = true;
    page.has_document = false;
    assert_eq!(setup_event_listeners(&mut page, ids()), Err(VideoError::DocumentNotFound));
    assert!(page.listeners.is_empty());
}

#[test]
fn wiring_needs_a_video_element() {
    let mut page = player_page();
    page.elements[VIDEO].kind = Kind::Other;
    assert_eq!(setup_event_listeners(&mut page, ids()), Err(not_found("videoPlayer")));
    assert!(page.listeners.is_empty());
}

#[test]
fn wiring_needs_three_menu_items() {
    let cases = [
        (3, "download button", 11),
        (2, "playback speed button", 12),
        (1, "pip button", 13),
    ];
    for (removed, missing, registered) in cases {
        let mut page = player_page();
        for k in 0..removed {
            page.elements[CONTEXT + 3 - k].class = "separator".to_string();
        }
        assert_eq!(setup_event_listeners(&mut page, ids()), Err(not_found(missing)));
        assert_eq!(page.listeners, expected_listeners()[..registered]);
    }
}

#[test]
fn wiring_needs_readable_speed_options() {
    let mut page = player_page();
    page.elements[FIRST_OPTION + 1].text = Some("normal".to_string());
    assert_eq!(
        setup_event_listeners(&mut page, ids()),
        Err(VideoError::VideoOperationFailed("Failed to parse speed: normal".to_string()))
    );
    assert_eq!(page.listeners, expected_listeners()[..15]);

    let mut page = player_page();
    page.elements[FIRST_OPTION].text = None;
    assert_eq!(
        setup_event_listeners(&mut page, ids()),
        Err(VideoError::VideoOperationFailed("No text content found".to_string()))
    );
    assert_eq!(page.listeners, expected_listeners()[..14]);

    let mut page = player_page();
    page.elements[FIRST_OPTION + 2].text = Some("1e".to_string());
    assert_eq!(
        setup_event_listeners(&mut page, ids()),
        Err(VideoError::VideoOperationFailed("Failed to parse speed: 1e".to_string()))
    );
    assert_eq!(page.listeners, expected_listeners()[..16]);
}

#[test]
fn options_that_offer_no_speed_are_wired_to_do_nothing() {
    for label in ["0x", "-1x", "1.0005x", "infx", "NaN", "1e-9x"] {
        let mut page = player_page();
        page.elements[FIRST_OPTION + 1].text = Some(label.to_string());
        assert_eq!(setup_event_listeners(&mut page, ids()), Ok(()), "{:?}", label);
        let mut expected = expected_listeners();
        expected[15] = click(FIRST_OPTION + 1, Handler::NoSpeed);
        assert_eq!(page.listeners, expected);

        let before = page.clone();
        let mut state = VideoState::new();
        assert_eq!(handle_event(&mut page, &mut state, Handler::NoSpeed, nothing()), quiet());
        assert_eq!(page, before);
        assert_eq!(state, VideoState::new());
    }
    let mut page = player_page();
    page.elements[FIRST_OPTION + 1].text = Some("15e-1x".to_string());
    assert_eq!(setup_event_listeners(&mut page, ids()), Ok(()));
    assert_eq!(page.listeners[15], click(FIRST_OPTION + 1, Handler::SetSpeed(speed(1500))));
}

#[test]
fn player_is_started() {
    let mut page = player_page();
    assert_eq!(init_video_player(&mut page, ids()), Ok(()));
    let source = page.elements.last().unwrap();
    assert_eq!(source.kind, Kind::Source);
    assert_eq!(source.parent, Some(VIDEO));
    assert_eq!(
        source.src,
        Some(
            "https://storage.googleapis.com/gtv-videos-bucket/sample/BigBuckBunny.mp4".to_string()
        )
    );
    assert_eq!(source.media_type, Some("video/mp4".to_string()));
    assert_eq!(page.listeners, expected_listeners());
}

#[test]
fn start_names_the_stage_that_failed() {
    let mut page = player_page();
    page.elements[VIDEO].id = "gone".to_string();
    assert_eq!(
        init_video_player(&mut page, ids()),
        Err(VideoError::VideoOperationFailed(
            "Failed to add video source: Element not found: videoPlayer".to_string()
        ))
    );
    assert_eq!(page, {
        let mut expected = player_page();
        expected.elements[VIDEO].id = "gone".to_string();
        expected
    });

    let mut page = player_page();
    page.elements[TOGGLE].id = "gone".to_string();
    assert_eq!(
        init_video_player(&mut page, ids()),
        Err(VideoError::VideoOperationFailed(
            "Failed to setup event listeners: Element not found: toggleButton".to_string()
        ))
    );
    assert_eq!(page.listeners.len(), 8);
    assert_eq!(page.elements.len(), player_page().elements.len() + 1);
}

#[test]
fn source_is_added_below_the_video() {
    let mut page = player_page();
    assert_eq!(add_video_source(&mut page, "a.webm", "video/webm"), Ok(()));
    let mut expected = Element::new("");
    expected.kind = Kind::Source;
    expected.parent = Some(VIDEO);
    expected.src = Some("a.webm".to_string());
    expected.media_type = Some("video/webm".to_string());
    assert_eq!(page.elements.last(), Some(&expected));
    assert_eq!(
        page.calls,
        vec![HostCall::AppendSource {
            parent: VIDEO,
            src: "a.webm".to_string(),
            media_type: "video/webm".to_string(),
        }]
    );
    let mut bare = Page::new();
    assert_eq!(add_video_source(&mut bare, "a.webm", "video/webm"), Err(not_found("videoPlayer")));
    assert!(bare.elements.is_empty());
}

#[test]
fn start_is_recorded_only_when_wired() {
    let mut page = player_page();
    let mut state = VideoState::new();
    assert_eq!(init_video(&mut page, &mut state, ids()), Ok(()));
    assert!(state.wasm_initialized);
    assert_eq!(page.listeners, expected_listeners());

    let mut page = player_page();
    page.elements[MENU_BUTTON].id = "gone".to_string();
    let mut state = VideoState::new();
    assert_eq!(init_video(&mut page, &mut state, ids()), Err(not_found("menuButton")));
    assert!(!state.wasm_initialized);
}

#[test]
fn menu_button_opens_the_menu_and_stops_the_click() {
    let mut page = player_page();
    page.scroll_y = 40;
    let mut state = VideoState::new();
    let event = EventInfo { target: Some(MENU_BUTTON), pointer: Some((300, 200)) };
    let reaction = handle_event(&mut page, &mut state, Handler::OpenContextMenu, event);
    assert_eq!(reaction, Reaction { stop_propagation: true, ..quiet() });
    assert_eq!(page.elements[CONTEXT].class, "context-menu show");
    assert_eq!(page.elements[CONTEXT].style, "top: 240px; left: 300px");

    let mut page = player_page();
    let reaction = handle_event(&mut page, &mut state, Handler::OpenContextMenu, nothing());
    assert_eq!(reaction, quiet());
    assert_eq!(page, player_page());
}

#[test]
fn click_that_reaches_the_document_dismisses_open_menus() {
    let mut page = player_page();
    let mut state = VideoState::new();
    page.elements[CONTEXT].class = "context-menu show".to_string();
    page.elements[SPEED_MENU].class = "playback-speed-menu show".to_string();
    let dismiss = Handler::DismissMenus { context_menu: CONTEXT, speed_menu: SPEED_MENU };
    let inside = EventInfo { target: Some(FIRST_OPTION), pointer: Some((1, 1)) };
    assert_eq!(handle_event(&mut page, &mut state, dismiss, inside), quiet());
    assert_eq!(page.elements[CONTEXT].class, "context-menu show");
    assert_eq!(page.elements[SPEED_MENU].class, "playback-speed-menu show");
    let outside = EventInfo { target: Some(VIDEO), pointer: Some((1, 1)) };
    assert_eq!(handle_event(&mut page, &mut state, dismiss, outside), quiet());
    assert_eq!(page.elements[CONTEXT].class, "context-menu");
    assert_eq!(page.elements[SPEED_MENU].class, "playback-speed-menu");
}

#[test]
fn speed_item_opens_the_speed_menu_at_its_corner() {
    let mut page = player_page();
    let mut state = VideoState::new();
    let event = EventInfo { target: Some(CONTEXT + 2), pointer: Some((3, 4)) };
    assert_eq!(handle_event(&mut page, &mut state, Handler::OpenSpeedMenu, event), quiet());
    assert_eq!(page.elements[SPEED_MENU].style, "top: 64px; left: 180px");
    assert_eq!(page.elements[SPEED_MENU].class, "playback-speed-menu show");

    let mut page = player_page();
    assert_eq!(handle_event(&mut page, &mut state, Handler::OpenSpeedMenu, nothing()), quiet());
    assert_eq!(page, player_page());
}

#[test]
fn download_item_asks_for_a_download() {
    let mut page = player_page();
    let mut state = VideoState::new();
    let reaction = handle_event(&mut page, &mut state, Handler::Download, nothing());
    assert_eq!(reaction, Reaction { start_download: true, ..quiet() });
    assert_eq!(page, player_page());
}

#[test]
fn fetch_button_asks_for_the_post() {
    let mut page = player_page();
    let mut state = VideoState::new();
    let reaction =
        handle_event(&mut page, &mut state, Handler::FetchPost { content: 5 }, nothing());
    assert_eq!(reaction, Reaction { fetch_post_into: Some(5), ..quiet() });
    assert_eq!(page, player_page());
}

#[test]
fn speed_option_sets_its_speed() {
    let mut page = player_page();
    let mut state = VideoState::new();
    let reaction = handle_event(&mut page, &mut state, Handler::SetSpeed(speed(2000)), nothing());
    assert_eq!(reaction, quiet());
    assert_eq!(state.playback_speed, speed(2000));
    assert_eq!(page.elements[FIRST_OPTION + 2].class, "speed-option active");
    assert_eq!(page.elements[FIRST_OPTION + 1].class, "speed-option");

    let zero = Handler::SetSpeed(Speed { thousandths: 0 });
    let before = page.clone();
    assert_eq!(handle_event(&mut page, &mut state, zero, nothing()), quiet());
    assert_eq!(state.playback_speed, speed(2000));
    assert_eq!(page, before);
}

#[test]
fn video_events_relabel_the_controls() {
    let mut page = player_page();
    let mut state = VideoState::new();
    handle_event(&mut page, &mut state, Handler::ShowPauseLabel, nothing());
    assert_eq!(page.elements[TOGGLE].text, Some("Pause".to_string()));
    handle_event(&mut page, &mut state, Handler::ShowPlayLabel, nothing());
    assert_eq!(page.elements[TOGGLE].text, Some("Play".to_string()));
    handle_event(&mut page, &mut state, Handler::UpdateTimeDisplay, nothing());
    assert_eq!(page.elements[CURRENT].text, Some("1:05".to_string()));
    assert_eq!(page.elements[TOTAL].text, Some("2:00".to_string()));
    handle_event(&mut page, &mut state, Handler::UpdateMuteLabel, nothing());
    assert_eq!(page.elements[MUTE].text, Some("Mute".to_string()));
    page.fullscreen = true;
    handle_event(&mut page, &mut state, Handler::UpdateFullscreenLabel, nothing());
    assert_eq!(page.elements[FULLSCREEN].text, Some("Exit Fullscreen".to_string()));
}

#[test]
fn button_clicks_take_their_actions() {
    let mut page = player_page();
    let mut state = VideoState::new();
    handle_event(&mut page, &mut state, Handler::TogglePlay, nothing());
    assert_eq!(page.elements[TOGGLE].text, Some("Pause".to_string()));
    handle_event(&mut page, &mut state, Handler::ToggleMute, nothing());
    assert_eq!(page.elements[MUTE].text, Some("Unmute".to_string()));
    handle_event(&mut page, &mut state, Handler::ToggleFullscreen, nothing());
    assert!(page.fullscreen);
    handle_event(&mut page, &mut state, Handler::TogglePictureInPicture, nothing());
    assert!(page.picture_in_picture);
    match page.elements[VIDEO].kind {
        Kind::Video(media) => {
            assert!(!media.paused);
            assert!(media.muted);
        }
        _ => panic!("no video"),
    }
}

#[test]
fn handler_failures_are_shown_and_swallowed() {
    let mut page = player_page();
    page.elements[MUTE].id = "gone".to_string();
    let mut state = VideoState::new();
    assert_eq!(handle_event(&mut page, &mut state, Handler::ToggleMute, nothing()), quiet());
    assert_eq!(page.elements[ERROR].text, Some("Element not found: muteButton".to_string()));
    assert_eq!(page.elements[ERROR].class, "error-message show");
}
