use video_player::error::VideoError;
use video_player::fullscreen::is_fullscreen;
use video_player::logger::LogLevel;
use video_player::fullscreen::set_fullscreen_button_text;
use video_player::fullscreen::toggle_fullscreen;
use video_player::fullscreen::update_fullscreen_button_text;
use video_player::mute::get_is_muted;
use video_player::mute::is_video_muted;
use video_player::mute::set_is_muted;
use video_player::mute::set_mute_button_text;
use video_player::mute::toggle_mute;
use video_player::mute::update_mute_button_text;
use video_player::page::Attribute;
use video_player::page::Element;
use video_player::page::HostCall;
use video_player::page::Kind;
use video_player::page::Media;
use video_player::page::Page;
use video_player::picture_in_picture::toggle_picture_in_picture;
use video_player::play_pause::is_video_playing;
use video_player::play_pause::play_video;
use video_player::play_pause::set_toggle_button_disabled;
use video_player::play_pause::set_toggle_play;
use video_player::player::get_wasm_initialized;
use video_player::player::set_wasm_initialized;
use video_player::state::VideoState;

const VIDEO: usize = 0;
const TOGGLE: usize = 1;
const MUTE: usize = 2;
const FULLSCREEN: usize = 3;
const ERROR: usize = 4;

fn player_page() -> Page {
    let mut page = Page::new();
    page.push_element(Element::video("videoPlayer", Media::new()));
    let mut toggle = Element::new("toggleButton");
    toggle.text = Some("Play".to_string());
    page.push_element(toggle);
    let mut mute = Element::new("muteButton");
    mute.text = Some("Mute".to_string());
    page.push_element(mute);
    let mut fullscreen = Element::new("fullscreenButton");
    fullscreen.text = Some("Fullscreen".to_string());
    page.push_element(fullscreen);
    let mut error = Element::new("errorMessage");
    error.class = "error-message".to_string();
    page.push_element(error);
    page
}

fn host_calls(page: &Page) -> Vec<HostCall> {
    page.calls
        .iter()
        .filter(|call| !matches!(call, HostCall::Log { record } if record.level == LogLevel::Info))
        .cloned()
        .collect()
}

fn notes(page: &Page) -> Vec<&str> {
    page.console.iter().map(|record| record.text.as_str()).collect()
}

fn state_of(page: &Page) -> Page {
    let mut state = page.clone();
    state.calls.clear();
    state.console.clear();
    state
}

fn text(element: usize, text: Option<&str>) -> HostCall {
    HostCall::SetTextContent { element, text: text.map(|t| t.to_string()) }
}

fn class(element: usize, value: &str) -> HostCall {
    HostCall::SetAttribute { element, attribute: Attribute::Class, value: value.to_string() }
}

fn error_hidden() -> Vec<HostCall> {
    vec![text(ERROR, None), class(ERROR, "error-message")]
}

fn media_of(page: &Page) -> Media {
    match page.elements[VIDEO].kind {
        Kind::Video(m) => m,
        _ => panic!("no video"),
    }
}

fn not_found(id: &str) -> VideoError {
    VideoError::ElementNotFound(id.to_string())
}

#[test]
fn toggle_mute_mutes_and_relabels() {
    let mut page = player_page();
    assert_eq!(toggle_mute(&mut page), Ok(true));
    assert!(media_of(&page).muted);
    assert_eq!(page.elements[MUTE].text, Some("Unmute".to_string()));
    assert_eq!(is_video_muted(&mut page), Ok(true));
}

#[test]
fn toggle_mute_twice_restores_state_and_label() {
    let mut page = player_page();
    let before = page.clone();
    assert_eq!(toggle_mute(&mut page), Ok(true));
    assert_eq!(toggle_mute(&mut page), Ok(false));
    assert_eq!(media_of(&page), media_of(&before));
    assert_eq!(page.elements[MUTE].text, before.elements[MUTE].text);
    assert_eq!(state_of(&page), before);

    let mut muted = player_page();
    let mut media = Media::new();
    media.muted = true;
    muted.elements[VIDEO].kind = Kind::Video(media);
    muted.elements[MUTE].text = Some("Unmute".to_string());
    let before = muted.clone();
    assert_eq!(toggle_mute(&mut muted), Ok(false));
    assert_eq!(muted.elements[MUTE].text, Some("Mute".to_string()));
    assert_eq!(toggle_mute(&mut muted), Ok(true));
    assert_eq!(state_of(&muted), before);
}

#[test]
fn toggle_mute_asks_the_host_for_each_change() {
    let mut page = player_page();
    toggle_mute(&mut page).unwrap();
    let mut expected = vec![
        HostCall::SetMuted { element: VIDEO, muted: true },
        text(MUTE, Some("Unmute")),
    ];
    expected.extend(error_hidden());
    assert_eq!(host_calls(&page), expected);

    let mut page = player_page();
    page.elements[MUTE].id = "other".to_string();
    toggle_mute(&mut page).unwrap_err();
    let calls = host_calls(&page);
    assert_eq!(calls.len(), 3);
    assert!(matches!(calls[0], HostCall::Log { .. }));
    assert_eq!(calls[1], text(ERROR, Some("Element not found: muteButton")));
    assert_eq!(calls[2], class(ERROR, "error-message show"));
}

#[test]
fn toggle_mute_needs_video_and_button() {
    let mut page = player_page();
    page.elements[MUTE].id = "other".to_string();
    assert_eq!(toggle_mute(&mut page), Err(not_found("muteButton")));
    assert!(!media_of(&page).muted);
    assert_eq!(page.elements[ERROR].text, Some("Element not found: muteButton".to_string()));
    assert_eq!(page.elements[ERROR].class, "error-message show");

    let mut page = player_page();
    page.elements[VIDEO].kind = Kind::Other;
    assert_eq!(toggle_mute(&mut page), Err(not_found("videoPlayer")));
    assert_eq!(page.elements[MUTE].text, Some("Mute".to_string()));
}

#[test]
fn success_clears_an_earlier_error() {
    let mut page = player_page();
    page.elements[ERROR].text = Some("old failure".to_string());
    page.elements[ERROR].class = "error-message show".to_string();
    assert_eq!(toggle_mute(&mut page), Ok(true));
    assert_eq!(page.elements[ERROR].text, None);
    assert_eq!(page.elements[ERROR].class, "error-message");
}

#[test]
fn success_without_error_element_is_reported() {
    let mut page = player_page();
    page.elements.pop();
    assert_eq!(toggle_mute(&mut page), Err(not_found("errorMessage")));
    assert!(media_of(&page).muted);
    assert_eq!(page.elements[MUTE].text, Some("Unmute".to_string()));
}

#[test]
fn mute_button_is_labelled() {
    let mut page = player_page();
    assert_eq!(set_mute_button_text(&mut page, true), Ok(()));
    assert_eq!(page.elements[MUTE].text, Some("Unmute".to_string()));
    assert_eq!(set_mute_button_text(&mut page, false), Ok(()));
    assert_eq!(page.elements[MUTE].text, Some("Mute".to_string()));

    let mut media = Media::new();
    media.muted = true;
    page.elements[VIDEO].kind = Kind::Video(media);
    assert_eq!(update_mute_button_text(&mut page), Ok(()));
    assert_eq!(page.elements[MUTE].text, Some("Unmute".to_string()));
}

#[test]
fn muted_record_is_kept() {
    let mut page = player_page();
    let mut state = VideoState::new();
    assert!(!get_is_muted(&mut page, &state));
    assert_eq!(set_is_muted(&mut page, &mut state, true), Ok(()));
    assert!(get_is_muted(&mut page, &state));
    assert_eq!(set_is_muted(&mut page, &mut state, true), Ok(()));
    assert!(get_is_muted(&mut page, &state));

    let mut bare = Page::new();
    assert_eq!(set_is_muted(&mut bare, &mut state, false), Err(not_found("errorMessage")));
    assert!(!get_is_muted(&mut bare, &state));
}

#[test]
fn started_record_is_kept() {
    let mut page = player_page();
    let mut state = VideoState::new();
    assert!(!get_wasm_initialized(&mut page, &state));
    assert_eq!(set_wasm_initialized(&mut page, &mut state, true), Ok(()));
    assert!(get_wasm_initialized(&mut page, &state));
    assert_eq!(state.playback_speed.thousandths, 1000);
}

#[test]
fn play_video_plays_a_paused_video() {
    let mut page = player_page();
    assert_eq!(is_video_playing(&mut page), Ok(false));
    assert_eq!(play_video(&mut page), Ok(()));
    assert!(!media_of(&page).paused);
    assert_eq!(is_video_playing(&mut page), Ok(true));
    assert_eq!(page.elements[TOGGLE].text, Some("Pause".to_string()));
}

#[test]
fn play_video_pauses_a_playing_video() {
    let mut page = player_page();
    assert_eq!(play_video(&mut page), Ok(()));
    assert_eq!(play_video(&mut page), Ok(()));
    assert!(media_of(&page).paused);
    assert_eq!(page.elements[TOGGLE].text, Some("Play".to_string()));
    assert_eq!(state_of(&page), player_page());
    let mut expected = vec![HostCall::Play { element: VIDEO }, text(TOGGLE, Some("Pause"))];
    expected.extend(error_hidden());
    expected.extend([HostCall::Pause { element: VIDEO }, text(TOGGLE, Some("Play"))]);
    expected.extend(error_hidden());
    assert_eq!(host_calls(&page), expected);
}

#[test]
fn play_video_needs_video_and_button() {
    let mut page = player_page();
    page.elements[TOGGLE].id = String::new();
    assert_eq!(play_video(&mut page), Err(not_found("toggleButton")));
    assert!(media_of(&page).paused);
    assert_eq!(page.elements[ERROR].class, "error-message show");
}

#[test]
fn toggle_button_text_leaves_the_error_alone() {
    let mut page = player_page();
    page.elements[ERROR].text = Some("old failure".to_string());
    page.elements[ERROR].class = "error-message show".to_string();
    assert_eq!(set_toggle_play(&mut page, "Pause"), Ok(()));
    assert_eq!(page.elements[TOGGLE].text, Some("Pause".to_string()));
    assert_eq!(page.elements[ERROR].text, Some("old failure".to_string()));
    page.elements[TOGGLE].id = "x".to_string();
    assert_eq!(set_toggle_play(&mut page, "Play"), Err(not_found("toggleButton")));
    assert_eq!(page.elements[ERROR].text, Some("old failure".to_string()));
}

#[test]
fn toggle_button_can_be_disabled() {
    let mut page = player_page();
    assert_eq!(set_toggle_button_disabled(&mut page, true), Ok(()));
    assert_eq!(page.elements[TOGGLE].disabled, Some("true".to_string()));
    assert_eq!(set_toggle_button_disabled(&mut page, false), Ok(()));
    assert_eq!(page.elements[TOGGLE].disabled, Some("false".to_string()));
    page.elements[TOGGLE].id = "x".to_string();
    assert_eq!(set_toggle_button_disabled(&mut page, true), Err(not_found("toggleButton")));
    assert_eq!(page.elements[ERROR].text, Some("Element not found: toggleButton".to_string()));
}

#[test]
fn fullscreen_is_entered_and_left() {
    let mut page = player_page();
    assert_eq!(is_fullscreen(&mut page), Ok(false));
    assert_eq!(toggle_fullscreen(&mut page), Ok(true));
    assert!(page.fullscreen);
    assert_eq!(is_fullscreen(&mut page), Ok(true));
    assert_eq!(toggle_fullscreen(&mut page), Ok(false));
    assert!(!page.fullscreen);
    let mut expected = vec![HostCall::RequestFullscreen { element: VIDEO }];
    expected.extend(error_hidden());
    expected.push(HostCall::ExitFullscreen);
    expected.extend(error_hidden());
    assert_eq!(host_calls(&page), expected);
}

#[test]
fn refused_fullscreen_is_an_operation_failure() {
    let mut page = player_page();
    page.fullscreen_enabled = false;
    let expected = VideoError::VideoOperationFailed(
        "Failed to enter fullscreen: the host refused the request".to_string(),
    );
    assert_eq!(toggle_fullscreen(&mut page), Err(expected));
    assert!(!page.fullscreen);
    assert_eq!(
        page.elements[ERROR].text,
        Some(
            "Video operation failed: Failed to enter fullscreen: the host refused the request"
                .to_string()
        )
    );
    page.fullscreen = true;
    assert_eq!(toggle_fullscreen(&mut page), Ok(false));
}

#[test]
fn fullscreen_needs_the_host() {
    let mut page = player_page();
    page.has_window = false;
    assert_eq!(toggle_fullscreen(&mut page), Err(VideoError::WindowNotFound));
    assert_eq!(is_fullscreen(&mut page), Err(VideoError::WindowNotFound));
    page.has_window = true;
    page.has_document = false;
    assert_eq!(toggle_fullscreen(&mut page), Err(VideoError::DocumentNotFound));
    assert_eq!(is_fullscreen(&mut page), Err(VideoError::DocumentNotFound));
    assert_eq!(page.elements[ERROR].text, None);
}

#[test]
fn fullscreen_button_is_labelled() {
    let mut page = player_page();
    assert_eq!(set_fullscreen_button_text(&mut page), Ok(()));
    assert!(page.fullscreen);
    assert_eq!(page.elements[FULLSCREEN].text, Some("Exit Fullscreen".to_string()));
    assert_eq!(set_fullscreen_button_text(&mut page), Ok(()));
    assert!(!page.fullscreen);
    assert_eq!(page.elements[FULLSCREEN].text, Some("Fullscreen".to_string()));

    page.fullscreen = true;
    assert_eq!(update_fullscreen_button_text(&mut page), Ok(()));
    assert!(page.fullscreen);
    assert_eq!(page.elements[FULLSCREEN].text, Some("Exit Fullscreen".to_string()));
}

#[test]
fn fullscreen_button_text_toggles_before_it_looks_for_the_button() {
    let mut page = player_page();
    page.elements[FULLSCREEN].id = "x".to_string();
    assert_eq!(set_fullscreen_button_text(&mut page), Err(not_found("fullscreenButton")));
    assert!(page.fullscreen);
}

#[test]
fn picture_in_picture_follows_the_host() {
    let mut page = player_page();
    assert_eq!(toggle_picture_in_picture(&mut page), Ok(()));
    assert!(page.picture_in_picture);
    assert_eq!(toggle_picture_in_picture(&mut page), Ok(()));
    assert!(!page.picture_in_picture);

    let mut expected = vec![HostCall::RequestPictureInPicture { element: VIDEO }];
    expected.extend(error_hidden());
    expected.push(HostCall::ExitPictureInPicture);
    expected.extend(error_hidden());
    assert_eq!(page.calls, expected);

    page.picture_in_picture_enabled = false;
    let before = state_of(&page);
    assert_eq!(toggle_picture_in_picture(&mut page), Ok(()));
    assert_eq!(state_of(&page), before);
    assert_eq!(page.calls[expected.len()..], error_hidden());

    page.picture_in_picture = true;
    assert_eq!(toggle_picture_in_picture(&mut page), Ok(()));
    assert!(!page.picture_in_picture);
}

#[test]
fn picture_in_picture_needs_the_video() {
    let mut page = player_page();
    page.elements[VIDEO].id = "x".to_string();
    assert_eq!(toggle_picture_in_picture(&mut page), Err(not_found("videoPlayer")));
    assert!(!page.picture_in_picture);
    assert_eq!(page.elements[ERROR].class, "error-message show");
}

#[test]
fn actions_tell_the_console_that_they_were_entered() {
    let mut page = player_page();
    toggle_mute(&mut page).unwrap();
    assert_eq!(
        notes(&page),
        ["Entering toggle_mute()", "Toggling mute state to: true", "Entering set_mute_button_text()"]
    );
    assert!(page.console.iter().all(|record| record.level == LogLevel::Info));
    assert_eq!(page.calls[0], HostCall::Log { record: page.console[0].clone() });

    let mut page = player_page();
    play_video(&mut page).unwrap();
    play_video(&mut page).unwrap();
    assert_eq!(
        notes(&page),
        [
            "Entering play_video()",
            "Entering is_video_playing()",
            "Playing video",
            "Entering set_toggle_play()",
            "Entering play_video()",
            "Entering is_video_playing()",
            "Pausing video",
            "Entering set_toggle_play()",
        ]
    );

    let mut page = player_page();
    toggle_fullscreen(&mut page).unwrap();
    toggle_fullscreen(&mut page).unwrap();
    assert_eq!(
        notes(&page),
        [
            "Entering toggle_fullscreen()",
            "Entering fullscreen mode",
            "Entering toggle_fullscreen()",
            "Exiting fullscreen mode",
        ]
    );

    let mut page = player_page();
    set_fullscreen_button_text(&mut page).unwrap();
    update_fullscreen_button_text(&mut page).unwrap();
    update_mute_button_text(&mut page).unwrap();
    set_mute_button_text(&mut page, true).unwrap();
    set_toggle_play(&mut page, "Play").unwrap();
    set_toggle_button_disabled(&mut page, true).unwrap();
    assert_eq!(
        notes(&page),
        [
            "Entering set_fullscreen_button_text()",
            "Entering toggle_fullscreen()",
            "Entering fullscreen mode",
            "Entering update_fullscreen_button_text()",
            "Entering is_fullscreen()",
            "Entering update_mute_button_text()",
            "Entering is_video_muted()",
            "Entering set_mute_button_text()",
            "Entering set_toggle_play()",
            "Entering set_toggle_button_disabled()",
        ]
    );
}

#[test]
fn readers_tell_the_console_too_and_change_nothing_else() {
    let mut page = player_page();
    let mut state = VideoState::new();
    is_video_muted(&mut page).unwrap();
    is_video_playing(&mut page).unwrap();
    is_fullscreen(&mut page).unwrap();
    get_is_muted(&mut page, &state);
    get_wasm_initialized(&mut page, &state);
    set_is_muted(&mut page, &mut state, true).unwrap();
    set_wasm_initialized(&mut page, &mut state, true).unwrap();
    assert_eq!(
        notes(&page),
        [
            "Entering is_video_muted()",
            "Entering is_video_playing()",
            "Entering is_fullscreen()",
            "Entering get_is_muted()",
            "Entering get_wasm_initialized()",
            "Entering set_is_muted()",
            "Entering set_wasm_initialized()",
        ]
    );
    assert_eq!(state_of(&page), player_page());
}

#[test]
fn an_action_that_fails_has_still_told_of_its_entry() {
    let mut page = Page::new();
    toggle_mute(&mut page).unwrap_err();
    assert_eq!(notes(&page), ["Entering toggle_mute()", "Element not found: videoPlayer"]);
    assert_eq!(page.console[1].level, LogLevel::Error);
}
