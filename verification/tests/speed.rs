use video_player::error::VideoError;
use video_player::page::Element;
use video_player::page::HostCall;
use video_player::page::Kind;
use video_player::page::Media;
use video_player::page::Page;
use video_player::playback_speed::get_current_playback_speed;
use video_player::playback_speed::get_playback_speed;
use video_player::playback_speed::set_playback_speed;
use video_player::playback_speed::update_playback_speed_active_state;
use video_player::speed::parse_label;
use video_player::speed::Number;
use video_player::speed::Speed;
use video_player::state::VideoState;

const PRESETS: [&str; 8] = ["0.25x", "0.5x", "0.75x", "1x", "1.25x", "1.5x", "1.75x", "2x"];
const FIRST_OPTION: usize = 4;

fn speed_of(value: f64) -> Speed {
    Speed::from_thousandths((value * 1000.0).round() as u32).unwrap()
}

fn player_page(labels: &[&str]) -> Page {
    let mut page = Page::new();
    page.push_element(Element::video("videoPlayer", Media::new()));
    let mut error = Element::new("errorMessage");
    error.class = "error-message".to_string();
    page.push_element(error);
    let mut context = Element::new("contextMenu");
    context.class = "context-menu show".to_string();
    page.push_element(context);
    let mut menu = Element::new("playbackSpeedMenu");
    menu.class = "playback-speed-menu show".to_string();
    page.push_element(menu);
    for label in labels {
        let mut option = Element::new("");
        option.parent = Some(3);
        option.class = "speed-option".to_string();
        option.text = Some(label.to_string());
        page.push_element(option);
    }
    page
}

fn active_options(page: &Page) -> Vec<usize> {
    let mut active = Vec::new();
    for (i, e) in page.elements.iter().enumerate() {
        if e.class == "speed-option active" {
            active.push(i);
        }
    }
    active
}

fn thousandths(t: u32) -> Option<Number> {
    Some(Number::Thousandths(t))
}

#[test]
fn labels_name_thousandths() {
    assert_eq!(parse_label("1x"), thousandths(1000));
    assert_eq!(parse_label("1.5x"), thousandths(1500));
    assert_eq!(parse_label("0.25x"), thousandths(250));
    assert_eq!(parse_label("2"), thousandths(2000));
    assert_eq!(parse_label("2.0x"), thousandths(2000));
    assert_eq!(parse_label("2.000x"), thousandths(2000));
    assert_eq!(parse_label("0.001x"), thousandths(1));
    assert_eq!(parse_label("007x"), thousandths(7000));
    assert_eq!(parse_label(".5x"), thousandths(500));
    assert_eq!(parse_label("5.x"), thousandths(5000));
    assert_eq!(parse_label("0x"), thousandths(0));
    assert_eq!(parse_label("4294967.295x"), thousandths(u32::MAX));
}

#[test]
fn labels_are_read_as_floats_are_written() {
    assert_eq!(parse_label("+1x"), thousandths(1000));
    assert_eq!(parse_label("1e0x"), thousandths(1000));
    assert_eq!(parse_label("1E0x"), thousandths(1000));
    assert_eq!(parse_label("1e3x"), thousandths(1_000_000));
    assert_eq!(parse_label("15e-1x"), thousandths(1500));
    assert_eq!(parse_label("0.0015e+3x"), thousandths(1500));
    assert_eq!(parse_label("1.5000x"), thousandths(1500));
    assert_eq!(parse_label("1.50000000000000000000000000x"), thousandths(1500));
    assert_eq!(parse_label("0.0001e1x"), thousandths(1));
    assert_eq!(parse_label("150000000000000000000000000000e-29x"), thousandths(1500));
    assert_eq!(parse_label("0.00000000000000000000000015e25x"), thousandths(1500));
    assert_eq!(parse_label("4294967295e-3x"), thousandths(u32::MAX));
    assert_eq!(parse_label("-0x"), thousandths(0));
    assert_eq!(parse_label("-0.000e5x"), thousandths(0));
    assert_eq!(parse_label("0e99999999999999999999999999999x"), thousandths(0));
    assert_eq!(parse_label("0e-99999999999999999999999999999x"), thousandths(0));
    assert_eq!(parse_label("1e-00000000000000000000000000000x"), thousandths(1000));
}

#[test]
fn labels_can_name_numbers_that_are_no_thousandths() {
    for label in [
        "1.0005x",
        "1e-4x",
        "-1x",
        "-1.5x",
        "-0.001x",
        "infx",
        "INFx",
        "+infx",
        "-infinityx",
        "Infinityx",
        "nanx",
        "NaNx",
        "-NAN",
        "4294967.296x",
        "4294968x",
        "4294967296e-3x",
        "99999999999999999999999999x",
        "1e7x",
        "1e99999999999999999999999999999x",
        "1e-99999999999999999999999999999x",
        "0.00000000000000000000000000001x",
    ] {
        assert_eq!(parse_label(label), Some(Number::Other), "{:?}", label);
    }
}

#[test]
fn other_labels_name_nothing() {
    for label in [
        "", "x", ".", ".x", "+x", "-", "+.x", "fast", "1.5xx", "x2", "0x1", "1,5x", "1.5 x",
        " 1x", "1..5x", "1.2.3x", "\u{663}x", "e5x", ".e5x", "1ex", "1e+x", "1e-x", "1e1.5x",
        "1e1e1x", "1e 1x", "--1x", "+-1x", "1-x", "infinit", "in", "nanx2", "infinityy", "1_000x",
    ] {
        assert_eq!(parse_label(label), None, "{:?}", label);
    }
}

#[test]
fn only_one_trailing_x_is_taken_off() {
    assert_eq!(parse_label("2x"), thousandths(2000));
    assert_eq!(parse_label("2xx"), None);
    assert_eq!(parse_label("2X"), None);
}

#[test]
fn speeds_are_positive() {
    assert_eq!(Speed::from_thousandths(0), None);
    assert_eq!(Speed::from_thousandths(1), Some(Speed { thousandths: 1 }));
    assert_eq!(Speed::normal(), Speed { thousandths: 1000 });
    assert_eq!(Speed::from_label("1.5x"), Some(Speed { thousandths: 1500 }));
    assert_eq!(Speed::from_label("0x"), None);
    assert_eq!(Speed::from_label("0.000x"), None);
    assert_eq!(Speed::from_label("fast"), None);
    assert_eq!(Speed::from_label("15e-1x"), Some(Speed { thousandths: 1500 }));
    assert_eq!(Speed::from_label("-1x"), None);
    assert_eq!(Speed::from_label("1.0005x"), None);
}

#[test]
fn set_speed_then_read_it_back() {
    let mut page = player_page(&PRESETS);
    let mut state = VideoState::new();
    assert_eq!(get_current_playback_speed(&mut page, &state), speed_of(1.0));
    assert_eq!(set_playback_speed(&mut page, &mut state, speed_of(2.0)), Ok(()));
    assert_eq!(get_current_playback_speed(&mut page, &state), speed_of(2.0));
    assert_eq!(get_playback_speed(&mut page), Ok(speed_of(2.0)));
    let calls: Vec<&HostCall> =
        page.calls.iter().filter(|call| !matches!(call, HostCall::Log { .. })).collect();
    assert_eq!(calls[0], &HostCall::SetPlaybackRate { element: 0, rate: speed_of(2.0) });
    assert_eq!(calls.len(), 1 + PRESETS.len() + 2 + 2);
    let notes: Vec<&str> = page.console.iter().map(|record| record.text.as_str()).collect();
    assert_eq!(
        notes,
        [
            "Entering get_current_playback_speed()",
            "Entering set_playback_speed()",
            "Entering update_playback_speed_active_state()",
            "Entering hide_menus()",
            "Entering get_current_playback_speed()",
            "Entering get_playback_speed()",
        ]
    );
    assert_eq!(active_options(&page), vec![FIRST_OPTION + 7]);
    for i in 0..7 {
        assert_eq!(page.elements[FIRST_OPTION + i].class, "speed-option");
    }
}

#[test]
fn set_speed_moves_the_active_mark() {
    let mut page = player_page(&PRESETS);
    let mut state = VideoState::new();
    set_playback_speed(&mut page, &mut state, speed_of(2.0)).unwrap();
    set_playback_speed(&mut page, &mut state, speed_of(0.75)).unwrap();
    assert_eq!(active_options(&page), vec![FIRST_OPTION + 2]);
    assert_eq!(get_current_playback_speed(&mut page, &state), speed_of(0.75));
}

#[test]
fn set_speed_matches_by_value_not_by_text() {
    let mut page = player_page(&["1.50x", "1.5", "1.5x", "15x"]);
    let mut state = VideoState::new();
    set_playback_speed(&mut page, &mut state, speed_of(1.5)).unwrap();
    assert_eq!(active_options(&page), vec![FIRST_OPTION, FIRST_OPTION + 1, FIRST_OPTION + 2]);
}

#[test]
fn set_speed_without_a_matching_option_marks_none() {
    let mut page = player_page(&PRESETS);
    page.elements[FIRST_OPTION + 3].class = "speed-option active".to_string();
    let mut state = VideoState::new();
    assert_eq!(set_playback_speed(&mut page, &mut state, speed_of(3.0)), Ok(()));
    assert_eq!(active_options(&page), Vec::<usize>::new());
    assert_eq!(get_current_playback_speed(&mut page, &state), speed_of(3.0));
}

#[test]
fn set_speed_hides_the_menus_and_the_error() {
    let mut page = player_page(&PRESETS);
    page.elements[1].text = Some("old failure".to_string());
    let mut state = VideoState::new();
    set_playback_speed(&mut page, &mut state, speed_of(1.25)).unwrap();
    assert_eq!(page.elements[2].class, "context-menu");
    assert_eq!(page.elements[3].class, "playback-speed-menu");
    assert_eq!(page.elements[1].text, None);
}

#[test]
fn set_speed_without_video_changes_nothing() {
    let mut page = player_page(&PRESETS);
    page.elements[0].kind = Kind::Other;
    let mut state = VideoState::new();
    assert_eq!(
        set_playback_speed(&mut page, &mut state, speed_of(2.0)),
        Err(VideoError::ElementNotFound("videoPlayer".to_string()))
    );
    assert_eq!(get_current_playback_speed(&mut page, &state), speed_of(1.0));
    assert_eq!(active_options(&page), Vec::<usize>::new());
    assert_eq!(page.elements[1].class, "error-message show");
}

#[test]
fn set_speed_keeps_the_speed_when_an_option_is_unreadable() {
    let mut page = player_page(&["1x", "2x", "fast", "3x"]);
    page.elements[FIRST_OPTION + 3].class = "speed-option active".to_string();
    let mut state = VideoState::new();
    assert_eq!(
        set_playback_speed(&mut page, &mut state, speed_of(2.0)),
        Err(VideoError::VideoOperationFailed("Failed to parse speed: fast".to_string()))
    );
    assert_eq!(get_current_playback_speed(&mut page, &state), speed_of(2.0));
    assert_eq!(get_playback_speed(&mut page), Ok(speed_of(2.0)));
    assert_eq!(page.elements[FIRST_OPTION].class, "speed-option");
    assert_eq!(page.elements[FIRST_OPTION + 1].class, "speed-option active");
    assert_eq!(page.elements[FIRST_OPTION + 2].class, "speed-option");
    assert_eq!(page.elements[FIRST_OPTION + 3].class, "speed-option active");
    assert_eq!(page.elements[2].class, "context-menu show");
    assert_eq!(
        page.elements[1].text,
        Some("Video operation failed: Failed to parse speed: fast".to_string())
    );
}

#[test]
fn options_without_text_cannot_be_marked() {
    let mut page = player_page(&["1x", "2x"]);
    page.elements[FIRST_OPTION + 1].text = None;
    assert_eq!(
        update_playback_speed_active_state(&mut page, speed_of(1.0)),
        Err(VideoError::VideoOperationFailed("No text content found".to_string()))
    );
    assert_eq!(active_options(&page), vec![FIRST_OPTION]);
}

#[test]
fn marking_looks_only_below_the_speed_menu() {
    let mut page = player_page(&["2x"]);
    let mut stray = Element::new("");
    stray.class = "speed-option".to_string();
    stray.text = Some("2x".to_string());
    page.push_element(stray);
    let mut other = Element::new("");
    other.parent = Some(3);
    other.class = "caption".to_string();
    other.text = Some("2x".to_string());
    page.push_element(other);
    assert_eq!(update_playback_speed_active_state(&mut page, speed_of(2.0)), Ok(()));
    assert_eq!(active_options(&page), vec![FIRST_OPTION]);
    assert_eq!(page.elements[FIRST_OPTION + 1].class, "speed-option");
    assert_eq!(page.elements[FIRST_OPTION + 2].class, "caption");
}

#[test]
fn marking_needs_the_speed_menu() {
    let mut page = player_page(&PRESETS);
    page.elements[3].id = "x".to_string();
    assert_eq!(
        update_playback_speed_active_state(&mut page, speed_of(2.0)),
        Err(VideoError::ElementNotFound("playbackSpeedMenu".to_string()))
    );
}

#[test]
fn a_zero_label_is_read_but_never_active() {
    let mut page = player_page(&["0x", "1x"]);
    assert_eq!(update_playback_speed_active_state(&mut page, speed_of(1.0)), Ok(()));
    assert_eq!(active_options(&page), vec![FIRST_OPTION + 1]);
}

#[test]
fn labels_that_name_other_numbers_are_inactive_not_failures() {
    let mut page = player_page(&["1e0x", "1.0005x", "-1x", "infx", "1e3x", "+1.000x"]);
    assert_eq!(update_playback_speed_active_state(&mut page, speed_of(1.0)), Ok(()));
    assert_eq!(active_options(&page), vec![FIRST_OPTION, FIRST_OPTION + 5]);
    for i in 1..5 {
        assert_eq!(page.elements[FIRST_OPTION + i].class, "speed-option");
    }
    assert_eq!(update_playback_speed_active_state(&mut page, speed_of(1000.0)), Ok(()));
    assert_eq!(active_options(&page), vec![FIRST_OPTION + 4]);
}

#[test]
fn labels_are_numerals_exactly_where_floats_parse() {
    let pieces = ["", "+", "-", "0", "1", "15", ".", "e", "E", "e+", "e-", "inf", "NaN", "x", " "];
    let mut checked = 0;
    for a in pieces {
        for b in pieces {
            for c in pieces {
                for d in pieces {
                    let numeral = format!("{}{}{}{}", a, b, c, d);
                    let float = numeral.parse::<f64>().ok();
                    let label = format!("{}x", numeral);
                    let number = parse_label(&label);
                    assert_eq!(number.is_some(), float.is_some(), "{:?}", numeral);
                    if let (Some(Number::Thousandths(t)), Some(value)) = (number, float) {
                        assert_eq!(f64::from(t), (value * 1000.0).round(), "{:?}", numeral);
                        assert!(t == 0 || value > 0.0, "{:?}", numeral);
                    }
                    if let (Some(Number::Other), Some(value)) = (number, float) {
                        let thousandths = value * 1000.0;
                        assert!(
                            !(thousandths > 0.0
                                && thousandths <= f64::from(u32::MAX)
                                && thousandths.fract() == 0.0
                                && numeral.len() < 8),
                            "{:?}",
                            numeral
                        );
                    }
                    checked += 1;
                }
            }
        }
    }
    assert_eq!(checked, 15 * 15 * 15 * 15);
}
