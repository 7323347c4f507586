use gyeol::error::err;
use gyeol::event::{Modifiers, MouseButton};
use gyeol::shell::{click_count, Wake, WaitFor};

#[test]
fn the_shortcut_modifier_is_cmd_on_macos_and_ctrl_elsewhere() {
    let ctrl = Modifiers { ctrl: true, ..Default::default() };
    let logo = Modifiers { logo: true, ..Default::default() };
    assert!(ctrl.command(false));
    assert!(!ctrl.command(true));
    assert!(logo.command(true));
    assert!(!logo.command(false));
    assert!(!Modifiers::default().command(true));
}

#[test]
fn quick_clicks_in_one_place_count_up() {
    assert_eq!(click_count(None, MouseButton::Left, true), 1);
    assert_eq!(click_count(Some((MouseButton::Left, 1)), MouseButton::Left, true), 2);
    assert_eq!(click_count(Some((MouseButton::Left, 2)), MouseButton::Left, true), 3);
}

#[test]
fn a_slow_far_or_other_button_click_starts_over() {
    assert_eq!(click_count(Some((MouseButton::Left, 2)), MouseButton::Left, false), 1);
    assert_eq!(click_count(Some((MouseButton::Left, 2)), MouseButton::Right, true), 1);
    assert_eq!(click_count(Some((MouseButton::Other(4), 1)), MouseButton::Other(3), true), 1);
    assert_eq!(click_count(Some((MouseButton::Other(4), 1)), MouseButton::Other(4), true), 2);
}

#[test]
fn the_earliest_wake_up_wins_and_is_consumed_when_due() {
    let mut wake = Wake::new();
    assert_eq!(wake.poll(0), WaitFor::Input);
    wake.request_at(500);
    wake.request_at(800);
    assert_eq!(wake.poll(100), WaitFor::Until(500));
    wake.request_at(300);
    assert_eq!(wake.poll(200), WaitFor::Until(300));
    assert_eq!(wake.poll(300), WaitFor::RedrawNow);
    assert_eq!(wake.poll(301), WaitFor::Input);
}

#[test]
fn errors_read_context_colon_detail() {
    assert_eq!(err("create window", "no display").0, "create window: no display");
    assert_eq!(err("request adapter", "none found").message(), "request adapter: none found");
}

use gyeol::event::{char_is_control, has_control, typed_text};

#[test]
fn key_presses_type_only_printable_text() {
    assert_eq!(typed_text(Some("a".to_string())), Some("a".to_string()));
    assert_eq!(typed_text(Some("한".to_string())), Some("한".to_string()));
    assert_eq!(typed_text(Some(" ".to_string())), Some(" ".to_string()));
    assert_eq!(typed_text(Some(String::new())), None);
    assert_eq!(typed_text(Some("\u{8}".to_string())), None, "backspace");
    assert_eq!(typed_text(Some("\r".to_string())), None, "enter");
    assert_eq!(typed_text(Some("a\u{1b}".to_string())), None, "escape");
    assert_eq!(typed_text(Some("\u{85}".to_string())), None, "a C1 control");
    assert_eq!(typed_text(None), None);
}

#[test]
fn control_characters_match_the_standard_library() {
    for c in ['\0', '\u{1f}', ' ', '~', '\u{7f}', '\u{80}', '\u{9f}', '\u{a0}', 'é', '결'] {
        assert_eq!(char_is_control(c), c.is_control(), "{c:?}");
    }
    assert!(has_control("ab\tc"));
    assert!(!has_control("abc"));
}
