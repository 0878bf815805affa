use voice_dictation::config::ThresholdsConfig;
use voice_dictation::key_listener::gesture::{
    handle_event, hold_timer_fired, key_matches, key_transition, modifiers_match, GestureState,
    Intent, KeyOutcome, KeyPhase, Thresholds,
};
use voice_dictation::key_listener::hotkey::{parse_hotkey, Hotkey, FN_KEYCODE};

const MS: u64 = 1_000_000;

fn plain(key_vk: u32) -> Hotkey {
    Hotkey { win: false, shift: false, ctrl: false, alt: false, key_vk }
}

fn thresholds() -> Thresholds {
    Thresholds { hold_ms: 180, double_click_ms: 300 }
}

fn pass() -> KeyOutcome {
    KeyOutcome { intent: None, swallow: false, hold_timer_ms: None }
}

fn armed() -> KeyOutcome {
    KeyOutcome { intent: None, swallow: false, hold_timer_ms: Some(180) }
}

#[test]
fn parses_a_lone_modifier_as_the_trigger() {
    assert_eq!(parse_hotkey("Ctrl"), plain(0x11));
    assert_eq!(parse_hotkey("control"), plain(0x11));
    assert_eq!(parse_hotkey("Shift"), plain(0x10));
    assert_eq!(parse_hotkey("ALT"), plain(0x12));
    assert_eq!(parse_hotkey("Win"), plain(0x5B));
    assert_eq!(parse_hotkey("meta"), plain(0x5B));
    assert_eq!(parse_hotkey("Super"), plain(0x5B));
    assert_eq!(parse_hotkey("Super+Win"), plain(0x5B));
}

#[test]
fn parses_modifiers_with_a_key() {
    assert_eq!(
        parse_hotkey("Ctrl+Shift+D"),
        Hotkey { win: false, shift: true, ctrl: true, alt: false, key_vk: 0x44 }
    );
    assert_eq!(
        parse_hotkey("win+alt+x"),
        Hotkey { win: true, shift: false, ctrl: false, alt: true, key_vk: 0x58 }
    );
    assert_eq!(
        parse_hotkey("control+1"),
        Hotkey { win: false, shift: false, ctrl: true, alt: false, key_vk: 0x31 }
    );
    assert_eq!(
        parse_hotkey("Shift+-"),
        Hotkey { win: false, shift: true, ctrl: false, alt: false, key_vk: 0x2D }
    );
    // the last key named wins
    assert_eq!(parse_hotkey("a+b"), plain(0x42));
}

#[test]
fn parses_around_blanks_and_empty_names() {
    assert_eq!(
        parse_hotkey("  ctrl +\tSHIFT+ q \n"),
        Hotkey { win: false, shift: true, ctrl: true, alt: false, key_vk: 0x51 }
    );
    assert_eq!(
        parse_hotkey("Ctrl++D+"),
        Hotkey { win: false, shift: false, ctrl: true, alt: false, key_vk: 0x44 }
    );
    // a no-break space is white space too
    assert_eq!(
        parse_hotkey("Alt+\u{a0}k\u{a0}"),
        Hotkey { win: false, shift: false, ctrl: false, alt: true, key_vk: 0x4B }
    );
}

#[test]
fn falls_back_to_d_without_a_key() {
    assert_eq!(parse_hotkey(""), plain(0x44));
    assert_eq!(parse_hotkey("+"), plain(0x44));
    assert_eq!(parse_hotkey("   "), plain(0x44));
    assert_eq!(parse_hotkey("foo"), plain(0x44));
    assert_eq!(parse_hotkey("F12"), plain(0x44));
    // one character, more than one byte: no key
    assert_eq!(parse_hotkey("\u{e9}"), plain(0x44));
    // two modifiers and no key: both stay modifiers
    assert_eq!(
        parse_hotkey("Ctrl+Shift"),
        Hotkey { win: false, shift: true, ctrl: true, alt: false, key_vk: 0x44 }
    );
    // an unknown name beside a modifier leaves the modifier alone as the trigger
    assert_eq!(parse_hotkey("Ctrl+Space"), plain(0x11));
}

#[test]
fn fn_key_is_a_plain_trigger() {
    assert_eq!(Hotkey::fn_key(), plain(63));
    assert_eq!(FN_KEYCODE, 63);
}

#[test]
fn trigger_matches_left_and_right_modifier_keys() {
    assert!(key_matches(0x10, 0x10));
    assert!(key_matches(0x10, 0xA0));
    assert!(key_matches(0x10, 0xA1));
    assert!(!key_matches(0x10, 0xA2));
    assert!(key_matches(0x11, 0x11));
    assert!(key_matches(0x11, 0xA2));
    assert!(key_matches(0x11, 0xA3));
    assert!(!key_matches(0x11, 0xA4));
    assert!(key_matches(0x12, 0x12));
    assert!(key_matches(0x12, 0xA4));
    assert!(key_matches(0x12, 0xA5));
    assert!(!key_matches(0x12, 0x11));
    assert!(key_matches(0x5B, 0x5B));
    assert!(key_matches(0x5B, 0x5C));
    assert!(!key_matches(0x5B, 0x5D));
    assert!(key_matches(0x44, 0x44));
    assert!(!key_matches(0x44, 0x45));
    assert!(!key_matches(0xA2, 0x11));
}

#[test]
fn modifiers_match_when_all_asked_are_down() {
    let mut st = GestureState::new();
    let hk = Hotkey { win: false, shift: true, ctrl: true, alt: false, key_vk: 0x44 };
    assert!(!modifiers_match(&hk, &st));
    st.pressed_ctrl = true;
    assert!(!modifiers_match(&hk, &st));
    st.pressed_shift = true;
    assert!(modifiers_match(&hk, &st));
    st.pressed_alt = true;
    st.pressed_win = true;
    assert!(modifiers_match(&hk, &st));
    assert!(modifiers_match(&plain(0x44), &GestureState::new()));
    let all = Hotkey { win: true, shift: true, ctrl: true, alt: true, key_vk: 0x44 };
    assert!(modifiers_match(&all, &st));
    st.pressed_win = false;
    assert!(!modifiers_match(&all, &st));
}

#[test]
fn key_messages_are_told_apart() {
    assert_eq!(key_transition(0x0100), Some(true));
    assert_eq!(key_transition(0x0104), Some(true));
    assert_eq!(key_transition(0x0101), Some(false));
    assert_eq!(key_transition(0x0105), Some(false));
    assert_eq!(key_transition(0x0102), None);
    assert_eq!(key_transition(0), None);
}

#[test]
fn thresholds_come_from_the_settings() {
    let th = Thresholds::from_config(&ThresholdsConfig { hold_ms: 200, double_click_ms: 350 });
    assert_eq!(th, Thresholds { hold_ms: 200, double_click_ms: 350 });
}

#[test]
fn new_state_has_every_key_up() {
    let st = GestureState::new();
    assert_eq!(
        st,
        GestureState {
            pressed_win: false,
            pressed_shift: false,
            pressed_ctrl: false,
            pressed_alt: false,
            trigger: KeyPhase::Released,
            last_tap_at: None,
        }
    );
}

#[test]
fn double_tap_gives_one_start_and_forgets_the_tap() {
    let hk = parse_hotkey("Ctrl");
    let th = thresholds();
    let mut st = GestureState::new();
    // first tap: 50 ms long
    assert_eq!(handle_event(&mut st, &hk, &th, 0xA2, true, 1_000 * MS), armed());
    assert_eq!(st.trigger, KeyPhase::Pressed { since: 1_000 * MS, hold_fired: false });
    assert_eq!(handle_event(&mut st, &hk, &th, 0xA2, false, 1_050 * MS), pass());
    assert_eq!(st.last_tap_at, Some(1_050 * MS));
    // second tap ends 200 ms after the first
    assert_eq!(handle_event(&mut st, &hk, &th, 0xA2, true, 1_200 * MS), armed());
    assert_eq!(
        handle_event(&mut st, &hk, &th, 0xA2, false, 1_250 * MS),
        KeyOutcome { intent: Some(Intent::StartOrToggle), swallow: true, hold_timer_ms: None }
    );
    assert_eq!(st.trigger, KeyPhase::Released);
    assert_eq!(st.last_tap_at, None);
    // the timers of both presses run out late and do nothing
    assert_eq!(hold_timer_fired(&mut st, 1_000 * MS), None);
    assert_eq!(hold_timer_fired(&mut st, 1_200 * MS), None);
    // a third tap right after is a first tap again
    assert_eq!(handle_event(&mut st, &hk, &th, 0xA2, true, 1_300 * MS), armed());
    assert_eq!(handle_event(&mut st, &hk, &th, 0xA2, false, 1_340 * MS), pass());
    assert_eq!(st.last_tap_at, Some(1_340 * MS));
}

#[test]
fn taps_too_far_apart_give_nothing() {
    let hk = plain(0x44);
    let th = thresholds();
    let mut st = GestureState::new();
    assert_eq!(handle_event(&mut st, &hk, &th, 0x44, true, 0), armed());
    assert_eq!(handle_event(&mut st, &hk, &th, 0x44, false, 10 * MS), pass());
    assert_eq!(handle_event(&mut st, &hk, &th, 0x44, true, 300 * MS), armed());
    // exactly 300 ms after the first tap: not less than the limit
    assert_eq!(handle_event(&mut st, &hk, &th, 0x44, false, 310 * MS), pass());
    assert_eq!(st.last_tap_at, Some(310 * MS));
    // one nanosecond inside the limit
    assert_eq!(handle_event(&mut st, &hk, &th, 0x44, true, 600 * MS), armed());
    assert_eq!(
        handle_event(&mut st, &hk, &th, 0x44, false, 610 * MS - 1),
        KeyOutcome { intent: Some(Intent::StartOrToggle), swallow: true, hold_timer_ms: None }
    );
}

#[test]
fn hold_gives_start_at_the_boundary_and_stop_on_release() {
    let hk = parse_hotkey("Ctrl");
    let th = thresholds();
    let mut st = GestureState::new();
    st.last_tap_at = Some(5 * MS);
    assert_eq!(handle_event(&mut st, &hk, &th, 0x11, true, 100 * MS), armed());
    // a repeat of the key while it is held
    assert_eq!(handle_event(&mut st, &hk, &th, 0x11, true, 130 * MS), pass());
    assert_eq!(st.trigger, KeyPhase::Pressed { since: 100 * MS, hold_fired: false });
    assert_eq!(hold_timer_fired(&mut st, 100 * MS), Some(Intent::StartOrToggle));
    assert_eq!(st.trigger, KeyPhase::Pressed { since: 100 * MS, hold_fired: true });
    assert_eq!(hold_timer_fired(&mut st, 100 * MS), None);
    assert_eq!(
        handle_event(&mut st, &hk, &th, 0x11, false, 2_000 * MS),
        KeyOutcome { intent: Some(Intent::ForceStop), swallow: true, hold_timer_ms: None }
    );
    assert_eq!(st.trigger, KeyPhase::Released);
    // the hold left the tap memory alone
    assert_eq!(st.last_tap_at, Some(5 * MS));
}

#[test]
fn release_after_the_hold_time_without_the_timer_is_no_tap() {
    let hk = plain(0x44);
    let th = thresholds();
    let mut st = GestureState::new();
    assert_eq!(handle_event(&mut st, &hk, &th, 0x44, true, 0), armed());
    assert_eq!(handle_event(&mut st, &hk, &th, 0x44, false, 180 * MS), pass());
    assert_eq!(st.trigger, KeyPhase::Released);
    assert_eq!(st.last_tap_at, None);
    assert_eq!(hold_timer_fired(&mut st, 0), None);
    // one nanosecond less is a tap
    assert_eq!(handle_event(&mut st, &hk, &th, 0x44, true, 1_000 * MS), armed());
    assert_eq!(handle_event(&mut st, &hk, &th, 0x44, false, 1_180 * MS - 1), pass());
    assert_eq!(st.last_tap_at, Some(1_180 * MS - 1));
}

#[test]
fn timer_of_an_earlier_press_does_not_fire_for_a_later_one() {
    let hk = plain(0x44);
    let th = thresholds();
    let mut st = GestureState::new();
    assert_eq!(handle_event(&mut st, &hk, &th, 0x44, true, 0), armed());
    assert_eq!(handle_event(&mut st, &hk, &th, 0x44, false, 50 * MS), pass());
    assert_eq!(handle_event(&mut st, &hk, &th, 0x44, true, 400 * MS), armed());
    assert_eq!(hold_timer_fired(&mut st, 0), None);
    assert_eq!(st.trigger, KeyPhase::Pressed { since: 400 * MS, hold_fired: false });
    assert_eq!(hold_timer_fired(&mut st, 400 * MS), Some(Intent::StartOrToggle));
}

#[test]
fn press_without_the_asked_modifiers_is_no_press() {
    let hk = parse_hotkey("Ctrl+Shift+D");
    let th = thresholds();
    let mut st = GestureState::new();
    assert_eq!(handle_event(&mut st, &hk, &th, 0x44, true, 0), pass());
    assert_eq!(st.trigger, KeyPhase::Released);
    assert_eq!(handle_event(&mut st, &hk, &th, 0x44, false, 10 * MS), pass());
    assert_eq!(st.last_tap_at, None);
    // with both modifiers down the press counts
    assert_eq!(handle_event(&mut st, &hk, &th, 0xA2, true, 20 * MS), pass());
    assert!(st.pressed_ctrl);
    assert_eq!(handle_event(&mut st, &hk, &th, 0xA0, true, 30 * MS), pass());
    assert!(st.pressed_shift);
    assert_eq!(handle_event(&mut st, &hk, &th, 0x44, true, 40 * MS), armed());
    assert_eq!(handle_event(&mut st, &hk, &th, 0x44, false, 60 * MS), pass());
    assert_eq!(st.last_tap_at, Some(60 * MS));
    assert_eq!(handle_event(&mut st, &hk, &th, 0xA0, false, 70 * MS), pass());
    assert!(!st.pressed_shift);
    assert_eq!(handle_event(&mut st, &hk, &th, 0x44, true, 80 * MS), pass());
}

#[test]
fn other_keys_only_update_the_modifiers() {
    let hk = plain(0x44);
    let th = thresholds();
    let mut st = GestureState::new();
    assert_eq!(handle_event(&mut st, &hk, &th, 0x5C, true, 0), pass());
    assert!(st.pressed_win);
    assert_eq!(handle_event(&mut st, &hk, &th, 0x12, true, 0), pass());
    assert!(st.pressed_alt);
    assert_eq!(handle_event(&mut st, &hk, &th, 0xA5, false, 0), pass());
    assert!(!st.pressed_alt);
    assert_eq!(handle_event(&mut st, &hk, &th, 0x41, true, 0), pass());
    assert_eq!(handle_event(&mut st, &hk, &th, 0x5B, false, 0), pass());
    assert_eq!(st, GestureState::new());
}

#[test]
fn fn_key_is_detected_like_any_trigger() {
    let hk = Hotkey::fn_key();
    let th = thresholds();
    let mut st = GestureState::new();
    assert_eq!(handle_event(&mut st, &hk, &th, 62, true, 0), pass());
    assert_eq!(handle_event(&mut st, &hk, &th, 63, true, 0), armed());
    assert_eq!(hold_timer_fired(&mut st, 0), Some(Intent::StartOrToggle));
    assert_eq!(
        handle_event(&mut st, &hk, &th, 63, false, 500 * MS),
        KeyOutcome { intent: Some(Intent::ForceStop), swallow: true, hold_timer_ms: None }
    );
}

#[test]
fn a_clock_that_runs_backwards_counts_as_no_time() {
    let hk = plain(0x44);
    let th = thresholds();
    let mut st = GestureState::new();
    assert_eq!(handle_event(&mut st, &hk, &th, 0x44, true, 500 * MS), armed());
    assert_eq!(handle_event(&mut st, &hk, &th, 0x44, false, 100 * MS), pass());
    assert_eq!(st.last_tap_at, Some(100 * MS));
}

#[test]
fn huge_thresholds_do_not_overflow() {
    let hk = plain(0x44);
    let th = Thresholds { hold_ms: u64::MAX, double_click_ms: u64::MAX };
    let mut st = GestureState::new();
    assert_eq!(
        handle_event(&mut st, &hk, &th, 0x44, true, 0),
        KeyOutcome { intent: None, swallow: false, hold_timer_ms: Some(u64::MAX) }
    );
    assert_eq!(handle_event(&mut st, &hk, &th, 0x44, false, u64::MAX), pass());
    assert_eq!(st.last_tap_at, Some(u64::MAX));
    let none = Thresholds { hold_ms: 0, double_click_ms: 0 };
    assert_eq!(
        handle_event(&mut st, &hk, &none, 0x44, true, 0),
        KeyOutcome { intent: None, swallow: false, hold_timer_ms: Some(0) }
    );
    assert_eq!(handle_event(&mut st, &hk, &none, 0x44, false, 0), pass());
    assert_eq!(st.last_tap_at, Some(u64::MAX));
}
