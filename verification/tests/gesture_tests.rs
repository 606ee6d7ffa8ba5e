use panel_triggers::gesture::{
    is_within, CursorReading, GestureState, InputEvent, ReleaseKind, Trigger,
    DOUBLE_CLICK_WINDOW_MS, DOUBLE_TAP_WINDOW_MS, DRAG_HOLD_MS,
};

/// A wall-clock time in milliseconds, far from zero as real ones are.
const T0: u64 = 1_700_000_000_000;

const NOWHERE: CursorReading = CursorReading::Unavailable;

fn at(x: i32, y: i32) -> CursorReading {
    CursorReading::At { x, y }
}

#[test]
fn thresholds_have_their_values() {
    assert_eq!(DOUBLE_TAP_WINDOW_MS, 1000);
    assert_eq!(DRAG_HOLD_MS, 500);
    assert_eq!(DOUBLE_CLICK_WINDOW_MS, 500);
}

#[test]
fn new_state_is_all_zero() {
    let s = GestureState::new();
    assert_eq!(
        s,
        GestureState { last_shift_release: 0, last_press: 0, last_click: 0, last_x: 0, last_y: 0 }
    );
}

#[test]
fn within_is_strict_at_the_end_of_the_window() {
    assert!(is_within(T0 + 999, T0, 1000));
    assert!(!is_within(T0 + 1000, T0, 1000));
    assert!(!is_within(T0 + 1001, T0, 1000));
    assert!(is_within(T0, T0, 1000));
    assert!(is_within(T0 - 1, T0, 1000));
}

#[test]
fn within_does_not_overflow() {
    assert!(is_within(5, u64::MAX, 1000));
    assert!(is_within(u64::MAX, u64::MAX - 999, 1000));
    assert!(!is_within(u64::MAX, u64::MAX - 1000, 1000));
    assert!(!is_within(0, 0, 0));
}

#[test]
fn two_shift_releases_400_apart_trigger_once() {
    let mut s = GestureState::new();
    let first = s.step(InputEvent::ShortcutKeyRelease, false, T0, NOWHERE);
    assert_eq!(first, None);
    assert_eq!(s.last_shift_release, T0);
    let second = s.step(InputEvent::ShortcutKeyRelease, false, T0 + 400, NOWHERE);
    assert_eq!(second, Some(Trigger::Shortcut));
    assert_eq!(s.last_shift_release, 0);
}

#[test]
fn other_key_between_two_shift_releases_prevents_trigger() {
    let mut s = GestureState::new();
    assert_eq!(s.step(InputEvent::ShortcutKeyRelease, false, T0, NOWHERE), None);
    assert_eq!(s.step(InputEvent::OtherKeyRelease, false, T0 + 200, NOWHERE), None);
    assert_eq!(s.last_shift_release, 0);
    assert_eq!(s.step(InputEvent::ShortcutKeyRelease, false, T0 + 400, NOWHERE), None);
    assert_eq!(s.last_shift_release, T0 + 400);
}

#[test]
fn double_tap_gap_of_999_triggers_and_1000_does_not() {
    let mut s = GestureState::new();
    assert!(!s.on_key_release(true, T0));
    assert!(s.on_key_release(true, T0 + 999));

    let mut s = GestureState::new();
    assert!(!s.on_key_release(true, T0));
    assert!(!s.on_key_release(true, T0 + 1000));
    assert_eq!(s.last_shift_release, T0 + 1000);
    assert!(s.on_key_release(true, T0 + 1999));
}

#[test]
fn third_tap_starts_a_new_pair() {
    let mut s = GestureState::new();
    assert!(!s.on_key_release(true, T0));
    assert!(s.on_key_release(true, T0 + 100));
    assert!(!s.on_key_release(true, T0 + 200));
    assert!(s.on_key_release(true, T0 + 300));
}

#[test]
fn shortcut_trigger_does_not_depend_on_the_pin() {
    let mut s = GestureState::new();
    assert_eq!(s.step(InputEvent::ShortcutKeyRelease, true, T0, NOWHERE), None);
    assert_eq!(
        s.step(InputEvent::ShortcutKeyRelease, true, T0 + 10, NOWHERE),
        Some(Trigger::Shortcut)
    );
}

#[test]
fn mouse_events_do_not_break_a_double_tap() {
    let mut s = GestureState::new();
    assert_eq!(s.step(InputEvent::ShortcutKeyRelease, true, T0, NOWHERE), None);
    assert_eq!(s.step(InputEvent::LeftPress, true, T0 + 10, NOWHERE), None);
    assert_eq!(s.step(InputEvent::LeftRelease, true, T0 + 20, at(1, 1)), None);
    assert_eq!(s.step(InputEvent::Other, true, T0 + 30, NOWHERE), None);
    assert_eq!(
        s.step(InputEvent::ShortcutKeyRelease, true, T0 + 40, NOWHERE),
        Some(Trigger::Shortcut)
    );
}

#[test]
fn release_before_the_first_window_has_passed_counts_as_second_tap() {
    // Zero means "nothing recorded", so a timestamp below the window cannot be
    // told from the second tap of a pair.
    let mut s = GestureState::new();
    assert!(s.on_key_release(true, 999));
    let mut s = GestureState::new();
    assert!(!s.on_key_release(true, 1000));
}

#[test]
fn press_is_recorded_only_while_pinned() {
    let mut s = GestureState::new();
    s.on_left_press(false, T0);
    assert_eq!(s.last_press, 0);
    s.on_left_press(true, T0);
    assert_eq!(s.last_press, T0);
}

#[test]
fn release_is_ignored_while_not_pinned() {
    let mut s = GestureState::new();
    s.on_left_press(true, T0);
    assert_eq!(s.on_left_release(false, T0 + 600), ReleaseKind::Ignored);
    let before = s;
    assert_eq!(s.step(InputEvent::LeftRelease, false, T0 + 600, at(3, 4)), None);
    assert_eq!(s, before);
}

#[test]
fn hold_of_exactly_500_is_a_drag_and_499_is_a_click() {
    let mut s = GestureState::new();
    s.on_left_press(true, T0);
    assert_eq!(s.on_left_release(true, T0 + 499), ReleaseKind::Click);
    assert_eq!(s.on_left_release(true, T0 + 500), ReleaseKind::Drag);
    assert_eq!(s.on_left_release(true, T0 + 501), ReleaseKind::Drag);
}

#[test]
fn press_then_release_after_600_triggers_as_drag() {
    let mut s = GestureState::new();
    assert_eq!(s.step(InputEvent::LeftPress, true, T0, NOWHERE), None);
    let before = s;
    assert_eq!(
        s.step(InputEvent::LeftRelease, true, T0 + 600, NOWHERE),
        Some(Trigger::Selection)
    );
    assert_eq!(s, before);
}

#[test]
fn drag_triggers_whatever_click_was_remembered() {
    let mut s = GestureState { last_shift_release: 0, last_press: 0, last_click: T0 - 10, last_x: 7, last_y: 9 };
    assert_eq!(s.step(InputEvent::LeftPress, true, T0, NOWHERE), None);
    assert_eq!(
        s.step(InputEvent::LeftRelease, true, T0 + 600, at(7, 9)),
        Some(Trigger::Selection)
    );
    assert_eq!((s.last_click, s.last_x, s.last_y), (T0 - 10, 7, 9));
    assert_eq!(
        s.step(InputEvent::LeftRelease, true, T0 + 700, at(100, 200)),
        Some(Trigger::Selection)
    );
}

#[test]
fn two_short_clicks_on_one_spot_200_apart_trigger() {
    let mut s = GestureState::new();
    assert_eq!(s.step(InputEvent::LeftPress, true, T0, NOWHERE), None);
    assert_eq!(s.step(InputEvent::LeftRelease, true, T0 + 100, at(40, 50)), None);
    assert_eq!((s.last_click, s.last_x, s.last_y), (T0 + 100, 40, 50));
    assert_eq!(s.step(InputEvent::LeftPress, true, T0 + 150, NOWHERE), None);
    assert_eq!(
        s.step(InputEvent::LeftRelease, true, T0 + 300, at(40, 50)),
        Some(Trigger::Selection)
    );
    assert_eq!((s.last_click, s.last_x, s.last_y), (T0 + 100, 40, 50));
}

#[test]
fn second_click_elsewhere_becomes_the_reference() {
    let mut s = GestureState::new();
    s.on_left_press(true, T0);
    assert!(!s.on_click(T0 + 100, at(40, 50)));
    s.on_left_press(true, T0 + 150);
    assert!(!s.on_click(T0 + 300, at(41, 50)));
    assert_eq!((s.last_click, s.last_x, s.last_y), (T0 + 300, 41, 50));
    assert!(!s.on_click(T0 + 310, at(41, 51)));
    assert_eq!((s.last_click, s.last_x, s.last_y), (T0 + 310, 41, 51));
}

#[test]
fn second_click_after_exactly_500_becomes_the_reference() {
    let mut s = GestureState::new();
    assert!(!s.on_click(T0, at(-3, 8)));
    assert!(!s.on_click(T0 + 500, at(-3, 8)));
    assert_eq!((s.last_click, s.last_x, s.last_y), (T0 + 500, -3, 8));
    assert!(s.on_click(T0 + 999, at(-3, 8)));
}

#[test]
fn click_that_triggers_leaves_the_reference_alone() {
    let mut s = GestureState::new();
    assert!(!s.on_click(T0, at(1, 2)));
    assert!(s.on_click(T0 + 300, at(1, 2)));
    // measured against the first click, not the second
    assert!(!s.on_click(T0 + 600, at(1, 2)));
    assert_eq!(s.last_click, T0 + 600);
}

#[test]
fn failed_cursor_query_changes_nothing() {
    let mut s = GestureState::new();
    assert!(!s.on_click(T0, at(1, 2)));
    let before = s;
    assert!(!s.on_click(T0 + 10, NOWHERE));
    assert_eq!(s, before);
    s.on_left_press(true, T0 + 20);
    let before = s;
    assert_eq!(s.step(InputEvent::LeftRelease, true, T0 + 30, NOWHERE), None);
    assert_eq!(s, before);
}

#[test]
fn other_events_are_ignored() {
    let mut s = GestureState { last_shift_release: T0, last_press: T0, last_click: T0, last_x: 1, last_y: 2 };
    let before = s;
    assert_eq!(s.step(InputEvent::Other, true, T0 + 1, at(1, 2)), None);
    assert_eq!(s.step(InputEvent::Other, false, T0 + 1, NOWHERE), None);
    assert_eq!(s, before);
}

#[test]
fn other_key_release_resets_only_the_tap() {
    let mut s = GestureState { last_shift_release: T0, last_press: T0 + 1, last_click: T0 + 2, last_x: 1, last_y: 2 };
    assert!(!s.on_key_release(false, T0 + 5));
    assert_eq!(
        s,
        GestureState { last_shift_release: 0, last_press: T0 + 1, last_click: T0 + 2, last_x: 1, last_y: 2 }
    );
}
