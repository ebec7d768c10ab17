use hold_rightclick::events::{classify_line, extract_finger_count, str_contains, GestureEvent};

#[test]
fn finger_count_of_typical_line() {
    assert_eq!(extract_finger_count(" event7  GESTURE_HOLD_BEGIN +21.15s 2"), Some(2));
}

#[test]
fn finger_count_ignores_trailing_whitespace() {
    assert_eq!(extract_finger_count("GESTURE_HOLD_BEGIN +2.5s 3 \t\r\n"), Some(3));
}

#[test]
fn finger_count_absent_when_line_ends_in_letter() {
    assert_eq!(extract_finger_count("event7 GESTURE_HOLD_END +21.71s 2 cancelled"), None);
}

#[test]
fn finger_count_of_empty_line() {
    assert_eq!(extract_finger_count(""), None);
}

#[test]
fn finger_count_of_whitespace_only_line() {
    assert_eq!(extract_finger_count("   \t  "), None);
}

#[test]
fn finger_count_ignores_unicode_whitespace_and_chars() {
    assert_eq!(extract_finger_count("GESTURE_HOLD_BEGIN +2.5s 2\u{00A0}\u{2003}"), Some(2));
    assert_eq!(extract_finger_count("g\u{00E9}ste 4"), Some(4));
}

#[test]
fn finger_count_is_last_digit_only() {
    assert_eq!(extract_finger_count("count 10"), Some(0));
}

#[test]
fn contains_finds_substring() {
    assert!(str_contains("event7 GESTURE_HOLD_BEGIN +21.15s 2", "GESTURE_HOLD_BEGIN"));
    assert!(!str_contains("event7 GESTURE_SWIPE_BEGIN +21.15s 3", "GESTURE_HOLD_BEGIN"));
    assert!(str_contains("abc", ""));
    assert!(!str_contains("ab", "abc"));
    assert!(str_contains("aab", "ab"));
}

#[test]
fn classify_hold_begin_line() {
    let ev = classify_line(" event7  GESTURE_HOLD_BEGIN +21.15s 2");
    assert_eq!(ev, GestureEvent::HoldBegin { fingers: Some(2) });
}

#[test]
fn classify_hold_end_line() {
    let ev = classify_line(" event7  GESTURE_HOLD_END +21.71s 2");
    assert_eq!(ev, GestureEvent::HoldEnd { fingers: Some(2), cancelled: false });
}

#[test]
fn classify_cancelled_hold_end_line() {
    // The cancel marker trails the finger count, so such a line carries no
    // trailing digit and is inert for the hold-end category.
    let ev = classify_line(" event7  GESTURE_HOLD_END +21.71s 2 cancelled");
    assert_eq!(ev, GestureEvent::HoldEnd { fingers: None, cancelled: true });
}

#[test]
fn classify_scroll_line() {
    let ev = classify_line(" event7  POINTER_SCROLL_FINGER +22.03s vert 1.25");
    assert_eq!(ev, GestureEvent::ScrollFinger);
}

#[test]
fn classify_unrelated_line_as_other() {
    assert_eq!(classify_line(" event7  GESTURE_SWIPE_BEGIN +23.00s 3"), GestureEvent::Other);
    assert_eq!(classify_line("some decoder chatter"), GestureEvent::Other);
    assert_eq!(classify_line(""), GestureEvent::Other);
}

#[test]
fn classify_priority_hold_begin_first() {
    // A line holding both markers classifies by the first category checked.
    let ev = classify_line("GESTURE_HOLD_BEGIN GESTURE_HOLD_END 2");
    assert_eq!(ev, GestureEvent::HoldBegin { fingers: Some(2) });
}
