use hold_rightclick::events::{classify_line, GestureEvent};
use hold_rightclick::machine::{
    ButtonCommand, GestureState, WatcherVerdict, GRACE_WINDOW_MS, HOLD_FINGERS, POLL_INTERVAL_MS,
};

fn hold_begin() -> GestureEvent {
    GestureEvent::HoldBegin { fingers: Some(HOLD_FINGERS) }
}

fn hold_end(cancelled: bool) -> GestureEvent {
    GestureEvent::HoldEnd { fingers: Some(HOLD_FINGERS), cancelled }
}

#[test]
fn constants_as_recommended() {
    assert_eq!(GRACE_WINDOW_MS, 300);
    assert_eq!(POLL_INTERVAL_MS, 100);
    assert_eq!(HOLD_FINGERS, 2);
}

#[test]
fn hold_begin_presses() {
    // Scenario: a two-finger hold begin emits a press and the button is held.
    let mut s = GestureState::new(0);
    let cmd = s.on_event(hold_begin(), 0);
    assert_eq!(cmd, Some(ButtonCommand::Press));
    s.on_emit_result(ButtonCommand::Press, true);
    assert!(s.held);
    assert_eq!(s.pending, None);
}

#[test]
fn cancelled_end_then_scroll_releases_after_grace() {
    // Scenario: hold begin, cancelled hold end, a scroll sample soon after,
    // then nothing: exactly one press, and one release once the sample has
    // aged past the grace window — no flicker in between.
    let mut s = GestureState::new(0);
    assert_eq!(s.on_event(hold_begin(), 0), Some(ButtonCommand::Press));
    s.on_emit_result(ButtonCommand::Press, true);
    assert_eq!(s.on_event(hold_end(true), 50), None);
    let epoch = s.pending.expect("watcher armed");
    assert_eq!(s.on_event(GestureEvent::ScrollFinger, 100), None);
    assert_eq!(s.watcher_poll(epoch, 150), WatcherVerdict::Wait);
    assert_eq!(s.watcher_poll(epoch, 250), WatcherVerdict::Wait);
    assert_eq!(s.watcher_poll(epoch, 390), WatcherVerdict::Wait);
    assert!(s.held);
    let verdict = s.watcher_poll(epoch, 450);
    assert_eq!(verdict, WatcherVerdict::Fire(Some(ButtonCommand::Release)));
    s.on_emit_result(ButtonCommand::Release, true);
    assert!(!s.held);
    assert_eq!(s.pending, None);
}

#[test]
fn clean_end_releases_immediately() {
    // Scenario: hold begin then a clean hold end: press, immediate release,
    // and no debounce watcher left running.
    let mut s = GestureState::new(0);
    assert_eq!(s.on_event(hold_begin(), 0), Some(ButtonCommand::Press));
    s.on_emit_result(ButtonCommand::Press, true);
    assert_eq!(s.on_event(hold_end(false), 100), Some(ButtonCommand::Release));
    s.on_emit_result(ButtonCommand::Release, true);
    assert!(!s.held);
    assert_eq!(s.pending, None);
}

#[test]
fn unrelated_gesture_forces_release() {
    // Scenario: hold begin, then an unrelated gesture line: immediate forced
    // release with no explicit hold end.
    let mut s = GestureState::new(0);
    assert_eq!(s.on_event(hold_begin(), 0), Some(ButtonCommand::Press));
    s.on_emit_result(ButtonCommand::Press, true);
    let ev = classify_line(" event7  GESTURE_SWIPE_BEGIN +23.00s 3");
    assert_eq!(ev, GestureEvent::Other);
    assert_eq!(s.on_event(ev, 60), Some(ButtonCommand::Release));
    s.on_emit_result(ButtonCommand::Release, true);
    assert!(!s.held);
}

#[test]
fn repeated_hold_begins_press_once() {
    // Scenario: rapid repeated hold begins while already held: only the
    // first press is emitted.
    let mut s = GestureState::new(0);
    assert_eq!(s.on_event(hold_begin(), 0), Some(ButtonCommand::Press));
    s.on_emit_result(ButtonCommand::Press, true);
    assert_eq!(s.on_event(hold_begin(), 10), None);
    assert_eq!(s.on_event(hold_begin(), 20), None);
    assert_eq!(s.on_event(hold_begin(), 30), None);
    assert!(s.held);
}

#[test]
fn replayed_terminal_release_is_inert() {
    // Replaying an already-applied terminal release emits nothing again.
    let mut s = GestureState::new(0);
    assert_eq!(s.on_event(hold_begin(), 0), Some(ButtonCommand::Press));
    s.on_emit_result(ButtonCommand::Press, true);
    assert_eq!(s.on_event(hold_end(false), 50), Some(ButtonCommand::Release));
    s.on_emit_result(ButtonCommand::Release, true);
    assert_eq!(s.on_event(hold_end(false), 60), None);
    assert_eq!(s.on_event(GestureEvent::Other, 70), None);
    assert!(!s.held);
}

#[test]
fn wrong_finger_count_is_inert() {
    let mut s = GestureState::new(0);
    assert_eq!(s.on_event(GestureEvent::HoldBegin { fingers: Some(3) }, 0), None);
    assert_eq!(s.on_event(GestureEvent::HoldBegin { fingers: None }, 1), None);
    assert!(!s.held);
    assert_eq!(s.on_event(hold_begin(), 2), Some(ButtonCommand::Press));
    s.on_emit_result(ButtonCommand::Press, true);
    assert_eq!(s.on_event(GestureEvent::HoldEnd { fingers: None, cancelled: true }, 3), None);
    assert_eq!(s.pending, None);
    assert!(s.held);
}

#[test]
fn failed_release_is_retried_on_next_event() {
    // The button bit moves only on a successful emission, so a failed
    // release leaves the machine held and the next terminal event retries.
    let mut s = GestureState::new(0);
    assert_eq!(s.on_event(hold_begin(), 0), Some(ButtonCommand::Press));
    s.on_emit_result(ButtonCommand::Press, true);
    assert_eq!(s.on_event(GestureEvent::Other, 10), Some(ButtonCommand::Release));
    s.on_emit_result(ButtonCommand::Release, false);
    assert!(s.held);
    assert_eq!(s.on_event(hold_end(false), 20), Some(ButtonCommand::Release));
    s.on_emit_result(ButtonCommand::Release, true);
    assert!(!s.held);
}

#[test]
fn new_hold_begin_cancels_pending_release() {
    // A fresh hold begin voids the armed watcher: its poll reports
    // cancelled and nothing is released underneath the new hold.
    let mut s = GestureState::new(0);
    assert_eq!(s.on_event(hold_begin(), 0), Some(ButtonCommand::Press));
    s.on_emit_result(ButtonCommand::Press, true);
    assert_eq!(s.on_event(hold_end(true), 50), None);
    let epoch = s.pending.expect("watcher armed");
    assert_eq!(s.on_event(hold_begin(), 60), None);
    assert_eq!(s.pending, None);
    assert_eq!(s.watcher_poll(epoch, 1_000), WatcherVerdict::Cancelled);
    assert!(s.held);
}

#[test]
fn rearming_supersedes_old_watcher() {
    // Arming again hands out a fresh epoch; the superseded watcher is
    // cancelled even though a release is due, and only the live one fires.
    let mut s = GestureState::new(0);
    assert_eq!(s.on_event(hold_begin(), 0), Some(ButtonCommand::Press));
    s.on_emit_result(ButtonCommand::Press, true);
    assert_eq!(s.on_event(hold_end(true), 10), None);
    let first = s.pending.expect("first watcher armed");
    assert_eq!(s.on_event(hold_end(true), 20), None);
    let second = s.pending.expect("second watcher armed");
    assert_ne!(first, second);
    assert_eq!(s.watcher_poll(first, 5_000), WatcherVerdict::Cancelled);
    assert!(s.held);
    assert_eq!(
        s.watcher_poll(second, 5_000),
        WatcherVerdict::Fire(Some(ButtonCommand::Release))
    );
    s.on_emit_result(ButtonCommand::Release, true);
    assert!(!s.held);
}

#[test]
fn watcher_fires_at_most_once() {
    // After the firing poll clears the slot, the same epoch is cancelled.
    let mut s = GestureState::new(0);
    assert_eq!(s.on_event(hold_begin(), 0), Some(ButtonCommand::Press));
    s.on_emit_result(ButtonCommand::Press, true);
    assert_eq!(s.on_event(hold_end(true), 10), None);
    let epoch = s.pending.expect("watcher armed");
    assert_eq!(
        s.watcher_poll(epoch, 400),
        WatcherVerdict::Fire(Some(ButtonCommand::Release))
    );
    s.on_emit_result(ButtonCommand::Release, true);
    assert_eq!(s.watcher_poll(epoch, 500), WatcherVerdict::Cancelled);
    assert!(!s.held);
}

#[test]
fn watcher_fire_without_held_button_emits_nothing() {
    // A cancelled hold end arms the watcher even when the button is up; the
    // due fire then owes no emission.
    let mut s = GestureState::new(0);
    assert_eq!(s.on_event(hold_end(true), 10), None);
    let epoch = s.pending.expect("watcher armed");
    assert_eq!(s.watcher_poll(epoch, 400), WatcherVerdict::Fire(None));
    assert_eq!(s.pending, None);
}

#[test]
fn failed_watcher_release_keeps_button_held() {
    // The watcher terminates after a failed attempt; the button stays held
    // and a later event retries the release.
    let mut s = GestureState::new(0);
    assert_eq!(s.on_event(hold_begin(), 0), Some(ButtonCommand::Press));
    s.on_emit_result(ButtonCommand::Press, true);
    assert_eq!(s.on_event(hold_end(true), 10), None);
    let epoch = s.pending.expect("watcher armed");
    assert_eq!(
        s.watcher_poll(epoch, 400),
        WatcherVerdict::Fire(Some(ButtonCommand::Release))
    );
    s.on_emit_result(ButtonCommand::Release, false);
    assert!(s.held);
    assert_eq!(s.pending, None);
    assert_eq!(s.on_event(GestureEvent::Other, 500), Some(ButtonCommand::Release));
    s.on_emit_result(ButtonCommand::Release, true);
    assert!(!s.held);
}

#[test]
fn continued_scrolling_postpones_release_indefinitely() {
    let mut s = GestureState::new(0);
    assert_eq!(s.on_event(hold_begin(), 0), Some(ButtonCommand::Press));
    s.on_emit_result(ButtonCommand::Press, true);
    assert_eq!(s.on_event(hold_end(true), 10), None);
    let epoch = s.pending.expect("watcher armed");
    let mut now: u64 = 10;
    for _ in 0..20 {
        now += 100;
        assert_eq!(s.on_event(GestureEvent::ScrollFinger, now), None);
        assert_eq!(s.watcher_poll(epoch, now + 50), WatcherVerdict::Wait);
    }
    assert!(s.held);
    let verdict = s.watcher_poll(epoch, now + GRACE_WINDOW_MS + 1);
    assert_eq!(verdict, WatcherVerdict::Fire(Some(ButtonCommand::Release)));
}

#[test]
fn successful_emissions_alternate() {
    // Over a busy mixed run, the successful emissions strictly alternate,
    // starting with a press, and the button bit tracks the last one.
    let mut s = GestureState::new(0);
    let mut log: Vec<ButtonCommand> = Vec::new();
    let mut now: u64 = 0;
    let script = [
        hold_begin(),
        hold_begin(),
        GestureEvent::ScrollFinger,
        hold_end(true),
        hold_end(false),
        GestureEvent::Other,
        hold_begin(),
        GestureEvent::HoldBegin { fingers: Some(3) },
        GestureEvent::Other,
        GestureEvent::Other,
        hold_begin(),
        hold_end(true),
    ];
    for (k, ev) in script.iter().enumerate() {
        now += 17;
        if let Some(cmd) = s.on_event(*ev, now) {
            // Let every third emission fail: a failed one never moves the bit.
            let ok = k % 3 != 2;
            s.on_emit_result(cmd, ok);
            if ok {
                log.push(cmd);
            }
        }
    }
    if let Some(epoch) = s.pending {
        now += GRACE_WINDOW_MS + 1;
        if let WatcherVerdict::Fire(Some(cmd)) = s.watcher_poll(epoch, now) {
            s.on_emit_result(cmd, true);
            log.push(cmd);
        }
    }
    assert!(!log.is_empty());
    assert_eq!(log[0], ButtonCommand::Press);
    for pair in log.windows(2) {
        assert_ne!(pair[0], pair[1]);
    }
    assert_eq!(s.held, log.last() == Some(&ButtonCommand::Press));
}

#[test]
fn lines_drive_machine_end_to_end() {
    // Raw decoder lines, classified and applied in order.
    let mut s = GestureState::new(0);
    let ev = classify_line(" event7  GESTURE_HOLD_BEGIN +21.15s 2");
    assert_eq!(s.on_event(ev, 0), Some(ButtonCommand::Press));
    s.on_emit_result(ButtonCommand::Press, true);
    let ev = classify_line(" event7  POINTER_SCROLL_FINGER +21.40s vert 2.00");
    assert_eq!(s.on_event(ev, 250), None);
    assert!(s.scrolling);
    assert_eq!(s.last_scroll_ms, 250);
    let ev = classify_line(" event7  GESTURE_HOLD_END +21.71s 2");
    assert_eq!(s.on_event(ev, 310), Some(ButtonCommand::Release));
    s.on_emit_result(ButtonCommand::Release, true);
    assert!(!s.held);
    assert_eq!(s.pending, None);
}
