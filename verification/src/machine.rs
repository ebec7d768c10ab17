//! The gesture state machine and the debounce watcher's decisions.
//!
//! The machine owns the canonical "is the synthetic right button held" bit,
//! the scroll-activity cell, and the single pending-release slot. Each
//! transition returns the [`ButtonCommand`] the caller owes the virtual
//! device; the button bit itself moves only when the caller reports that the
//! emission succeeded, so a failed emission is retried on the next
//! qualifying event rather than losing a transition.
//!
//! A pending release is identified by an epoch token. Arming hands out a
//! fresh epoch and overwrites the slot, which voids the superseded watcher
//! at once: its next poll sees a foreign epoch, reports a cancelled
//! verdict and changes nothing. The slot being a single `Option` makes
//! "at most one pending release" structural.

use vstd::prelude::*;
use crate::events::GestureEvent;

verus! {

/// Milliseconds without a scroll sample after which a pending release fires.
pub const GRACE_WINDOW_MS: u64 = 300;

/// Recommended pause between two polls of the debounce watcher.
pub const POLL_INTERVAL_MS: u64 = 100;

/// The finger count that makes a hold gesture drive the synthetic button.
pub const HOLD_FINGERS: u32 = 2;

/// A state change the caller must forward to the virtual device.
#[derive(Clone, Copy, Debug, PartialEq, Eq)]
pub enum ButtonCommand {
    /// Press the synthetic right button.
    Press,
    /// Release the synthetic right button.
    Release,
}

/// What one debounce-watcher poll decided.
#[derive(Clone, Copy, Debug, PartialEq, Eq)]
pub enum WatcherVerdict {
    /// The polling watcher no longer owns the pending slot: it must stop
    /// without touching anything.
    Cancelled,
    /// Too early to release: poll again after [`POLL_INTERVAL_MS`].
    Wait,
    /// The release is due and the pending slot has been cleared; the payload
    /// is the emission now owed (`None` when the button was already up).
    Fire(Option<ButtonCommand>),
}

/// The shared state of the interpreter: button bit, scroll activity and the
/// single pending-release slot.
///
/// The caller keeps one value of this behind its exclusion boundary (a
/// mutex); every read-modify-write happens through one method call, which is
/// what makes the transitions atomic with respect to a concurrently polling
/// watcher.
#[derive(Clone, Copy, Debug, PartialEq, Eq)]
pub struct GestureState {
    /// Is the synthetic right button logically held down.
    pub held: bool,
    /// Was a scroll sample observed since the current hold began.
    pub scrolling: bool,
    /// Timestamp of the last scroll sample, in caller-supplied milliseconds.
    pub last_scroll_ms: u64,
    /// Epoch of the live pending-release watcher, if one is armed. A single
    /// `Option` slot: at most one pending release can exist.
    pub pending: Option<u64>,
    /// The epoch the next armed watcher will receive.
    pub next_epoch: u64,
}

/// Milliseconds from `last` to `now`; zero if the clock stepped backwards.
pub open spec fn elapsed_ms(now: u64, last: u64) -> u64 {
    if now >= last {
        (now - last) as u64
    } else {
        0
    }
}

/// Does a scroll sample still count as recent activity at `now`: the flag is
/// set and the sample has not yet aged past the grace window. A sample older
/// than the window no longer counts, which is what lets a scroll that simply
/// stops release the button eventually, while continued scrolling — which
/// keeps refreshing the timestamp — postpones the release indefinitely.
pub open spec fn scroll_active_at(s: GestureState, now: u64) -> bool {
    s.scrolling && elapsed_ms(now, s.last_scroll_ms) <= GRACE_WINDOW_MS
}

/// Both watcher conditions at once: no scroll activity any more, and the
/// last sample's timestamp has aged past the grace window.
pub open spec fn release_due(s: GestureState, now: u64) -> bool {
    !scroll_active_at(s, now) && elapsed_ms(now, s.last_scroll_ms) > GRACE_WINDOW_MS
}

/// The epoch counter after one arming.
pub open spec fn epoch_bump(e: u64) -> u64 {
    if e < u64::MAX {
        (e + 1) as u64
    } else {
        0
    }
}

/// The state after one classified decoder line arrives at time `now`.
pub open spec fn event_next(s: GestureState, ev: GestureEvent, now: u64) -> GestureState {
    match ev {
        GestureEvent::HoldBegin { fingers } => {
            if fingers == Some(HOLD_FINGERS) {
                GestureState {
                    held: s.held,
                    scrolling: false,
                    last_scroll_ms: s.last_scroll_ms,
                    pending: None,
                    next_epoch: s.next_epoch,
                }
            } else {
                s
            }
        },
        GestureEvent::HoldEnd { fingers, cancelled } => {
            if fingers == Some(HOLD_FINGERS) {
                if cancelled {
                    GestureState {
                        held: s.held,
                        scrolling: s.scrolling,
                        last_scroll_ms: s.last_scroll_ms,
                        pending: Some(s.next_epoch),
                        next_epoch: epoch_bump(s.next_epoch),
                    }
                } else {
                    GestureState {
                        held: s.held,
                        scrolling: s.scrolling,
                        last_scroll_ms: s.last_scroll_ms,
                        pending: None,
                        next_epoch: s.next_epoch,
                    }
                }
            } else {
                s
            }
        },
        GestureEvent::ScrollFinger => GestureState {
            held: s.held,
            scrolling: true,
            last_scroll_ms: now,
            pending: s.pending,
            next_epoch: s.next_epoch,
        },
        GestureEvent::Other => GestureState {
            held: s.held,
            scrolling: s.scrolling,
            last_scroll_ms: s.last_scroll_ms,
            pending: None,
            next_epoch: s.next_epoch,
        },
    }
}

/// The emission a classified decoder line makes the caller owe: a press for
/// a qualifying hold begin while the button is up, a release for a clean
/// qualifying hold end or an interrupting gesture while it is down.
pub open spec fn event_command(s: GestureState, ev: GestureEvent) -> Option<ButtonCommand> {
    match ev {
        GestureEvent::HoldBegin { fingers } => {
            if fingers == Some(HOLD_FINGERS) && !s.held {
                Some(ButtonCommand::Press)
            } else {
                None
            }
        },
        GestureEvent::HoldEnd { fingers, cancelled } => {
            if fingers == Some(HOLD_FINGERS) && !cancelled && s.held {
                Some(ButtonCommand::Release)
            } else {
                None
            }
        },
        GestureEvent::ScrollFinger => None,
        GestureEvent::Other => {
            if s.held {
                Some(ButtonCommand::Release)
            } else {
                None
            }
        },
    }
}

/// The state after the caller reports how forwarding `cmd` went: the button
/// bit tracks the command on success and stays put on failure.
pub open spec fn emit_next(s: GestureState, cmd: ButtonCommand, ok: bool) -> GestureState {
    if ok {
        GestureState {
            held: cmd is Press,
            scrolling: s.scrolling,
            last_scroll_ms: s.last_scroll_ms,
            pending: s.pending,
            next_epoch: s.next_epoch,
        }
    } else {
        s
    }
}

/// The state after a watcher poll: only the poll of the live epoch that
/// finds the release due clears the pending slot; everything else is a
/// no-op.
pub open spec fn poll_next(s: GestureState, epoch: u64, now: u64) -> GestureState {
    if s.pending == Some(epoch) && release_due(s, now) {
        GestureState {
            held: s.held,
            scrolling: s.scrolling,
            last_scroll_ms: s.last_scroll_ms,
            pending: None,
            next_epoch: s.next_epoch,
        }
    } else {
        s
    }
}

/// What a watcher poll reports: `Cancelled` for a foreign epoch, `Wait`
/// while scrolling may still resume, `Fire` once the release is due.
pub open spec fn poll_verdict(s: GestureState, epoch: u64, now: u64) -> WatcherVerdict {
    if s.pending != Some(epoch) {
        WatcherVerdict::Cancelled
    } else if release_due(s, now) {
        WatcherVerdict::Fire(
            if s.held {
                Some(ButtonCommand::Release)
            } else {
                None
            },
        )
    } else {
        WatcherVerdict::Wait
    }
}

impl GestureState {
    /// A live pending epoch was issued before the counter's next value.
    pub open spec fn wf(self) -> bool {
        match self.pending {
            Some(e) => e < self.next_epoch,
            None => true,
        }
    }

    /// A fresh machine: button up, no scroll activity, no watcher armed.
    pub fn new(now_ms: u64) -> (s: GestureState)
        ensures
            s == (GestureState {
                held: false,
                scrolling: false,
                last_scroll_ms: now_ms,
                pending: None,
                next_epoch: 0u64,
            }),
            s.wf(),
    {
        GestureState {
            held: false,
            scrolling: false,
            last_scroll_ms: now_ms,
            pending: None,
            next_epoch: 0u64,
        }
    }

    /// Apply one classified decoder line at time `now_ms` and return the
    /// emission the caller now owes the virtual device. The caller must
    /// forward the command and report the outcome through
    /// [`GestureState::on_emit_result`] before releasing its exclusion
    /// boundary.
    ///
    /// The epoch counter is a machine limit: arming needs a fresh `u64`.
    pub fn on_event(&mut self, ev: GestureEvent, now_ms: u64) -> (cmd: Option<ButtonCommand>)
        requires
            old(self).next_epoch < u64::MAX,
        ensures
            *final(self) == event_next(*old(self), ev, now_ms),
            cmd == event_command(*old(self), ev),
    {
        match ev {
            GestureEvent::HoldBegin { fingers } => {
                let qualifies = match fingers {
                    Some(f) => f == HOLD_FINGERS,
                    None => false,
                };
                if qualifies {
                    self.pending = None;
                    self.scrolling = false;
                    if !self.held {
                        Some(ButtonCommand::Press)
                    } else {
                        None
                    }
                } else {
                    None
                }
            },
            GestureEvent::HoldEnd { fingers, cancelled } => {
                let qualifies = match fingers {
                    Some(f) => f == HOLD_FINGERS,
                    None => false,
                };
                if qualifies {
                    if cancelled {
                        self.pending = Some(self.next_epoch);
                        self.next_epoch = self.next_epoch + 1;
                        None
                    } else {
                        self.pending = None;
                        if self.held {
                            Some(ButtonCommand::Release)
                        } else {
                            None
                        }
                    }
                } else {
                    None
                }
            },
            GestureEvent::ScrollFinger => {
                self.scrolling = true;
                self.last_scroll_ms = now_ms;
                None
            },
            GestureEvent::Other => {
                self.pending = None;
                if self.held {
                    Some(ButtonCommand::Release)
                } else {
                    None
                }
            },
        }
    }

    /// Record how forwarding `cmd` to the device went. The logical button
    /// bit changes only on success, so a failed release or press can be
    /// retried on the next qualifying event.
    pub fn on_emit_result(&mut self, cmd: ButtonCommand, ok: bool)
        ensures
            *final(self) == emit_next(*old(self), cmd, ok),
    {
        if ok {
            self.held = match cmd {
                ButtonCommand::Press => true,
                ButtonCommand::Release => false,
            };
        }
    }

    /// One tick of the debounce watcher holding `epoch`. Run under the same
    /// exclusion boundary as [`GestureState::on_event`]; on a firing
    /// verdict the caller forwards the owed release and reports it through
    /// [`GestureState::on_emit_result`] before releasing the boundary, then
    /// stops polling.
    pub fn watcher_poll(&mut self, epoch: u64, now_ms: u64) -> (v: WatcherVerdict)
        ensures
            *final(self) == poll_next(*old(self), epoch, now_ms),
            v == poll_verdict(*old(self), epoch, now_ms),
    {
        let current = match self.pending {
            Some(e) => e == epoch,
            None => false,
        };
        if !current {
            return WatcherVerdict::Cancelled;
        }
        let elapsed = if now_ms >= self.last_scroll_ms {
            now_ms - self.last_scroll_ms
        } else {
            0
        };
        let active = self.scrolling && elapsed <= GRACE_WINDOW_MS;
        if !active && elapsed > GRACE_WINDOW_MS {
            self.pending = None;
            if self.held {
                WatcherVerdict::Fire(Some(ButtonCommand::Release))
            } else {
                WatcherVerdict::Fire(None)
            }
        } else {
            WatcherVerdict::Wait
        }
    }
}

} // verus!
