//! System-wide guarantees, proved over whole traces.
//!
//! A trace step is one atomic turn under the exclusion boundary: either the
//! main loop applies a classified line and forwards the command it was
//! handed, or a debounce watcher polls. The lemmas here state the
//! properties the interpreter promises for every trace: successful
//! emissions strictly alternate, a superseded or spent watcher is inert,
//! and replaying a terminal release emits nothing.

use vstd::prelude::*;
use crate::events::GestureEvent;
use crate::machine::{
    ButtonCommand, GestureState, WatcherVerdict, HOLD_FINGERS, emit_next, event_command,
    event_next, poll_next, poll_verdict, release_due,
};

verus! {

/// One atomic turn of the system.
pub enum TraceStep {
    /// A decoder line classified to `ev` was applied at `now_ms`; the
    /// command it produced, if any, was forwarded to the device, which
    /// accepted it iff `emit_ok`.
    Line { ev: GestureEvent, now_ms: u64, emit_ok: bool },
    /// The watcher holding `epoch` polled at `now_ms`; a release it owed
    /// was forwarded to the device, which accepted it iff `emit_ok`.
    Poll { epoch: u64, now_ms: u64, emit_ok: bool },
}

/// The command a trace step hands to the device, if any.
pub open spec fn step_command(s: GestureState, st: TraceStep) -> Option<ButtonCommand> {
    match st {
        TraceStep::Line { ev, now_ms, emit_ok } => event_command(s, ev),
        TraceStep::Poll { epoch, now_ms, emit_ok } => match poll_verdict(s, epoch, now_ms) {
            WatcherVerdict::Fire(cmd) => cmd,
            WatcherVerdict::Cancelled => None,
            WatcherVerdict::Wait => None,
        },
    }
}

/// The state after one trace step.
pub open spec fn step_state(s: GestureState, st: TraceStep) -> GestureState {
    match st {
        TraceStep::Line { ev, now_ms, emit_ok } => {
            let s1 = event_next(s, ev, now_ms);
            match event_command(s, ev) {
                Some(cmd) => emit_next(s1, cmd, emit_ok),
                None => s1,
            }
        },
        TraceStep::Poll { epoch, now_ms, emit_ok } => {
            let s1 = poll_next(s, epoch, now_ms);
            match step_command(s, st) {
                Some(cmd) => emit_next(s1, cmd, emit_ok),
                None => s1,
            }
        },
    }
}

/// The emission a trace step gets through to the device: `Some(true)` a
/// successful press, `Some(false)` a successful release, `None` none.
pub open spec fn step_emission(s: GestureState, st: TraceStep) -> Option<bool> {
    let ok = match st {
        TraceStep::Line { ev, now_ms, emit_ok } => emit_ok,
        TraceStep::Poll { epoch, now_ms, emit_ok } => emit_ok,
    };
    match step_command(s, st) {
        Some(cmd) => if ok {
            Some(cmd is Press)
        } else {
            None
        },
        None => None,
    }
}

/// The state a trace leaves behind.
pub open spec fn run_state(s0: GestureState, tr: Seq<TraceStep>) -> GestureState
    decreases tr.len(),
{
    if tr.len() == 0 {
        s0
    } else {
        step_state(run_state(s0, tr.drop_last()), tr.last())
    }
}

/// All successful emissions of a trace, in order; `true` is a press.
pub open spec fn run_emissions(s0: GestureState, tr: Seq<TraceStep>) -> Seq<bool>
    decreases tr.len(),
{
    if tr.len() == 0 {
        Seq::empty()
    } else {
        run_emissions(s0, tr.drop_last()) + (match step_emission(
            run_state(s0, tr.drop_last()),
            tr.last(),
        ) {
            Some(b) => seq![b],
            None => Seq::empty(),
        })
    }
}

/// The last element of `es`, or `d` when it is empty.
pub open spec fn last_or(es: Seq<bool>, d: bool) -> bool {
    if es.len() == 0 {
        d
    } else {
        es.last()
    }
}

/// Emissions alternate strictly, starting with `first`.
pub open spec fn alternating(es: Seq<bool>, first: bool) -> bool {
    (es.len() > 0 ==> es[0] == first) && (forall|i: int|
        0 < i < es.len() ==> #[trigger] es[i] != es[i - 1])
}

/// A hold begin that drives the button: two fingers.
pub open spec fn qualifying_hold_begin(ev: GestureEvent) -> bool {
    match ev {
        GestureEvent::HoldBegin { fingers } => fingers == Some(HOLD_FINGERS),
        _ => false,
    }
}

/// An event whose arrival releases a held button at once: a clean
/// qualifying hold end, or any interrupting line.
pub open spec fn terminal_release_event(ev: GestureEvent) -> bool {
    match ev {
        GestureEvent::HoldEnd { fingers, cancelled } => fingers == Some(HOLD_FINGERS)
            && !cancelled,
        GestureEvent::Other => true,
        _ => false,
    }
}

/// The button bit moves only by a successful emission, and the emission's
/// direction is forced by the bit: presses get through only while the
/// button is up, releases only while it is down.
pub proof fn lemma_step_held(s: GestureState, st: TraceStep)
    ensures
        match step_emission(s, st) {
            Some(b) => b == !s.held && step_state(s, st).held == b,
            None => step_state(s, st).held == s.held,
        },
{
}

/// No flicker, ever: over any trace from a released start, the successful
/// emissions strictly alternate beginning with a press — the device never
/// sees two identical transitions in a row, for any interleaving of lines
/// and watcher polls and any pattern of emission failures. The button bit
/// always equals the last successful emission.
pub proof fn lemma_emissions_alternate(s0: GestureState, tr: Seq<TraceStep>)
    requires
        !s0.held,
    ensures
        alternating(run_emissions(s0, tr), true),
        run_state(s0, tr).held == last_or(run_emissions(s0, tr), false),
    decreases tr.len(),
{
    if tr.len() == 0 {
    } else {
        let pre = run_state(s0, tr.drop_last());
        let pre_es = run_emissions(s0, tr.drop_last());
        let es = run_emissions(s0, tr);
        lemma_emissions_alternate(s0, tr.drop_last());
        lemma_step_held(pre, tr.last());
        match step_emission(pre, tr.last()) {
            Some(b) => {
                assert(es =~= pre_es.push(b));
                assert(b == !last_or(pre_es, false));
                assert forall|i: int| 0 < i < es.len() implies #[trigger] es[i] != es[i - 1] by {
                    if i < pre_es.len() {
                        assert(es[i] == pre_es[i] && es[i - 1] == pre_es[i - 1]);
                    } else {
                        assert(es[i] == b && es[i - 1] == pre_es.last());
                    }
                }
            },
            None => {
                assert(es =~= pre_es);
            },
        }
    }
}

/// A successful press happens exactly on a qualifying two-finger hold begin
/// that arrives while the button is up and whose emission the device
/// accepts — one press per such hold begin, none on a repeat while held.
pub proof fn lemma_press_exactly_on_hold_begin(
    s: GestureState,
    ev: GestureEvent,
    now_ms: u64,
    emit_ok: bool,
)
    ensures
        step_emission(s, TraceStep::Line { ev, now_ms, emit_ok }) == Some(true) <==> (
        qualifying_hold_begin(ev) && !s.held && emit_ok),
{
}

/// A successful release from the main loop happens exactly on a terminal
/// event that arrives while the button is down and whose emission the
/// device accepts.
pub proof fn lemma_release_exactly_on_terminal_event(
    s: GestureState,
    ev: GestureEvent,
    now_ms: u64,
    emit_ok: bool,
)
    ensures
        step_emission(s, TraceStep::Line { ev, now_ms, emit_ok }) == Some(false) <==> (
        terminal_release_event(ev) && s.held && emit_ok),
{
}

/// A watcher's poll releases exactly when it still owns the pending slot,
/// the release is due, the button is down and the device accepts; a firing
/// poll always clears the pending slot.
pub proof fn lemma_watcher_release_exactly_when_due(
    s: GestureState,
    epoch: u64,
    now_ms: u64,
    emit_ok: bool,
)
    ensures
        step_emission(s, TraceStep::Poll { epoch, now_ms, emit_ok }) == Some(false) <==> (
        s.pending == Some(epoch) && release_due(s, now_ms) && s.held && emit_ok),
        poll_verdict(s, epoch, now_ms) is Fire ==> poll_next(s, epoch, now_ms).pending is None,
{
}

/// Well-formedness — a live pending epoch is older than the counter — is
/// preserved by every trace step while the counter has values left.
pub proof fn lemma_wf_preserved(s: GestureState, st: TraceStep)
    requires
        s.wf(),
        s.next_epoch < u64::MAX,
    ensures
        step_state(s, st).wf(),
{
}

/// Along this trace the epoch counter never exhausts its `u64`.
pub open spec fn counter_live(s0: GestureState, tr: Seq<TraceStep>) -> bool
    decreases tr.len(),
{
    if tr.len() == 0 {
        true
    } else {
        counter_live(s0, tr.drop_last()) && run_state(s0, tr.drop_last()).next_epoch
            < u64::MAX
    }
}

/// Over any interleaving, the single pending slot stays well formed and the
/// epoch counter never moves backwards: every newly armed watcher receives
/// an epoch no earlier watcher ever held, so a superseded watcher can never
/// be mistaken for the live one.
pub proof fn lemma_run_wf(s0: GestureState, tr: Seq<TraceStep>)
    requires
        s0.wf(),
        counter_live(s0, tr),
    ensures
        run_state(s0, tr).wf(),
        run_state(s0, tr).next_epoch >= s0.next_epoch,
    decreases tr.len(),
{
    if tr.len() > 0 {
        lemma_run_wf(s0, tr.drop_last());
        lemma_wf_preserved(run_state(s0, tr.drop_last()), tr.last());
    }
}

/// Arming replaces-and-voids atomically: a cancelled qualifying hold end
/// overwrites the single pending slot with a fresh epoch, so the
/// superseded watcher's next poll — at any time — reports `Cancelled` and
/// leaves the state untouched. At most one pending release is ever live.
pub proof fn lemma_arm_supersedes(s: GestureState, now_ms: u64, old_epoch: u64, later_ms: u64)
    requires
        s.wf(),
        s.next_epoch < u64::MAX,
        s.pending == Some(old_epoch),
    ensures
        ({
            let s1 = event_next(
                s,
                GestureEvent::HoldEnd { fingers: Some(HOLD_FINGERS), cancelled: true },
                now_ms,
            );
            &&& s1.pending == Some(s.next_epoch)
            &&& old_epoch != s.next_epoch
            &&& poll_verdict(s1, old_epoch, later_ms) == WatcherVerdict::Cancelled
            &&& poll_next(s1, old_epoch, later_ms) == s1
        }),
{
}

/// A watcher fires at most once: the firing poll clears the pending slot,
/// so the same epoch polled again — at any later time — is `Cancelled` and
/// changes nothing. The delayed release cannot double-fire.
pub proof fn lemma_no_double_fire(s: GestureState, epoch: u64, now1: u64, now2: u64)
    requires
        s.pending == Some(epoch),
        release_due(s, now1),
    ensures
        ({
            let s1 = poll_next(s, epoch, now1);
            &&& s1.pending is None
            &&& poll_verdict(s1, epoch, now2) == WatcherVerdict::Cancelled
            &&& poll_next(s1, epoch, now2) == s1
        }),
{
}

/// Replaying a terminal release against an already-released machine is
/// inert: no command is produced, nothing is emitted, the button stays up.
pub proof fn lemma_release_replay_inert(
    s: GestureState,
    ev: GestureEvent,
    now_ms: u64,
    emit_ok: bool,
)
    requires
        !s.held,
        terminal_release_event(ev),
    ensures
        event_command(s, ev) is None,
        step_emission(s, TraceStep::Line { ev, now_ms, emit_ok }) is None,
        !step_state(s, TraceStep::Line { ev, now_ms, emit_ok }).held,
{
}

} // verus!
