//! Properties of the decision core that hold over whole event sequences,
//! stated and proved over the spec-level transition functions.

use vstd::prelude::*;
use crate::decision::{CoreState, Event, TimerOp};
use crate::timing::{within_grace, TIMER_ARM_MS};

verus! {

/// The debounce timer is armed with a safety margin beyond the grace
/// window, so an expiry that arrives no earlier than the armed delay
/// after the release always finds the grace window already closed.
pub proof fn lemma_timer_fires_after_grace(release_ms: u64, now_ms: u64)
    requires
        now_ms >= release_ms + TIMER_ARM_MS,
    ensures
        !within_grace(Some(release_ms), now_ms),
{
}

/// The state after delivering a whole sequence of timestamped events to
/// the core, in order.
pub open spec fn run_events(s: CoreState, evs: Seq<(Event, u64)>) -> CoreState
    decreases evs.len(),
{
    if evs.len() == 0 {
        s
    } else {
        run_events(s.state_after(evs[0].0, evs[0].1), evs.drop_first())
    }
}

/// How many sink calls a sequence of events provokes.
pub open spec fn sink_calls(s: CoreState, evs: Seq<(Event, u64)>) -> nat
    decreases evs.len(),
{
    if evs.len() == 0 {
        0
    } else {
        (if s.sink_after(evs[0].0, evs[0].1) is Some {
            1nat
        } else {
            0nat
        }) + sink_calls(s.state_after(evs[0].0, evs[0].1), evs.drop_first())
    }
}

/// How many times the applied decision changes over a sequence of events.
pub open spec fn decision_changes(s: CoreState, evs: Seq<(Event, u64)>) -> nat
    decreases evs.len(),
{
    if evs.len() == 0 {
        0
    } else {
        (if s.state_after(evs[0].0, evs[0].1).visible != s.visible {
            1nat
        } else {
            0nat
        }) + decision_changes(s.state_after(evs[0].0, evs[0].1), evs.drop_first())
    }
}

/// After any non-empty event sequence, the edge memory `visible` equals
/// the decision function evaluated on the final inputs at the moment of
/// the most recent recompute: it is never stale beyond one event.
pub proof fn lemma_visible_tracks_decision(s: CoreState, evs: Seq<(Event, u64)>)
    requires
        evs.len() > 0,
    ensures
        run_events(s, evs).visible == run_events(s, evs).decision(evs.last().1),
    decreases evs.len(),
{
    if evs.len() == 1 {
        assert(evs.drop_first().len() == 0);
        assert(run_events(s.state_after(evs[0].0, evs[0].1), evs.drop_first()) == s.state_after(
            evs[0].0,
            evs[0].1,
        ));
        assert(run_events(s, evs) == s.state_after(evs[0].0, evs[0].1));
    } else {
        lemma_visible_tracks_decision(s.state_after(evs[0].0, evs[0].1), evs.drop_first());
        assert(evs.drop_first().last() == evs.last());
    }
}

/// Idempotence: when two consecutive recomputes yield the same decision,
/// the second provokes no sink call, so the pair triggers at most one
/// sink call in total.
pub proof fn lemma_idempotent_recompute(s: CoreState, e1: Event, n1: u64, e2: Event, n2: u64)
    ensures
        ({
            let s1 = s.state_after(e1, n1);
            s1.decision(n1) == s1.inputs_after(e2, n2).decision(n2) ==> s1.sink_after(
                e2,
                n2,
            ) is None
        }),
{
}

/// A key press always clears the recorded release moment and cancels the
/// pending timer; after a release followed by a press, the core shows the
/// taskbar through `held` alone, and a stale timer expiry arriving later
/// provokes no hide.
pub proof fn lemma_key_down_cancels_grace(s: CoreState, n_up: u64, n_down: u64, n_exp: u64)
    ensures
        ({
            let s2 = s.state_after(Event::KeyUp, n_up).state_after(Event::KeyDown, n_down);
            &&& s2.release_time_ms is None
            &&& !s2.timer_armed
            &&& CoreState::timer_after(Event::KeyDown) == Some(TimerOp::Cancel)
            &&& s2.visible
            &&& s2.sink_after(Event::TimerExpired, n_exp) is None
            &&& s2.state_after(Event::TimerExpired, n_exp).visible
        }),
{
}

/// Edge triggering: over any event sequence the core makes exactly as
/// many sink calls as the applied decision changes value — in particular,
/// never one sink call per raw key event.
pub proof fn lemma_sink_calls_match_changes(s: CoreState, evs: Seq<(Event, u64)>)
    ensures
        sink_calls(s, evs) == decision_changes(s, evs),
    decreases evs.len(),
{
    if evs.len() > 0 {
        lemma_sink_calls_match_changes(s.state_after(evs[0].0, evs[0].1), evs.drop_first());
    }
}

} // verus!
