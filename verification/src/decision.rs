//! The visibility decision core: an event-driven state machine that fuses
//! key state, foreground-window classification and timer expiry into one
//! debounced, edge-triggered show/hide decision.

use vstd::prelude::*;
use crate::timing::{within_grace, is_within_delay_period, TIMER_ARM_MS};

verus! {

/// An event delivered to the decision core by the event loop.
#[derive(Clone, Copy, PartialEq, Eq, Debug)]
pub enum Event {
    /// The trigger key went down.
    KeyDown,
    /// The trigger key was released.
    KeyUp,
    /// The foreground window's overlay classification changed.
    OverlayChanged { active: bool },
    /// The debounce timer fired.
    TimerExpired,
}

/// A call the event loop must make into the visibility sink.
#[derive(Clone, Copy, PartialEq, Eq, Debug)]
pub enum SinkOp {
    /// Make the taskbar visible, without activating it.
    Show,
    /// Make the taskbar hidden.
    Hide,
}

/// A call the event loop must make on the debounce timer.
#[derive(Clone, Copy, PartialEq, Eq, Debug)]
pub enum TimerOp {
    /// Arm (or re-arm) the single-shot timer for `delay_ms` milliseconds.
    Arm { delay_ms: u64 },
    /// Cancel any pending expiry.
    Cancel,
}

/// The side effects one event asks of the event loop.
#[derive(Clone, Copy, PartialEq, Eq, Debug)]
pub struct Effects {
    /// Timer operation to perform, if any.
    pub timer: Option<TimerOp>,
    /// Sink call to make, if any. `None` when the decision did not change.
    pub sink: Option<SinkOp>,
}

/// The state of the decision core: the three fused inputs, whether a timer
/// expiry is pending, and the edge memory of the last applied decision.
#[derive(Clone, Copy, PartialEq, Eq, Debug)]
pub struct CoreState {
    /// Whether the trigger key is currently held down.
    pub held: bool,
    /// Whether the foreground window is a recognized system overlay.
    pub overlay_active: bool,
    /// Moment the trigger key was last released; `None` once the key goes
    /// down again.
    pub release_time_ms: Option<u64>,
    /// Whether a debounce-timer expiry is pending.
    pub timer_armed: bool,
    /// The last decision that was applied through the sink.
    pub visible: bool,
}

/// The decision function: show while the key is held, while an overlay is
/// active, or while the grace window after the last release is open.
pub open spec fn should_show(
    held: bool,
    overlay_active: bool,
    release_time_ms: Option<u64>,
    now_ms: u64,
) -> bool {
    held || overlay_active || within_grace(release_time_ms, now_ms)
}

impl CoreState {
    /// The inputs never contradict each other: while the key is held, no
    /// release moment is recorded.
    pub open spec fn wf(self) -> bool {
        self.held ==> self.release_time_ms is None
    }

    /// The decision the current inputs call for at `now_ms`.
    pub open spec fn decision(self, now_ms: u64) -> bool {
        should_show(self.held, self.overlay_active, self.release_time_ms, now_ms)
    }

    /// The inputs after `event` arrives at `now_ms`, before the recompute
    /// (the `visible` edge memory is untouched).
    pub open spec fn inputs_after(self, event: Event, now_ms: u64) -> CoreState {
        match event {
            Event::KeyDown => CoreState {
                held: true,
                release_time_ms: None,
                timer_armed: false,
                ..self
            },
            Event::KeyUp => CoreState {
                held: false,
                release_time_ms: Some(now_ms),
                timer_armed: true,
                ..self
            },
            Event::OverlayChanged { active } => CoreState { overlay_active: active, ..self },
            Event::TimerExpired => CoreState { timer_armed: false, ..self },
        }
    }

    /// The full state after `event` arrives at `now_ms` and the decision is
    /// recomputed.
    pub open spec fn state_after(self, event: Event, now_ms: u64) -> CoreState {
        let m = self.inputs_after(event, now_ms);
        CoreState { visible: m.decision(now_ms), ..m }
    }

    /// The sink call that `event` at `now_ms` provokes: one exactly when the
    /// recomputed decision differs from the last applied one.
    pub open spec fn sink_after(self, event: Event, now_ms: u64) -> Option<SinkOp> {
        let v = self.inputs_after(event, now_ms).decision(now_ms);
        if v != self.visible {
            Some(if v { SinkOp::Show } else { SinkOp::Hide })
        } else {
            None
        }
    }

    /// The timer call that `event` provokes: key-down cancels, key-up arms.
    pub open spec fn timer_after(event: Event) -> Option<TimerOp> {
        match event {
            Event::KeyDown => Some(TimerOp::Cancel),
            Event::KeyUp => Some(TimerOp::Arm { delay_ms: TIMER_ARM_MS }),
            Event::OverlayChanged { active: _ } => None,
            Event::TimerExpired => None,
        }
    }

    /// The initial state: all inputs off, taskbar hidden.
    pub open spec fn initial() -> CoreState {
        CoreState {
            held: false,
            overlay_active: false,
            release_time_ms: None,
            timer_armed: false,
            visible: false,
        }
    }

    /// Creates the core in its initial state.
    pub fn new() -> (r: CoreState)
        ensures
            r == CoreState::initial(),
            r.wf(),
    {
        CoreState {
            held: false,
            overlay_active: false,
            release_time_ms: None,
            timer_armed: false,
            visible: false,
        }
    }

    /// Recomputes the decision at `now_ms` and reports the sink call to
    /// make, exactly when the decision changed; updates the edge memory.
    pub fn update_taskbar_visibility(&mut self, now_ms: u64) -> (r: Option<SinkOp>)
        ensures
            *final(self) == (CoreState { visible: old(self).decision(now_ms), ..*old(self) }),
            r == (if old(self).decision(now_ms) != old(self).visible {
                Some(if old(self).decision(now_ms) { SinkOp::Show } else { SinkOp::Hide })
            } else {
                None::<SinkOp>
            }),
    {
        let ss = self.held || self.overlay_active
            || is_within_delay_period(self.release_time_ms, now_ms);
        if ss && !self.visible {
            self.visible = true;
            Some(SinkOp::Show)
        } else if !ss && self.visible {
            self.visible = false;
            Some(SinkOp::Hide)
        } else {
            None
        }
    }

    /// Applies one event at `now_ms`: updates the inputs, recomputes the
    /// decision, and returns the timer and sink calls the event loop must
    /// perform. A sink call is returned exactly when the applied decision
    /// changed, so repeated recomputes with an unchanged decision never
    /// re-trigger the sink.
    pub fn handle_event(&mut self, event: Event, now_ms: u64) -> (r: Effects)
        requires
            old(self).wf(),
        ensures
            *final(self) == old(self).state_after(event, now_ms),
            r.sink == old(self).sink_after(event, now_ms),
            r.timer == CoreState::timer_after(event),
            final(self).wf(),
            final(self).visible == final(self).decision(now_ms),
            (r.sink is Some) <==> (final(self).visible != old(self).visible),
    {
        let timer: Option<TimerOp> = match event {
            Event::KeyDown => {
                self.held = true;
                self.release_time_ms = None;
                self.timer_armed = false;
                Some(TimerOp::Cancel)
            },
            Event::KeyUp => {
                self.held = false;
                self.release_time_ms = Some(now_ms);
                self.timer_armed = true;
                Some(TimerOp::Arm { delay_ms: TIMER_ARM_MS })
            },
            Event::OverlayChanged { active } => {
                self.overlay_active = active;
                None
            },
            Event::TimerExpired => {
                self.timer_armed = false;
                None
            },
        };
        let sink = self.update_taskbar_visibility(now_ms);
        Effects { timer, sink }
    }
}

} // verus!
