use taskbar_hider::decision::{CoreState, Effects, Event, SinkOp, TimerOp};
use taskbar_hider::timing::is_within_delay_period;

#[test]
fn initial_state_hidden() {
    let s = CoreState::new();
    assert!(!s.held);
    assert!(!s.overlay_active);
    assert_eq!(s.release_time_ms, None);
    assert!(!s.timer_armed);
    assert!(!s.visible);
}

#[test]
fn key_down_then_up_then_expiry() {
    // KeyDown at t=0: one Show, visible becomes true.
    let mut s = CoreState::new();
    let fx = s.handle_event(Event::KeyDown, 0);
    assert_eq!(fx.sink, Some(SinkOp::Show));
    assert_eq!(fx.timer, Some(TimerOp::Cancel));
    assert!(s.visible);
    assert!(s.held);
    assert_eq!(s.release_time_ms, None);

    // KeyUp at t=100: timer armed for 450ms, visible stays true (grace).
    let fx = s.handle_event(Event::KeyUp, 100);
    assert_eq!(fx.sink, None);
    assert_eq!(fx.timer, Some(TimerOp::Arm { delay_ms: 450 }));
    assert!(s.visible);
    assert!(!s.held);
    assert_eq!(s.release_time_ms, Some(100));
    assert!(s.timer_armed);

    // TimerExpired at t=560: grace over, nothing held: one Hide.
    let fx = s.handle_event(Event::TimerExpired, 560);
    assert_eq!(fx.sink, Some(SinkOp::Hide));
    assert_eq!(fx.timer, None);
    assert!(!s.visible);
    assert!(!s.timer_armed);
}

#[test]
fn overlay_edges_trigger_sink() {
    // OverlayActive while nothing else holds: immediate Show.
    let mut s = CoreState::new();
    let fx = s.handle_event(Event::OverlayChanged { active: true }, 0);
    assert_eq!(fx.sink, Some(SinkOp::Show));
    assert_eq!(fx.timer, None);
    assert!(s.visible);

    // Overlay off with all other inputs false: immediate Hide.
    let fx = s.handle_event(Event::OverlayChanged { active: false }, 10);
    assert_eq!(fx.sink, Some(SinkOp::Hide));
    assert!(!s.visible);
}

#[test]
fn repeated_recompute_same_decision_no_sink() {
    let mut s = CoreState::new();
    let fx = s.handle_event(Event::OverlayChanged { active: true }, 0);
    assert_eq!(fx.sink, Some(SinkOp::Show));
    // Same overlay report again: decision unchanged, no second sink call.
    let fx = s.handle_event(Event::OverlayChanged { active: true }, 5);
    assert_eq!(fx.sink, None);
    assert!(s.visible);
}

#[test]
fn key_down_clears_release_and_cancels_timer() {
    let mut s = CoreState::new();
    s.handle_event(Event::KeyDown, 0);
    s.handle_event(Event::KeyUp, 50);
    assert_eq!(s.release_time_ms, Some(50));
    assert!(s.timer_armed);

    // KeyDown before the grace expires: release cleared, timer canceled.
    let fx = s.handle_event(Event::KeyDown, 120);
    assert_eq!(fx.timer, Some(TimerOp::Cancel));
    assert_eq!(s.release_time_ms, None);
    assert!(!s.timer_armed);
    assert!(s.visible);
    assert_eq!(fx.sink, None);

    // A stale expiry arriving anyway must not hide: held is true.
    let fx = s.handle_event(Event::TimerExpired, 130);
    assert_eq!(fx.sink, None);
    assert!(s.visible);
}

#[test]
fn rapid_key_pairs_sink_only_on_changes() {
    // Down/up pairs faster than the grace window: only the first Show and
    // the final Hide reach the sink.
    let mut s = CoreState::new();
    let mut sink_calls: Vec<SinkOp> = Vec::new();
    let events: [(Event, u64); 7] = [
        (Event::KeyDown, 0),
        (Event::KeyUp, 30),
        (Event::KeyDown, 60),
        (Event::KeyUp, 90),
        (Event::KeyDown, 120),
        (Event::KeyUp, 150),
        (Event::TimerExpired, 610),
    ];
    for (e, now) in events {
        let fx: Effects = s.handle_event(e, now);
        if let Some(op) = fx.sink {
            sink_calls.push(op);
        }
    }
    assert_eq!(sink_calls, vec![SinkOp::Show, SinkOp::Hide]);
    assert!(!s.visible);
}

#[test]
fn grace_window_boundaries() {
    assert!(is_within_delay_period(Some(100), 100));
    assert!(is_within_delay_period(Some(100), 499));
    assert!(!is_within_delay_period(Some(100), 500));
    assert!(!is_within_delay_period(Some(100), 560));
    assert!(!is_within_delay_period(None, 0));
    // A clock that moved backwards still counts as inside the window.
    assert!(is_within_delay_period(Some(100), 50));
    // No overflow near the top of the range.
    assert!(is_within_delay_period(Some(u64::MAX), 50));
    assert!(is_within_delay_period(Some(u64::MAX - 10), u64::MAX));
}

#[test]
fn expiry_during_overlay_keeps_visible() {
    let mut s = CoreState::new();
    s.handle_event(Event::OverlayChanged { active: true }, 0);
    s.handle_event(Event::KeyDown, 10);
    s.handle_event(Event::KeyUp, 20);
    // Grace expires but the overlay is still active: no hide.
    let fx = s.handle_event(Event::TimerExpired, 480);
    assert_eq!(fx.sink, None);
    assert!(s.visible);
    // Overlay goes away after the grace: now it hides.
    let fx = s.handle_event(Event::OverlayChanged { active: false }, 500);
    assert_eq!(fx.sink, Some(SinkOp::Hide));
    assert!(!s.visible);
}
