use pokakus::button::{
    process_button_event, ButtonEvent, ClickChannel, DebouncePhase, Debouncer,
    DEBOUNCE_SETTLE_MILLIS,
};

#[test]
fn settle_interval_is_twenty_ms() {
    assert_eq!(DEBOUNCE_SETTLE_MILLIS, 20);
}

#[test]
fn genuine_press_emits_exactly_once() {
    let mut d = Debouncer::new();
    assert!(!d.step(ButtonEvent::FallingEdge));
    assert_eq!(d.phase, DebouncePhase::Settling);
    assert!(d.step(ButtonEvent::SettleElapsed { pressed: true }));
    assert_eq!(d.phase, DebouncePhase::AwaitRelease);
    assert!(!d.step(ButtonEvent::RoseHigh));
    assert_eq!(d.phase, DebouncePhase::Armed);
}

#[test]
fn sub_threshold_bounce_emits_nothing() {
    let mut d = Debouncer::new();
    assert!(!d.step(ButtonEvent::FallingEdge));
    assert!(!d.step(ButtonEvent::SettleElapsed { pressed: false }));
    assert_eq!(d.phase, DebouncePhase::Armed);
}

#[test]
fn chatter_during_release_emits_nothing() {
    let mut d = Debouncer::new();
    d.step(ButtonEvent::FallingEdge);
    assert!(d.step(ButtonEvent::SettleElapsed { pressed: true }));
    // The input chatters while held down: no further events until release.
    assert!(!d.step(ButtonEvent::FallingEdge));
    assert!(!d.step(ButtonEvent::SettleElapsed { pressed: true }));
    assert_eq!(d.phase, DebouncePhase::AwaitRelease);
    assert!(!d.step(ButtonEvent::RoseHigh));
    assert_eq!(d.phase, DebouncePhase::Armed);
}

#[test]
fn click_slot_accepts_one_then_drops() {
    let mut clicks = ClickChannel::new();
    assert!(clicks.offer());
    assert!(!clicks.offer());
    assert!(clicks.try_take());
    assert!(!clicks.try_take());
}

#[test]
fn rapid_presses_coalesce_to_one_event() {
    // Two full press-release cycles with no consumer draining in between
    // yield at most one observable click.
    let mut d = Debouncer::new();
    let mut clicks = ClickChannel::new();
    let cycle = [
        ButtonEvent::FallingEdge,
        ButtonEvent::SettleElapsed { pressed: true },
        ButtonEvent::RoseHigh,
    ];
    for ev in cycle {
        process_button_event(&mut d, &mut clicks, ev);
    }
    for ev in cycle {
        process_button_event(&mut d, &mut clicks, ev);
    }
    assert!(clicks.try_take());
    assert!(!clicks.try_take());
}

#[test]
fn bounce_publishes_no_click() {
    let mut d = Debouncer::new();
    let mut clicks = ClickChannel::new();
    assert!(!process_button_event(&mut d, &mut clicks, ButtonEvent::FallingEdge));
    assert!(!process_button_event(
        &mut d,
        &mut clicks,
        ButtonEvent::SettleElapsed { pressed: false }
    ));
    assert!(!clicks.try_take());
}
