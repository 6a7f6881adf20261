use pokakus::led::{
    active_low_level, blink_pattern, is_holding, is_persistent, set_led_state, BlinkPattern,
    Indicator, LedState, RenderCommand, StatusSignal, HOLD_MILLIS,
};

#[test]
fn indicator_pin_is_active_low() {
    assert!(active_low_level(true));
    assert!(!active_low_level(false));
}

#[test]
fn pattern_table_exact() {
    assert_eq!(
        blink_pattern(LedState::PresenceBlink),
        BlinkPattern { on_ms: 30, off_ms: 3000 }
    );
    assert_eq!(
        blink_pattern(LedState::PatientBlink),
        BlinkPattern { on_ms: 500, off_ms: 1000 }
    );
    assert_eq!(
        blink_pattern(LedState::RapidBlink),
        BlinkPattern { on_ms: 100, off_ms: 100 }
    );
    assert_eq!(
        blink_pattern(LedState::Success),
        BlinkPattern { on_ms: 3000, off_ms: 0 }
    );
    assert_eq!(
        blink_pattern(LedState::Failure),
        BlinkPattern { on_ms: 30, off_ms: 70 }
    );
    assert_eq!(
        blink_pattern(LedState::ViolentBlink),
        BlinkPattern { on_ms: 30, off_ms: 70 }
    );
}

#[test]
fn status_classification() {
    assert!(is_persistent(LedState::PresenceBlink));
    assert!(is_persistent(LedState::PatientBlink));
    assert!(!is_persistent(LedState::RapidBlink));
    assert!(!is_persistent(LedState::Success));
    assert!(!is_persistent(LedState::Failure));
    assert!(!is_persistent(LedState::ViolentBlink));

    assert!(is_holding(LedState::Success));
    assert!(is_holding(LedState::Failure));
    assert!(!is_holding(LedState::PresenceBlink));
    assert!(!is_holding(LedState::PatientBlink));
    assert!(!is_holding(LedState::RapidBlink));
    assert!(!is_holding(LedState::ViolentBlink));
}

#[test]
fn signal_last_write_wins() {
    let mut sig = StatusSignal::new();
    assert_eq!(sig.try_take(), None);
    set_led_state(&mut sig, LedState::RapidBlink);
    set_led_state(&mut sig, LedState::ViolentBlink);
    assert_eq!(sig.try_take(), Some(LedState::ViolentBlink));
    assert_eq!(sig.try_take(), None);
}

#[test]
fn preemption_shows_latest() {
    // A long off-phase (presence) is being rendered; a new status arrives and
    // the very next render decision shows its pattern.
    let mut sig = StatusSignal::new();
    let mut ind = Indicator::new();
    ind.adopt(LedState::PresenceBlink);
    let cmd = ind.begin_render();
    assert_eq!(
        cmd,
        RenderCommand::Preemptible { pattern: blink_pattern(LedState::PresenceBlink) }
    );

    set_led_state(&mut sig, LedState::RapidBlink);
    if let Some(new_state) = sig.try_take() {
        ind.adopt(new_state);
    }
    let cmd = ind.begin_render();
    assert_eq!(
        cmd,
        RenderCommand::Preemptible { pattern: blink_pattern(LedState::RapidBlink) }
    );
}

#[test]
fn success_holds_then_reverts_to_presence() {
    // Presence -> Busy -> Success -> (hold ends) -> Presence.
    let mut ind = Indicator::new();
    ind.adopt(LedState::PresenceBlink);
    ind.begin_render();
    ind.adopt(LedState::RapidBlink);
    ind.begin_render();
    ind.adopt(LedState::Success);
    let cmd = ind.begin_render();
    assert_eq!(
        cmd,
        RenderCommand::Hold {
            pattern: blink_pattern(LedState::Success),
            hold_ms: HOLD_MILLIS,
        }
    );
    assert_eq!(HOLD_MILLIS, 3000);
    ind.finish_hold();
    assert_eq!(ind.current, LedState::PresenceBlink);
}

#[test]
fn failure_holds_then_reverts_to_connecting() {
    // Connecting -> Busy -> Failure -> (hold ends) -> Connecting.
    let mut ind = Indicator::new();
    ind.adopt(LedState::PatientBlink);
    ind.begin_render();
    ind.adopt(LedState::RapidBlink);
    ind.begin_render();
    ind.adopt(LedState::Failure);
    let cmd = ind.begin_render();
    assert_eq!(
        cmd,
        RenderCommand::Hold {
            pattern: blink_pattern(LedState::Failure),
            hold_ms: HOLD_MILLIS,
        }
    );
    ind.finish_hold();
    assert_eq!(ind.current, LedState::PatientBlink);
}

#[test]
fn hold_does_not_disturb_revert_target() {
    let mut ind = Indicator::new();
    ind.adopt(LedState::PresenceBlink);
    ind.begin_render();
    ind.adopt(LedState::Success);
    ind.begin_render();
    assert_eq!(ind.last_persistent, LedState::PresenceBlink);
}
