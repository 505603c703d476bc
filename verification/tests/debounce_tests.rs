use strategem_hero::debounce::{FreezeState, InputFreeze};

#[test]
fn threshold_pings_freeze_then_fire_once() {
    let threshold = 10;
    let mut freeze = InputFreeze::new(threshold);
    for _ in 0..threshold {
        assert!(matches!(freeze.ping(), FreezeState::Freezed));
    }
    assert!(matches!(freeze.ping(), FreezeState::Completed));
    // After firing it behaves as freshly reset.
    for _ in 0..threshold {
        assert!(matches!(freeze.ping(), FreezeState::Freezed));
    }
    assert!(matches!(freeze.ping(), FreezeState::Completed));
}

#[test]
fn smallest_threshold_fires_on_second_ping() {
    let mut freeze = InputFreeze::new(1);
    assert!(matches!(freeze.ping(), FreezeState::Freezed));
    assert!(matches!(freeze.ping(), FreezeState::Completed));
    assert!(matches!(freeze.ping(), FreezeState::Freezed));
}

#[test]
fn reset_forces_back_to_rest() {
    let mut freeze = InputFreeze::new(5);
    assert!(matches!(freeze.ping(), FreezeState::Freezed));
    assert!(matches!(freeze.ping(), FreezeState::Freezed));
    freeze.reset();
    // Counting starts over: five Freezed pings again before it fires.
    for _ in 0..5 {
        assert!(matches!(freeze.ping(), FreezeState::Freezed));
    }
    assert!(matches!(freeze.ping(), FreezeState::Completed));
}
