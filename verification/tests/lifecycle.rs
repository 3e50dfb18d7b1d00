use eoip_rs::tunnel::lifecycle::{is_valid_transition, AtomicTunnelState, TunnelState};

#[test]
fn roundtrip_all_states() {
    for v in 0..=5u8 {
        let state = TunnelState::from_u8(v).unwrap();
        assert_eq!(state as u8, v);
        assert_eq!(state.code(), v);
    }
    assert!(TunnelState::from_u8(6).is_none());
    assert!(TunnelState::from_u8(255).is_none());
}

#[test]
fn valid_transitions() {
    let valid = [
        (TunnelState::Initializing, TunnelState::Configured),
        (TunnelState::Configured, TunnelState::Active),
        (TunnelState::Active, TunnelState::Stale),
        (TunnelState::Stale, TunnelState::Active),
        (TunnelState::Active, TunnelState::TearingDown),
        (TunnelState::Stale, TunnelState::TearingDown),
        (TunnelState::Configured, TunnelState::TearingDown),
        (TunnelState::Initializing, TunnelState::TearingDown),
        (TunnelState::TearingDown, TunnelState::Destroyed),
    ];
    for (from, to) in valid {
        assert!(
            is_valid_transition(from, to),
            "{from:?} -> {to:?} should be valid"
        );
    }
}

#[test]
fn invalid_transitions() {
    let invalid = [
        (TunnelState::Destroyed, TunnelState::Active),
        (TunnelState::Destroyed, TunnelState::Initializing),
        (TunnelState::Active, TunnelState::Configured),
        (TunnelState::Active, TunnelState::Initializing),
        (TunnelState::Stale, TunnelState::Configured),
        (TunnelState::Configured, TunnelState::Stale),
        (TunnelState::Initializing, TunnelState::Active),
        (TunnelState::Initializing, TunnelState::Stale),
    ];
    for (from, to) in invalid {
        assert!(
            !is_valid_transition(from, to),
            "{from:?} -> {to:?} should be invalid"
        );
    }
}

#[test]
fn atomic_state_transition() {
    let mut state = AtomicTunnelState::new(TunnelState::Initializing);
    assert_eq!(state.load(), TunnelState::Initializing);

    // Valid transition
    state.transition(TunnelState::Initializing, TunnelState::Configured).unwrap();
    assert_eq!(state.load(), TunnelState::Configured);

    // Invalid transition (skip Active)
    let err = state
        .transition(TunnelState::Configured, TunnelState::Stale)
        .unwrap_err();
    assert_eq!(err, TunnelState::Configured);

    // Exchange failure (wrong from state)
    let err = state
        .transition(TunnelState::Initializing, TunnelState::Configured)
        .unwrap_err();
    assert_eq!(err, TunnelState::Configured);
}

#[test]
fn full_lifecycle() {
    let mut state = AtomicTunnelState::new(TunnelState::Initializing);
    state.transition(TunnelState::Initializing, TunnelState::Configured).unwrap();
    state.transition(TunnelState::Configured, TunnelState::Active).unwrap();
    state.transition(TunnelState::Active, TunnelState::Stale).unwrap();
    state.transition(TunnelState::Stale, TunnelState::Active).unwrap(); // recovery
    state.transition(TunnelState::Active, TunnelState::TearingDown).unwrap();
    state.transition(TunnelState::TearingDown, TunnelState::Destroyed).unwrap();
    assert_eq!(state.load(), TunnelState::Destroyed);
}

#[test]
fn destroyed_is_final_for_every_request() {
    let states = [
        TunnelState::Initializing,
        TunnelState::Configured,
        TunnelState::Active,
        TunnelState::Stale,
        TunnelState::TearingDown,
        TunnelState::Destroyed,
    ];
    for from in states {
        for to in states {
            let mut state = AtomicTunnelState::new(TunnelState::Destroyed);
            assert_eq!(state.transition(from, to), Err(TunnelState::Destroyed));
            assert_eq!(state.load(), TunnelState::Destroyed);
        }
    }
}
