use lint_kbd::constants::{DEBOUNCE_THRESHOLD, KEY_NUM};
use lint_kbd::debounce::{key_events, DebounceKeyStates, KeyDiffTrait, KeyDiffs, PingPongKeyStates};
use lint_kbd::key_state::{BitKeyStates, KeyStates};

fn no_diff(diff: &KeyDiffs) -> bool {
    (0..KEY_NUM).all(|i| !diff.is_different(i))
}

#[test]
fn debounce_stability_single_toggle() {
    // A constant disagreeing sample charges the counter for THRESHOLD cycles
    // with no toggle, then toggles exactly once, after which the stable state
    // equals the sample.
    let mut states = PingPongKeyStates::default();
    let sample: BitKeyStates = [0b0000_0001];
    for _ in 0..DEBOUNCE_THRESHOLD {
        let diff = states.debounce(&sample);
        assert!(no_diff(&diff));
        assert!(!states.is_pressed(0));
    }
    let diff = states.debounce(&sample);
    assert!(diff.is_different(0));
    for i in 1..KEY_NUM {
        assert!(!diff.is_different(i));
    }
    assert!(states.is_pressed(0));
    // Holding the sample afterwards reports nothing further.
    let diff = states.debounce(&sample);
    assert!(no_diff(&diff));
    assert!(states.is_pressed(0));
}

#[test]
fn debounce_rejection_before_threshold() {
    // Disagreement broken before the threshold never toggles, and the counter
    // drains back, so a fresh full run is needed afterwards.
    let mut states = PingPongKeyStates::default();
    let active: BitKeyStates = [0b0000_0001];
    let idle: BitKeyStates = [0b0000_0000];
    for _ in 0..DEBOUNCE_THRESHOLD {
        let diff = states.debounce(&active);
        assert!(no_diff(&diff));
    }
    // One agreeing sample drains the counter by one, so the toggle that was
    // one cycle away moves two cycles away.
    let diff = states.debounce(&idle);
    assert!(no_diff(&diff));
    let diff = states.debounce(&active);
    assert!(no_diff(&diff));
    let diff = states.debounce(&active);
    assert!(diff.is_different(0));
    assert!(states.is_pressed(0));
}

#[test]
fn debounce_rejection_drains_to_zero() {
    // A long agreeing run drains everything; no toggle ever fires.
    let mut states = PingPongKeyStates::default();
    let active: BitKeyStates = [0b0000_0001];
    let idle: BitKeyStates = [0b0000_0000];
    for _ in 0..50 {
        let diff = states.debounce(&active);
        assert!(no_diff(&diff));
    }
    for _ in 0..200 {
        let diff = states.debounce(&idle);
        assert!(no_diff(&diff));
        assert!(!states.is_pressed(0));
    }
    // After draining, a toggle again needs the full charge.
    for _ in 0..DEBOUNCE_THRESHOLD {
        let diff = states.debounce(&active);
        assert!(no_diff(&diff));
    }
    let diff = states.debounce(&active);
    assert!(diff.is_different(0));
}

#[test]
fn debounce_release_direction() {
    // The algorithm is symmetric: a pressed key releases through the same
    // charged run.
    let mut states = PingPongKeyStates::default();
    let active: BitKeyStates = [0b0000_0010];
    let idle: BitKeyStates = [0b0000_0000];
    for _ in 0..DEBOUNCE_THRESHOLD + 1 {
        states.debounce(&active);
    }
    assert!(states.is_pressed(1));
    for _ in 0..DEBOUNCE_THRESHOLD {
        let diff = states.debounce(&idle);
        assert!(no_diff(&diff));
        assert!(states.is_pressed(1));
    }
    let diff = states.debounce(&idle);
    assert!(diff.is_different(1));
    assert!(!states.is_pressed(1));
}

#[test]
fn debounce_keys_independent() {
    // Two keys charge independently; a toggle on one does not disturb the
    // other.
    let mut states = PingPongKeyStates::default();
    let both: BitKeyStates = [0b0000_0101];
    let one: BitKeyStates = [0b0000_0100];
    for _ in 0..50 {
        let diff = states.debounce(&both);
        assert!(no_diff(&diff));
    }
    for _ in 0..50 {
        let diff = states.debounce(&one);
        assert!(no_diff(&diff));
    }
    let diff = states.debounce(&one);
    assert!(diff.is_different(2));
    assert!(!diff.is_different(0));
    assert!(states.is_pressed(2));
    assert!(!states.is_pressed(0));
}

#[test]
fn key_states_toggle_and_read() {
    let mut bits: BitKeyStates = [0u8; 1];
    assert!(!bits.is_pressed(3));
    bits.toggle(3);
    assert!(bits.is_pressed(3));
    assert!(!bits.is_pressed(2));
    assert!(!bits.is_pressed(4));
    bits.toggle(3);
    assert!(!bits.is_pressed(3));
}

#[test]
fn key_diffs_set_and_read() {
    let mut diff = KeyDiffs::default();
    assert!(no_diff(&diff));
    diff.set_different(5);
    assert!(diff.is_different(5));
    assert!(!diff.is_different(4));
    assert!(!diff.is_different(6));
}

#[test]
fn key_events_from_diff() {
    // One full press run on keys 0 and 7 yields one event per key, in index
    // order, both pressed.
    let mut states = PingPongKeyStates::default();
    let sample: BitKeyStates = [0b1000_0001];
    let mut last = KeyDiffs::default();
    for _ in 0..DEBOUNCE_THRESHOLD + 1 {
        last = states.debounce(&sample);
    }
    let events = key_events(&states, &last);
    assert_eq!(events.len(), 2);
    assert_eq!(events[0].key_index, 0);
    assert!(events[0].is_pressed);
    assert_eq!(events[1].key_index, 7);
    assert!(events[1].is_pressed);
}
