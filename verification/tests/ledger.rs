use remote_unlock::state::State;

const ID: u128 = 0x1234_5678_9abc_def0_1122_3344_5566_7788;

#[test]
fn accept_commit_advances_to_n_plus_one() {
    let mut state = State::new();
    assert!(state.validate_nonce(ID, 42, 0));
    let committed = state.commit_nonce_update(ID);
    assert_eq!(committed, Some(43));
    assert_eq!(state.get_nonce(&ID), Some(&43));
}

#[test]
fn replay_below_committed_is_rejected() {
    let mut state = State::new();
    assert!(state.validate_nonce(ID, 42, 0));
    state.commit_nonce_update(ID);
    // byte-for-byte replay of nonce 42
    assert!(!state.validate_nonce(ID, 42, 0));
    assert_eq!(state.get_nonce(&ID), Some(&43));
}

#[test]
fn boundary_is_at_least_not_strictly_greater() {
    let mut state = State::new();
    assert!(state.validate_nonce(ID, 42, 0));
    state.commit_nonce_update(ID);
    // exactly the next acceptable value passes
    assert!(state.validate_nonce(ID, 43, 0));
    assert_eq!(state.commit_nonce_update(ID), Some(44));
    assert!(!state.validate_nonce(ID, 42, 0));
    assert!(state.validate_nonce(ID, 44, 0));
    assert_eq!(state.commit_nonce_update(ID), Some(45));
    assert_eq!(state.get_nonce(&ID), Some(&45));
}

#[test]
fn rejected_validation_changes_nothing() {
    let mut state = State::new();
    state.update_nonce(ID, 50);
    assert!(!state.validate_nonce(ID, 49, 0));
    assert_eq!(state.get_nonce(&ID), Some(&50));
    // a rollback after a rejection is a no-op too
    state.rollback_nonce_update(ID);
    assert_eq!(state.get_nonce(&ID), Some(&50));
    assert_eq!(state.commit_nonce_update(ID), None);
    assert_eq!(state.get_nonce(&ID), Some(&50));
}

#[test]
fn stored_fallback_resolves_misses() {
    let mut state = State::new();
    // identity unknown in memory: the file value decides
    assert!(!state.validate_nonce(ID, 9, 10));
    assert!(state.validate_nonce(ID, 10, 10));
    assert_eq!(state.commit_nonce_update(ID), Some(11));
    // thereafter the cached value wins over any file reading
    assert!(!state.validate_nonce(ID, 10, 0));
    assert!(state.validate_nonce(ID, 11, 0));
}

#[test]
fn rollback_drops_staged_update_only() {
    let mut state = State::new();
    state.update_nonce(ID, 5);
    assert!(state.validate_nonce(ID, 7, 0));
    state.rollback_nonce_update(ID);
    // nothing was committed
    assert_eq!(state.get_nonce(&ID), Some(&5));
    assert_eq!(state.commit_nonce_update(ID), None);
    assert_eq!(state.get_nonce(&ID), Some(&5));
}

#[test]
fn increment_nonce_counts_from_zero() {
    let mut state = State::new();
    state.increment_nonce(ID);
    assert_eq!(state.get_nonce(&ID), Some(&1));
    state.increment_nonce(ID);
    assert_eq!(state.get_nonce(&ID), Some(&2));
}
