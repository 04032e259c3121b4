use bench_autocommit::state::WorkloadState;

#[test]
fn exactly_n_point_claims_succeed_then_claims_are_no_ops() {
    // With the finite resource initialized to 5, the first five claims hand
    // out the five distinct ids, the sixth is a silent no-op.
    let total_rows: u64 = 5;
    let mut state = WorkloadState::new(total_rows as i64);
    let mut claimed = Vec::new();
    for _ in 0..total_rows {
        let id = state.claim_point_delete(total_rows);
        assert!(id.is_some());
        claimed.push(id.unwrap());
    }
    assert_eq!(claimed, vec![0, 1, 2, 3, 4]);
    assert_eq!(state.remaining_finite_units, 0);

    // The (N+1)th claim: no work, no error, no double delete, nothing
    // consumed.
    assert_eq!(state.claim_point_delete(total_rows), None);
    assert_eq!(state.remaining_finite_units, 0);
    assert_eq!(state.claim_point_delete(total_rows), None);
}

#[test]
fn range_claims_consume_only_what_the_key_space_holds() {
    let total_rows: u64 = 10;
    let batch: i64 = 3;
    let mut state = WorkloadState::new(total_rows as i64);
    assert_eq!(state.claim_range_delete(total_rows, batch), Some((0, 2)));
    assert_eq!(state.claim_range_delete(total_rows, batch), Some((3, 5)));
    assert_eq!(state.claim_range_delete(total_rows, batch), Some((6, 8)));
    // The last batch starts inside the key space but sticks out of it: only
    // the one remaining unit is consumed.
    assert_eq!(state.claim_range_delete(total_rows, batch), Some((9, 11)));
    assert_eq!(state.remaining_finite_units, 0);
    assert_eq!(state.claim_range_delete(total_rows, batch), None);
    assert_eq!(state.remaining_finite_units, 0);
}

#[test]
fn insert_cursor_is_monotonic() {
    let mut state = WorkloadState::new(100);
    assert_eq!(state.next_insert_id(), 0);
    assert_eq!(state.next_insert_id(), 1);
    assert_eq!(state.next_insert_id(), 2);
    assert_eq!(state.insert_cursor, 3);
}

#[test]
fn exhaustion_instant_is_recorded_at_most_once() {
    let mut state = WorkloadState::new(1);
    // Not exhausted yet: nothing is recorded.
    state.record_exhaustion(50);
    assert_eq!(state.actual_duration_ms, 0);

    assert_eq!(state.claim_point_delete(1), Some(0));
    assert_eq!(state.remaining_finite_units, 0);

    // The first worker to observe exhaustion records the instant ...
    state.record_exhaustion(100);
    assert_eq!(state.actual_duration_ms, 100);
    // ... and later observers never overwrite it.
    state.record_exhaustion(200);
    assert_eq!(state.actual_duration_ms, 100);
}

#[test]
fn reported_duration_prefers_the_later_stamp() {
    let mut state = WorkloadState::new(0);
    assert_eq!(state.reported_duration_ms(500), 500);
    state.record_exhaustion(300);
    assert_eq!(state.actual_duration_ms, 300);
    assert_eq!(state.reported_duration_ms(200), 300);
    assert_eq!(state.reported_duration_ms(400), 400);
}
