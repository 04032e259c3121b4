use bench_autocommit::error::MyError;
use bench_autocommit::ops::{
    check_rows_affected, plan_insert, plan_point_delete, plan_point_update, plan_range_update,
    should_continue, OperationKind,
};
use bench_autocommit::partition::ThreadRange;
use bench_autocommit::state::WorkloadState;
use rand::SeedableRng;

#[test]
fn non_finite_operations_run_until_the_duration_elapses() {
    // Updates and inserts ignore the finite counter entirely.
    assert!(should_continue(10, 100, OperationKind::Insert, 0));
    assert!(should_continue(10, 100, OperationKind::PointUpdate, -3));
    assert!(should_continue(10, 100, OperationKind::RangeUpdate, 0));
    assert!(!should_continue(100, 100, OperationKind::Insert, 5));
}

#[test]
fn finite_operations_stop_on_exhaustion() {
    assert!(should_continue(10, 100, OperationKind::PointDelete, 1));
    assert!(!should_continue(10, 100, OperationKind::PointDelete, 0));
    assert!(!should_continue(10, 100, OperationKind::RangeDelete, -1));
    assert!(!should_continue(100, 100, OperationKind::PointDelete, 5));
}

#[test]
fn insert_plans_scatter_the_monotonic_counter() {
    let mut state = WorkloadState::new(1000);
    let first = plan_insert(&mut state, 1000);
    assert_eq!(first.id, 0);
    assert_eq!(first.secondary, 0);
    let second = plan_insert(&mut state, 1000);
    assert_eq!(second.id, 619);
    assert_eq!(second.secondary, 619);
    let third = plan_insert(&mut state, 1000);
    assert_eq!(third.id, 238);
    assert_eq!(state.insert_cursor, 3);
}

#[test]
fn insert_plans_derive_the_secondary_key_by_modulus() {
    let mut state = WorkloadState::new(0);
    state.insert_cursor = 1500;
    // Sequential id 1500 over 1000 rows scatters to 1500 (region 1, offset
    // 500 -> 500); the secondary key is its remainder by 1000.
    let plan = plan_insert(&mut state, 1000);
    assert_eq!(plan.id, 1500);
    assert_eq!(plan.secondary, 500);
}

#[test]
fn point_update_draws_inside_the_worker_range() {
    let mut rng = rand::rngs::SmallRng::seed_from_u64(42);
    let range = ThreadRange::new(1, 4, 24);
    for _ in 0..50 {
        let id = plan_point_update(&mut rng, &range);
        assert!(range.start <= id && id < range.end);
    }
    // A one-id range pins the draw: the generator cannot hand back anything
    // but that id.
    let single = ThreadRange::new(5, 24, 24);
    assert_eq!(plan_point_update(&mut rng, &single), 5);
}

#[test]
fn range_update_spans_stay_inside_the_worker_range() {
    let mut rng = rand::rngs::SmallRng::seed_from_u64(7);
    let range = ThreadRange::new(0, 1, 100);
    for _ in 0..50 {
        let (start, end) = plan_range_update(&mut rng, &range);
        assert!(range.start <= start);
        assert_eq!(end, start + 10);
        assert!(end < range.end);
    }
}

#[test]
fn point_deletes_claim_each_scattered_key_once() {
    // Over 5 rows the multiplier reduces to 4, so the claims 0..4 scatter to
    // 0, 4, 3, 2, 1 — a permutation, each key deleted once.
    let mut state = WorkloadState::new(5);
    let mut targets = Vec::new();
    for _ in 0..5 {
        targets.push(plan_point_delete(&mut state, 5).unwrap());
    }
    assert_eq!(targets, vec![0, 4, 3, 2, 1]);
    assert_eq!(state.remaining_finite_units, 0);
    assert_eq!(plan_point_delete(&mut state, 5), None);
}

#[test]
fn zero_affected_rows_is_a_consistency_error() {
    assert_eq!(check_rows_affected(3, 17), Ok(()));
    assert_eq!(check_rows_affected(0, 17), Err(MyError::NoRowsAffected(17)));
}
