//! Operation executors' decision logic and the worker loop's termination
//! rule. Each planner performs the computing half of exactly one logical unit
//! of work: it claims counters, scatters keys and fixes the parameters of the
//! single state-changing request; the request's round trip to the store, and
//! the clock, stay outside the library.

use vstd::prelude::*;

verus! {

use crate::SCATTER_MULTIPLIER;
use crate::error::MyError;
use crate::partition::ThreadRange;
use crate::rng::gen_range_u64;
use crate::scatter::{scatter_for_pk, scatter_for_pk_spec, scatter_id, scatter_spec};
use crate::state::{claim_succeeds, point_claim_step, WorkloadState};

/// The five parameterized operation kinds a trial can run.
#[derive(Clone, Copy, Debug, PartialEq, Eq, Structural)]
pub enum OperationKind {
    Insert,
    PointUpdate,
    RangeUpdate,
    PointDelete,
    RangeDelete,
}

/// The scattered key's derived secondary field is its remainder by this
/// modulus.
pub const SECONDARY_KEY_MODULUS: i64 = 1000;

/// How many rows one range update touches beyond its start.
pub const RANGE_UPDATE_SPAN: u64 = 10;

/// How many ids one range-delete claim takes from the shared cursor.
pub const RANGE_DELETE_BATCH_SIZE: i64 = 3;

impl OperationKind {
    /// Whether the kind consumes a finite resource: the deletes do, and only
    /// they can end a trial before its configured duration.
    pub open spec fn is_finite_spec(self) -> bool {
        self is PointDelete || self is RangeDelete
    }

    /// Executable twin of `is_finite_spec`.
    pub fn is_finite(&self) -> (finite: bool)
        ensures
            finite == self.is_finite_spec(),
    {
        match self {
            OperationKind::PointDelete => true,
            OperationKind::RangeDelete => true,
            _ => false,
        }
    }
}

/// The worker loop's termination rule: keep looping while the wall-clock
/// duration has not elapsed, and — only for finite-resource operations —
/// while the shared countdown still holds unclaimed units. Non-finite
/// operations run strictly until the duration elapses, whatever the counters
/// say.
pub fn should_continue(
    elapsed_ms: u64,
    duration_ms: u64,
    operation: OperationKind,
    remaining_finite_units: i64,
) -> (go_on: bool)
    ensures
        go_on == (elapsed_ms < duration_ms && (!operation.is_finite_spec()
            || remaining_finite_units > 0)),
{
    elapsed_ms < duration_ms && (!operation.is_finite() || remaining_finite_units > 0)
}

/// The parameters of one single-row insert: the scattered primary key and the
/// derived secondary field.
pub struct InsertPlan {
    pub id: i64,
    pub secondary: i64,
}

/// Plans one insert: takes the next value of the monotonic insert counter,
/// maps it through the unbounded-insert scatter, and derives the secondary
/// field as the scattered key's remainder by `SECONDARY_KEY_MODULUS`.
pub fn plan_insert(state: &mut WorkloadState, total_rows: u64) -> (plan: InsertPlan)
    requires
        1 <= total_rows <= i64::MAX,
        total_rows * SCATTER_MULTIPLIER <= i64::MAX,
        0 <= old(state).insert_cursor,
        old(state).insert_cursor + total_rows <= i64::MAX,
    ensures
        plan.id == scatter_for_pk_spec(old(state).insert_cursor as int, total_rows as int),
        0 <= plan.id,
        plan.secondary == plan.id as int % (SECONDARY_KEY_MODULUS as int),
        final(state).insert_cursor == old(state).insert_cursor + 1,
        final(state).remaining_finite_units == old(state).remaining_finite_units,
        final(state).actual_duration_ms == old(state).actual_duration_ms,
        final(state).delete_cursor == old(state).delete_cursor,
        final(state).delete_range_cursor == old(state).delete_range_cursor,
{
    let sequential_id = state.next_insert_id();
    let id = scatter_for_pk(sequential_id, total_rows);
    InsertPlan { id, secondary: id % SECONDARY_KEY_MODULUS }
}

/// Plans one point update: a uniformly random id inside the calling worker's
/// sub-range. The fresh value written to the row is derived from the current
/// time by the caller.
pub fn plan_point_update(rng: &mut rand::rngs::SmallRng, range: &ThreadRange) -> (id: u64)
    requires
        range.start < range.end,
    ensures
        range.start <= id < range.end,
{
    gen_range_u64(rng, range.start, range.end)
}

/// Plans one range update: a uniformly random start inside
/// `[range.start, range.end - RANGE_UPDATE_SPAN)` and the inclusive end
/// `RANGE_UPDATE_SPAN` rows later, so the touched rows stay inside the
/// worker's sub-range.
pub fn plan_range_update(rng: &mut rand::rngs::SmallRng, range: &ThreadRange) -> (span: (u64, u64))
    requires
        range.start + RANGE_UPDATE_SPAN < range.end,
    ensures
        range.start <= span.0,
        span.0 + RANGE_UPDATE_SPAN < range.end,
        span.1 == span.0 + RANGE_UPDATE_SPAN,
{
    let start = gen_range_u64(rng, range.start, range.end - RANGE_UPDATE_SPAN);
    (start, start + RANGE_UPDATE_SPAN)
}

/// Plans one point delete: atomically claims the next unclaimed id and maps
/// it through the scatter to the secondary key the delete aims at. A claim
/// beyond the total row count returns nothing: a silent no-op, not an error.
pub fn plan_point_delete(state: &mut WorkloadState, total_rows: u64) -> (target: Option<i64>)
    requires
        1 <= total_rows <= i64::MAX,
        total_rows * SCATTER_MULTIPLIER <= i64::MAX,
        0 <= old(state).delete_cursor,
        old(state).delete_cursor < i64::MAX,
        old(state).remaining_finite_units > i64::MIN,
    ensures
        target == if claim_succeeds(old(state).delete_cursor as int, total_rows as int) {
            Some(scatter_spec(old(state).delete_cursor as int, total_rows as int) as i64)
        } else {
            None::<i64>
        },
        (final(state).delete_cursor as int, final(state).remaining_finite_units as int)
            == point_claim_step(
            (old(state).delete_cursor as int, old(state).remaining_finite_units as int),
            total_rows as int,
        ),
        final(state).insert_cursor == old(state).insert_cursor,
        final(state).actual_duration_ms == old(state).actual_duration_ms,
        final(state).delete_range_cursor == old(state).delete_range_cursor,
{
    match state.claim_point_delete(total_rows) {
        Some(id) => {
            proof {
                assert(id * SCATTER_MULTIPLIER <= i64::MAX) by (nonlinear_arith)
                    requires
                        0 <= id as int <= total_rows as int - 1,
                        total_rows as int * SCATTER_MULTIPLIER <= i64::MAX,
                        total_rows as int >= 1,
                ;
            }
            Some(scatter_id(id, total_rows))
        },
        None => None,
    }
}

/// Classifies the affected-row count of a delete that succeeded at the
/// protocol level: zero affected rows where a positive count was owed is the
/// reportable consistency error, carrying the key the delete aimed at.
pub fn check_rows_affected(rows_affected: u64, target_key: i64) -> (outcome: Result<(), MyError>)
    ensures
        outcome == if rows_affected > 0 {
            Ok::<(), MyError>(())
        } else {
            Err::<(), MyError>(MyError::NoRowsAffected(target_key))
        },
{
    if rows_affected > 0 {
        Ok(())
    } else {
        Err(MyError::NoRowsAffected(target_key))
    }
}

} // verus!
