//! Shared workload state: the counters that all workers of one trial share.
//! The program wraps one `WorkloadState` per trial in its concurrency
//! primitive of choice and serializes each claim; the library states what
//! every single claim does, and what any sequence of claims therefore does.

use vstd::prelude::*;

verus! {

/// The mutable state one trial shares among its workers: the finite-resource
/// countdown, the monotonic cursors of the three counter-driven operations,
/// and the once-only record of the instant the finite resource ran out.
pub struct WorkloadState {
    /// How many units of the finite resource (rows to delete) are left.
    /// Monotonically decreasing; at or below zero means exhausted.
    pub remaining_finite_units: i64,
    /// The elapsed milliseconds at the moment of exhaustion, recorded at most
    /// once; zero while unset.
    pub actual_duration_ms: u64,
    /// Next sequential id handed to an insert.
    pub insert_cursor: i64,
    /// Next unclaimed id of the point-delete workload.
    pub delete_cursor: i64,
    /// Next unclaimed batch start of the range-delete workload.
    pub delete_range_cursor: i64,
}

/// Whether a point-delete claim at this cursor position finds work: only
/// cursors below the configured total do.
pub open spec fn claim_succeeds(cursor: int, total_rows: int) -> bool {
    cursor < total_rows
}

/// How one point-delete claim moves the pair (delete cursor, remaining
/// units): the cursor always advances by one, and a successful claim consumes
/// one unit.
pub open spec fn point_claim_step(s: (int, int), total_rows: int) -> (int, int) {
    if claim_succeeds(s.0, total_rows) {
        (s.0 + 1, s.1 - 1)
    } else {
        (s.0 + 1, s.1)
    }
}

/// The pair (delete cursor, remaining units) after `claim_count` point-delete
/// claims on a state freshly created for `total_rows` rows.
pub open spec fn state_after_point_claims(total_rows: int, claim_count: nat) -> (int, int)
    decreases claim_count,
{
    if claim_count == 0 {
        (0, total_rows)
    } else {
        point_claim_step(
            state_after_point_claims(total_rows, (claim_count - 1) as nat),
            total_rows,
        )
    }
}

/// How many units a range-delete claim starting at `start` consumes: a full
/// batch inside the key space, the tail of the key space at its edge, nothing
/// beyond it.
pub open spec fn range_claim_units(start: int, batch_size: int, total_rows: int) -> int {
    if start >= total_rows {
        0
    } else if start + batch_size <= total_rows {
        batch_size
    } else {
        total_rows - start
    }
}

impl WorkloadState {
    /// Fresh state for one trial over `total_rows` rows: the full finite
    /// resource, all cursors at zero, no exhaustion instant recorded.
    pub fn new(total_rows: i64) -> (s: Self)
        requires
            total_rows >= 0,
        ensures
            s.remaining_finite_units == total_rows,
            s.actual_duration_ms == 0,
            s.insert_cursor == 0,
            s.delete_cursor == 0,
            s.delete_range_cursor == 0,
    {
        WorkloadState {
            remaining_finite_units: total_rows,
            actual_duration_ms: 0,
            insert_cursor: 0,
            delete_cursor: 0,
            delete_range_cursor: 0,
        }
    }

    /// Hands out the next sequential insert id (post-increment).
    pub fn next_insert_id(&mut self) -> (id: i64)
        requires
            old(self).insert_cursor < i64::MAX,
        ensures
            id == old(self).insert_cursor,
            final(self).insert_cursor == old(self).insert_cursor + 1,
            final(self).remaining_finite_units == old(self).remaining_finite_units,
            final(self).actual_duration_ms == old(self).actual_duration_ms,
            final(self).delete_cursor == old(self).delete_cursor,
            final(self).delete_range_cursor == old(self).delete_range_cursor,
    {
        let id = self.insert_cursor;
        self.insert_cursor = self.insert_cursor + 1;
        id
    }

    /// Claims the next unclaimed id for a point delete (post-increment by
    /// one). A claim beyond the total row count finds no work and returns
    /// nothing — a silent no-op, not an error — and consumes no unit.
    pub fn claim_point_delete(&mut self, total_rows: u64) -> (claimed: Option<i64>)
        requires
            total_rows <= i64::MAX,
            old(self).delete_cursor < i64::MAX,
            old(self).remaining_finite_units > i64::MIN,
        ensures
            claimed == if claim_succeeds(old(self).delete_cursor as int, total_rows as int) {
                Some(old(self).delete_cursor)
            } else {
                None::<i64>
            },
            (final(self).delete_cursor as int, final(self).remaining_finite_units as int)
                == point_claim_step(
                (old(self).delete_cursor as int, old(self).remaining_finite_units as int),
                total_rows as int,
            ),
            final(self).insert_cursor == old(self).insert_cursor,
            final(self).actual_duration_ms == old(self).actual_duration_ms,
            final(self).delete_range_cursor == old(self).delete_range_cursor,
    {
        let id = self.delete_cursor;
        self.delete_cursor = self.delete_cursor + 1;
        if id < total_rows as i64 {
            self.remaining_finite_units = self.remaining_finite_units - 1;
            Some(id)
        } else {
            None
        }
    }

    /// Claims the next unclaimed batch for a range delete (post-increment by
    /// the batch size), returning the claimed inclusive key range. A claim
    /// whose start lies beyond the total row count is a silent no-op; a
    /// successful claim consumes as many units as the key space still holds
    /// of its batch.
    pub fn claim_range_delete(&mut self, total_rows: u64, batch_size: i64) -> (claimed: Option<
        (i64, i64),
    >)
        requires
            total_rows <= i64::MAX,
            batch_size >= 1,
            old(self).delete_range_cursor >= 0,
            old(self).delete_range_cursor + batch_size <= i64::MAX,
            old(self).remaining_finite_units - batch_size >= i64::MIN,
        ensures
            claimed == if claim_succeeds(old(self).delete_range_cursor as int, total_rows as int) {
                Some(
                    (
                        old(self).delete_range_cursor,
                        (old(self).delete_range_cursor + batch_size - 1) as i64,
                    ),
                )
            } else {
                None::<(i64, i64)>
            },
            final(self).delete_range_cursor == old(self).delete_range_cursor + batch_size,
            final(self).remaining_finite_units == old(self).remaining_finite_units
                - range_claim_units(
                old(self).delete_range_cursor as int,
                batch_size as int,
                total_rows as int,
            ),
            final(self).insert_cursor == old(self).insert_cursor,
            final(self).actual_duration_ms == old(self).actual_duration_ms,
            final(self).delete_cursor == old(self).delete_cursor,
    {
        let start = self.delete_range_cursor;
        self.delete_range_cursor = self.delete_range_cursor + batch_size;
        if start < total_rows as i64 {
            if total_rows as i64 - start < batch_size {
                self.remaining_finite_units = self.remaining_finite_units - (total_rows as i64
                    - start);
            } else {
                self.remaining_finite_units = self.remaining_finite_units - batch_size;
            }
            Some((start, start + batch_size - 1))
        } else {
            None
        }
    }

    /// Records the elapsed time at the moment of exhaustion, at most once
    /// across all workers: only while the finite resource is spent and no
    /// instant has been recorded yet does the value change; a later call
    /// never turns the recorded instant backward.
    pub fn record_exhaustion(&mut self, elapsed_ms: u64)
        requires
            elapsed_ms > 0,
        ensures
            final(self).actual_duration_ms == if old(self).remaining_finite_units <= 0 && old(
                self,
            ).actual_duration_ms == 0 {
                elapsed_ms
            } else {
                old(self).actual_duration_ms
            },
            final(self).remaining_finite_units == old(self).remaining_finite_units,
            final(self).insert_cursor == old(self).insert_cursor,
            final(self).delete_cursor == old(self).delete_cursor,
            final(self).delete_range_cursor == old(self).delete_range_cursor,
    {
        if self.remaining_finite_units <= 0 && self.actual_duration_ms == 0 {
            self.actual_duration_ms = elapsed_ms;
        }
    }

    /// The duration a trial reports for throughput: the exhaustion instant
    /// where the resource ran out early (the earlier, more precise stamp),
    /// the full elapsed wall-clock time otherwise.
    pub fn reported_duration_ms(&self, wall_clock_elapsed_ms: u64) -> (d: u64)
        ensures
            d == if self.actual_duration_ms >= wall_clock_elapsed_ms {
                self.actual_duration_ms
            } else {
                wall_clock_elapsed_ms
            },
    {
        if self.actual_duration_ms >= wall_clock_elapsed_ms {
            self.actual_duration_ms
        } else {
            wall_clock_elapsed_ms
        }
    }
}

/// With the finite resource initialized to `total_rows`, any sequence of
/// point-delete claims — however it interleaves across workers — behaves as
/// follows: the claim made at position `k` (zero-based) succeeds exactly for
/// the first `total_rows` positions and hands out id `k`, so every id is
/// claimed once and never twice; after exactly `total_rows` successful claims
/// the resource reads zero, and every later claim — the `(total_rows + 1)`th
/// and beyond — finds nothing and consumes nothing.
pub proof fn lemma_finite_claims_exhaust(total_rows: int, claim_count: nat)
    requires
        total_rows >= 0,
    ensures
        state_after_point_claims(total_rows, claim_count).0 == claim_count,
        state_after_point_claims(total_rows, claim_count).1 == if claim_count <= total_rows {
            total_rows - claim_count
        } else {
            0
        },
        claim_succeeds(state_after_point_claims(total_rows, claim_count).0, total_rows)
            <==> claim_count < total_rows,
    decreases claim_count,
{
    if claim_count > 0 {
        lemma_finite_claims_exhaust(total_rows, (claim_count - 1) as nat);
    }
}

} // verus!
