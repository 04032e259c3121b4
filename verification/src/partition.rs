//! Range partitioner: divides a key space of `total_rows` ids into
//! `total_threads` contiguous, gap-free, non-overlapping sub-ranges, one per
//! worker, the last sub-range absorbing any remainder.

use vstd::prelude::*;

verus! {

/// A worker's exclusive half-open sub-interval `[start, end)` of the key
/// space, computed once at spawn time and immutable for the worker's
/// lifetime.
pub struct ThreadRange {
    pub start: u64,
    pub end: u64,
}

/// The size of every sub-range but the last.
pub open spec fn chunk_size(total_threads: int, total_rows: int) -> int
    recommends
        total_threads >= 1,
{
    total_rows / total_threads
}

/// Where the sub-range of worker `thread_id` begins.
pub open spec fn range_start(thread_id: int, total_threads: int, total_rows: int) -> int {
    thread_id * chunk_size(total_threads, total_rows)
}

/// Where the sub-range of worker `thread_id` ends: one chunk after its start,
/// except that the last worker absorbs the remainder.
pub open spec fn range_end(thread_id: int, total_threads: int, total_rows: int) -> int {
    if thread_id == total_threads - 1 {
        total_rows
    } else {
        range_start(thread_id, total_threads, total_rows) + chunk_size(total_threads, total_rows)
    }
}

impl ThreadRange {
    /// The sub-range of worker `thread_id` among `total_threads` workers over
    /// a key space of `total_rows` ids. When `total_rows < total_threads` the
    /// ranges of all but the last worker degenerate to zero length; callers
    /// that cannot accept that must guard against it.
    pub fn new(thread_id: u64, total_threads: u64, total_rows: u64) -> (r: Self)
        requires
            1 <= total_threads,
            thread_id < total_threads,
        ensures
            r.start == range_start(thread_id as int, total_threads as int, total_rows as int),
            r.end == range_end(thread_id as int, total_threads as int, total_rows as int),
            r.start <= r.end <= total_rows,
    {
        let range_size = total_rows / total_threads;

        proof {
            let t = total_threads as int;
            let n = total_rows as int;
            let c = chunk_size(t, n);
            vstd::arithmetic::div_mod::lemma_fundamental_div_mod(n, t);
            vstd::arithmetic::div_mod::lemma_mod_bound(n, t);
            // Every start and non-last end is at most `total_rows`.
            assert(0 <= (thread_id as int) * c && (thread_id as int) * c + c <= t * c && t * c
                <= n) by (nonlinear_arith)
                requires
                    0 <= thread_id as int <= t - 1,
                    c >= 0,
                    n == t * c + n % t,
                    n % t >= 0,
            ;
        }

        let start = thread_id * range_size;
        let end = if thread_id == total_threads - 1 {
            total_rows
        } else {
            start + range_size
        };
        ThreadRange { start, end }
    }
}

/// No two sub-ranges overlap: a worker's range ends no later than any later
/// worker's range begins.
pub proof fn lemma_partition_disjoint(i: int, j: int, total_threads: int, total_rows: int)
    requires
        total_threads >= 1,
        total_rows >= 0,
        0 <= i < j < total_threads,
    ensures
        range_end(i, total_threads, total_rows) <= range_start(j, total_threads, total_rows),
{
    let c = chunk_size(total_threads, total_rows);
    vstd::arithmetic::div_mod::lemma_div_pos_is_pos(total_rows, total_threads);
    assert(i * c + c == (i + 1) * c <= j * c) by (nonlinear_arith)
        requires
            i + 1 <= j,
            c >= 0,
    ;
}

/// No gaps: every id of `[0, total_rows)` falls in some worker's sub-range,
/// provided there are no more workers than ids. Together with
/// `lemma_partition_disjoint` and the bounds of `ThreadRange::new`, the union
/// of all sub-ranges is exactly `[0, total_rows)`.
pub proof fn lemma_partition_covers(k: int, total_threads: int, total_rows: int)
    requires
        1 <= total_threads <= total_rows,
        0 <= k < total_rows,
    ensures
        exists|i: int|
            0 <= i < total_threads && #[trigger] range_start(i, total_threads, total_rows) <= k
                < range_end(i, total_threads, total_rows),
{
    let t = total_threads;
    let n = total_rows;
    let c = chunk_size(t, n);
    vstd::arithmetic::div_mod::lemma_div_is_ordered(t, n, t);
    vstd::arithmetic::div_mod::lemma_div_by_self(t);
    assert(c >= 1);
    vstd::arithmetic::div_mod::lemma_fundamental_div_mod(k, c);
    vstd::arithmetic::div_mod::lemma_mod_bound(k, c);
    if k / c < t - 1 {
        let i = k / c;
        assert(i >= 0) by {
            vstd::arithmetic::div_mod::lemma_div_pos_is_pos(k, c);
        }
        assert(i * c <= k < i * c + c) by (nonlinear_arith)
            requires
                k == c * i + k % c,
                0 <= k % c < c,
        ;
        assert(range_start(i, t, n) <= k < range_end(i, t, n));
    } else {
        let i = t - 1;
        assert((t - 1) * c <= (k / c) * c <= k) by (nonlinear_arith)
            requires
                t - 1 <= k / c,
                c >= 1,
                k == c * (k / c) + k % c,
                0 <= k % c,
        ;
        assert(range_start(i, t, n) <= k < range_end(i, t, n));
    }
}

} // verus!
