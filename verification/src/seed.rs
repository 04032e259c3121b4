//! Seeding plan of the initial data load: the key space is split into
//! ceil-sized per-worker ranges, each worker walks its range in batches, and
//! every row carries its id and the scattered secondary key.

use vstd::prelude::*;

verus! {

use crate::SCATTER_MULTIPLIER;
use crate::scatter::{scatter_id, scatter_spec};

/// How many rows each seeding worker loads: the total split evenly, rounded
/// up so that the workers together cover every row.
pub fn rows_per_worker(total_rows: u64, worker_count: u64) -> (per_worker: u64)
    requires
        worker_count >= 1,
        total_rows + worker_count - 1 <= u64::MAX,
    ensures
        per_worker == (total_rows + worker_count - 1) as int / worker_count as int,
        per_worker * worker_count >= total_rows,
{
    let per_worker = (total_rows + (worker_count - 1)) / worker_count;
    proof {
        let m = total_rows + worker_count - 1;
        let w = worker_count as int;
        vstd::arithmetic::div_mod::lemma_fundamental_div_mod(m, w);
        vstd::arithmetic::div_mod::lemma_mod_bound(m, w);
        assert(per_worker as int * w == w * (m / w)) by (nonlinear_arith)
            requires
                per_worker as int == m / w,
        ;
    }
    per_worker
}

/// The half-open id range seeding worker `worker_id` loads: `per_worker` ids
/// from its offset, clipped to the key space (the range of a surplus worker
/// is empty).
pub fn seed_worker_range(worker_id: u64, total_rows: u64, per_worker: u64) -> (range: (u64, u64))
    requires
        worker_id < u64::MAX,
        (worker_id + 1) * per_worker <= u64::MAX,
    ensures
        range.0 == worker_id * per_worker,
        range.1 == if (worker_id + 1) * per_worker <= total_rows {
            (worker_id + 1) * per_worker
        } else {
            total_rows as int
        },
{
    proof {
        assert(worker_id * per_worker as int <= (worker_id + 1) * per_worker as int)
            by (nonlinear_arith)
            requires
                per_worker >= 0,
        ;
    }
    let start = worker_id * per_worker;
    let upper = (worker_id + 1) * per_worker;
    let end = if upper <= total_rows {
        upper
    } else {
        total_rows
    };
    (start, end)
}

/// One row of the initial load: its sequential primary key and the scattered
/// secondary key.
#[derive(Clone, Copy, Debug, PartialEq, Eq, Structural)]
pub struct SeedRow {
    pub id: i64,
    pub secondary: i64,
}

/// The rows of one insert batch: `chunk_size` consecutive ids from
/// `batch_start`, each with its scattered secondary key.
pub fn seed_batch(batch_start: u64, chunk_size: u64, total_rows: u64) -> (rows: Vec<SeedRow>)
    requires
        1 <= total_rows <= i64::MAX,
        total_rows * SCATTER_MULTIPLIER <= i64::MAX,
        batch_start + chunk_size <= total_rows,
    ensures
        rows@.len() == chunk_size,
        forall|k: int|
            0 <= k < chunk_size ==> {
                &&& (#[trigger] rows@[k]).id == batch_start + k
                &&& rows@[k].secondary == scatter_spec(batch_start + k, total_rows as int)
            },
{
    let mut rows: Vec<SeedRow> = Vec::new();
    let mut k: u64 = 0;
    while k < chunk_size
        invariant
            0 <= k <= chunk_size,
            batch_start + chunk_size <= total_rows,
            1 <= total_rows <= i64::MAX,
            total_rows * SCATTER_MULTIPLIER <= i64::MAX,
            rows@.len() == k,
            forall|j: int|
                0 <= j < k ==> {
                    &&& (#[trigger] rows@[j]).id == batch_start + j
                    &&& rows@[j].secondary == scatter_spec(batch_start + j, total_rows as int)
                },
        decreases chunk_size - k,
    {
        let id = (batch_start + k) as i64;
        proof {
            assert(id * SCATTER_MULTIPLIER <= i64::MAX) by (nonlinear_arith)
                requires
                    0 <= id as int <= total_rows as int - 1,
                    total_rows as int * SCATTER_MULTIPLIER <= i64::MAX,
                    total_rows as int >= 1,
            ;
        }
        let secondary = scatter_id(id, total_rows);
        rows.push(SeedRow { id, secondary });
        k = k + 1;
    }
    rows
}

} // verus!
