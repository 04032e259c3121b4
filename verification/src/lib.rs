//! Core of a concurrent transactional-workload benchmark engine.
//!
//! The library holds the verified logic of the engine: the key scatterer,
//! the range partitioner, the shared workload state and its claim protocol,
//! the per-operation planners, the windowed statistics engine and the
//! comparative reporter. Wall-clock time, the store round trips and the
//! rendering of reports live outside the library and hand it plain values.

pub mod duration;
pub mod error;
pub mod metrics;
pub mod ops;
pub mod partition;
pub mod report;
mod rng;
pub mod scatter;
pub mod seed;
pub mod state;
pub mod stats;

use vstd::prelude::*;

verus! {

/// The fixed multiplier of the key scatterer.
pub const SCATTER_MULTIPLIER: i64 = 16777619;

} // verus!
