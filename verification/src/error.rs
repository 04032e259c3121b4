//! The engine's error taxonomy. Per-iteration errors are absorbed into the
//! metrics' error counter by the worker loop; only setup-phase errors abort a
//! run, and the surrounding program decides that.

use vstd::prelude::*;

verus! {

/// What can go wrong inside the engine's own logic. Errors of the external
/// store or pool stay outside the library and are only counted.
#[derive(Clone, Copy, Debug, PartialEq, Eq, Structural)]
pub enum MyError {
    /// A duration string does not end in a known unit (`ms`, `s` or `m`).
    InvalidDurationUnit,
    /// The numeric part of a duration string is empty or not all digits.
    InvalidDurationNumber,
    /// The duration does not fit in 64 bits of milliseconds.
    DurationOverflow,
    /// A delete touched zero rows where a positive count was owed: a data
    /// consistency signal, reportable but not fatal, since concurrent deletes
    /// may legitimately race. Carries the key the delete aimed at.
    NoRowsAffected(i64),
    /// A statistics window of a compared trial holds no samples: fatal to the
    /// comparative report of that operation, since a diff without data would
    /// mislead.
    NoDataInWindow,
}

} // verus!
