//! The engine's only source of randomness: each worker owns a small,
//! non-cryptographic generator and the planners draw ids from it.

use vstd::prelude::*;

verus! {

/// `rand`'s small pseudo-random generator, opaque to the verifier; workers
/// create one each and the planners only draw from it.
#[verifier::external_type_specification]
#[verifier::external_body]
pub struct ExSmallRng(rand::rngs::SmallRng);

/// Relies on `rand::Rng::gen_range` over a half-open `u64` range: the sample
/// lies uniformly in `[low, high)`, and the call panics only on an empty
/// range, which the precondition excludes. Nothing more is assumed of the
/// value drawn.
#[verifier::external_body]
pub(crate) fn gen_range_u64(rng: &mut rand::rngs::SmallRng, low: u64, high: u64) -> (sample: u64)
    requires
        low < high,
    ensures
        low <= sample < high,
{
    rand::Rng::gen_range(rng, low..high)
}

} // verus!
