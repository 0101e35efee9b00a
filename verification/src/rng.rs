use vstd::prelude::*;

verus! {

/// Relies on `rand::Rng::gen_range` over a `u64` range, with
/// `rand::thread_rng` as the generator: the drawn value lies in
/// `[low, high)`.  `gen_range` panics on an empty range, so a non-empty one
/// is required; beyond the bounds nothing is assumed of the draw.
#[verifier::external_body]
pub(crate) fn gen_range_u64(low: u64, high: u64) -> (r: u64)
    requires
        low < high,
    ensures
        low <= r < high,
{
    rand::Rng::gen_range(&mut rand::thread_rng(), low..high)
}

} // verus!
