use vstd::prelude::*;

verus! {

/// Bound on the arguments of `random_between`: every integer of that size is
/// exact as an `f64`.
pub const RANDOM_BOUND: i64 = 4_503_599_627_370_496;

/// Relies on `macroquad::rand::gen_range` for `i64`: it draws `r` in `[0, 1)`
/// from the global generator and returns `low + (high - low) * r` computed in
/// `f64` and cast back, which lies between `low` and `high` when both are exact
/// as `f64`. For small non-negative bounds the sum is exact, so the truncation
/// stays below `high`. The value depends on the generator's state.
#[verifier::external_body]
pub(crate) fn random_between(low: i64, high: i64) -> (r: i64)
    requires
        -RANDOM_BOUND <= low <= high <= RANDOM_BOUND,
    ensures
        low <= r <= high,
        0 <= low < high <= 1_048_576 ==> r < high,
{
    macroquad::rand::gen_range(low, high)
}

} // verus!
