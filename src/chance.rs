//! Random draws for the simulation, taken from a `StdRng` that the caller owns.
use rand::rngs::StdRng;
use rand::Rng;
use vstd::prelude::*;

verus! {

/// rand's `StdRng`, carried through as an opaque value: nothing is assumed
/// of what it holds.
#[verifier::external_type_specification]
#[verifier::external_body]
pub struct ExStdRng(StdRng);

/// Relies on rand's `Rng::gen_range`: a sample of a non-empty half-open
/// integer range lies in that range (an empty range panics, hence `requires`).
#[verifier::external_body]
pub(crate) fn sample_range(rng: &mut StdRng, lo: i64, hi: i64) -> (r: i64)
    requires
        lo < hi,
    ensures
        lo <= r < hi,
{
    rng.gen_range(lo..hi)
}

/// Relies on rand's `Rng::gen_ratio`: `true` with chance `num / den`; never for
/// `num == 0`, always for `num == den` (other arguments panic, hence `requires`).
#[verifier::external_body]
pub(crate) fn sample_ratio(rng: &mut StdRng, num: u32, den: u32) -> (r: bool)
    requires
        0 < den,
        num <= den,
    ensures
        num == 0 ==> !r,
        num == den ==> r,
{
    rng.gen_ratio(num, den)
}

/// A uniform index below `n`, which must be positive.
pub fn draw_index(rng: &mut StdRng, n: usize) -> (r: usize)
    requires
        0 < n,
        n <= i64::MAX,
    ensures
        r < n,
{
    let v = sample_range(rng, 0, n as i64);
    v as usize
}

} // verus!
