use vstd::prelude::*;

verus! {

/// The value `oorandom::Rand64::new(seed).rand_range(lo..hi)` draws.
pub uninterp spec fn rand_range_of(seed: u64, lo: u64, hi: u64) -> u64;

/// Relies on `oorandom::Rand64::new` and `Rand64::rand_range`: a generator
/// seeded with `seed` is deterministic, so the value drawn depends on the
/// arguments alone, and `rand_range` returns a value in `[lo, hi)` when
/// `lo < hi`.
#[verifier::external_body]
pub(crate) fn draw_range(seed: u64, lo: u64, hi: u64) -> (r: u64)
    requires
        lo < hi,
    ensures
        r == rand_range_of(seed, lo, hi),
        lo <= r < hi,
{
    oorandom::Rand64::new(u128::from(seed)).rand_range(lo..hi)
}

} // verus!
