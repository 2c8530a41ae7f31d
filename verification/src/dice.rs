use vstd::prelude::*;

verus! {

/// Calls `rand::random_range(lo..hi)` (thread-local generator). The crate documents
/// that the result lies in the half-open range `lo..hi` and that an empty range
/// panics, hence the `requires`. Which value comes back is left to chance and is
/// not stated.
#[verifier::external_body]
pub(crate) fn roll(lo: i32, hi: i32) -> (r: i32)
    requires
        lo < hi,
    ensures
        lo <= r < hi,
{
    rand::random_range(lo..hi)
}

/// Calls `rand::random::<u8>()` (thread-local generator). Any byte may come back;
/// nothing beyond the type's range is stated.
#[verifier::external_body]
pub(crate) fn random_byte() -> (b: u8) {
    rand::random::<u8>()
}

} // verus!
