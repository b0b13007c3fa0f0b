//! Per-spy runtime decisions that do not touch the operating system: how
//! long to wait before a watcher or a walk starts.  The sleeping itself is
//! the caller's.

use vstd::prelude::*;

verus! {

/// Relies on `rand::Rng::gen_range` over `rand::thread_rng`: a value drawn
/// uniformly from the inclusive range.
#[verifier::external_body]
fn rand_between(min: u64, max: u64) -> (r: u64)
    requires
        min <= max,
    ensures
        min <= r <= max,
{
    rand::Rng::gen_range(&mut rand::thread_rng(), min..=max)
}

/// The startup delay in milliseconds: none when unconfigured, the fixed
/// value for `(min)`, and a draw from `[min, max]` for `(min, max)`.
pub fn delay_duration(d: Option<(u64, Option<u64>)>) -> (r: Option<u64>)
    requires
        d matches Some(b) && b.1 matches Some(mx) ==> b.0 <= mx,
    ensures
        d is None ==> r is None,
        (d matches Some(b) && b.1 is None) ==> r == Some(d->Some_0.0),
        (d matches Some(b) && b.1 is Some)
            ==> (r matches Some(w) && d->Some_0.0 <= w <= d->Some_0.1->Some_0),
{
    match d {
        None => None,
        Some((min, None)) => Some(min),
        Some((min, Some(max))) => Some(rand_between(min, max)),
    }
}

} // verus!
