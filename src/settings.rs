use vstd::prelude::*;
use crate::grid::GridDims;

verus! {

/// Run settings that describe the grid of a calculation.
#[derive(Clone, Copy, Debug, PartialEq, Eq)]
pub struct SetStructEuler {
    pub dims: GridDims,
}

impl SetStructEuler {
    pub fn new(dims: GridDims) -> (r: SetStructEuler)
        ensures
            r.dims == dims,
    {
        SetStructEuler { dims }
    }
}

/// Splits a number of seconds into hours, minutes and seconds.
pub fn split_hms(secs: u64) -> (r: (u64, u64, u64))
    ensures
        r.1 < 60,
        r.2 < 60,
        r.0 * 3600 + r.1 * 60 + r.2 == secs,
{
    let h = secs / 3600;
    let rest = secs - h * 3600;
    let m = rest / 60;
    let s = rest - m * 60;
    (h, m, s)
}

/// Estimated seconds left after `done` of `total` output intervals took
/// `elapsed` seconds, assuming every interval costs the same:
/// `elapsed * (total - done) / done`, or `None` when the product does not
/// fit in 64 bits.
pub fn remaining_secs(elapsed: u64, total: u64, done: u64) -> (r: Option<u64>)
    requires
        0 < done <= total,
    ensures
        r is Some <==> elapsed * (total - done) <= u64::MAX,
        r matches Some(x) ==> x == elapsed * (total - done) / (done as int),
{
    match elapsed.checked_mul(total - done) {
        Some(p) => Some(p / done),
        None => None,
    }
}

} // verus!
