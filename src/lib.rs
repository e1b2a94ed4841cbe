use vstd::prelude::*;

pub mod aggregator;
pub mod controller;
pub mod dash;
pub mod debounce;
pub mod gps;
pub mod io;
pub mod monitor;
pub mod msg;
pub mod tachometer;
pub mod util;

verus! {

/// Sum of two sizes.
pub fn add(left: usize, right: usize) -> (r: usize)
    requires
        left + right <= usize::MAX,
    ensures
        r == left + right,
{
    left + right
}

} // verus!
