use vstd::prelude::*;

pub mod bar;
pub mod layout;
pub mod text;

pub use bar::{LoadingBar, LoadingBarBuilder, LoadingBarType};

verus! {

/// Sum of two counters.
pub fn add(left: u64, right: u64) -> (r: u64)
    requires
        left + right <= u64::MAX,
    ensures
        r == left + right,
{
    left + right
}

} // verus!
