//! Generation bookkeeping for an evolutionary ant simulation: an append-only
//! log of per-generation fitness statistics and a generation counter that
//! always advances with it.

use vstd::prelude::*;

pub mod stats_log;
pub mod tracker;

verus! {

} // verus!
