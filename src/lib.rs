//! Navigation, redraw scheduling and panel content of a terminal dashboard of
//! host metrics.
use vstd::prelude::*;

pub mod navigation;
pub mod scheduler;
pub mod text;
pub mod metrics;
pub mod content;
pub mod laws;

verus! {

} // verus!
