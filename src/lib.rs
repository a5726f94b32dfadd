//! Release packaging: a catalog of build targets, the file names and metadata of each
//! package, the plan of outside work for every packaging step, and the state machines that
//! decide, from the outcome of each piece of work, what a release run does next.

use vstd::prelude::*;

pub mod metadata;
pub mod metrics;
pub mod naming;
pub mod orchestrator;
pub mod steps;
pub mod target;

verus! {

} // verus!
