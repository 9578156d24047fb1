//! Scheduling and bundling core of a scheduler unit: per-process schedule
//! cursors, hash chaining, inbound tag classification, bundle tag vectors and
//! the decisions of the write pipeline.
use vstd::prelude::*;

pub mod builder;
pub mod decimal;
pub mod flows;
pub mod hash;
pub mod schedule;
pub mod sequence;
pub mod tags;
pub mod time;

verus! {

} // verus!
