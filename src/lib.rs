//! Picks the best backend for a snippet of code and drives that backend's
//! fetch, transform, build and execute pipeline, one step per outside event.
use vstd::prelude::*;

pub mod backend;
pub mod data;
pub mod error;
pub mod launcher;
pub mod level;

verus! {

} // verus!
