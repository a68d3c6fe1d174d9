use vstd::prelude::*;

pub mod challenge;
pub mod update;
pub mod store;
pub mod handlers;
pub mod laws;

verus! {

} // verus!
