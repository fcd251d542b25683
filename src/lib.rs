use vstd::prelude::*;

pub mod policy;
pub mod supervisor;
pub mod laws;
pub mod endpoint;

verus! {

} // verus!
