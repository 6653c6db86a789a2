use vstd::prelude::*;

pub mod locate;
pub mod problem;

verus! {

} // verus!
