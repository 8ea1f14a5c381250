use vstd::prelude::*;

pub mod counter;
pub mod decimal;

verus! {

} // verus!
