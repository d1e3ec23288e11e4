use vstd::prelude::*;

pub mod command;
pub mod dispatcher;
pub mod executor;

verus! {

} // verus!
