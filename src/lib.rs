use vstd::prelude::*;

pub mod fibonacci;
pub mod http;
pub mod session;

verus! {

} // verus!
