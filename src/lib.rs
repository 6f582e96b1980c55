use vstd::prelude::*;

pub mod buffer;
pub mod decode;
pub mod encode;
pub mod error;
pub mod session;

verus! {

} // verus!
