//! Media access protocols.
use vstd::prelude::*;

pub mod block;
pub mod file;
pub mod partition;

verus! {
} // verus!
