//! Text I/O.
use vstd::prelude::*;

pub mod input;
pub mod output;

verus! {
} // verus!
