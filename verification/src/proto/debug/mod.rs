//! Debug support protocols.
use vstd::prelude::*;

pub mod exception;

verus! {
} // verus!
