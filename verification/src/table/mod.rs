//! Standard UEFI tables.
use vstd::prelude::*;

pub mod boot;
pub mod runtime;
pub mod system;

verus! {
} // verus!
