//! Console support protocols.
use vstd::prelude::*;

pub mod gop;
pub mod pointer;
pub mod serial;
pub mod text;

verus! {
} // verus!
