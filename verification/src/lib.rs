//! Rusty wrapper for the Unified Extensible Firmware Interface.
use vstd::prelude::*;

pub mod data_types;
pub mod logger;
pub mod proto;
pub mod table;
pub mod result;
pub mod ucs2;
pub use self::result::{Completion, Error, Result, Status};

verus! {
} // verus!
