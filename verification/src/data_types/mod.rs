//! Data type definitions
//!
//! This module defines the basic data types that are used throughout the
//! library.
use vstd::prelude::*;

pub mod bytes;
pub mod chars;
pub mod text;
pub mod guid;
pub mod strs;
pub mod owned_strs;
pub mod unaligned_slice;
pub use self::owned_strs::{CString16, EqStrUntilNul, FromStrError};
pub use self::strs::{CStr16, CStr8, FromSliceWithNulError};
pub use self::guid::Guid;
pub use self::unaligned_slice::UnalignedSlice;

pub use self::chars::{Char16, Char8};

verus! {

/// Trait for querying the alignment of a struct.
pub trait Align {
    /// Required memory alignment for this type
    fn alignment() -> usize;
}

} // verus!
