//! Protocol definitions.
use crate::data_types::Guid;
use vstd::prelude::*;

pub mod console;
pub mod debug;
pub mod device_path;
pub mod loaded_image;
pub mod media;
pub mod network;
pub mod rng;
pub mod shim;

verus! {

/// Identifies a type by a GUID.
///
/// The model of an identified type is the 16 bytes of its GUID.
pub trait Identify {
    /// The bytes of the type's GUID.
    spec fn spec_guid() -> Seq<u8>;

    /// Unique protocol identifier.
    fn guid() -> (g: Guid)
        ensures
            g@ == Self::spec_guid(),
    ;
}

/// Common trait implemented by all standard UEFI protocols.
pub trait Protocol: Identify {
}

} // verus!
