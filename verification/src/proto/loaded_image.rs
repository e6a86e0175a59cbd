//! Loaded image protocol: the load options of an image.
use crate::data_types::bytes::le_at;
use crate::data_types::strs::spec_check_cstr16;
use crate::data_types::unaligned_slice::UnalignedSlice;
use crate::data_types::{CStr16, FromSliceWithNulError};
use vstd::prelude::*;

verus! {

/// Errors that can be raised during parsing of the load options.
#[derive(Debug, Clone, Copy, PartialEq, Eq, Structural)]
pub enum LoadOptionsError {
    /// Load options are not set.
    NotSet,
    /// The start and/or length of the load options is not [`u16`]-aligned.
    NotAligned,
    /// Not a valid null-terminated UCS-2 string.
    InvalidString(FromSliceWithNulError),
}

/// The `u16` units stored little-endian in `bytes`, two bytes each.
pub open spec fn u16_units(bytes: Seq<u8>) -> Seq<u16> {
    Seq::new(bytes.len() / 2, |i: int| le_at(bytes, 2 * i, 2) as u16)
}

/// The load options of a loaded image: their bytes, if they are set, and
/// the address at which they are stored.
#[derive(Debug)]
pub struct LoadedImage {
    /// The load options, `None` if they are not set.
    pub load_options: Option<Vec<u8>>,
    /// The address of the load options.
    pub load_options_address: usize,
}

impl LoadedImage {
    /// Get the load options of the image as a [`CStr16`]. They must be set,
    /// start on an even address and have an even length, and be a valid
    /// null-terminated UCS-2 string.
    pub fn load_options_as_cstr16(&self) -> (r: Result<CStr16, LoadOptionsError>)
        ensures
            self.load_options is None ==> r == Err::<CStr16, LoadOptionsError>(
                LoadOptionsError::NotSet,
            ),
            self.load_options matches Some(b) ==> {
                if b@.len() % 2 != 0 || self.load_options_address % 2 != 0 {
                    r == Err::<CStr16, LoadOptionsError>(LoadOptionsError::NotAligned)
                } else {
                    match spec_check_cstr16(u16_units(b@)) {
                        Ok(()) => r matches Ok(s) && s@ == u16_units(b@),
                        Err(e) => r == Err::<CStr16, LoadOptionsError>(
                            LoadOptionsError::InvalidString(e),
                        ),
                    }
                }
            },
    {
        match &self.load_options {
            None => Err(LoadOptionsError::NotSet),
            Some(bytes) => {
                if bytes.len() % 2 != 0 || self.load_options_address % 2 != 0 {
                    Err(LoadOptionsError::NotAligned)
                } else {
                    let units = UnalignedSlice::<u16>::from_le_bytes(bytes.as_slice(), bytes.len() / 2).to_vec();
                    proof {
                        assert(units@ =~= u16_units(bytes@));
                    }
                    match CStr16::from_u16_with_nul(units.as_slice()) {
                        Ok(s) => Ok(s),
                        Err(e) => Err(LoadOptionsError::InvalidString(e)),
                    }
                }
            },
        }
    }

    /// Get the load options of the image as raw bytes; `None` if they are
    /// not set.
    pub fn load_options_as_bytes(&self) -> (r: Option<&[u8]>)
        ensures
            self.load_options is None ==> r is None,
            self.load_options matches Some(b) ==> r matches Some(s) && s@ == b@,
    {
        match &self.load_options {
            None => None,
            Some(bytes) => Some(bytes.as_slice()),
        }
    }
}

impl crate::proto::Identify for LoadedImage {
    open spec fn spec_guid() -> Seq<u8> {
        crate::data_types::guid::spec_guid_bytes(0x5b1b31a1, 0x9562, 0x11d2, 0x8e3f, 0x00a0c969723b)
    }

    fn guid() -> (g: crate::data_types::Guid) {
        crate::data_types::Guid::from_values(0x5b1b31a1, 0x9562, 0x11d2, 0x8e3f, 0x00a0c969723b)
    }
}

impl crate::proto::Protocol for LoadedImage {
}

} // verus!
