//! Shim lock protocol: the Authenticode hashes of an application.
use vstd::prelude::*;

verus! {

/// Authenticode hashes of some UEFI application
#[derive(Debug, Clone, Copy, PartialEq, Eq)]
pub struct Hashes {
    /// SHA256 Authenticode Digest
    pub sha256: [u8; 32],
    /// SHA1 Authenticode Digest
    pub sha1: [u8; 20],
}

} // verus!
