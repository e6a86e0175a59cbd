//! Random number generator protocol: the algorithms it can use.
use crate::data_types::guid::spec_guid_bytes;
use crate::data_types::Guid;
use crate::result::status::{error_bit, spec_is_success};
use crate::result::{Completion, Error, Result, Status};
use vstd::prelude::*;

verus! {

/// A random number generation algorithm, identified by its GUID.
///
/// The algorithms listed are optional, not meant to be exhaustive and may
/// be augmented by vendors or other industry standards.
#[derive(Debug, Clone, Copy, PartialEq, Eq)]
pub struct RngAlgorithmType(pub Guid);

#[allow(non_snake_case)]
impl RngAlgorithmType {
    /// An empty algorithm, used to instantiate a buffer for `get_info`.
    pub fn EMPTY_ALGORITHM() -> (r: RngAlgorithmType)
        ensures
            r.0@ == spec_guid_bytes(0, 0, 0, 0, 0),
    {
        RngAlgorithmType(Guid::from_values(0, 0, 0, 0, 0))
    }

    /// The "raw" algorithm: entropy directly from the source, without a
    /// deterministic random bit generator.
    pub fn ALGORITHM_RAW() -> (r: RngAlgorithmType)
        ensures
            r.0@ == spec_guid_bytes(0xe43176d7, 0xb6e8, 0x4827, 0xb784, 0x7ffdc4b68561),
    {
        RngAlgorithmType(Guid::from_values(0xe43176d7, 0xb6e8, 0x4827, 0xb784, 0x7ffdc4b68561))
    }

    /// SP800-90 hash DRBG with SHA-256.
    pub fn ALGORITHM_SP800_90_HASH_256() -> (r: RngAlgorithmType)
        ensures
            r.0@ == spec_guid_bytes(0xa7af67cb, 0x603b, 0x4d42, 0xba21, 0x70bfb6293f96),
    {
        RngAlgorithmType(Guid::from_values(0xa7af67cb, 0x603b, 0x4d42, 0xba21, 0x70bfb6293f96))
    }

    /// SP800-90 HMAC DRBG with SHA-256.
    pub fn ALGORITHM_SP800_90_HMAC_256() -> (r: RngAlgorithmType)
        ensures
            r.0@ == spec_guid_bytes(0xc5149b43, 0xae85, 0x4f53, 0x9982, 0xb94335d3a9e7),
    {
        RngAlgorithmType(Guid::from_values(0xc5149b43, 0xae85, 0x4f53, 0x9982, 0xb94335d3a9e7))
    }

    /// SP800-90 CTR DRBG with AES-256.
    pub fn ALGORITHM_SP800_90_CTR_256() -> (r: RngAlgorithmType)
        ensures
            r.0@ == spec_guid_bytes(0x44f0de6e, 0x4d8c, 0x4045, 0xa8c7, 0x4dd168856b9e),
    {
        RngAlgorithmType(Guid::from_values(0x44f0de6e, 0x4d8c, 0x4045, 0xa8c7, 0x4dd168856b9e))
    }

    /// X9.31 with 3DES.
    pub fn ALGORITHM_X9_31_3DES() -> (r: RngAlgorithmType)
        ensures
            r.0@ == spec_guid_bytes(0x63c4785a, 0xca34, 0x4012, 0xa3c8, 0x0b6a324f5546),
    {
        RngAlgorithmType(Guid::from_values(0x63c4785a, 0xca34, 0x4012, 0xa3c8, 0x0b6a324f5546))
    }

    /// X9.31 with AES.
    pub fn ALGORITHM_X9_31_AES() -> (r: RngAlgorithmType)
        ensures
            r.0@ == spec_guid_bytes(0xacd03321, 0x777e, 0x4d3d, 0xb1c8, 0x20cfd88820c9),
    {
        RngAlgorithmType(Guid::from_values(0xacd03321, 0x777e, 0x4d3d, 0xb1c8, 0x20cfd88820c9))
    }
}

/// The number of bytes of a list of `n` algorithms, 16 bytes each.
pub fn algorithm_list_size(n: usize) -> (r: usize)
    requires
        n * 16 <= usize::MAX,
    ensures
        r == n * 16,
{
    n * 16
}

/// The result of asking the generator for its algorithms with room for
/// `list`, when it reported `status` and `size` bytes: on success, the
/// algorithms that it wrote, one per 16 bytes; if the list was too small,
/// an error that carries the size it needs; any other failure is an error
/// that carries nothing.
pub fn get_info_result(status: Status, list: &[RngAlgorithmType], size: usize) -> (r: Result<
    Vec<RngAlgorithmType>,
    Option<usize>,
>)
    requires
        spec_is_success(status) ==> size / 16 <= list@.len(),
    ensures
        spec_is_success(status) ==> (r matches Ok(Completion::Success(v)) && v@ == list@.subrange(
            0,
            (size / 16) as int,
        )),
        status@ == error_bit() + 5 ==> (r matches Err(e) && e.spec_status() == status
            && e.spec_data() == Some(size)),
        !spec_is_success(status) && status@ != error_bit() + 5 ==> (r matches Err(e)
            && e.spec_status() == status && e.spec_data() == None::<usize>),
{
    if status.is_success() {
        let n = size / 16;
        Ok(Completion::Success(vstd::slice::slice_to_vec(vstd::slice::slice_subrange(list, 0, n))))
    } else {
        let too_small = Status::BUFFER_TOO_SMALL();
        proof {
            Status::lemma_view_injective(status, too_small);
        }
        if status == too_small {
            Err(Error::new(status, Some(size)))
        } else {
            Err(Error::new(status, None))
        }
    }
}

} // verus!
