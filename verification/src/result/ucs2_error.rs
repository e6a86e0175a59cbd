//! Failures of the UCS-2 encoding, and the status codes they map to.
use super::Status;
use super::status::error_bit;
use vstd::prelude::*;
use vstd::std_specs::convert::FromSpecImpl;

verus! {

/// Why encoding a string into UCS-2 failed.
#[derive(Debug, Copy, Clone, PartialEq, Eq, Structural)]
pub enum Ucs2Error {
    /// Input contains an invalid character.
    InvalidData,
    /// Input contained the start of a multi-byte character but its tail was missing.
    BufferUnderflow,
    /// Not enough space left in the output buffer.
    BufferOverflow,
    /// Input contained a character which cannot be represented in UCS-2.
    MultiByte,
}

/// The status code of each encoding failure.
pub open spec fn spec_ucs2_error_status_code(e: Ucs2Error) -> int {
    match e {
        Ucs2Error::InvalidData => error_bit() + 2,
        Ucs2Error::BufferUnderflow => error_bit() + 4,
        Ucs2Error::BufferOverflow => error_bit() + 5,
        Ucs2Error::MultiByte => error_bit() + 3,
    }
}

/// The status of each encoding failure, as a `Status`.
pub closed spec fn spec_ucs2_error_status(e: Ucs2Error) -> Status {
    Status::spec_from_code(spec_ucs2_error_status_code(e) as usize)
}

impl From<Ucs2Error> for Status {
    /// Invalid data is `INVALID_PARAMETER`, a missing tail `BAD_BUFFER_SIZE`,
    /// a full buffer `BUFFER_TOO_SMALL` and a multi-byte character
    /// `UNSUPPORTED`.
    fn from(other: Ucs2Error) -> (s: Status)
        ensures
            s@ == spec_ucs2_error_status_code(other),
            s == spec_ucs2_error_status(other),
    {
        let s = match other {
            Ucs2Error::InvalidData => Status::INVALID_PARAMETER(),
            Ucs2Error::BufferUnderflow => Status::BAD_BUFFER_SIZE(),
            Ucs2Error::BufferOverflow => Status::BUFFER_TOO_SMALL(),
            Ucs2Error::MultiByte => Status::UNSUPPORTED(),
        };
        proof {
            Status::lemma_from_code(s);
        }
        s
    }
}

impl FromSpecImpl<Ucs2Error> for Status {
    open spec fn obeys_from_spec() -> bool {
        true
    }

    open spec fn from_spec(other: Ucs2Error) -> Status {
        spec_ucs2_error_status(other)
    }
}

} // verus!
