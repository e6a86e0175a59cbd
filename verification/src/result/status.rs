//! Definition of UEFI's standard status codes
use super::{Completion, Error, Result};
use vstd::prelude::*;

verus! {

/// The bit of a status code that marks it as an error: the most
/// significant bit of a `usize`.
pub open spec fn error_bit() -> int {
    usize::MAX / 2 + 1
}

/// The status code of the error with the given number.
fn error_code(code: usize) -> (r: usize)
    requires
        code < error_bit(),
    ensures
        r == error_bit() + code,
{
    (usize::MAX / 2 + 1) + code
}

/// UEFI uses status codes in order to report successes, errors, and warnings.
///
/// Unfortunately, the spec allows and encourages implementation-specific
/// non-portable status codes. Therefore, these cannot be modeled as a Rust
/// enum, as injecting an unknown value in a Rust enum is undefined behaviour.
///
/// For lack of a better option, we therefore model them as a newtype of usize.
#[derive(Debug, Copy, Clone, Eq, PartialEq, Structural)]
pub struct Status(usize);

impl View for Status {
    type V = usize;

    closed spec fn view(&self) -> usize {
        self.0
    }
}

/// What the code of a status determines.
pub broadcast group group_status_code {
    Status::lemma_from_code,
    Status::lemma_from_code_view,
}

/// A status code is a success when it is zero.
pub open spec fn spec_is_success(s: Status) -> bool {
    s@ == 0
}

/// A status code is an error when its most significant bit is set.
pub open spec fn spec_is_error(s: Status) -> bool {
    s@ >= error_bit()
}

/// A status code is a warning when it is neither a success nor an error.
pub open spec fn spec_is_warning(s: Status) -> bool {
    s@ != 0 && s@ < error_bit()
}

/// Every status is exactly one of a success, a warning and an error.
pub proof fn lemma_status_kind(s: Status)
    ensures
        spec_is_success(s) || spec_is_warning(s) || spec_is_error(s),
        !(spec_is_success(s) && spec_is_warning(s)),
        !(spec_is_success(s) && spec_is_error(s)),
        !(spec_is_warning(s) && spec_is_error(s)),
{
}

#[allow(non_snake_case)]
impl Status {
    /// The operation completed successfully.
    pub fn SUCCESS() -> (s: Status)
        ensures
            s@ == 0,
    {
        Status(0)
    }

    /// The string contained characters that could not be rendered and were skipped.
    pub fn WARN_UNKNOWN_GLYPH() -> (s: Status)
        ensures
            s@ == 1,
    {
        Status(1)
    }

    /// The handle was closed, but the file was not deleted.
    pub fn WARN_DELETE_FAILURE() -> (s: Status)
        ensures
            s@ == 2,
    {
        Status(2)
    }

    /// The handle was closed, but the data to the file was not flushed properly.
    pub fn WARN_WRITE_FAILURE() -> (s: Status)
        ensures
            s@ == 3,
    {
        Status(3)
    }

    /// The resulting buffer was too small, and the data was truncated.
    pub fn WARN_BUFFER_TOO_SMALL() -> (s: Status)
        ensures
            s@ == 4,
    {
        Status(4)
    }

    /// The data has not been updated within the timeframe set by local policy.
    pub fn WARN_STALE_DATA() -> (s: Status)
        ensures
            s@ == 5,
    {
        Status(5)
    }

    /// The resulting buffer contains UEFI-compliant file system.
    pub fn WARN_FILE_SYSTEM() -> (s: Status)
        ensures
            s@ == 6,
    {
        Status(6)
    }

    /// The operation will be processed across a system reset.
    pub fn WARN_RESET_REQUIRED() -> (s: Status)
        ensures
            s@ == 7,
    {
        Status(7)
    }

    /// The image failed to load.
    pub fn LOAD_ERROR() -> (s: Status)
        ensures
            s@ == error_bit() + 1,
    {
        Status(error_code(1))
    }

    /// A parameter was incorrect.
    pub fn INVALID_PARAMETER() -> (s: Status)
        ensures
            s@ == error_bit() + 2,
    {
        Status(error_code(2))
    }

    /// The operation is not supported.
    pub fn UNSUPPORTED() -> (s: Status)
        ensures
            s@ == error_bit() + 3,
    {
        Status(error_code(3))
    }

    /// The buffer was not the proper size for the request.
    pub fn BAD_BUFFER_SIZE() -> (s: Status)
        ensures
            s@ == error_bit() + 4,
    {
        Status(error_code(4))
    }

    /// The buffer is not large enough to hold the requested data.
    pub fn BUFFER_TOO_SMALL() -> (s: Status)
        ensures
            s@ == error_bit() + 5,
    {
        Status(error_code(5))
    }

    /// There is no data pending upon return.
    pub fn NOT_READY() -> (s: Status)
        ensures
            s@ == error_bit() + 6,
    {
        Status(error_code(6))
    }

    /// The physical device reported an error while attempting the operation.
    pub fn DEVICE_ERROR() -> (s: Status)
        ensures
            s@ == error_bit() + 7,
    {
        Status(error_code(7))
    }

    /// The device cannot be written to.
    pub fn WRITE_PROTECTED() -> (s: Status)
        ensures
            s@ == error_bit() + 8,
    {
        Status(error_code(8))
    }

    /// A resource has run out.
    pub fn OUT_OF_RESOURCES() -> (s: Status)
        ensures
            s@ == error_bit() + 9,
    {
        Status(error_code(9))
    }

    /// An inconstency was detected on the file system.
    pub fn VOLUME_CORRUPTED() -> (s: Status)
        ensures
            s@ == error_bit() + 10,
    {
        Status(error_code(10))
    }

    /// There is no more space on the file system.
    pub fn VOLUME_FULL() -> (s: Status)
        ensures
            s@ == error_bit() + 11,
    {
        Status(error_code(11))
    }

    /// The device does not contain any medium to perform the operation.
    pub fn NO_MEDIA() -> (s: Status)
        ensures
            s@ == error_bit() + 12,
    {
        Status(error_code(12))
    }

    /// The medium in the device has changed since the last access.
    pub fn MEDIA_CHANGED() -> (s: Status)
        ensures
            s@ == error_bit() + 13,
    {
        Status(error_code(13))
    }

    /// The item was not found.
    pub fn NOT_FOUND() -> (s: Status)
        ensures
            s@ == error_bit() + 14,
    {
        Status(error_code(14))
    }

    /// Access was denied.
    pub fn ACCESS_DENIED() -> (s: Status)
        ensures
            s@ == error_bit() + 15,
    {
        Status(error_code(15))
    }

    /// The server was not found or did not respond to the request.
    pub fn NO_RESPONSE() -> (s: Status)
        ensures
            s@ == error_bit() + 16,
    {
        Status(error_code(16))
    }

    /// A mapping to a device does not exist.
    pub fn NO_MAPPING() -> (s: Status)
        ensures
            s@ == error_bit() + 17,
    {
        Status(error_code(17))
    }

    /// The timeout time expired.
    pub fn TIMEOUT() -> (s: Status)
        ensures
            s@ == error_bit() + 18,
    {
        Status(error_code(18))
    }

    /// The protocol has not been started.
    pub fn NOT_STARTED() -> (s: Status)
        ensures
            s@ == error_bit() + 19,
    {
        Status(error_code(19))
    }

    /// The protocol has already been started.
    pub fn ALREADY_STARTED() -> (s: Status)
        ensures
            s@ == error_bit() + 20,
    {
        Status(error_code(20))
    }

    /// The operation was aborted.
    pub fn ABORTED() -> (s: Status)
        ensures
            s@ == error_bit() + 21,
    {
        Status(error_code(21))
    }

    /// An ICMP error occurred during the network operation.
    pub fn ICMP_ERROR() -> (s: Status)
        ensures
            s@ == error_bit() + 22,
    {
        Status(error_code(22))
    }

    /// A TFTP error occurred during the network operation.
    pub fn TFTP_ERROR() -> (s: Status)
        ensures
            s@ == error_bit() + 23,
    {
        Status(error_code(23))
    }

    /// A protocol error occurred during the network operation.
    pub fn PROTOCOL_ERROR() -> (s: Status)
        ensures
            s@ == error_bit() + 24,
    {
        Status(error_code(24))
    }

    /// The function encountered an internal version that was incompatible with a version requested by the caller.
    pub fn INCOMPATIBLE_VERSION() -> (s: Status)
        ensures
            s@ == error_bit() + 25,
    {
        Status(error_code(25))
    }

    /// The function was not performed due to a security violation.
    pub fn SECURITY_VIOLATION() -> (s: Status)
        ensures
            s@ == error_bit() + 26,
    {
        Status(error_code(26))
    }

    /// A CRC error was detected.
    pub fn CRC_ERROR() -> (s: Status)
        ensures
            s@ == error_bit() + 27,
    {
        Status(error_code(27))
    }

    /// Beginning or end of media was reached
    pub fn END_OF_MEDIA() -> (s: Status)
        ensures
            s@ == error_bit() + 28,
    {
        Status(error_code(28))
    }

    /// The end of the file was reached.
    pub fn END_OF_FILE() -> (s: Status)
        ensures
            s@ == error_bit() + 31,
    {
        Status(error_code(31))
    }

    /// The language specified was invalid.
    pub fn INVALID_LANGUAGE() -> (s: Status)
        ensures
            s@ == error_bit() + 32,
    {
        Status(error_code(32))
    }

    /// The security status of the data is unknown or compromised.
    pub fn COMPROMISED_DATA() -> (s: Status)
        ensures
            s@ == error_bit() + 33,
    {
        Status(error_code(33))
    }

    /// There is an address conflict address allocation
    pub fn IP_ADDRESS_CONFLICT() -> (s: Status)
        ensures
            s@ == error_bit() + 34,
    {
        Status(error_code(34))
    }

    /// A HTTP error occurred during the network operation.
    pub fn HTTP_ERROR() -> (s: Status)
        ensures
            s@ == error_bit() + 35,
    {
        Status(error_code(35))
    }


    /// The status with the given raw code, as returned by the firmware.
    pub fn from_raw_api(code: usize) -> (s: Status)
        ensures
            s@ == code,
    {
        Status(code)
    }

    /// The raw code of this status, as passed to the firmware.
    pub fn raw(self) -> (code: usize)
        ensures
            code == self@,
    {
        self.0
    }

    /// The status with the given code.
    pub closed spec fn spec_from_code(code: usize) -> Status {
        Status(code)
    }

    /// A status is the status of its code.
    pub broadcast proof fn lemma_from_code(s: Status)
        ensures
            #[trigger] Status::spec_from_code(s@) == s,
    {
    }

    /// The code of the status with a given code.
    pub broadcast proof fn lemma_from_code_view(code: usize)
        ensures
            #[trigger] Status::spec_from_code(code)@ == code,
    {
    }

    /// Two statuses with the same code are the same status.
    pub proof fn lemma_view_injective(a: Status, b: Status)
        ensures
            a@ == b@ <==> a == b,
    {
    }

    /// Returns true if status code indicates success.
    pub fn is_success(self) -> (r: bool)
        ensures
            r == spec_is_success(self),
    {
        self.0 == 0
    }

    /// Returns true if status code indicates a warning.
    pub fn is_warning(self) -> (r: bool)
        ensures
            r == spec_is_warning(self),
    {
        self.0 != 0 && self.0 <= usize::MAX / 2
    }

    /// Returns true if the status code indicates an error.
    pub fn is_error(self) -> (r: bool)
        ensures
            r == spec_is_error(self),
    {
        self.0 > usize::MAX / 2
    }

    /// Converts this status code into a result with a given value.
    ///
    /// A success gives `f()`; anything else, warnings included, is an
    /// error carrying this status.
    pub fn into_with<T, F: FnOnce() -> T>(self, f: F) -> (r: Result<T>)
        requires
            spec_is_success(self) ==> f.requires(()),
        ensures
            spec_is_success(self) ==> (r matches Ok(Completion::Success(v)) && f.ensures((), v)),
            !spec_is_success(self) ==> (r matches Err(e) && e.spec_status() == self),
    {
        if self.0 == 0 {
            Ok(Completion::Success(f()))
        } else {
            Err(Error::new(self, ()))
        }
    }
}

} // verus!
