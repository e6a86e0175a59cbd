//! Facilities for dealing with UEFI operation results.
//!
//! Almost all UEFI operations provide a status code as an output, which may
//! either indicate success, fatal failure, or non-fatal failure. In addition,
//! they may produce output, both in case of success and failure.
//!
//! We model this using an extended version of Rust's standard Result type,
//! whose successful path supports UEFI warnings and whose failing path can
//! report both an UEFI status code and extra data about the error.
use vstd::prelude::*;

mod completion;
pub use self::completion::Completion;

mod error;
pub use self::error::Error;

pub mod status;
pub use self::status::Status;

pub mod ucs2_error;
pub use self::ucs2_error::Ucs2Error;

verus! {

/// Return type of most UEFI functions. Both success and error payloads are optional.
pub type Result<Output = (), ErrData = ()> = core::result::Result<
    Completion<Output>,
    Error<ErrData>,
>;

/// Extension trait for Result which helps dealing with UEFI's warnings
pub trait ResultExt<Output, ErrData>: Sized {
    /// The status of the result: that of the completion or of the error.
    spec fn spec_result_status(&self) -> Status;

    /// The result is a completion without warning.
    spec fn spec_is_clean_success(&self) -> bool;

    /// The result is an error.
    spec fn spec_is_failure(&self) -> bool;

    /// The value of a completion, whatever its warning.
    spec fn spec_completed_value(&self) -> Output;

    /// Extract the UEFI status from this result
    fn status(&self) -> (s: Status)
        ensures
            s == self.spec_result_status(),
    ;

    /// Ignore warnings
    fn log_warning(self) -> core::result::Result<Output, Error<ErrData>>;

    /// Expect success without warnings
    fn unwrap_success(self) -> (v: Output)
        requires
            self.spec_is_clean_success(),
        ensures
            v == self.spec_completed_value(),
    ;

    /// Expect success without warnings; `msg` describes the expectation
    fn expect_success(self, msg: &str) -> (v: Output)
        requires
            self.spec_is_clean_success(),
        ensures
            v == self.spec_completed_value(),
    ;

    /// Expect error, discarding output; `msg` describes the expectation
    fn expect_error(self, msg: &str) -> (e: Error<ErrData>)
        requires
            self.spec_is_failure(),
        ensures
            e.spec_status() == self.spec_result_status(),
    ;

    /// Transform the inner output, if any
    fn map_inner<Mapped, F: FnOnce(Output) -> Mapped>(self, f: F) -> (r: Result<Mapped, ErrData>)
        requires
            !self.spec_is_failure() ==> f.requires((self.spec_completed_value(),)),
    ;

    /// Transform the ErrData value to ()
    fn discard_errdata(self) -> (r: Result<Output>)
        ensures
            r is Err <==> self.spec_is_failure(),
            r matches Err(e) ==> e.spec_status() == self.spec_result_status(),
    ;

    /// Treat warnings as errors
    fn warning_as_error(self) -> core::result::Result<Output, Error<ErrData>> where
        ErrData: Default,
    ;
}

impl<Output, ErrData> ResultExt<Output, ErrData> for Result<Output, ErrData> {
    open spec fn spec_result_status(&self) -> Status {
        match self {
            Ok(c) => c.spec_status(),
            Err(e) => e.spec_status(),
        }
    }

    open spec fn spec_is_clean_success(&self) -> bool {
        self matches Ok(Completion::Success(_))
    }

    open spec fn spec_is_failure(&self) -> bool {
        self is Err
    }

    open spec fn spec_completed_value(&self) -> Output {
        match self {
            Ok(c) => c.spec_value(),
            Err(_) => arbitrary(),
        }
    }

    fn status(&self) -> (s: Status) {
        match self {
            Ok(c) => c.status(),
            Err(e) => e.status(),
        }
    }

    /// A completion gives its value, whatever its warning.
    fn log_warning(self) -> (r: core::result::Result<Output, Error<ErrData>>)
        ensures
            self matches Ok(c) ==> r == core::result::Result::<Output, Error<ErrData>>::Ok(
                c.spec_value(),
            ),
            self matches Err(e) ==> r matches Err(e2) && e2 == e,
    {
        match self {
            Ok(c) => Ok(c.log()),
            Err(e) => Err(e),
        }
    }

    fn unwrap_success(self) -> (v: Output) {
        match self {
            Ok(c) => c.unwrap(),
            Err(_) => {
                assert(false);
                unreached()
            },
        }
    }

    fn expect_success(self, msg: &str) -> (v: Output) {
        match self {
            Ok(c) => c.expect(msg),
            Err(_) => {
                assert(false);
                unreached()
            },
        }
    }

    fn expect_error(self, msg: &str) -> (e: Error<ErrData>) {
        match self {
            Ok(_) => {
                assert(false);
                unreached()
            },
            Err(e) => e,
        }
    }

    /// The completion keeps its warning and its value goes through `f`.
    fn map_inner<Mapped, F: FnOnce(Output) -> Mapped>(self, f: F) -> (r: Result<Mapped, ErrData>)
        ensures
            self matches Ok(c) ==> (r matches Ok(c2) && c2.spec_status() == c.spec_status() && (
            c2 is Success <==> c is Success) && f.ensures((c.spec_value(),), c2.spec_value())),
            self matches Err(e) ==> (r matches Err(e2) && e2 == e),
    {
        match self {
            Ok(Completion::Success(v)) => Ok(Completion::Success(f(v))),
            Ok(Completion::Warning(v, s)) => Ok(Completion::Warning(f(v), s)),
            Err(e) => Err(e),
        }
    }

    fn discard_errdata(self) -> (r: Result<Output>)
        ensures
            self matches Ok(c) ==> r == Result::<Output>::Ok(c),
    {
        match self {
            Ok(o) => Ok(o),
            Err(e) => Err(Error::new(e.status(), ())),
        }
    }

    /// A completion whose status is a success gives its value; a warning
    /// becomes an error with that status and default data.
    fn warning_as_error(self) -> (r: core::result::Result<Output, Error<ErrData>>) where
        ErrData: Default,
        ensures
            self matches Ok(c) ==> (status::spec_is_success(c.spec_status()) ==> r
                == core::result::Result::<Output, Error<ErrData>>::Ok(c.spec_value())),
            self matches Ok(c) ==> (!status::spec_is_success(c.spec_status()) ==> (r matches Err(
                e,
            ) && e.spec_status() == c.spec_status())),
            self matches Err(e) ==> (r matches Err(e2) && e2 == e),
    {
        match self {
            Ok(c) => {
                let (s, res) = c.split();
                if s.is_success() {
                    Ok(res)
                } else {
                    Err(Error::new(s, ErrData::default()))
                }
            },
            Err(e) => Err(e),
        }
    }
}

} // verus!
