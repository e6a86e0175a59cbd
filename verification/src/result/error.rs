//! The error type: a status code plus optional additional data.
use super::{Completion, Result, Status};
use super::status::spec_is_success;
use super::ucs2_error::Ucs2Error;
use vstd::prelude::*;
use vstd::std_specs::convert::FromSpecImpl;

verus! {

/// Errors emitted from UEFI entry point must propagate erronerous UEFI statuses,
/// and may optionally propagate additional entry point-specific data.
#[derive(Debug)]
pub struct Error<Data = ()> {
    status: Status,
    data: Data,
}

impl<Data> Error<Data> {
    /// The status code of this error.
    pub closed spec fn spec_status(&self) -> Status {
        self.status
    }

    /// The payload of this error.
    pub closed spec fn spec_data(&self) -> Data {
        self.data
    }

    /// Construct an error from an inner status and payload data
    pub fn new(status: Status, data: Data) -> (e: Self)
        ensures
            e.spec_status() == status,
            e.spec_data() == data,
    {
        Self { status, data }
    }

    /// Return the inner status for this error
    pub fn status(&self) -> (s: Status)
        ensures
            s == self.spec_status(),
    {
        self.status
    }

    /// Return the data for this error
    pub fn data(&self) -> (d: &Data)
        ensures
            *d == self.spec_data(),
    {
        &self.data
    }

    /// Split this error into its inner status and error data
    pub fn split(self) -> (r: (Status, Data))
        ensures
            r.0 == self.spec_status(),
            r.1 == self.spec_data(),
    {
        (self.status, self.data)
    }
}

impl From<Status> for Error<()> {
    /// Errors without payloads can be made from statuses.
    fn from(status: Status) -> (e: Self)
        ensures
            e.spec_status() == status,
    {
        Self { status, data: () }
    }
}

impl FromSpecImpl<Status> for Error<()> {
    open spec fn obeys_from_spec() -> bool {
        true
    }

    closed spec fn from_spec(status: Status) -> Self {
        Self { status, data: () }
    }
}

impl From<Ucs2Error> for Error<()> {
    /// The error of an UCS-2 encoding failure carries its status.
    fn from(other: Ucs2Error) -> (e: Self)
        ensures
            e.spec_status() == super::ucs2_error::spec_ucs2_error_status(other),
    {
        Self { status: Status::from(other), data: () }
    }
}

impl FromSpecImpl<Ucs2Error> for Error<()> {
    open spec fn obeys_from_spec() -> bool {
        true
    }

    closed spec fn from_spec(other: Ucs2Error) -> Self {
        Self { status: super::ucs2_error::spec_ucs2_error_status(other), data: () }
    }
}

impl From<Status> for Result<()> {
    /// A success becomes `Ok(())`, anything else, warnings included, an
    /// error carrying it.
    fn from(s: Status) -> (r: Result<()>)
        ensures
            spec_is_success(s) ==> r == Result::<()>::Ok(Completion::Success(())),
            !spec_is_success(s) ==> (r matches Err(e) && e.spec_status() == s),
    {
        if s.is_success() {
            Ok(Completion::Success(()))
        } else {
            Err(Error { status: s, data: () })
        }
    }
}

impl FromSpecImpl<Status> for Result<()> {
    open spec fn obeys_from_spec() -> bool {
        true
    }

    closed spec fn from_spec(s: Status) -> Result<()> {
        if spec_is_success(s) {
            Ok(Completion::Success(()))
        } else {
            Err(Error { status: s, data: () })
        }
    }
}

} // verus!
