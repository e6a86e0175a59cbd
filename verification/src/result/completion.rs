//! Completions of operations that may have met non-fatal problems.
use super::Status;
use super::status::spec_is_success;
use vstd::prelude::*;
use vstd::std_specs::convert::FromSpecImpl;

verus! {

broadcast use super::status::group_status_code;

/// This type is used when an UEFI operation has completed, but some non-fatal
/// problems may have been encountered along the way
#[derive(Clone, Copy, Debug, PartialEq)]
pub enum Completion<T> {
    /// The operation completed without problems
    Success(T),
    /// The operation completed, but some non-fatal issues were encountered
    Warning(T, Status),
}

impl<T> Completion<T> {
    /// The value that the operation produced, whatever the warning.
    pub open spec fn spec_value(self) -> T {
        match self {
            Completion::Success(v) => v,
            Completion::Warning(v, _) => v,
        }
    }

    /// The status of the completion: `SUCCESS`, or the warning.
    pub open spec fn spec_status(self) -> Status {
        match self {
            Completion::Success(_) => Status::spec_from_code(0),
            Completion::Warning(_, s) => s,
        }
    }

    /// Split the completion into a (status, value) pair
    pub fn split(self) -> (r: (Status, T))
        ensures
            r.0 == self.spec_status(),
            r.1 == self.spec_value(),
    {
        match self {
            Completion::Success(res) => (Status::SUCCESS(), res),
            Completion::Warning(res, stat) => (stat, res),
        }
    }

    /// The status of the completion: `SUCCESS`, or the warning.
    pub fn status(&self) -> (s: Status)
        ensures
            s == self.spec_status(),
    {
        match self {
            Completion::Success(_) => Status::SUCCESS(),
            Completion::Warning(_, stat) => *stat,
        }
    }

    /// Access the inner value, whatever the warning.
    pub fn log(self) -> (v: T)
        ensures
            v == self.spec_value(),
    {
        match self {
            Completion::Success(res) => res,
            Completion::Warning(res, _) => res,
        }
    }

    /// Assume that no warning occured.
    pub fn unwrap(self) -> (v: T)
        requires
            self is Success,
        ensures
            v == self.spec_value(),
    {
        match self {
            Completion::Success(res) => res,
            Completion::Warning(res, _) => res,
        }
    }

    /// Assume that no warning occured; `msg` describes the expectation.
    pub fn expect(self, msg: &str) -> (v: T)
        requires
            self is Success,
        ensures
            v == self.spec_value(),
    {
        match self {
            Completion::Success(res) => res,
            Completion::Warning(res, _) => res,
        }
    }

    /// The completion of the same kind as this one (a success, or a warning
    /// with the same status) whose value is `u`.
    pub open spec fn with_value<U>(self, u: U) -> Completion<U> {
        match self {
            Completion::Success(_) => Completion::Success(u),
            Completion::Warning(_, s) => Completion::Warning(u, s),
        }
    }

    /// The completion of the same kind as this one whose value is `f` of its
    /// value.
    pub open spec fn spec_map<U>(self, f: spec_fn(T) -> U) -> Completion<U> {
        self.with_value(f(self.spec_value()))
    }

    /// This completion merged with the status `s`: unchanged by a success,
    /// a warning with status `s` otherwise.
    pub open spec fn spec_with_warning(self, s: Status) -> Self {
        if spec_is_success(s) {
            self
        } else {
            Completion::Warning(self.spec_value(), s)
        }
    }

    /// Transform the inner value without unwrapping the Completion: `f` is
    /// called once, on the value, and the kind of the completion is kept.
    pub fn map<U, F: Fn(T) -> U>(self, f: F) -> (r: Completion<U>)
        requires
            f.requires((self.spec_value(),)),
        ensures
            f.ensures((self.spec_value(),), r.spec_value()),
            r == self.with_value(r.spec_value()),
            r.spec_status() == self.spec_status(),
            r is Success <==> self is Success,
    {
        match self {
            Completion::Success(res) => Completion::Success(f(res)),
            Completion::Warning(res, stat) => Completion::Warning(f(res), stat),
        }
    }

    /// Merge this completion with a success or warning status
    ///
    /// Since this type only has storage for one warning, if two warnings must
    /// be stored, the newer one is kept.
    pub fn with_warning(self, extra_stat: Status) -> (r: Self)
        ensures
            r == self.spec_with_warning(extra_stat),
            r.spec_value() == self.spec_value(),
            spec_is_success(extra_stat) ==> r == self,
            !spec_is_success(extra_stat) ==> r == Completion::Warning(
                self.spec_value(),
                extra_stat,
            ),
    {
        match self {
            Completion::Success(res) => {
                if extra_stat.is_success() {
                    Completion::Success(res)
                } else {
                    Completion::Warning(res, extra_stat)
                }
            },
            Completion::Warning(res, stat) => {
                if extra_stat.is_success() {
                    Completion::Warning(res, stat)
                } else {
                    Completion::Warning(res, extra_stat)
                }
            },
        }
    }
}

impl<T> From<T> for Completion<T> {
    /// A plain value is a completion without warning.
    fn from(res: T) -> (c: Self)
        ensures
            c == Completion::Success(res),
    {
        Completion::Success(res)
    }
}

impl<T> FromSpecImpl<T> for Completion<T> {
    open spec fn obeys_from_spec() -> bool {
        true
    }

    open spec fn from_spec(res: T) -> Self {
        Completion::Success(res)
    }
}

/// Mapping a completion with the identity gives it back.
pub proof fn lemma_map_identity<T>(c: Completion<T>)
    ensures
        c.spec_map(|x: T| x) == c,
{
}

/// Mapping a completion with `f` and then with `g` is mapping it with their
/// composition.
pub proof fn lemma_map_compose<T, U, V>(c: Completion<T>, f: spec_fn(T) -> U, g: spec_fn(U) -> V)
    ensures
        c.spec_map(f).spec_map(g) == c.spec_map(|x: T| g(f(x))),
{
}

/// What `map` gives for a function that computes `f` is the completion
/// mapped with `f`.
pub proof fn lemma_map_computes<T, U>(c: Completion<T>, r: Completion<U>, f: spec_fn(T) -> U)
    requires
        r == c.with_value(r.spec_value()),
        r.spec_value() == f(c.spec_value()),
    ensures
        r == c.spec_map(f),
{
}

/// Merging a success status into a completion leaves it as it is.
pub proof fn lemma_with_warning_success<T>(c: Completion<T>, s: Status)
    requires
        spec_is_success(s),
    ensures
        c.spec_with_warning(s) == c,
{
}

/// Of two statuses merged in turn, the last one that is not a success
/// wins.
pub proof fn lemma_with_warning_last<T>(c: Completion<T>, s1: Status, s2: Status)
    requires
        !spec_is_success(s2),
    ensures
        c.spec_with_warning(s1).spec_with_warning(s2) == c.spec_with_warning(s2),
{
}

} // verus!
