//! The failure taxonomy shared by the three workflows, and the shape of a finished result.

use vstd::prelude::*;
use vstd::string::*;

verus! {

/// What went wrong.  Every failing workflow step maps to exactly one kind.
#[derive(Clone, Copy, Debug, PartialEq, Eq, Structural)]
pub enum ErrorKind {
    /// A required input field is empty.
    InvalidInput,
    /// The user or the token is absent.
    NotFound,
    /// An insert hit a value that must be unique.
    Conflict,
    /// The password does not match the stored digest.
    Unauthorized,
    /// Hashing or signing failed, or produced something unusable.
    CryptoFailure,
    /// The store failed, or handed back a record of the wrong shape.
    StorageFailure,
}

/// The `status` member of every produced result.
#[derive(Clone, Copy, Debug, PartialEq, Eq, Structural)]
pub enum Status {
    Success,
    Fail,
}

/// A failed workflow: its kind and a human-readable message.
#[derive(Clone, Debug, PartialEq, Eq)]
pub struct Failure {
    pub kind: ErrorKind,
    pub message: String,
}

/// Mathematical model of a [`Failure`].
pub struct FailureView {
    pub kind: ErrorKind,
    pub message: Seq<char>,
}

impl View for Failure {
    type V = FailureView;

    open spec fn view(&self) -> FailureView {
        FailureView { kind: self.kind, message: self.message@ }
    }
}

/// The failure of the given kind whose message is `prefix` followed by `detail`.
pub open spec fn detailed(kind: ErrorKind, prefix: Seq<char>, detail: Seq<char>) -> FailureView {
    FailureView { kind, message: prefix + detail }
}

impl Status {
    /// The text of the status as it appears in a result.
    pub open spec fn text(self) -> Seq<char> {
        match self {
            Status::Success => "success"@,
            Status::Fail => "fail"@,
        }
    }

    /// The text of the status as it appears in a result.
    pub fn as_str(self) -> (r: &'static str)
        ensures
            r@ == self.text(),
    {
        match self {
            Status::Success => "success",
            Status::Fail => "fail",
        }
    }

    /// The status of a finished workflow: success exactly when it produced a value.
    pub fn of<T>(outcome: &Result<T, Failure>) -> (r: Status)
        ensures
            r == (if outcome is Ok { Status::Success } else { Status::Fail }),
    {
        match outcome {
            Ok(_) => Status::Success,
            Err(_) => Status::Fail,
        }
    }
}

impl Failure {
    /// A failure with the given message.
    pub fn new(kind: ErrorKind, message: &str) -> (r: Failure)
        ensures
            r@ == (FailureView { kind, message: message@ }),
    {
        Failure { kind, message: String::from_str(message) }
    }

    /// A failure whose message is `prefix` followed by `detail`.
    pub fn with_detail(kind: ErrorKind, prefix: &str, detail: &str) -> (r: Failure)
        ensures
            r@ == detailed(kind, prefix@, detail@),
    {
        let message = String::from_str(prefix).concat(detail);
        Failure { kind, message }
    }
}

} // verus!
