//! The shared error vocabulary that every backend failure is mapped to.

use vstd::prelude::*;

verus! {

/// The fixed set of error kinds.
#[derive(Clone, Copy, Debug, PartialEq, Eq, Structural)]
pub enum ErrorKind {
    NotFound,
    AlreadyExists,
    PermissionDenied,
    InvalidInput,
    /// The capability for the operation is not present.
    Unsupported,
    /// The backend throttled the call.
    RateLimited,
    /// The backend detected a concurrent modification.
    Conflict,
    /// The handle was closed before the operation.
    Closed,
    InvalidState,
    IsADirectory,
    NotADirectory,
    /// Any backend failure without a more precise kind.
    Unexpected,
}

/// One normalized failure: its kind, whether the backend called it transient,
/// and a message for diagnostics.
#[derive(Debug)]
pub struct Error {
    pub kind: ErrorKind,
    pub transient: bool,
    pub message: String,
}

/// The mathematical value of an [`Error`].
pub ghost struct ErrorView {
    pub kind: ErrorKind,
    pub transient: bool,
    pub message: Seq<char>,
}

impl View for Error {
    type V = ErrorView;

    open spec fn view(&self) -> ErrorView {
        ErrorView { kind: self.kind, transient: self.transient, message: self.message@ }
    }
}

/// Whether a retry may change the outcome of a failure of this shape:
/// throttling always, an unexpected failure only when marked transient.
pub open spec fn retryable(kind: ErrorKind, transient: bool) -> bool {
    kind == ErrorKind::RateLimited || (kind == ErrorKind::Unexpected && transient)
}

impl Error {
    /// A permanent error of the given kind.
    pub fn new(kind: ErrorKind, message: &str) -> (e: Error)
        ensures
            e@ == (ErrorView { kind, transient: false, message: message@ }),
    {
        Error { kind, transient: false, message: message.to_owned() }
    }

    /// The same error, marked as transient.
    pub fn into_transient(self) -> (e: Error)
        ensures
            e@ == (ErrorView { transient: true, ..self@ }),
    {
        Error { kind: self.kind, transient: true, message: self.message }
    }

    /// A second error with the same kind, mark and message.
    pub fn duplicate(&self) -> (e: Error)
        ensures
            e@ == self@,
    {
        Error { kind: self.kind, transient: self.transient, message: self.message.clone() }
    }

    /// The kind of the failure.
    pub fn kind(&self) -> (k: ErrorKind)
        ensures
            k == self.kind,
    {
        self.kind
    }

    /// The message that describes the failure.
    pub fn message(&self) -> (m: &str)
        ensures
            m@ == self.message@,
    {
        self.message.as_str()
    }

    /// Whether a retry layer may repeat the call that failed with this error.
    pub fn is_retryable(&self) -> (b: bool)
        ensures
            b == retryable(self.kind, self.transient),
    {
        match self.kind {
            ErrorKind::RateLimited => true,
            ErrorKind::Unexpected => self.transient,
            _ => false,
        }
    }
}

} // verus!
