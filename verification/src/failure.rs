//! The error value that file operations report.

use vstd::prelude::*;
use vstd::string::*;

verus! {

/// The category of a failed file operation.
#[derive(Debug, Clone, Copy, PartialEq, Eq, Structural)]
pub enum IoFailureKind {
    /// A file or directory that the operation needs is not there.
    NotFound,
    /// The operating system denied access.
    PermissionDenied,
    /// Something already stands where a new file was to be created.
    AlreadyExists,
    /// A path lacks a parent directory or a file name.
    InvalidInput,
    /// A payload did not survive encoding and decoding.
    InvalidData,
    /// The worker that executes file operations is gone.
    BrokenPipe,
    /// Any other failure.
    Other,
}

/// A failed file operation: its category and a message for the user.
#[derive(Debug, Clone, PartialEq, Eq)]
pub struct IoFailure {
    pub kind: IoFailureKind,
    pub message: String,
}

/// An [`IoFailure`] with its message as a sequence of characters.
pub struct IoFailureView {
    pub kind: IoFailureKind,
    pub message: Seq<char>,
}

impl View for IoFailure {
    type V = IoFailureView;

    open spec fn view(&self) -> IoFailureView {
        IoFailureView { kind: self.kind, message: self.message@ }
    }
}

impl IoFailure {
    /// A failure of the given kind with the given message.
    pub fn new(kind: IoFailureKind, message: &str) -> (failure: IoFailure)
        ensures
            failure@ == (IoFailureView { kind, message: message@ }),
    {
        IoFailure { kind, message: message.to_owned() }
    }

    /// The message, as the user reads it.
    pub fn to_string(&self) -> (text: String)
        ensures
            text@ == self.message@,
    {
        self.message.clone()
    }

    /// A copy of this failure.
    pub fn duplicate(&self) -> (copy: IoFailure)
        ensures
            copy@ == self@,
    {
        IoFailure { kind: self.kind, message: self.message.clone() }
    }
}

} // verus!
