//! I/O failures as plain values: what the checks are handed when a file could
//! not be read, and what they hand back when a stream fails.

use crate::conditions::ConditionError;
use vstd::prelude::*;

verus! {

/// The kind of an I/O failure, as far as the checks tell kinds apart.
#[derive(Clone, Copy, Debug, PartialEq, Eq, Structural)]
pub enum IoKind {
    /// The file does not exist.
    NotFound,
    /// The file may not be read.
    PermissionDenied,
    /// A parameter or a stream was malformed.
    InvalidInput,
    /// The data is not what it has to be (text that is no UTF-8, a state
    /// outside the known vocabulary).
    InvalidData,
    /// The stream ended too early.
    UnexpectedEof,
    /// Any other failure.
    Other,
}

/// An I/O failure: its kind and its message.
#[derive(Debug)]
pub struct IoError {
    pub kind: IoKind,
    pub message: String,
}

impl IoError {
    /// Whether the failure is ignorable: only a missing file says that the
    /// means of introspection is unavailable.
    pub open spec fn ignorable(&self) -> bool {
        self.kind is NotFound
    }
}

impl Clone for IoError {
    fn clone(&self) -> (copy: Self)
        ensures
            copy == *self,
    {
        IoError { kind: self.kind, message: self.message.clone() }
    }
}

impl ConditionError for IoError {
    fn is_ignorable(&self) -> (r: bool)
        ensures
            r == self.ignorable(),
    {
        self.kind == IoKind::NotFound
    }

    fn message(&self) -> (r: String)
        ensures
            r@ == self.message@,
    {
        self.message.clone()
    }
}

} // verus!
