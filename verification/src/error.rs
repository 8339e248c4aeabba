//! Error taxonomy of the mediation layer.
//!
//! Per-request mediation failures are returned to the calling workload
//! operation; they never abort the keep.  Construction-phase failures are
//! surfaced by their own error types where they arise.

use vstd::prelude::*;

verus! {

/// Error returned to a workload file operation.
#[derive(Clone, Copy, Debug, PartialEq, Eq, Structural)]
pub enum VfsError {
    /// The operation is meaningless on a synthetic node.
    NotSupported,
    /// Malformed address, port, or disallowed flag combination.
    InvalidArgument,
    /// A non-directory node was opened as a directory.
    NotDir,
    /// A socket node was requested without both read and write access.
    Permission,
    /// The entry already exists (exclusive creation requested).
    Exist,
    /// The underlying OS bind/connect/accept failed.
    Io,
    /// No entry of that name exists.
    NotFound,
}

impl VfsError {
    /// A short human-readable label for the error.
    pub fn msg(&self) -> (r: String)
        ensures
            self is NotSupported ==> r@ == "not supported"@,
            self is InvalidArgument ==> r@ == "invalid argument"@,
            self is NotDir ==> r@ == "not a directory"@,
            self is Permission ==> r@ == "permission denied"@,
            self is Exist ==> r@ == "entry exists"@,
            self is Io ==> r@ == "i/o error"@,
            self is NotFound ==> r@ == "not found"@,
    {
        match self {
            VfsError::NotSupported => String::from_str("not supported"),
            VfsError::InvalidArgument => String::from_str("invalid argument"),
            VfsError::NotDir => String::from_str("not a directory"),
            VfsError::Permission => String::from_str("permission denied"),
            VfsError::Exist => String::from_str("entry exists"),
            VfsError::Io => String::from_str("i/o error"),
            VfsError::NotFound => String::from_str("not found"),
        }
    }
}

} // verus!
