//! Error taxonomy and uniform enrichment: every fallible delegation wraps
//! the underlying cause with a short operation description, the current
//! path if any, and the current raw descriptor if any.

use vstd::prelude::*;

use crate::bytes::copy_bytes;

verus! {

/// The short description of the operation being attempted, carried by every
/// enriched error.
#[derive(Clone, Copy, Debug, PartialEq, Eq, Structural)]
pub enum Op {
    Opening,
    Creating,
    Reading,
    Writing,
    Syncing,
    Deallocating,
    PreAllocating,
    Truncating,
    Renaming,
    Removing,
    Statting,
    Closing,
}

impl Op {
    /// The human-readable description, as it would appear in a diagnostic.
    pub fn label(&self) -> &'static str {
        match self {
            Op::Opening => "Opening",
            Op::Creating => "Creating",
            Op::Reading => "Reading",
            Op::Writing => "Writing",
            Op::Syncing => "Syncing",
            Op::Deallocating => "Deallocating space",
            Op::PreAllocating => "Pre-allocating space",
            Op::Truncating => "Truncating",
            Op::Renaming => "Renaming",
            Op::Removing => "Removing",
            Op::Statting => "Getting file metadata",
            Op::Closing => "Closing",
        }
    }
}

/// The underlying cause reported by the storage layer.
#[derive(Clone, Copy, Debug, PartialEq, Eq, Structural)]
pub enum OsError {
    NotFound,
    AlreadyExists,
    InvalidInput,
    BadDescriptor,
    NoSpace,
    FileTooLarge,
    TooManyOpenFiles,
    Other,
}

/// An underlying cause plus the diagnosable context added exactly once at
/// the facade boundary.
#[derive(Clone, Debug, PartialEq, Eq)]
pub struct Enriched {
    pub op: Op,
    pub path: Option<Vec<u8>>,
    pub fd: Option<i32>,
    pub cause: OsError,
}

/// Every failure class the facade can return. `EngineUnavailable` is not an
/// I/O condition: it signals that the engine reference could not be
/// resolved, a lifetime violation by the caller.
#[derive(Clone, Debug, PartialEq, Eq)]
pub enum FileError {
    OpenFailure(Enriched),
    IoFailure(Enriched),
    RenameFailure(Enriched),
    RemoveFailure(Enriched),
    StatFailure(Enriched),
    CloseFailure(Enriched),
    EngineUnavailable,
}

pub open spec fn opt_bytes_view(p: Option<Vec<u8>>) -> Option<Seq<u8>> {
    match p {
        Some(v) => Some(v@),
        None => None,
    }
}

impl FileError {
    pub open spec fn payload(self) -> Option<Enriched> {
        match self {
            FileError::OpenFailure(e) => Some(e),
            FileError::IoFailure(e) => Some(e),
            FileError::RenameFailure(e) => Some(e),
            FileError::RemoveFailure(e) => Some(e),
            FileError::StatFailure(e) => Some(e),
            FileError::CloseFailure(e) => Some(e),
            FileError::EngineUnavailable => None,
        }
    }

    /// The failure class that an operation's errors belong to.
    pub open spec fn right_class(self, op: Op) -> bool {
        match op {
            Op::Opening | Op::Creating => self is OpenFailure,
            Op::Renaming => self is RenameFailure,
            Op::Removing => self is RemoveFailure,
            Op::Statting => self is StatFailure,
            Op::Closing => self is CloseFailure,
            _ => self is IoFailure,
        }
    }

    /// This error is exactly `cause` wrapped once with the context of `op`
    /// on a file with path `path` and descriptor `fd`.
    pub open spec fn wraps(self, op: Op, path: Option<Seq<u8>>, fd: Option<i32>, cause: OsError) -> bool {
        &&& self.right_class(op)
        &&& match self.payload() {
            Some(e) => e.op == op && opt_bytes_view(e.path) == path && e.fd == fd && e.cause
                == cause,
            None => false,
        }
    }
}

/// Wraps an underlying cause with the operation description, the path and
/// the descriptor, choosing the failure class the operation belongs to.
pub fn enrich(cause: OsError, op: Op, path: Option<&Vec<u8>>, fd: Option<i32>) -> (r: FileError)
    ensures
        r.wraps(op, match path { Some(p) => Some(p@), None => None }, fd, cause),
{
    let owned_path: Option<Vec<u8>> = match path {
        Some(p) => Some(copy_bytes(p)),
        None => None,
    };
    let e = Enriched { op, path: owned_path, fd, cause };
    match op {
        Op::Opening | Op::Creating => FileError::OpenFailure(e),
        Op::Renaming => FileError::RenameFailure(e),
        Op::Removing => FileError::RemoveFailure(e),
        Op::Statting => FileError::StatFailure(e),
        Op::Closing => FileError::CloseFailure(e),
        _ => FileError::IoFailure(e),
    }
}

} // verus!
