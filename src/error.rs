use vstd::prelude::*;

verus! {

/// Why an access to a text resource failed.
#[derive(Clone, Debug, PartialEq, Eq)]
pub enum AccessError {
    NotFound,
    PermissionDenied,
    /// Any other failure, with its detail kept for diagnostics.
    Other(String),
}

/// The kind of failure that a storage primitive reports.
#[derive(Clone, Copy, Debug, PartialEq, Eq, Structural)]
pub enum FailureKind {
    NotFound,
    PermissionDenied,
    Other,
}

/// A failure reported by a storage primitive (open, create or read).
#[derive(Clone, Debug, PartialEq, Eq)]
pub struct StorageFailure {
    pub kind: FailureKind,
    pub detail: String,
}

/// The access error that a storage failure is classified as.
pub open spec fn classified(f: StorageFailure) -> AccessError {
    match f.kind {
        FailureKind::NotFound => AccessError::NotFound,
        FailureKind::PermissionDenied => AccessError::PermissionDenied,
        FailureKind::Other => AccessError::Other(f.detail),
    }
}

/// Maps a storage failure to the access error of the same kind.
pub fn classify(f: StorageFailure) -> (r: AccessError)
    ensures
        r == classified(f),
{
    match f.kind {
        FailureKind::NotFound => AccessError::NotFound,
        FailureKind::PermissionDenied => AccessError::PermissionDenied,
        FailureKind::Other => AccessError::Other(f.detail),
    }
}

} // verus!
