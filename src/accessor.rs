use vstd::prelude::*;

use crate::error::{classified, classify, AccessError, FailureKind, StorageFailure};
use crate::store::{access_failure, Handle, ResourceState, ResourceStore};

verus! {

/// What to do once an attempt to open a resource has come back.
#[derive(Debug, PartialEq, Eq)]
pub enum OpenStep<H> {
    /// The resource is open: hand the handle to the caller.
    Ready(H),
    /// The resource is missing and may be created: create it empty.
    Create,
    /// Stop with this error.
    Fail(AccessError),
}

/// The step that follows an attempt to open a resource.
pub open spec fn open_step<H>(opened: Result<H, StorageFailure>, create_if_missing: bool) -> OpenStep<H> {
    match opened {
        Ok(h) => OpenStep::Ready(h),
        Err(f) => if f.kind == FailureKind::NotFound && create_if_missing {
            OpenStep::Create
        } else {
            OpenStep::Fail(classified(f))
        },
    }
}

/// Decides what follows an attempt to open a resource: a missing one is
/// created where that is asked for; any other failure is classified.
pub fn after_open<H>(opened: Result<H, StorageFailure>, create_if_missing: bool) -> (r: OpenStep<H>)
    ensures
        r == open_step(opened, create_if_missing),
{
    match opened {
        Ok(h) => OpenStep::Ready(h),
        Err(f) => {
            if create_if_missing && f.kind == FailureKind::NotFound {
                OpenStep::Create
            } else {
                OpenStep::Fail(classify(f))
            }
        },
    }
}

/// The outcome of creating a missing resource: whatever the failure, it is
/// reported as `Other` with its detail.
pub open spec fn creation_outcome<H>(created: Result<H, StorageFailure>) -> Result<H, AccessError> {
    match created {
        Ok(h) => Ok(h),
        Err(f) => Err(AccessError::Other(f.detail)),
    }
}

/// Turns the result of creating a missing resource into the caller's outcome.
pub fn after_create<H>(created: Result<H, StorageFailure>) -> (r: Result<H, AccessError>)
    ensures
        r == creation_outcome(created),
{
    match created {
        Ok(h) => Ok(h),
        Err(f) => Err(AccessError::Other(f.detail)),
    }
}

/// The outcome of one step that may fail: its value, or its failure classified.
pub open spec fn step_outcome<T>(done: Result<T, StorageFailure>) -> Result<T, AccessError> {
    match done {
        Ok(v) => Ok(v),
        Err(f) => Err(classified(f)),
    }
}

/// Passes on the value of a step, or its failure classified.
pub fn after_step<T>(done: Result<T, StorageFailure>) -> (r: Result<T, AccessError>)
    ensures
        r == step_outcome(done),
{
    match done {
        Ok(v) => Ok(v),
        Err(f) => Err(classify(f)),
    }
}

/// What reading `p` whole yields in a store that holds `m`: its contents,
/// or why it cannot be read.
pub open spec fn read_outcome(m: Map<Seq<char>, ResourceState>, p: Seq<char>) -> Result<
    Seq<char>,
    AccessError,
> {
    if !m.contains_key(p) {
        Err(AccessError::NotFound)
    } else if !m[p].readable {
        Err(AccessError::PermissionDenied)
    } else {
        Ok(m[p].contents)
    }
}

/// A text outcome with the text seen as characters.
pub open spec fn text_of(r: Result<String, AccessError>) -> Result<Seq<char>, AccessError> {
    match r {
        Ok(s) => Ok(s@),
        Err(e) => Err(e),
    }
}

/// Whether opening `p`, creating it if missing and `create_if_missing` holds,
/// succeeds in a store that holds `m`, and if not, why.
pub open spec fn opened(m: Map<Seq<char>, ResourceState>, p: Seq<char>, create_if_missing: bool) -> Result<
    (),
    AccessError,
> {
    if !m.contains_key(p) {
        if create_if_missing {
            Ok(())
        } else {
            Err(AccessError::NotFound)
        }
    } else if !m[p].readable {
        Err(AccessError::PermissionDenied)
    } else {
        Ok(())
    }
}

/// What the store holds once `p` has been opened: a missing resource that may
/// be created is there now, empty.
pub open spec fn after_open_or_create(
    m: Map<Seq<char>, ResourceState>,
    p: Seq<char>,
    create_if_missing: bool,
) -> Map<Seq<char>, ResourceState> {
    if !m.contains_key(p) && create_if_missing {
        m.insert(p, ResourceState { contents: Seq::empty(), readable: true })
    } else {
        m
    }
}

/// Opens the resource at `path` for reading; where it is missing and
/// `create_if_missing` holds, creates it empty first.
pub fn open_or_create(store: &mut ResourceStore, path: &str, create_if_missing: bool) -> (r: Result<
    Handle,
    AccessError,
>)
    ensures
        match r {
            Ok(h) => opened(old(store)@, path@, create_if_missing) is Ok && h.path@ == path@,
            Err(e) => opened(old(store)@, path@, create_if_missing) == Err::<(), AccessError>(e),
        },
        final(store)@ == after_open_or_create(old(store)@, path@, create_if_missing),
{
    match after_open(store.open(path), create_if_missing) {
        OpenStep::Ready(h) => Ok(h),
        OpenStep::Create => after_create(store.create(path)),
        OpenStep::Fail(e) => Err(e),
    }
}

/// Reads the whole of the resource at `path`: it is opened, and then read,
/// and the first failure is returned classified. Nothing is created.
pub fn read_all_text(store: &ResourceStore, path: &str) -> (r: Result<String, AccessError>)
    ensures
        text_of(r) == read_outcome(store@, path@),
{
    let h = match after_step(store.open(path)) {
        Ok(h) => h,
        Err(e) => {
            return Err(e);
        },
    };
    after_step(store.read(&h))
}

/// Reads the user name kept in the resource `hello.txt`.
pub fn read_username_from_file(store: &ResourceStore) -> (r: Result<String, AccessError>)
    ensures
        text_of(r) == read_outcome(store@, "hello.txt"@),
{
    read_all_text(store, "hello.txt")
}

} // verus!
