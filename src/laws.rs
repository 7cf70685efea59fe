use vstd::prelude::*;

use crate::accessor::{after_open_or_create, opened, read_outcome, text_of};
use crate::error::AccessError;
use crate::store::ResourceState;

verus! {

/// Opening a missing resource without leave to create it fails with
/// `NotFound`, and the store is left as it was.
pub proof fn missing_without_creation_is_not_found(m: Map<Seq<char>, ResourceState>, p: Seq<char>)
    requires
        !m.contains_key(p),
    ensures
        opened(m, p, false) == Err::<(), AccessError>(AccessError::NotFound),
        after_open_or_create(m, p, false) == m,
{
}

/// Opening a missing resource with leave to create it succeeds, and reading
/// it afterwards gives the empty text.
pub proof fn created_resource_reads_empty(m: Map<Seq<char>, ResourceState>, p: Seq<char>)
    requires
        !m.contains_key(p),
    ensures
        opened(m, p, true) is Ok,
        read_outcome(after_open_or_create(m, p, true), p) == Ok::<Seq<char>, AccessError>(
            Seq::empty(),
        ),
{
}

/// A resource stored with the contents `s` reads back as exactly `s`.
pub proof fn stored_text_reads_back(m: Map<Seq<char>, ResourceState>, p: Seq<char>, s: Seq<char>)
    ensures
        read_outcome(m.insert(p, ResourceState { contents: s, readable: true }), p) == Ok::<
            Seq<char>,
            AccessError,
        >(s),
{
}

/// Reading a resource that exists but may not be read fails with
/// `PermissionDenied`: neither `NotFound` nor success.
pub proof fn denied_read_is_permission_denied(m: Map<Seq<char>, ResourceState>, p: Seq<char>)
    requires
        m.contains_key(p),
        !m[p].readable,
    ensures
        read_outcome(m, p) == Err::<Seq<char>, AccessError>(AccessError::PermissionDenied),
{
}

/// Two reads of the same resource in an unchanged store give the same
/// outcome, the same contents where they succeed.
pub proof fn repeated_reads_agree(
    m: Map<Seq<char>, ResourceState>,
    p: Seq<char>,
    first: Result<String, AccessError>,
    second: Result<String, AccessError>,
)
    requires
        text_of(first) == read_outcome(m, p),
        text_of(second) == read_outcome(m, p),
    ensures
        text_of(first) == text_of(second),
        first is Ok ==> second is Ok && first->Ok_0@ == second->Ok_0@,
{
}

} // verus!
