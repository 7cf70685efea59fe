use vstd::prelude::*;

use crate::error::{FailureKind, StorageFailure};

verus! {

/// What the store holds at one path.
pub struct ResourceState {
    pub contents: Seq<char>,
    pub readable: bool,
}

/// The failure that opening or reading `p` meets in a store holding `m`, if any.
pub open spec fn access_failure(m: Map<Seq<char>, ResourceState>, p: Seq<char>) -> Option<
    FailureKind,
> {
    if !m.contains_key(p) {
        Some(FailureKind::NotFound)
    } else if !m[p].readable {
        Some(FailureKind::PermissionDenied)
    } else {
        None
    }
}

struct Entry {
    path: String,
    contents: String,
    readable: bool,
}

spec fn state_of(e: Entry) -> ResourceState {
    ResourceState { contents: e.contents@, readable: e.readable }
}

/// The state of `p` in `es`: the last entry for `p` counts.
spec fn lookup(es: Seq<Entry>, p: Seq<char>) -> Option<ResourceState>
    decreases es.len(),
{
    if es.len() == 0 {
        None
    } else if es.last().path@ == p {
        Some(state_of(es.last()))
    } else {
        lookup(es.drop_last(), p)
    }
}

proof fn lemma_lookup_update(es: Seq<Entry>, i: int, e: Entry, q: Seq<char>)
    requires
        0 <= i < es.len(),
        es[i].path@ == e.path@,
        forall|j: int| i < j < es.len() ==> es[j].path@ != e.path@,
    ensures
        lookup(es.update(i, e), q) == if q == e.path@ {
            Some(state_of(e))
        } else {
            lookup(es, q)
        },
    decreases es.len(),
{
    let u = es.update(i, e);
    if i == es.len() - 1 {
        assert(u.drop_last() =~= es.drop_last());
    } else {
        assert(u.drop_last() =~= es.drop_last().update(i, e));
        lemma_lookup_update(es.drop_last(), i, e, q);
    }
}

/// A failure of the given kind, with its description.
fn failure(kind: FailureKind, detail: &str) -> (r: StorageFailure)
    ensures
        r.kind == kind,
{
    StorageFailure { kind, detail: detail.to_owned() }
}

/// A store of text resources held in memory, keyed by path.
pub struct ResourceStore {
    entries: Vec<Entry>,
}

/// A resource opened for reading.
#[derive(Debug)]
pub struct Handle {
    pub path: String,
}

impl View for ResourceStore {
    type V = Map<Seq<char>, ResourceState>;

    closed spec fn view(&self) -> Map<Seq<char>, ResourceState> {
        Map::new(
            |p: Seq<char>| lookup(self.entries@, p) is Some,
            |p: Seq<char>| lookup(self.entries@, p)->0,
        )
    }
}

impl ResourceStore {
    /// A store that holds no resource.
    pub fn new() -> (r: ResourceStore)
        ensures
            r@ == Map::<Seq<char>, ResourceState>::empty(),
    {
        let r = ResourceStore { entries: Vec::new() };
        assert(r@ =~= Map::<Seq<char>, ResourceState>::empty());
        r
    }

    /// Where the entry that counts for `path` stands.
    fn find(&self, path: &String) -> (r: Option<usize>)
        ensures
            match r {
                None => lookup(self.entries@, path@) is None,
                Some(i) => {
                    &&& i < self.entries@.len()
                    &&& self.entries@[i as int].path@ == path@
                    &&& forall|j: int|
                        i < j < self.entries@.len() ==> self.entries@[j].path@ != path@
                    &&& lookup(self.entries@, path@) == Some(state_of(self.entries@[i as int]))
                },
            },
    {
        let mut k = self.entries.len();
        assert(self.entries@.subrange(0, k as int) =~= self.entries@);
        while k > 0
            invariant
                k <= self.entries@.len(),
                lookup(self.entries@, path@) == lookup(self.entries@.subrange(0, k as int), path@),
                forall|j: int| k <= j < self.entries@.len() ==> self.entries@[j].path@ != path@,
            decreases k,
        {
            let prefix = Ghost(self.entries@.subrange(0, k as int));
            assert(prefix@.drop_last() =~= self.entries@.subrange(0, k - 1));
            if self.entries[k - 1].path == *path {
                return Some(k - 1);
            }
            k = k - 1;
        }
        None
    }

    /// Stores `contents` at `path`, in place of what was there.
    pub fn put(&mut self, path: &str, contents: &str, readable: bool)
        ensures
            final(self)@ == old(self)@.insert(
                path@,
                ResourceState { contents: contents@, readable },
            ),
    {
        let key = path.to_owned();
        let e = Entry { path: key, contents: contents.to_owned(), readable };
        let found = self.find(&e.path);
        let ghost es = self.entries@;
        match found {
            Some(i) => {
                proof {
                    assert forall|q: Seq<char>|
                        lookup(es.update(i as int, e), q) == if q == path@ {
                            Some(state_of(e))
                        } else {
                            lookup(es, q)
                        } by {
                        lemma_lookup_update(es, i as int, e, q);
                    }
                }
                self.entries.set(i, e);
            },
            None => {
                proof {
                    assert(es.push(e).drop_last() =~= es);
                }
                self.entries.push(e);
            },
        }
        assert(self@ =~= old(self)@.insert(
            path@,
            ResourceState { contents: contents@, readable },
        ));
    }

    /// Opens the resource at `path` for reading.
    pub fn open(&self, path: &str) -> (r: Result<Handle, StorageFailure>)
        ensures
            match r {
                Ok(h) => access_failure(self@, path@) is None && h.path@ == path@,
                Err(f) => access_failure(self@, path@) == Some(f.kind),
            },
    {
        let key = path.to_owned();
        match self.find(&key) {
            None => Err(failure(FailureKind::NotFound, "no resource at this path")),
            Some(i) => {
                if self.entries[i].readable {
                    Ok(Handle { path: key })
                } else {
                    Err(failure(FailureKind::PermissionDenied, "resource is not readable"))
                }
            },
        }
    }

    /// Creates an empty resource at `path`, emptying one that is already there;
    /// a resource that may not be read is left alone.
    pub fn create(&mut self, path: &str) -> (r: Result<Handle, StorageFailure>)
        ensures
            match r {
                Ok(h) => {
                    &&& access_failure(old(self)@, path@) != Some(FailureKind::PermissionDenied)
                    &&& h.path@ == path@
                    &&& final(self)@ == old(self)@.insert(
                        path@,
                        ResourceState { contents: Seq::empty(), readable: true },
                    )
                },
                Err(f) => {
                    &&& access_failure(old(self)@, path@) == Some(FailureKind::PermissionDenied)
                    &&& f.kind == FailureKind::PermissionDenied
                    &&& final(self)@ == old(self)@
                },
            },
    {
        let key = path.to_owned();
        if let Some(i) = self.find(&key) {
            if !self.entries[i].readable {
                return Err(failure(FailureKind::PermissionDenied, "resource is not writable"));
            }
        }
        proof {
            reveal_strlit("");
            assert(""@ =~= Seq::<char>::empty());
        }
        self.put(path, "", true);
        Ok(Handle { path: key })
    }

    /// Reads the whole of the resource that `h` was opened on.
    pub fn read(&self, h: &Handle) -> (r: Result<String, StorageFailure>)
        ensures
            match r {
                Ok(s) => access_failure(self@, h.path@) is None && s@ == self@[h.path@].contents,
                Err(f) => access_failure(self@, h.path@) == Some(f.kind),
            },
    {
        match self.find(&h.path) {
            None => Err(failure(FailureKind::NotFound, "no resource at this path")),
            Some(i) => {
                if self.entries[i].readable {
                    Ok(self.entries[i].contents.clone())
                } else {
                    Err(failure(FailureKind::PermissionDenied, "resource is not readable"))
                }
            },
        }
    }
}

} // verus!
