//! The guest-side handle map: nonzero 64-bit handles naming live objects.
//!
//! The map holds the sole strong reference to each registered object. Handles
//! come from a monotonically increasing counter, so a handle is never reused
//! within one run; zero is reserved and never issued. Counter wrap-around
//! would be a fatal programming error and is ruled out by the precondition
//! of [`HandleMap::insert`].

use std::collections::HashMap;
use vstd::prelude::*;

verus! {

broadcast use vstd::std_specs::hash::group_hash_axioms;

/// Maps handles to owned guest objects of one interface type.
pub struct HandleMap<T> {
    entries: HashMap<u64, T>,
    next_handle: u64,
}

/// The state change performed by an insertion: a fresh nonzero handle is
/// issued for the object and nothing else moves.
pub open spec fn insertion<T>(
    pre: Map<u64, T>,
    post: Map<u64, T>,
    handle: u64,
    object: T,
) -> bool {
    &&& handle != 0
    &&& !pre.contains_key(handle)
    &&& post == pre.insert(handle, object)
}

impl<T> HandleMap<T> {
    /// The live entries.
    pub closed spec fn entries(&self) -> Map<u64, T> {
        self.entries@
    }

    /// The next handle to issue.
    pub closed spec fn next(&self) -> u64 {
        self.next_handle
    }

    /// Every issued handle is nonzero and below the next handle to issue.
    pub closed spec fn wf(&self) -> bool {
        &&& 1 <= self.next_handle
        &&& forall|h: u64| self.entries@.contains_key(h) ==> 0 < h < self.next_handle
    }

    /// An empty map; the first handle to be issued is `1`.
    pub fn new() -> (map: Self)
        ensures
            map.wf(),
            map.entries() == Map::<u64, T>::empty(),
            map.next() == 1,
    {
        HandleMap { entries: HashMap::new(), next_handle: 1 }
    }

    /// Stores the object and returns a fresh nonzero handle for it.
    ///
    /// Exhausting the 64-bit counter would be a fatal error; the
    /// precondition rules it out.
    pub fn insert(&mut self, object: T) -> (handle: u64)
        requires
            old(self).wf(),
            old(self).next() < u64::MAX,
        ensures
            final(self).wf(),
            handle == old(self).next(),
            final(self).next() == old(self).next() + 1,
            insertion(old(self).entries(), final(self).entries(), handle, object),
    {
        let handle = self.next_handle;
        self.next_handle = self.next_handle + 1;
        self.entries.insert(handle, object);
        handle
    }

    /// Borrows the object a handle names, or reports a stale handle.
    pub fn get(&self, handle: u64) -> (object: Option<&T>)
        ensures
            match object {
                Some(obj) => self.entries().contains_key(handle) && *obj == self.entries()[handle],
                None => !self.entries().contains_key(handle),
            },
    {
        self.entries.get(&handle)
    }

    /// Unlinks and returns the object a handle names, so that its destructor
    /// runs with the caller. After removal the handle is stale: any later
    /// lookup of it fails.
    pub fn remove(&mut self, handle: u64) -> (object: Option<T>)
        requires
            old(self).wf(),
        ensures
            final(self).wf(),
            final(self).next() == old(self).next(),
            final(self).entries() == old(self).entries().remove(handle),
            match object {
                Some(obj) => old(self).entries().contains_key(handle) && obj == old(
                    self,
                ).entries()[handle],
                None => !old(self).entries().contains_key(handle),
            },
    {
        self.entries.remove(&handle)
    }

    /// The number of live entries.
    pub fn len(&self) -> (n: usize)
        ensures
            n == self.entries().len(),
    {
        self.entries.len()
    }
}

/// Law: distinct insertions issue distinct handles. Two consecutive
/// insertions, wherever they stand in a run, never return the same handle,
/// and a freshly issued handle differs from every handle already live.
pub proof fn lemma_handles_unique<T>(
    m0: Map<u64, T>,
    m1: Map<u64, T>,
    m2: Map<u64, T>,
    h1: u64,
    h2: u64,
    o1: T,
    o2: T,
)
    requires
        insertion(m0, m1, h1, o1),
        insertion(m1, m2, h2, o2),
    ensures
        h1 != h2,
        h1 != 0,
        h2 != 0,
        forall|h: u64| m0.contains_key(h) ==> h1 != h && h2 != h,
{
    assert(m1.contains_key(h1));
    assert(forall|h: u64| m0.contains_key(h) ==> #[trigger] m1.contains_key(h));
}

} // verus!
