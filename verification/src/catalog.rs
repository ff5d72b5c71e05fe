//! The in-memory package catalog: a request-scoped snapshot of package
//! records whose positions resolve back to stable identities. The index
//! mapping is a derived projection of the snapshot and is rebuilt wholesale by
//! every mutation, never patched.

use vstd::prelude::*;

use crate::records::Package;

verus! {

/// A snapshot of package records, addressed by position.
pub struct PackageCatalog {
    entries: Vec<Package>,
}

impl View for PackageCatalog {
    type V = Seq<Package>;

    closed spec fn view(&self) -> Seq<Package> {
        self.entries@
    }
}

/// The identity a position resolves to against a snapshot: the name of the
/// record at that position, or nothing past the end.
pub open spec fn spec_resolve(snapshot: Seq<Package>, index: int) -> Option<String> {
    if 0 <= index < snapshot.len() {
        Some(snapshot[index].name)
    } else {
        None
    }
}

impl PackageCatalog {
    /// An empty catalog.
    pub fn new() -> (r: PackageCatalog)
        ensures
            r@ == Seq::<Package>::empty(),
    {
        PackageCatalog { entries: Vec::new() }
    }

    /// The number of records in the current snapshot.
    pub fn len(&self) -> (r: usize)
        ensures
            r == self@.len(),
    {
        self.entries.len()
    }

    /// Replaces the whole snapshot; the index mapping is rebuilt from scratch.
    pub fn replace(&mut self, packages: Vec<Package>)
        ensures
            final(self)@ == packages@,
    {
        self.entries = packages;
    }

    /// The record at `index`, when there is one.
    pub fn get(&self, index: usize) -> (r: Option<&Package>)
        ensures
            index < self@.len() ==> r == Some(&self@[index as int]),
            index >= self@.len() ==> r is None,
    {
        if index < self.entries.len() {
            Some(&self.entries[index])
        } else {
            None
        }
    }

    /// Resolves a position to the stable identity of the record standing
    /// there, or nothing when the position is past the end.
    pub fn resolve(&self, index: usize) -> (r: Option<String>)
        ensures
            r == spec_resolve(self@, index as int),
    {
        if index < self.entries.len() {
            Some(self.entries[index].name.clone())
        } else {
            None
        }
    }

    /// Removes the record at `index`; every later record shifts one position
    /// down, so the whole index mapping is rebuilt at once.
    pub fn remove_by_index(&mut self, index: usize)
        requires
            index < old(self)@.len(),
        ensures
            final(self)@ == old(self)@.remove(index as int),
    {
        self.entries.remove(index);
    }
}

/// Every identity a position resolves to is the name of a record present in
/// the snapshot it was resolved against.
pub proof fn lemma_resolve_is_present(snapshot: Seq<Package>, index: int)
    ensures
        spec_resolve(snapshot, index) matches Some(name) ==> exists|j: int|
            0 <= j < snapshot.len() && snapshot[j].name == name,
{
    if 0 <= index < snapshot.len() {
        assert(snapshot[index].name == spec_resolve(snapshot, index)->Some_0);
    }
}

/// After removing the record at `index`, a position at or past the new length
/// resolves to nothing, and every position below it resolves to the correct
/// surviving identity: the mapping shifts and never leaves a stale binding.
pub proof fn lemma_remove_then_resolve(snapshot: Seq<Package>, index: int, probe: int)
    requires
        0 <= index < snapshot.len(),
    ensures
        probe >= snapshot.remove(index).len() ==> spec_resolve(snapshot.remove(index), probe)
            is None,
        0 <= probe < index ==> spec_resolve(snapshot.remove(index), probe) == Some(
            snapshot[probe].name,
        ),
        index <= probe < snapshot.remove(index).len() ==> spec_resolve(
            snapshot.remove(index),
            probe,
        ) == Some(snapshot[probe + 1].name),
{
}

} // verus!
