use vstd::prelude::*;

use crate::fact::{views_of, Fact, FactView};
use crate::store::FactStore;

verus! {

/// The persistence boundary: a place to store the whole dataset, agnostic of
/// the concrete backend.
///
/// `stored` is the dataset a read of the backend would deliver.  A write is
/// atomic from the caller's point of view: after a reported failure the
/// previously stored dataset is still intact, never a partial one.  Backends
/// report failures through their own error type, which the engine surfaces
/// verbatim and never retries.
pub trait Storage: Sized {
    /// The backend-specific error representation.
    type ErrorType;

    /// The dataset the backend holds.
    spec fn stored(&self) -> Seq<FactView>;

    /// Reads the stored dataset into memory.
    fn read_db(&self) -> (r: Result<FactStore, Self::ErrorType>)
        ensures
            r matches Ok(db) ==> db@ == self.stored(),
    ;

    /// Writes the whole dataset to the backend; on failure the backend's
    /// previous contents survive untouched.
    fn write_db(&mut self, db: &FactStore) -> (r: Result<(), Self::ErrorType>)
        ensures
            r is Ok ==> final(self).stored() == db@,
            r is Err ==> final(self).stored() == old(self).stored(),
    ;

    /// Gives the backend a last chance to release resources; not always
    /// necessary, so the default does nothing.  The stored dataset survives.
    fn exit_application(&mut self)
        ensures
            final(self).stored() == old(self).stored(),
    {
    }
}

/// The error an in-memory backend reports when told to fail.
#[derive(Clone, Copy, Debug, PartialEq, Eq, Structural)]
pub struct MemStorageError;

/// An in-process storage backend holding the dataset in memory.
///
/// It can be told to fail, so callers can exercise the engine's storage
/// failure paths without a real backend.
pub struct MemStorage {
    facts: Vec<Fact>,
    failing: bool,
}

impl MemStorage {
    /// Whether the backend is currently refusing reads and writes.
    pub closed spec fn failing_spec(&self) -> bool {
        self.failing
    }

    /// Creates an empty, functioning backend.
    pub fn new() -> (r: MemStorage)
        ensures
            r.stored() == Seq::<FactView>::empty(),
            !r.failing_spec(),
    {
        let r = MemStorage { facts: Vec::new(), failing: false };
        proof {
            assert(r.stored() =~= Seq::<FactView>::empty());
        }
        r
    }

    /// Creates a functioning backend already holding the given facts.
    pub fn with_facts(facts: Vec<Fact>) -> (r: MemStorage)
        ensures
            r.stored() == views_of(facts@),
            !r.failing_spec(),
    {
        MemStorage { facts, failing: false }
    }

    /// Tells the backend to refuse, or again accept, reads and writes.  The
    /// stored dataset is untouched.
    pub fn set_failing(&mut self, failing: bool)
        ensures
            final(self).stored() == old(self).stored(),
            final(self).failing_spec() == failing,
    {
        self.failing = failing;
    }
}

impl Storage for MemStorage {
    type ErrorType = MemStorageError;

    closed spec fn stored(&self) -> Seq<FactView> {
        views_of(self.facts@)
    }

    fn read_db(&self) -> (r: Result<FactStore, MemStorageError>)
        ensures
            r is Ok <==> !self.failing_spec(),
    {
        if self.failing {
            Err(MemStorageError)
        } else {
            let mut copy: Vec<Fact> = Vec::new();
            let n = self.facts.len();
            let mut i: usize = 0;
            while i < n
                invariant
                    i <= n,
                    n == self.facts@.len(),
                    views_of(copy@) == views_of(self.facts@).take(i as int),
                decreases n - i,
            {
                let ghost before = copy@;
                copy.push(self.facts[i].clone());
                proof {
                    assert(views_of(copy@) =~= views_of(before).push(self.facts@[i as int]@));
                    assert(views_of(self.facts@).take(i + 1) =~= views_of(self.facts@).take(
                        i as int,
                    ).push(self.facts@[i as int]@));
                }
                i = i + 1;
            }
            proof {
                assert(views_of(self.facts@).take(n as int) =~= views_of(self.facts@));
            }
            Ok(FactStore::from_vec(copy))
        }
    }

    fn write_db(&mut self, db: &FactStore) -> (r: Result<(), MemStorageError>)
        ensures
            r is Ok <==> !old(self).failing_spec(),
            final(self).failing_spec() == old(self).failing_spec(),
    {
        if self.failing {
            Err(MemStorageError)
        } else {
            self.facts = db.snapshot_all();
            Ok(())
        }
    }
}

} // verus!
