use vstd::prelude::*;

use crate::fact::{views_of, Fact, FactView, SchedState};
use crate::policy::SchedulingPolicy;

verus! {

/// The facts of `facts` that the policy considers due at instant `now`, in
/// their original order.
pub open spec fn spec_eligible_views<P: SchedulingPolicy>(
    policy: P,
    facts: Seq<FactView>,
    now: u64,
) -> Seq<FactView>
    decreases facts.len(),
{
    if facts.len() == 0 {
        Seq::empty()
    } else {
        let rest = spec_eligible_views(policy, facts.drop_last(), now);
        if policy.eligible_spec(facts.last().state, now) {
            rest.push(facts.last())
        } else {
            rest
        }
    }
}

/// How many facts of `facts` the policy considers due at instant `now`.
pub open spec fn spec_eligible_count<P: SchedulingPolicy>(
    policy: P,
    facts: Seq<FactView>,
    now: u64,
) -> nat
    decreases facts.len(),
{
    if facts.len() == 0 {
        0
    } else {
        spec_eligible_count(policy, facts.drop_last(), now) + (
        if policy.eligible_spec(facts.last().state, now) {
            1nat
        } else {
            0nat
        })
    }
}

/// An empty dataset has no due facts and an empty eligible snapshot, at any
/// instant: once the store is cleared, a full snapshot, the eligible
/// snapshot and the eligible count are all empty.
pub proof fn lemma_empty_dataset_has_no_eligible<P: SchedulingPolicy>(policy: P, now: u64)
    ensures
        spec_eligible_count(policy, Seq::<FactView>::empty(), now) == 0,
        spec_eligible_views(policy, Seq::<FactView>::empty(), now) == Seq::<FactView>::empty(),
{
}

/// The eligible count is the length of the eligible snapshot.
pub proof fn lemma_eligible_count_is_snapshot_len<P: SchedulingPolicy>(
    policy: P,
    facts: Seq<FactView>,
    now: u64,
)
    ensures
        spec_eligible_count(policy, facts, now) == spec_eligible_views(policy, facts, now).len(),
    decreases facts.len(),
{
    if facts.len() > 0 {
        lemma_eligible_count_is_snapshot_len(policy, facts.drop_last(), now);
    }
}

/// One eligibility flag per fact: the policy's verdict at instant `now`, in
/// store order.
pub open spec fn spec_eligibility_flags<P: SchedulingPolicy>(
    policy: P,
    facts: Seq<FactView>,
    now: u64,
) -> Seq<bool> {
    Seq::new(facts.len(), |i: int| policy.eligible_spec(facts[i].state, now))
}

/// The in-memory dataset: an ordered collection of facts.  Insertion order is
/// significant, since deletion is addressed by index.
pub struct FactStore {
    facts: Vec<Fact>,
}

impl View for FactStore {
    type V = Seq<FactView>;

    closed spec fn view(&self) -> Seq<FactView> {
        views_of(self.facts@)
    }
}

impl FactStore {
    /// Creates an empty store.
    pub fn new() -> (r: FactStore)
        ensures
            r@ == Seq::<FactView>::empty(),
    {
        let r = FactStore { facts: Vec::new() };
        proof {
            assert(r@ =~= Seq::<FactView>::empty());
        }
        r
    }

    /// Creates a store holding exactly the given facts, in order.
    pub fn from_vec(facts: Vec<Fact>) -> (r: FactStore)
        ensures
            r@ == views_of(facts@),
    {
        FactStore { facts }
    }

    /// The number of facts held.
    pub fn len(&self) -> (n: usize)
        ensures
            n == self@.len(),
    {
        self.facts.len()
    }

    /// Appends a fact and returns its assigned position.
    pub fn add(&mut self, fact: Fact) -> (idx: usize)
        ensures
            final(self)@ == old(self)@.push(fact@),
            idx == old(self)@.len(),
    {
        let idx = self.facts.len();
        let ghost prior = self@;
        self.facts.push(fact);
        proof {
            assert(self@ =~= prior.push(fact@));
        }
        idx
    }

    /// Appends every given fact, keeping their order.
    pub fn add_many(&mut self, facts: Vec<Fact>) -> (added: usize)
        ensures
            final(self)@ == old(self)@ + views_of(facts@),
            added == facts@.len(),
    {
        let ghost prior = self@;
        let n = facts.len();
        let mut i: usize = 0;
        while i < n
            invariant
                i <= n,
                n == facts@.len(),
                self@ == prior + views_of(facts@.take(i as int)),
            decreases n - i,
        {
            let ghost before = self@;
            self.facts.push(facts[i].clone());
            proof {
                assert(self@ =~= before.push(facts@[i as int]@));
                assert(views_of(facts@.take(i + 1)) =~= views_of(facts@.take(i as int)).push(
                    facts@[i as int]@,
                ));
                assert(self@ =~= prior + views_of(facts@.take(i + 1)));
            }
            i = i + 1;
        }
        proof {
            assert(facts@.take(n as int) =~= facts@);
        }
        n
    }

    /// A reference to the fact at a known-good position.
    pub(crate) fn fact_at(&self, i: usize) -> (r: &Fact)
        requires
            i < self@.len(),
        ensures
            r@ == self@[i as int],
    {
        &self.facts[i]
    }

    /// Replaces the scheduling metadata of the fact at a known-good position.
    pub(crate) fn set_state(&mut self, i: usize, state: SchedState)
        requires
            i < old(self)@.len(),
        ensures
            final(self)@ == old(self)@.update(i as int, old(self)@[i as int].with_state(state)),
    {
        let ghost prior = self@;
        let slot = &mut self.facts[i];
        slot.state = state;
        proof {
            assert(self@ =~= prior.update(i as int, prior[i as int].with_state(state)));
        }
    }

    /// Removes the fact at position `i` and returns it; a stale or invalid
    /// index leaves the store untouched and returns nothing.
    pub fn remove_at(&mut self, i: usize) -> (r: Option<Fact>)
        ensures
            i < old(self)@.len() ==> {
                &&& r matches Some(f) && f@ == old(self)@[i as int]
                &&& final(self)@ == old(self)@.remove(i as int)
            },
            i >= old(self)@.len() ==> r is None && final(self)@ == old(self)@,
    {
        if i < self.facts.len() {
            let ghost prior = self@;
            let f = self.facts.remove(i);
            proof {
                assert(self@ =~= prior.remove(i as int));
            }
            Some(f)
        } else {
            None
        }
    }

    /// Empties the store.
    pub fn clear(&mut self)
        ensures
            final(self)@ == Seq::<FactView>::empty(),
    {
        self.facts.clear();
        proof {
            assert(self@ =~= Seq::<FactView>::empty());
        }
    }

    /// A full ordered copy of the dataset.
    pub fn snapshot_all(&self) -> (r: Vec<Fact>)
        ensures
            views_of(r@) == self@,
    {
        let mut out: Vec<Fact> = Vec::new();
        let n = self.facts.len();
        let mut i: usize = 0;
        proof {
            assert(views_of(out@) =~= self@.take(0));
        }
        while i < n
            invariant
                i <= n,
                n == self@.len(),
                views_of(out@) == self@.take(i as int),
            decreases n - i,
        {
            let ghost before = out@;
            out.push(self.facts[i].clone());
            proof {
                assert(views_of(out@) =~= views_of(before).push(self@[i as int]));
                assert(self@.take(i + 1) =~= self@.take(i as int).push(self@[i as int]));
            }
            i = i + 1;
        }
        proof {
            assert(self@.take(n as int) =~= self@);
        }
        out
    }

    /// An ordered copy of the facts the policy considers due at instant
    /// `now`.
    pub fn snapshot_eligible<P: SchedulingPolicy>(&self, policy: &P, now: u64) -> (r: Vec<Fact>)
        ensures
            views_of(r@) == spec_eligible_views(*policy, self@, now),
    {
        let mut out: Vec<Fact> = Vec::new();
        let n = self.facts.len();
        let mut i: usize = 0;
        proof {
            assert(views_of(out@) =~= spec_eligible_views(*policy, self@.take(0), now));
        }
        while i < n
            invariant
                i <= n,
                n == self@.len(),
                views_of(out@) == spec_eligible_views(*policy, self@.take(i as int), now),
            decreases n - i,
        {
            proof {
                assert(self@.take(i + 1).drop_last() =~= self@.take(i as int));
                assert(self@.take(i + 1).last() == self@[i as int]);
            }
            let due = policy.is_eligible(&self.facts[i].state, now);
            if due {
                let ghost before = out@;
                out.push(self.facts[i].clone());
                proof {
                    assert(views_of(out@) =~= views_of(before).push(self@[i as int]));
                }
            }
            i = i + 1;
        }
        proof {
            assert(self@.take(n as int) =~= self@);
        }
        out
    }

    /// The policy's verdict on every fact at instant `now`, in store order.
    pub fn eligibility_flags<P: SchedulingPolicy>(&self, policy: &P, now: u64) -> (r: Vec<bool>)
        ensures
            r@ == spec_eligibility_flags(*policy, self@, now),
    {
        let n = self.facts.len();
        let mut out: Vec<bool> = Vec::new();
        let mut i: usize = 0;
        while i < n
            invariant
                i <= n,
                n == self@.len(),
                out@.len() == i,
                forall|j: int| 0 <= j < i ==> out@[j] == (*policy).eligible_spec(self@[j].state, now),
            decreases n - i,
        {
            out.push(policy.is_eligible(&self.facts[i].state, now));
            i = i + 1;
        }
        proof {
            assert(out@ =~= spec_eligibility_flags(*policy, self@, now));
        }
        out
    }

    /// How many facts the policy considers due at instant `now`.
    pub fn count_eligible<P: SchedulingPolicy>(&self, policy: &P, now: u64) -> (r: usize)
        ensures
            r == spec_eligible_count(*policy, self@, now),
    {
        let n = self.facts.len();
        let mut i: usize = 0;
        let mut count: usize = 0;
        while i < n
            invariant
                i <= n,
                count <= i,
                n == self@.len(),
                count == spec_eligible_count(*policy, self@.take(i as int), now),
            decreases n - i,
        {
            proof {
                assert(self@.take(i + 1).drop_last() =~= self@.take(i as int));
                assert(self@.take(i + 1).last() == self@[i as int]);
            }
            if policy.is_eligible(&self.facts[i].state, now) {
                count = count + 1;
            }
            i = i + 1;
        }
        proof {
            assert(self@.take(n as int) =~= self@);
        }
        count
    }
}

/// Adding a fact appends exactly one copy of it: its multiplicity in the
/// dataset rises by one and every other fact's multiplicity is untouched.
pub proof fn lemma_add_appends_exactly_one(facts: Seq<FactView>, added: FactView)
    ensures
        facts.push(added).to_multiset().count(added) == facts.to_multiset().count(added) + 1,
        forall|other: FactView|
            other != added ==> facts.push(added).to_multiset().count(other) == facts.to_multiset().count(
                other,
            ),
{
    broadcast use vstd::seq_lib::group_to_multiset_ensures;
    broadcast use vstd::multiset::group_multiset_axioms;

    assert(facts.push(added).to_multiset() =~= facts.to_multiset().insert(added));
}

/// Deleting the fact at a position removes exactly one copy of it: its
/// multiplicity drops by one and every other fact's multiplicity is
/// untouched.
pub proof fn lemma_delete_removes_exactly_one(facts: Seq<FactView>, i: int)
    requires
        0 <= i < facts.len(),
    ensures
        facts.remove(i).to_multiset().count(facts[i]) + 1 == facts.to_multiset().count(facts[i]),
        forall|other: FactView|
            other != facts[i] ==> facts.remove(i).to_multiset().count(other) == facts.to_multiset().count(
                other,
            ),
{
    broadcast use vstd::seq_lib::group_to_multiset_ensures;
    broadcast use vstd::multiset::group_multiset_axioms;

    assert(facts.contains(facts[i]));
    assert(facts.remove(i).to_multiset() =~= facts.to_multiset().remove(facts[i]));
}

} // verus!
