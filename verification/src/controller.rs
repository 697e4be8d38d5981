use vstd::prelude::*;

use crate::clock::now_millis;
use crate::fact::{views_of, Fact, FactView};
use crate::policy::SchedulingPolicy;
use crate::select::SelectionStrategy;
use crate::storage::Storage;
use crate::store::{
    spec_eligibility_flags, spec_eligible_count, spec_eligible_views, FactStore,
};

verus! {

/// The failures the engine reports.  Backend failures carry the backend's
/// own error verbatim.
#[derive(Debug, PartialEq, Eq)]
pub enum EngineError<E> {
    /// The engine could not be initialized, e.g. from an invalid policy
    /// configuration.
    ConstructionFailure,
    /// The storage backend reported a failure, surfaced unchanged.
    StorageFailure(E),
    /// A deletion or lookup named a position outside the store; a caller-side
    /// condition, reported and recoverable.
    IndexOutOfRange,
    /// An operation was invoked in the wrong session state, e.g. recording an
    /// outcome with no fact outstanding.
    SequencingViolation,
}

/// The transient session state: at most one fact is outstanding (selected and
/// awaiting a recorded outcome) at any time.  Never persisted.
#[derive(Clone, Copy, Debug, PartialEq, Eq, Structural)]
pub enum SessionState {
    /// No fact is currently presented.
    Idle,
    /// The fact at `index` has been presented and awaits an outcome;
    /// `was_eligible` records whether it was due when selected.
    Outstanding { index: usize, was_eligible: bool },
}

/// The session and scheduling engine: owns the dataset, the two injected
/// strategies and a storage handle, and exposes the operational API the front
/// end drives.
///
/// Single-threaded and synchronous: every operation runs to completion, and
/// no partially applied mutation is ever visible to the caller.
pub struct SessionController<St: Storage, P: SchedulingPolicy, Sel: SelectionStrategy> {
    store: FactStore,
    policy: P,
    strategy: Sel,
    storage: St,
    session: SessionState,
}

impl<St: Storage, P: SchedulingPolicy, Sel: SelectionStrategy> SessionController<St, P, Sel> {
    /// The dataset held in memory.
    pub closed spec fn facts(&self) -> Seq<FactView> {
        self.store@
    }

    /// The transient session state.
    pub closed spec fn session_view(&self) -> SessionState {
        self.session
    }

    /// The injected scheduling policy.
    pub closed spec fn sched_policy(&self) -> P {
        self.policy
    }

    /// The injected selection strategy.
    pub closed spec fn selection(&self) -> Sel {
        self.strategy
    }

    /// The dataset the storage backend holds.
    pub closed spec fn stored_facts(&self) -> Seq<FactView> {
        self.storage.stored()
    }

    /// Well-formedness: the policy configuration is valid and an outstanding
    /// selection points into the store.  Construction establishes it and
    /// every operation preserves it.
    pub closed spec fn wf(&self) -> bool {
        &&& self.policy.valid()
        &&& (self.session matches SessionState::Outstanding { index, was_eligible } ==> index
            < self.store@.len())
    }

    /// The injected strategies survive the call unchanged.
    pub open spec fn same_strategies(pre: Self, post: Self) -> bool {
        &&& post.sched_policy() == pre.sched_policy()
        &&& post.selection() == pre.selection()
    }

    /// Builds an engine with an empty dataset over the given backend and
    /// strategies; fails exactly when the policy configuration is invalid.
    pub fn new(storage: St, policy: P, strategy: Sel) -> (r: Result<
        Self,
        EngineError<St::ErrorType>,
    >)
        ensures
            policy.valid() ==> (r matches Ok(c) && {
                &&& c.wf()
                &&& c.facts() == Seq::<FactView>::empty()
                &&& c.session_view() == SessionState::Idle
                &&& c.sched_policy() == policy
                &&& c.selection() == strategy
                &&& c.stored_facts() == storage.stored()
            }),
            !policy.valid() ==> (r matches Err(EngineError::ConstructionFailure)),
    {
        if policy.check_valid() {
            Ok(
                SessionController {
                    store: FactStore::new(),
                    policy,
                    strategy,
                    storage,
                    session: SessionState::Idle,
                },
            )
        } else {
            Err(EngineError::ConstructionFailure)
        }
    }

    /// Adds one fact, assigning freshly initialized (immediately eligible)
    /// scheduling metadata, and returns its assigned position.
    pub fn add_fact(&mut self, fact: Fact) -> (idx: usize)
        requires
            old(self).wf(),
        ensures
            final(self).wf(),
            final(self).facts() == old(self).facts().push(
                fact@.with_state(old(self).sched_policy().initial_spec()),
            ),
            idx == old(self).facts().len(),
            final(self).session_view() == old(self).session_view(),
            final(self).stored_facts() == old(self).stored_facts(),
            Self::same_strategies(*old(self), *final(self)),
    {
        let mut fact = fact;
        fact.state = self.policy.initial_state();
        self.store.add(fact)
    }

    /// Adds every given fact in order, each with freshly initialized
    /// scheduling metadata, and returns how many were added.
    pub fn add_facts(&mut self, facts: Vec<Fact>) -> (added: usize)
        requires
            old(self).wf(),
        ensures
            final(self).wf(),
            final(self).facts() == old(self).facts() + facts@.map_values(
                |f: Fact| f@.with_state(old(self).sched_policy().initial_spec()),
            ),
            added == facts@.len(),
            final(self).session_view() == old(self).session_view(),
            final(self).stored_facts() == old(self).stored_facts(),
            Self::same_strategies(*old(self), *final(self)),
    {
        let ghost init = self.policy.initial_spec();
        let ghost fresh_views = facts@.map_values(|f: Fact| f@.with_state(init));
        let n = facts.len();
        let mut i: usize = 0;
        while i < n
            invariant
                i <= n,
                n == facts@.len(),
                self.wf(),
                self.facts() == old(self).facts() + fresh_views.take(i as int),
                fresh_views == facts@.map_values(|f: Fact| f@.with_state(init)),
                init == self.sched_policy().initial_spec(),
                self.session_view() == old(self).session_view(),
                self.stored_facts() == old(self).stored_facts(),
                Self::same_strategies(*old(self), *self),
            decreases n - i,
        {
            let ghost before = self.facts();
            let mut fact = facts[i].clone();
            fact.state = self.policy.initial_state();
            self.store.add(fact);
            proof {
                assert(fresh_views.take(i + 1) =~= fresh_views.take(i as int).push(
                    fresh_views[i as int],
                ));
                assert(self.facts() =~= old(self).facts() + fresh_views.take(i + 1));
            }
            i = i + 1;
        }
        proof {
            assert(fresh_views.take(n as int) =~= fresh_views);
        }
        n
    }

    /// Deletes the fact at `index`.  A stale or out-of-range index is
    /// reported and leaves the dataset untouched; a successful deletion
    /// shifts later positions down and, since positions change, discards any
    /// outstanding selection.
    pub fn delete_at_index(&mut self, index: usize) -> (r: Result<(), EngineError<St::ErrorType>>)
        requires
            old(self).wf(),
        ensures
            final(self).wf(),
            index < old(self).facts().len() ==> (r is Ok && final(self).facts() == old(self).facts().remove(index as int) && final(self).session_view()
                == SessionState::Idle),
            index >= old(self).facts().len() ==> (r matches Err(EngineError::IndexOutOfRange)
                && final(self).facts() == old(self).facts() && final(self).session_view() == old(self).session_view()),
            final(self).stored_facts() == old(self).stored_facts(),
            Self::same_strategies(*old(self), *final(self)),
    {
        if index < self.store.len() {
            self.session = SessionState::Idle;
            let _removed = self.store.remove_at(index);
            Ok(())
        } else {
            Err(EngineError::IndexOutOfRange)
        }
    }

    /// Empties the dataset in memory; the backend is untouched until the
    /// next explicit save.  Any outstanding selection is discarded.
    pub fn clear(&mut self)
        requires
            old(self).wf(),
        ensures
            final(self).wf(),
            final(self).facts() == Seq::<FactView>::empty(),
            final(self).session_view() == SessionState::Idle,
            final(self).stored_facts() == old(self).stored_facts(),
            Self::same_strategies(*old(self), *final(self)),
    {
        self.session = SessionState::Idle;
        self.store.clear();
    }

    /// A full ordered copy of the dataset.  A pure read: nothing is mutated.
    pub fn snapshot_all(&self) -> (r: Vec<Fact>)
        ensures
            views_of(r@) == self.facts(),
    {
        self.store.snapshot_all()
    }

    /// An ordered copy of the facts due at instant `now`.
    pub fn snapshot_eligible_at(&self, now: u64) -> (r: Vec<Fact>)
        ensures
            views_of(r@) == spec_eligible_views(self.sched_policy(), self.facts(), now),
    {
        self.store.snapshot_eligible(&self.policy, now)
    }

    /// An ordered copy of the facts due at the current instant, read from the
    /// system clock.
    pub fn snapshot_eligible(&self) -> (r: Vec<Fact>)
        ensures
            exists|now: u64|
                views_of(r@) == spec_eligible_views(self.sched_policy(), self.facts(), now),
    {
        let now = now_millis();
        let r = self.store.snapshot_eligible(&self.policy, now);
        proof {
            assert(views_of(r@) == spec_eligible_views(self.sched_policy(), self.facts(), now));
        }
        r
    }

    /// How many facts are due at instant `now`.
    pub fn count_eligible_at(&self, now: u64) -> (r: usize)
        ensures
            r == spec_eligible_count(self.sched_policy(), self.facts(), now),
    {
        self.store.count_eligible(&self.policy, now)
    }

    /// How many facts are due at the current instant, read from the system
    /// clock.
    pub fn count_eligible_now(&self) -> (r: usize)
        ensures
            exists|now: u64| r == spec_eligible_count(self.sched_policy(), self.facts(), now),
    {
        let now = now_millis();
        let r = self.store.count_eligible(&self.policy, now);
        proof {
            assert(r == spec_eligible_count(self.sched_policy(), self.facts(), now));
        }
        r
    }

    /// Selects the next fact to present, judging eligibility at instant
    /// `now`.  On an empty store nothing is selected and the session state is
    /// untouched; otherwise the session becomes outstanding on the selected
    /// position.  Calling this with a fact already outstanding abandons that
    /// fact without recording an outcome: the dataset is never changed here.
    pub fn get_new_fact_at(&mut self, now: u64) -> (r: Option<(Fact, bool)>)
        requires
            old(self).wf(),
        ensures
            final(self).wf(),
            final(self).facts() == old(self).facts(),
            final(self).stored_facts() == old(self).stored_facts(),
            Self::same_strategies(*old(self), *final(self)),
            r is None <==> old(self).facts().len() == 0,
            r is None ==> final(self).session_view() == old(self).session_view(),
            r matches Some(sel) ==> (final(self).session_view() matches
                SessionState::Outstanding { index, was_eligible } && {
                &&& old(self).selection().choice(
                    old(self).facts(),
                    spec_eligibility_flags(old(self).sched_policy(), old(self).facts(), now),
                ) == Some((index as int, was_eligible))
                &&& index < old(self).facts().len()
                &&& sel.0@ == old(self).facts()[index as int]
                &&& sel.1 == was_eligible
                &&& was_eligible == old(self).sched_policy().eligible_spec(
                    old(self).facts()[index as int].state,
                    now,
                )
                &&& ((exists|j: int|
                    0 <= j < old(self).facts().len() && old(self).sched_policy().eligible_spec(
                        old(self).facts()[j].state,
                        now,
                    )) ==> was_eligible)
            }),
    {
        let flags = self.store.eligibility_flags(&self.policy, now);
        let ghost facts0 = self.store@;
        let ghost pol = self.policy;
        match self.strategy.select(&self.store, &flags) {
            None => None,
            Some((index, was_eligible)) => {
                proof {
                    assert(flags@[index as int] == pol.eligible_spec(
                        facts0[index as int].state,
                        now,
                    ));
                    if exists|j: int|
                        0 <= j < facts0.len() && pol.eligible_spec(facts0[j].state, now) {
                        let j = choose|j: int|
                            0 <= j < facts0.len() && pol.eligible_spec(facts0[j].state, now);
                        assert(flags@[j]);
                    }
                }
                self.session = SessionState::Outstanding { index, was_eligible };
                let f = self.store.fact_at(index).clone();
                Some((f, was_eligible))
            },
        }
    }

    /// Selects the next fact to present, judging eligibility at the current
    /// instant read from the system clock.  The dataset is never changed
    /// here, so repeated calls without an intervening recorded outcome merely
    /// replace the outstanding selection.
    pub fn get_new_fact(&mut self) -> (r: Option<(Fact, bool)>)
        requires
            old(self).wf(),
        ensures
            final(self).wf(),
            final(self).facts() == old(self).facts(),
            final(self).stored_facts() == old(self).stored_facts(),
            Self::same_strategies(*old(self), *final(self)),
            r is None <==> old(self).facts().len() == 0,
            r is None ==> final(self).session_view() == old(self).session_view(),
            r matches Some(sel) ==> (final(self).session_view() matches
                SessionState::Outstanding { index, was_eligible } && {
                &&& index < old(self).facts().len()
                &&& sel.0@ == old(self).facts()[index as int]
                &&& sel.1 == was_eligible
            }),
    {
        let now = now_millis();
        self.get_new_fact_at(now)
    }

    /// Records the outcome of the outstanding fact as of instant `now` and
    /// returns the session to idle.  `None` abandons the fact without
    /// recording a result.  With no fact outstanding this is a reported
    /// sequencing violation and nothing changes.
    pub fn finish_current_fact_at(&mut self, outcome: Option<bool>, now: u64) -> (r: Result<
        (),
        EngineError<St::ErrorType>,
    >)
        requires
            old(self).wf(),
        ensures
            final(self).wf(),
            final(self).stored_facts() == old(self).stored_facts(),
            Self::same_strategies(*old(self), *final(self)),
            old(self).session_view() matches SessionState::Idle ==> (r matches Err(
                EngineError::SequencingViolation,
            ) && final(self).facts() == old(self).facts() && final(self).session_view() == old(self).session_view()),
            old(self).session_view() matches SessionState::Outstanding { index, was_eligible }
                ==> {
                &&& r is Ok
                &&& final(self).session_view() == SessionState::Idle
                &&& (outcome is None ==> final(self).facts() == old(self).facts())
                &&& (outcome matches Some(correct) ==> final(self).facts() == old(self).facts().update(
                    index as int,
                    old(self).facts()[index as int].with_state(
                        old(self).sched_policy().outcome_spec(
                            old(self).facts()[index as int].state,
                            now,
                            correct,
                        ),
                    ),
                ))
            },
    {
        match self.session {
            SessionState::Idle => Err(EngineError::SequencingViolation),
            SessionState::Outstanding { index, was_eligible: _ } => {
                self.session = SessionState::Idle;
                match outcome {
                    None => {},
                    Some(correct) => {
                        let state = self.store.fact_at(index).state;
                        let next = self.policy.apply_outcome(&state, now, correct);
                        self.store.set_state(index, next);
                    },
                }
                Ok(())
            },
        }
    }

    /// Records the outcome of the outstanding fact as of the current instant
    /// read from the system clock, and returns the session to idle.
    pub fn finish_current_fact(&mut self, outcome: Option<bool>) -> (r: Result<
        (),
        EngineError<St::ErrorType>,
    >)
        requires
            old(self).wf(),
        ensures
            final(self).wf(),
            final(self).stored_facts() == old(self).stored_facts(),
            Self::same_strategies(*old(self), *final(self)),
            old(self).session_view() matches SessionState::Idle ==> (r matches Err(
                EngineError::SequencingViolation,
            ) && final(self).facts() == old(self).facts() && final(self).session_view() == old(self).session_view()),
            old(self).session_view() matches SessionState::Outstanding { index, was_eligible }
                ==> {
                &&& r is Ok
                &&& final(self).session_view() == SessionState::Idle
                &&& (outcome is None ==> final(self).facts() == old(self).facts())
                &&& (outcome matches Some(correct) ==> exists|t: u64|
                    final(self).facts() == old(self).facts().update(
                        index as int,
                        old(self).facts()[index as int].with_state(
                            old(self).sched_policy().outcome_spec(
                                old(self).facts()[index as int].state,
                                t,
                                correct,
                            ),
                        ),
                    ))
            },
    {
        let now = now_millis();
        let r = self.finish_current_fact_at(outcome, now);
        r
    }

    /// Replaces the whole in-memory dataset with the backend's contents; a
    /// destructive, wholesale replace, never a merge.  On a reported backend
    /// failure nothing in memory changes.
    pub fn load(&mut self) -> (r: Result<(), EngineError<St::ErrorType>>)
        requires
            old(self).wf(),
        ensures
            final(self).wf(),
            final(self).stored_facts() == old(self).stored_facts(),
            Self::same_strategies(*old(self), *final(self)),
            r is Ok ==> (final(self).facts() == old(self).stored_facts() && final(self).session_view() == SessionState::Idle),
            r is Err ==> (r matches Err(EngineError::StorageFailure(e)) && final(self).facts()
                == old(self).facts() && final(self).session_view() == old(self).session_view()),
    {
        match self.storage.read_db() {
            Ok(db) => {
                self.store = db;
                self.session = SessionState::Idle;
                Ok(())
            },
            Err(e) => Err(EngineError::StorageFailure(e)),
        }
    }

    /// Serializes the whole current dataset to the backend.  On a reported
    /// backend failure the backend's previous contents survive and memory is
    /// untouched either way; the failure is surfaced, never retried.
    pub fn save(&mut self) -> (r: Result<(), EngineError<St::ErrorType>>)
        requires
            old(self).wf(),
        ensures
            final(self).wf(),
            final(self).facts() == old(self).facts(),
            final(self).session_view() == old(self).session_view(),
            Self::same_strategies(*old(self), *final(self)),
            r is Ok ==> final(self).stored_facts() == old(self).facts(),
            r is Err ==> (r matches Err(EngineError::StorageFailure(e)) && final(self).stored_facts() == old(self).stored_facts()),
    {
        match self.storage.write_db(&self.store) {
            Ok(_) => Ok(()),
            Err(e) => Err(EngineError::StorageFailure(e)),
        }
    }

    /// Replaces the whole in-memory dataset from an external backend, as a
    /// `load` would.
    pub fn load_from<S2: Storage>(&mut self, storage: &S2) -> (r: Result<
        (),
        EngineError<S2::ErrorType>,
    >)
        requires
            old(self).wf(),
        ensures
            final(self).wf(),
            final(self).stored_facts() == old(self).stored_facts(),
            Self::same_strategies(*old(self), *final(self)),
            r is Ok ==> (final(self).facts() == storage.stored() && final(self).session_view()
                == SessionState::Idle),
            r is Err ==> (r matches Err(EngineError::StorageFailure(e)) && final(self).facts()
                == old(self).facts() && final(self).session_view() == old(self).session_view()),
    {
        match storage.read_db() {
            Ok(db) => {
                self.store = db;
                self.session = SessionState::Idle;
                Ok(())
            },
            Err(e) => Err(EngineError::StorageFailure(e)),
        }
    }

    /// Serializes the whole current dataset to an external backend, as a
    /// `save` would.
    pub fn save_to<S2: Storage>(&self, storage: &mut S2) -> (r: Result<
        (),
        EngineError<S2::ErrorType>,
    >)
        ensures
            r is Ok ==> final(storage).stored() == self.facts(),
            r is Err ==> (r matches Err(EngineError::StorageFailure(e)) && final(storage).stored()
                == old(storage).stored()),
    {
        match storage.write_db(&self.store) {
            Ok(_) => Ok(()),
            Err(e) => Err(EngineError::StorageFailure(e)),
        }
    }

    /// Terminal lifecycle hook: gives the backend a final chance to release
    /// resources.  Idempotent, and does not itself guarantee that a save
    /// occurred.
    pub fn shutdown(&mut self)
        requires
            old(self).wf(),
        ensures
            final(self).wf(),
            final(self).facts() == old(self).facts(),
            final(self).session_view() == old(self).session_view(),
            final(self).stored_facts() == old(self).stored_facts(),
            Self::same_strategies(*old(self), *final(self)),
    {
        self.storage.exit_application();
    }
}

/// Round-trip law: persisting and then reloading into a fresh controller
/// reproduces the dataset exactly — in particular the same multiset of
/// (term, definition) pairs and identical scheduling metadata per fact.
/// `stored` is what the backend holds after a successful `save` (equal to the
/// saved dataset by `save`'s contract) and `reloaded` is what a successful
/// `load` of it yields (equal to the backend's contents by `load`'s
/// contract).
pub proof fn lemma_save_load_round_trip(
    saved: Seq<FactView>,
    stored: Seq<FactView>,
    reloaded: Seq<FactView>,
)
    requires
        stored == saved,
        reloaded == stored,
    ensures
        reloaded == saved,
        reloaded.map_values(|f: FactView| (f.term, f.definition)).to_multiset()
            == saved.map_values(|f: FactView| (f.term, f.definition)).to_multiset(),
        forall|i: int| 0 <= i < saved.len() ==> reloaded[i].state == saved[i].state,
{
}

} // verus!
