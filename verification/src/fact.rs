use vstd::prelude::*;

verus! {

/// Per-fact scheduling metadata, owned by the scheduling policy.
///
/// `next_eligible_at` is an instant in milliseconds; a fact is due once the
/// reference instant reaches it.  `streak` counts consecutive correct answers
/// and `penalty` counts incorrect answers, so repeated failures remain
/// distinguishable from a fresh fact.
#[derive(Clone, Copy, Debug, PartialEq, Eq, Structural)]
pub struct SchedState {
    /// Consecutive correct answers recorded for the fact.
    pub streak: u64,
    /// Incorrect answers recorded for the fact.
    pub penalty: u64,
    /// Earliest instant (milliseconds) at which the fact is due again.
    pub next_eligible_at: u64,
}

impl SchedState {
    /// The state of a freshly added fact: immediately eligible, no history.
    pub fn fresh() -> (r: SchedState)
        ensures
            r == SchedState::spec_fresh(),
    {
        SchedState { streak: 0, penalty: 0, next_eligible_at: 0 }
    }

    /// The mathematical value of [`SchedState::fresh`].
    pub open spec fn spec_fresh() -> SchedState {
        SchedState { streak: 0, penalty: 0, next_eligible_at: 0 }
    }
}

/// A term/definition pair under spaced-repetition review, together with its
/// scheduling metadata.
#[derive(Debug)]
pub struct Fact {
    /// The text shown when the fact is presented.
    pub term: String,
    /// The answer the learner is asked to recall.
    pub definition: String,
    /// Policy-owned scheduling metadata.
    pub state: SchedState,
}

/// The mathematical value of a [`Fact`]: its two texts as character sequences
/// plus its scheduling metadata.
pub struct FactView {
    /// View of [`Fact::term`].
    pub term: Seq<char>,
    /// View of [`Fact::definition`].
    pub definition: Seq<char>,
    /// View of [`Fact::state`].
    pub state: SchedState,
}

impl View for Fact {
    type V = FactView;

    open spec fn view(&self) -> FactView {
        FactView { term: self.term@, definition: self.definition@, state: self.state }
    }
}

impl FactView {
    /// The same fact with its scheduling metadata replaced.
    pub open spec fn with_state(self, state: SchedState) -> FactView {
        FactView { term: self.term, definition: self.definition, state }
    }
}

impl Fact {
    /// Creates a fact with fresh (immediately eligible) scheduling metadata.
    pub fn new(term: String, definition: String) -> (r: Fact)
        ensures
            r@.term == term@,
            r@.definition == definition@,
            r@.state == SchedState::spec_fresh(),
    {
        Fact { term, definition, state: SchedState::fresh() }
    }
}

impl Clone for Fact {
    /// Clones the fact; the copy has the same mathematical value.
    fn clone(&self) -> (r: Self)
        ensures
            r == *self,
    {
        Fact {
            term: self.term.clone(),
            definition: self.definition.clone(),
            state: self.state,
        }
    }
}

/// The views of a sequence of facts, in order.
pub open spec fn views_of(facts: Seq<Fact>) -> Seq<FactView> {
    facts.map_values(|f: Fact| f@)
}

} // verus!
