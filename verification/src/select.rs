use vstd::prelude::*;

use crate::fact::FactView;
use crate::store::FactStore;

verus! {

/// The position of the first `true` flag, if any.
pub open spec fn spec_first_eligible(eligible: Seq<bool>) -> Option<int>
    decreases eligible.len(),
{
    if eligible.len() == 0 {
        None
    } else if eligible[0] {
        Some(0)
    } else {
        match spec_first_eligible(eligible.drop_first()) {
            Some(i) => Some(i + 1),
            None => None,
        }
    }
}

/// `spec_first_eligible` finds exactly the position whose flag is set while
/// every earlier flag is clear.
pub proof fn lemma_first_eligible_at(eligible: Seq<bool>, i: int)
    requires
        0 <= i < eligible.len(),
        eligible[i],
        forall|j: int| 0 <= j < i ==> !eligible[j],
    ensures
        spec_first_eligible(eligible) == Some(i),
    decreases i,
{
    if i > 0 {
        lemma_first_eligible_at(eligible.drop_first(), i - 1);
    }
}

/// With every flag clear, `spec_first_eligible` finds nothing.
pub proof fn lemma_first_eligible_none(eligible: Seq<bool>)
    requires
        forall|j: int| 0 <= j < eligible.len() ==> !eligible[j],
    ensures
        spec_first_eligible(eligible) is None,
    decreases eligible.len(),
{
    if eligible.len() > 0 {
        lemma_first_eligible_none(eligible.drop_first());
    }
}

/// A pure strategy picking the next fact to present.
///
/// The caller supplies the store together with one eligibility flag per fact
/// (the policy's verdict at the reference instant).  A strategy must prefer a
/// due fact; if none is due but the store is non-empty it must still pick
/// some fact, flagging it as not eligible, so the learner always has material;
/// on an empty store it picks nothing at all.
pub trait SelectionStrategy: Sized {
    /// The choice this strategy makes, as a pure function of the dataset and
    /// the eligibility flags: the picked position and whether the fact there
    /// was due.
    spec fn choice(&self, facts: Seq<FactView>, eligible: Seq<bool>) -> Option<(int, bool)>;

    /// Picks the next fact to present.
    fn select(&self, store: &FactStore, eligible: &Vec<bool>) -> (r: Option<(usize, bool)>)
        requires
            eligible@.len() == store@.len(),
        ensures
            r is None <==> store@.len() == 0,
            r matches Some(sel) ==> {
                &&& self.choice(store@, eligible@) == Some((sel.0 as int, sel.1))
                &&& sel.0 < store@.len()
                &&& sel.1 == eligible@[sel.0 as int]
                &&& (exists|j: int| 0 <= j < eligible@.len() && eligible@[j]) ==> sel.1
            },
    ;
}

/// The default selection strategy: stable by insertion order.
///
/// It picks the first due fact in insertion order; if no fact is due it falls
/// back to the fact at position zero, flagged as not eligible.
#[derive(Clone, Copy, Debug, PartialEq, Eq, Structural)]
pub struct InsertionOrderSelect;

impl InsertionOrderSelect {
    /// Creates the strategy.
    pub fn new() -> (r: InsertionOrderSelect)
        ensures
            r == InsertionOrderSelect,
    {
        InsertionOrderSelect
    }
}

impl SelectionStrategy for InsertionOrderSelect {
    open spec fn choice(&self, facts: Seq<FactView>, eligible: Seq<bool>) -> Option<(int, bool)> {
        if eligible.len() == 0 {
            None
        } else {
            match spec_first_eligible(eligible) {
                Some(i) => Some((i, true)),
                None => Some((0, false)),
            }
        }
    }

    fn select(&self, store: &FactStore, eligible: &Vec<bool>) -> (r: Option<(usize, bool)>) {
        let n = eligible.len();
        if n == 0 {
            return None;
        }
        let mut i: usize = 0;
        while i < n
            invariant
                i <= n,
                1 <= n,
                n == eligible@.len(),
                n == store@.len(),
                forall|j: int| 0 <= j < i ==> !eligible@[j],
            decreases n - i,
        {
            if eligible[i] {
                proof {
                    lemma_first_eligible_at(eligible@, i as int);
                }
                return Some((i, true));
            }
            i = i + 1;
        }
        proof {
            lemma_first_eligible_none(eligible@);
        }
        Some((0, false))
    }
}

} // verus!
