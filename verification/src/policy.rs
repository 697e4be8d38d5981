use vstd::prelude::*;

use crate::fact::SchedState;

verus! {

/// Upper bound on the streak counter used when computing review intervals;
/// beyond it a correct answer no longer lengthens the interval.
pub const STREAK_CAP: u64 = 1000;

/// Milliseconds in a day, the default base review interval.
pub const DAY_MS: u64 = 86_400_000;

/// A pure strategy deciding when a fact is due and how a recorded outcome
/// changes its scheduling metadata.
///
/// The policy is stateless: both operations are pure functions of the given
/// scheduling state and reference instant, never of any session state.  Each
/// executable method is pinned to a spec-level counterpart so that callers can
/// reason about an arbitrary injected policy.
pub trait SchedulingPolicy: Sized {
    /// Whether the policy's configuration is acceptable; checked once at
    /// controller construction.
    spec fn valid(&self) -> bool;

    /// Whether a fact with metadata `state` is due at instant `now`.
    spec fn eligible_spec(&self, state: SchedState, now: u64) -> bool;

    /// The metadata a fact carries after an outcome recorded at instant `now`.
    spec fn outcome_spec(&self, state: SchedState, now: u64, was_correct: bool) -> SchedState;

    /// The metadata assigned to a freshly added fact.
    spec fn initial_spec(&self) -> SchedState;

    /// Reports whether the configuration is acceptable.
    fn check_valid(&self) -> (r: bool)
        ensures
            r == self.valid(),
    ;

    /// Produces the metadata for a freshly added fact.
    fn initial_state(&self) -> (r: SchedState)
        ensures
            r == self.initial_spec(),
    ;

    /// Decides whether a fact with metadata `state` is due at instant `now`.
    fn is_eligible(&self, state: &SchedState, now: u64) -> (r: bool)
        ensures
            r == self.eligible_spec(*state, now),
    ;

    /// Computes the metadata after an outcome recorded at instant `now`.
    fn apply_outcome(&self, state: &SchedState, now: u64, was_correct: bool) -> (r: SchedState)
        ensures
            r == self.outcome_spec(*state, now, was_correct),
    ;

    /// Every valid policy must make a freshly added fact immediately
    /// eligible, at any reference instant.
    proof fn initial_is_eligible(&self, now: u64)
        requires
            self.valid(),
        ensures
            self.eligible_spec(self.initial_spec(), now),
    ;
}

/// The default spacing algorithm.
///
/// A fact is due once the reference instant reaches its `next_eligible_at`.
/// A correct outcome raises the streak (up to [`STREAK_CAP`]) and defers the
/// fact by `base_interval_ms * streak` milliseconds, so the interval grows
/// with every consecutive correct answer.  An incorrect outcome resets the
/// fact to immediately eligible, clears the streak and increments the penalty
/// counter.
#[derive(Clone, Copy, Debug, PartialEq, Eq, Structural)]
pub struct DefaultPolicy {
    /// Length in milliseconds of the first review interval; later intervals
    /// are integer multiples of it.
    pub base_interval_ms: u64,
}

/// The streak counter after one more correct answer.
pub open spec fn spec_next_streak(streak: u64) -> u64 {
    if streak < STREAK_CAP {
        (streak + 1) as u64
    } else {
        STREAK_CAP
    }
}

/// The penalty counter after one more incorrect answer.
pub open spec fn spec_next_penalty(penalty: u64) -> u64 {
    if penalty < u64::MAX {
        (penalty + 1) as u64
    } else {
        penalty
    }
}

/// `a + b` clamped to the range of `u64`.
pub open spec fn spec_sat_add_u64(a: u64, b: int) -> u64 {
    if a + b > u64::MAX {
        u64::MAX
    } else {
        (a + b) as u64
    }
}

impl DefaultPolicy {
    /// A policy with the base interval of one day.
    pub fn new() -> (r: DefaultPolicy)
        ensures
            r == (DefaultPolicy { base_interval_ms: DAY_MS }),
            r.valid(),
    {
        DefaultPolicy { base_interval_ms: DAY_MS }
    }

    /// A policy with the given base interval; valid exactly when the interval
    /// is nonzero.
    pub fn with_base_interval_ms(base_interval_ms: u64) -> (r: DefaultPolicy)
        ensures
            r == (DefaultPolicy { base_interval_ms }),
    {
        DefaultPolicy { base_interval_ms }
    }

    /// The deferral in milliseconds earned by a correct answer at the given
    /// streak.
    pub open spec fn spec_interval(&self, streak: u64) -> int {
        self.base_interval_ms * streak
    }

    /// The metadata after an outcome, as computed by the default policy.
    pub open spec fn spec_outcome(&self, state: SchedState, now: u64, was_correct: bool) -> SchedState {
        if was_correct {
            let k = spec_next_streak(state.streak);
            SchedState {
                streak: k,
                penalty: state.penalty,
                next_eligible_at: spec_sat_add_u64(now, self.spec_interval(k)),
            }
        } else {
            SchedState {
                streak: 0,
                penalty: spec_next_penalty(state.penalty),
                next_eligible_at: 0,
            }
        }
    }
}

impl SchedulingPolicy for DefaultPolicy {
    open spec fn valid(&self) -> bool {
        self.base_interval_ms >= 1
    }

    open spec fn eligible_spec(&self, state: SchedState, now: u64) -> bool {
        state.next_eligible_at <= now
    }

    open spec fn outcome_spec(&self, state: SchedState, now: u64, was_correct: bool) -> SchedState {
        self.spec_outcome(state, now, was_correct)
    }

    open spec fn initial_spec(&self) -> SchedState {
        SchedState::spec_fresh()
    }

    fn check_valid(&self) -> (r: bool) {
        self.base_interval_ms >= 1
    }

    fn initial_state(&self) -> (r: SchedState) {
        SchedState::fresh()
    }

    fn is_eligible(&self, state: &SchedState, now: u64) -> (r: bool) {
        state.next_eligible_at <= now
    }

    fn apply_outcome(&self, state: &SchedState, now: u64, was_correct: bool) -> (r: SchedState) {
        if was_correct {
            let k: u64 = if state.streak < STREAK_CAP {
                state.streak + 1
            } else {
                STREAK_CAP
            };
            proof {
                assert((self.base_interval_ms as int) * (k as int) <= (u64::MAX as int) * (
                STREAK_CAP as int)) by (nonlinear_arith)
                    requires
                        0 <= self.base_interval_ms <= u64::MAX,
                        0 <= k <= STREAK_CAP,
                ;
            }
            let prod: u128 = (self.base_interval_ms as u128) * (k as u128);
            let sum: u128 = (now as u128) + prod;
            let next: u64 = if sum > (u64::MAX as u128) {
                u64::MAX
            } else {
                sum as u64
            };
            SchedState { streak: k, penalty: state.penalty, next_eligible_at: next }
        } else {
            let pen: u64 = if state.penalty < u64::MAX {
                state.penalty + 1
            } else {
                state.penalty
            };
            SchedState { streak: 0, penalty: pen, next_eligible_at: 0 }
        }
    }

    proof fn initial_is_eligible(&self, now: u64) {
    }
}

/// A correct outcome always defers the fact: under a valid default policy the
/// next-eligible instant is strictly later than the instant at which the
/// outcome was recorded, so the fact is never due in the past.  (At the one
/// unrepresentable instant `u64::MAX` the deferral would not fit in the
/// instant type, so that instant is excluded.)
pub proof fn lemma_correct_outcome_defers(policy: DefaultPolicy, state: SchedState, now: u64)
    requires
        policy.valid(),
        now < u64::MAX,
    ensures
        policy.spec_outcome(state, now, true).next_eligible_at > now,
        !policy.eligible_spec(policy.spec_outcome(state, now, true), now),
{
    let k = spec_next_streak(state.streak);
    assert(policy.base_interval_ms * k >= 1) by (nonlinear_arith)
        requires
            policy.base_interval_ms >= 1,
            k >= 1,
    ;
}

/// The scheduling metadata after recording a sequence of incorrect outcomes
/// at the given instants, oldest first, under the default policy.
pub open spec fn spec_after_failures(policy: DefaultPolicy, state: SchedState, instants: Seq<u64>) -> SchedState
    decreases instants.len(),
{
    if instants.len() == 0 {
        state
    } else {
        policy.spec_outcome(spec_after_failures(policy, state, instants.drop_last()), instants.last(), false)
    }
}

/// An incorrect answer never advances eligibility into the future: after any
/// sequence of incorrect outcomes the fact is due at every instant, and a
/// fact that was due stays due under any such sequence, including the empty
/// one.
pub proof fn lemma_incorrect_outcomes_keep_eligible(
    policy: DefaultPolicy,
    state: SchedState,
    instants: Seq<u64>,
    at: u64,
)
    ensures
        instants.len() > 0 ==> policy.eligible_spec(spec_after_failures(policy, state, instants), at),
        policy.eligible_spec(state, at) ==> policy.eligible_spec(
            spec_after_failures(policy, state, instants),
            at,
        ),
{
    if instants.len() > 0 {
        assert(spec_after_failures(policy, state, instants).next_eligible_at == 0);
    }
}

} // verus!
