use janki_core::either::Either;
use janki_core::fact::{Fact, SchedState};
use janki_core::policy::{DefaultPolicy, SchedulingPolicy, DAY_MS, STREAK_CAP};
use janki_core::store::FactStore;

#[test]
fn either_constructors_pick_the_named_side() {
    let left: Either<u32, bool> = Either::l(7);
    assert!(matches!(left, Either::Left(7)));
    let right: Either<u32, bool> = Either::r(true);
    assert!(matches!(right, Either::Right(true)));
}

#[test]
fn either_to_normal_returns_whichever_side_is_populated() {
    let left: Either<String, String> = Either::l("izquierda".to_string());
    assert_eq!(left.to_normal(), "izquierda");
    let right: Either<String, String> = Either::r("derecha".to_string());
    assert_eq!(right.to_normal(), "derecha");
}

#[test]
fn either_clone_keeps_the_populated_side() {
    let left: Either<String, u32> = Either::l("valor".to_string());
    let copy = left.clone();
    match copy {
        Either::Left(s) => assert_eq!(s, "valor"),
        Either::Right(_) => panic!("a cloned left value must stay on the left"),
    }
}

#[test]
fn fact_store_add_and_remove_by_position() {
    let mut store = FactStore::new();
    assert_eq!(store.len(), 0);
    let first = store.add(Fact::new("uno".to_string(), "one".to_string()));
    let second = store.add(Fact::new("dos".to_string(), "two".to_string()));
    assert_eq!((first, second), (0, 1));

    // An out-of-range position removes nothing and changes nothing.
    assert!(store.remove_at(2).is_none());
    assert_eq!(store.len(), 2);

    let removed = store.remove_at(0).unwrap();
    assert_eq!(removed.term, "uno");
    let rest = store.snapshot_all();
    assert_eq!(rest.len(), 1);
    assert_eq!(rest[0].term, "dos");
}

#[test]
fn fact_store_eligibility_reads() {
    let policy = DefaultPolicy::new();
    let mut store = FactStore::new();
    store.add(Fact::new("uno".to_string(), "one".to_string()));
    let mut deferred = Fact::new("dos".to_string(), "two".to_string());
    deferred.state.next_eligible_at = 500;
    store.add(deferred);

    assert_eq!(store.count_eligible(&policy, 499), 1);
    assert_eq!(store.count_eligible(&policy, 500), 2);
    let due = store.snapshot_eligible(&policy, 499);
    assert_eq!(due.len(), 1);
    assert_eq!(due[0].term, "uno");

    store.clear();
    assert_eq!(store.count_eligible(&policy, 500), 0);
    assert!(store.snapshot_all().is_empty());
}

#[test]
fn fresh_facts_are_immediately_eligible() {
    let policy = DefaultPolicy::new();
    let fact = Fact::new("hola".to_string(), "hello".to_string());
    assert!(policy.is_eligible(&fact.state, 0));
    assert!(policy.is_eligible(&fact.state, u64::MAX));
}

#[test]
fn default_policy_outcome_formula() {
    let policy = DefaultPolicy::new();
    let fresh = SchedState {
        streak: 0,
        penalty: 0,
        next_eligible_at: 0,
    };

    let after_first = policy.apply_outcome(&fresh, 1_000, true);
    assert_eq!(after_first.streak, 1);
    assert_eq!(after_first.penalty, 0);
    assert_eq!(after_first.next_eligible_at, 1_000 + DAY_MS);
    assert!(!policy.is_eligible(&after_first, 1_000));
    assert!(policy.is_eligible(&after_first, 1_000 + DAY_MS));

    let after_second = policy.apply_outcome(&after_first, 2_000, true);
    assert_eq!(after_second.streak, 2);
    assert_eq!(after_second.next_eligible_at, 2_000 + 2 * DAY_MS);

    let after_miss = policy.apply_outcome(&after_second, 3_000, false);
    assert_eq!(after_miss.streak, 0);
    assert_eq!(after_miss.penalty, 1);
    assert_eq!(after_miss.next_eligible_at, 0);
    assert!(policy.is_eligible(&after_miss, 0));
}

#[test]
fn streak_is_capped_and_deferral_saturates() {
    let policy = DefaultPolicy::with_base_interval_ms(1);
    let capped = SchedState {
        streak: STREAK_CAP,
        penalty: 0,
        next_eligible_at: 0,
    };
    let after = policy.apply_outcome(&capped, 5, true);
    assert_eq!(after.streak, STREAK_CAP);
    assert_eq!(after.next_eligible_at, 5 + STREAK_CAP);

    // Near the end of representable time the deferral clamps to the maximum.
    let late = policy.apply_outcome(&capped, u64::MAX - 1, true);
    assert_eq!(late.next_eligible_at, u64::MAX);
}
