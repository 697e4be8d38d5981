use janki_core::controller::{EngineError, SessionController};
use janki_core::fact::Fact;
use janki_core::policy::DefaultPolicy;
use janki_core::select::InsertionOrderSelect;
use janki_core::storage::{MemStorage, MemStorageError};

type Engine = SessionController<MemStorage, DefaultPolicy, InsertionOrderSelect>;

fn fresh_engine() -> Engine {
    SessionController::new(MemStorage::new(), DefaultPolicy::new(), InsertionOrderSelect::new())
        .unwrap()
}

fn fact(term: &str, definition: &str) -> Fact {
    Fact::new(term.to_string(), definition.to_string())
}

#[test]
fn construction_fails_on_zero_interval() {
    let r = SessionController::new(
        MemStorage::new(),
        DefaultPolicy::with_base_interval_ms(0),
        InsertionOrderSelect::new(),
    );
    match r {
        Err(EngineError::ConstructionFailure) => {}
        _ => panic!("a zero base interval must be rejected at construction"),
    }
}

#[test]
fn added_fact_appears_exactly_once_until_deleted() {
    let mut engine = fresh_engine();
    engine.add_fact(fact("hola", "hello"));
    engine.add_fact(fact("adios", "goodbye"));
    // A second, identical copy is a distinct entry with its own position.
    engine.add_fact(fact("hola", "hello"));

    let all = engine.snapshot_all();
    let copies = |facts: &[Fact]| {
        facts
            .iter()
            .filter(|f| f.term == "hola" && f.definition == "hello")
            .count()
    };
    assert_eq!(all.len(), 3);
    assert_eq!(copies(&all), 2);

    // Deleting one copy leaves the other, and nothing else changes.
    engine.delete_at_index(0).unwrap();
    let rest = engine.snapshot_all();
    assert_eq!(rest.len(), 2);
    assert_eq!(copies(&rest), 1);
    assert_eq!(rest[0].term, "adios");
    assert_eq!(rest[1].term, "hola");
}

#[test]
fn delete_past_end_reports_index_out_of_range_and_changes_nothing() {
    let mut engine = fresh_engine();
    engine.add_fact(fact("uno", "one"));
    engine.add_fact(fact("dos", "two"));

    let r = engine.delete_at_index(2);
    assert_eq!(r, Err(EngineError::IndexOutOfRange));
    let r = engine.delete_at_index(17);
    assert_eq!(r, Err(EngineError::IndexOutOfRange));

    let all = engine.snapshot_all();
    assert_eq!(all.len(), 2);
    assert_eq!(all[0].term, "uno");
    assert_eq!(all[1].term, "dos");
}

#[test]
fn delete_on_empty_store_reports_index_out_of_range() {
    let mut engine = fresh_engine();
    assert_eq!(engine.delete_at_index(0), Err(EngineError::IndexOutOfRange));
}

#[test]
fn clear_empties_store_and_eligibility() {
    let mut engine = fresh_engine();
    engine.add_fact(fact("uno", "one"));
    engine.add_fact(fact("dos", "two"));
    assert_eq!(engine.count_eligible_now(), 2);

    engine.clear();
    assert!(engine.snapshot_all().is_empty());
    assert_eq!(engine.count_eligible_now(), 0);
}

#[test]
fn review_scenario_under_default_policy() {
    let mut engine = fresh_engine();
    assert!(engine.snapshot_all().is_empty());

    engine.add_fact(fact("hola", "hello"));
    assert_eq!(engine.count_eligible_now(), 1);

    let (picked, was_eligible) = engine.get_new_fact().unwrap();
    assert_eq!(picked.term, "hola");
    assert_eq!(picked.definition, "hello");
    assert!(was_eligible);

    engine.finish_current_fact(Some(true)).unwrap();
    assert_eq!(engine.count_eligible_now(), 0);
}

#[test]
fn repeated_get_new_fact_neither_duplicates_nor_corrupts() {
    let mut engine = fresh_engine();
    engine.add_fact(fact("hola", "hello"));

    let (first, first_eligible) = engine.get_new_fact().unwrap();
    let (second, second_eligible) = engine.get_new_fact().unwrap();
    assert_eq!(first.term, second.term);
    assert_eq!(first.definition, second.definition);
    assert!(first_eligible);
    assert!(second_eligible);

    // The dataset is untouched: one fact, still eligible, unchanged metadata.
    assert_eq!(engine.snapshot_all().len(), 1);
    assert_eq!(engine.count_eligible_now(), 1);
    let all = engine.snapshot_all();
    assert_eq!(all[0].state.streak, 0);
    assert_eq!(all[0].state.penalty, 0);
    assert_eq!(all[0].state.next_eligible_at, 0);

    // Only one outcome can be recorded for the one outstanding fact.
    engine.finish_current_fact(Some(true)).unwrap();
    assert_eq!(
        engine.finish_current_fact(Some(true)),
        Err(EngineError::SequencingViolation)
    );
}

#[test]
fn finish_while_idle_is_a_sequencing_violation() {
    let mut engine = fresh_engine();
    engine.add_fact(fact("hola", "hello"));
    assert_eq!(
        engine.finish_current_fact(Some(true)),
        Err(EngineError::SequencingViolation)
    );
    // The dataset is untouched by the failed call.
    assert_eq!(engine.count_eligible_now(), 1);
}

#[test]
fn abandoning_with_no_outcome_changes_nothing() {
    let mut engine = fresh_engine();
    engine.add_fact(fact("hola", "hello"));
    engine.get_new_fact().unwrap();
    engine.finish_current_fact(None).unwrap();

    let all = engine.snapshot_all();
    assert_eq!(all[0].state.streak, 0);
    assert_eq!(all[0].state.penalty, 0);
    assert_eq!(all[0].state.next_eligible_at, 0);
    assert_eq!(engine.count_eligible_now(), 1);
}

#[test]
fn incorrect_answers_keep_fact_eligible() {
    let mut engine = fresh_engine();
    engine.add_fact(fact("hola", "hello"));

    for round in 1..=3u64 {
        let (_, was_eligible) = engine.get_new_fact().unwrap();
        assert!(was_eligible);
        engine.finish_current_fact(Some(false)).unwrap();
        assert_eq!(engine.count_eligible_now(), 1);
        let all = engine.snapshot_all();
        assert_eq!(all[0].state.penalty, round);
        assert_eq!(all[0].state.streak, 0);
        assert_eq!(all[0].state.next_eligible_at, 0);
    }
}

#[test]
fn correct_answer_defers_strictly_into_the_future() {
    let mut engine = fresh_engine();
    engine.add_fact(fact("hola", "hello"));
    engine.get_new_fact().unwrap();

    let now: u64 = 1_700_000_000_000;
    engine.finish_current_fact_at(Some(true), now).unwrap();
    let all = engine.snapshot_all();
    assert!(all[0].state.next_eligible_at > now);
    assert_eq!(engine.count_eligible_at(now), 0);
}

#[test]
fn graduated_intervals_follow_the_streak() {
    let storage = MemStorage::new();
    let policy = DefaultPolicy::with_base_interval_ms(100);
    let mut engine =
        SessionController::new(storage, policy, InsertionOrderSelect::new()).unwrap();
    engine.add_fact(fact("hola", "hello"));

    // Each correct outcome at instant `now` defers by base * streak.
    let mut expected: u64;
    for streak in 1..=4u64 {
        let now: u64 = 10_000 * streak;
        engine.get_new_fact_at(now);
        engine.finish_current_fact_at(Some(true), now).unwrap();
        expected = now + 100 * streak;
        let all = engine.snapshot_all();
        assert_eq!(all[0].state.streak, streak);
        assert_eq!(all[0].state.next_eligible_at, expected);
        assert_eq!(engine.count_eligible_at(expected - 1), 0);
        assert_eq!(engine.count_eligible_at(expected), 1);
    }
}

#[test]
fn fallback_selection_presents_an_undue_fact() {
    let mut engine = fresh_engine();
    engine.add_fact(fact("hola", "hello"));
    let now: u64 = 50_000;
    engine.get_new_fact_at(now);
    engine.finish_current_fact_at(Some(true), now).unwrap();
    assert_eq!(engine.count_eligible_at(now), 0);

    // Nothing is due, but the store is non-empty: material is still offered,
    // flagged as not eligible.
    let (picked, was_eligible) = engine.get_new_fact_at(now).unwrap();
    assert_eq!(picked.term, "hola");
    assert!(!was_eligible);
}

#[test]
fn selection_is_stable_by_insertion_order() {
    let mut engine = fresh_engine();
    engine.add_fact(fact("uno", "one"));
    engine.add_fact(fact("dos", "two"));
    engine.add_fact(fact("tres", "three"));

    let now: u64 = 1_000;
    // All due: the first by insertion order is picked.
    let (picked, was_eligible) = engine.get_new_fact_at(now).unwrap();
    assert_eq!(picked.term, "uno");
    assert!(was_eligible);
    engine.finish_current_fact_at(Some(true), now).unwrap();

    // "uno" is deferred, so the next due fact in order is picked.
    let (picked, was_eligible) = engine.get_new_fact_at(now).unwrap();
    assert_eq!(picked.term, "dos");
    assert!(was_eligible);
}

#[test]
fn get_new_fact_on_empty_store_returns_nothing() {
    let mut engine = fresh_engine();
    assert!(engine.get_new_fact().is_none());
}

#[test]
fn add_facts_appends_in_order_with_fresh_state() {
    let mut engine = fresh_engine();
    engine.add_fact(fact("cero", "zero"));
    let added = engine.add_facts(vec![fact("uno", "one"), fact("dos", "two")]);
    assert_eq!(added, 2);

    let all = engine.snapshot_all();
    assert_eq!(all.len(), 3);
    assert_eq!(all[1].term, "uno");
    assert_eq!(all[2].term, "dos");
    assert_eq!(all[2].state.next_eligible_at, 0);

    let none = engine.add_facts(Vec::new());
    assert_eq!(none, 0);
    assert_eq!(engine.snapshot_all().len(), 3);
}

#[test]
fn snapshot_eligible_filters_in_order() {
    let mut engine = fresh_engine();
    engine.add_fact(fact("uno", "one"));
    engine.add_fact(fact("dos", "two"));
    engine.add_fact(fact("tres", "three"));

    let now: u64 = 777;
    engine.get_new_fact_at(now);
    engine.finish_current_fact_at(Some(true), now).unwrap();

    let due = engine.snapshot_eligible_at(now);
    assert_eq!(due.len(), 2);
    assert_eq!(due[0].term, "dos");
    assert_eq!(due[1].term, "tres");

    // Deferring a fact at the current wall-clock instant removes it from the
    // clock-based eligible snapshot as well.
    engine.get_new_fact();
    engine.finish_current_fact(Some(true)).unwrap();
    assert_eq!(engine.snapshot_eligible().len(), 2);
}

#[test]
fn save_and_load_round_trip_reproduces_the_dataset() {
    let mut first = fresh_engine();
    first.add_fact(fact("hola", "hello"));
    first.add_fact(fact("adios", "goodbye"));
    let now: u64 = 42_000;
    first.get_new_fact_at(now);
    first.finish_current_fact_at(Some(true), now).unwrap();

    let mut shared = MemStorage::new();
    first.save_to(&mut shared).unwrap();

    let mut second = fresh_engine();
    second.load_from(&shared).unwrap();

    let before = first.snapshot_all();
    let after = second.snapshot_all();
    assert_eq!(before.len(), after.len());
    for (a, b) in before.iter().zip(after.iter()) {
        assert_eq!(a.term, b.term);
        assert_eq!(a.definition, b.definition);
        assert_eq!(a.state, b.state);
    }
}

#[test]
fn load_replaces_wholesale_not_merge() {
    let mut engine = fresh_engine();
    engine.add_fact(fact("viejo", "old"));
    engine.save().unwrap();

    engine.clear();
    engine.add_fact(fact("nuevo", "new"));
    assert_eq!(engine.snapshot_all().len(), 1);

    engine.load().unwrap();
    let all = engine.snapshot_all();
    assert_eq!(all.len(), 1);
    assert_eq!(all[0].term, "viejo");
}

#[test]
fn storage_failures_are_surfaced_and_memory_survives() {
    let mut storage = MemStorage::new();
    storage.set_failing(true);
    let mut engine =
        SessionController::new(storage, DefaultPolicy::new(), InsertionOrderSelect::new())
            .unwrap();
    engine.add_fact(fact("hola", "hello"));

    assert_eq!(
        engine.save(),
        Err(EngineError::StorageFailure(MemStorageError))
    );
    assert_eq!(
        engine.load(),
        Err(EngineError::StorageFailure(MemStorageError))
    );
    // A failed load leaves the in-memory dataset untouched.
    assert_eq!(engine.snapshot_all().len(), 1);
}

#[test]
fn shutdown_is_idempotent() {
    let mut engine = fresh_engine();
    engine.add_fact(fact("hola", "hello"));
    engine.shutdown();
    engine.shutdown();
    assert_eq!(engine.snapshot_all().len(), 1);
}
