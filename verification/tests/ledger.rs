use dedup_relay::ledger::{DedupRecord, EventKind, Ledger, LedgerError, NaturalKey};
use dedup_relay::pipeline::{Action, ComposedPost, Event};

fn milestone_key(issue_id: u64, label: &str) -> NaturalKey {
    NaturalKey::milestone(issue_id, label.to_string())
}

fn content_key(cid: &str) -> NaturalKey {
    NaturalKey::content(cid.to_string())
}

#[test]
fn new_ledger_is_empty() {
    let ledger = Ledger::new();
    assert_eq!(ledger.len(EventKind::Milestone), 0);
    assert_eq!(ledger.len(EventKind::Content), 0);
    assert!(!ledger.has(&milestone_key(42, "v1.2")));
    assert!(!ledger.has(&content_key("cid123")));
    assert_eq!(ledger.get(&content_key("cid123")), None);
}

#[test]
fn has_is_true_exactly_after_a_successful_record() {
    let mut ledger = Ledger::new();
    let key = milestone_key(42, "v1.2");
    assert!(!ledger.has(&key));
    assert_eq!(ledger.record(key.clone(), "Release v1.2".to_string()), Ok(()));
    assert!(ledger.has(&key));
    assert!(!ledger.has(&milestone_key(42, "v1.3")));
    assert!(!ledger.has(&milestone_key(43, "v1.2")));
    assert!(!ledger.has(&content_key("v1.2")));
}

#[test]
fn second_record_of_a_key_answers_already_exists() {
    let mut ledger = Ledger::new();
    let key = content_key("cid123");
    assert_eq!(ledger.record(key.clone(), "first".to_string()), Ok(()));
    assert_eq!(
        ledger.record(key.clone(), "second".to_string()),
        Err(LedgerError::AlreadyExists)
    );
    assert_eq!(
        ledger.record(key.clone(), "third".to_string()),
        Err(LedgerError::AlreadyExists)
    );
    assert_eq!(ledger.len(EventKind::Content), 1);
    let stored = ledger.get(&key).unwrap();
    assert_eq!(stored.title, "first");
}

#[test]
fn of_many_records_with_one_key_exactly_one_succeeds() {
    let mut ledger = Ledger::new();
    let mut succeeded = 0;
    let mut duplicates = 0;
    for round in 0..10 {
        ledger
            .record(content_key(&format!("other{}", round)), "other".to_string())
            .unwrap();
        match ledger.record(content_key("cid123"), format!("title {}", round)) {
            Ok(()) => succeeded += 1,
            Err(LedgerError::AlreadyExists) => duplicates += 1,
            Err(LedgerError::StorageFailure) => panic!("the ledger has room"),
        }
    }
    assert_eq!(succeeded, 1);
    assert_eq!(duplicates, 9);
    assert_eq!(ledger.len(EventKind::Content), 11);
}

#[test]
fn record_on_a_full_table_answers_storage_failure() {
    let mut ledger = Ledger::with_capacity(1);
    assert_eq!(ledger.record(content_key("a"), "a".to_string()), Ok(()));
    assert_eq!(
        ledger.record(content_key("b"), "b".to_string()),
        Err(LedgerError::StorageFailure)
    );
    assert!(!ledger.has(&content_key("b")));
    assert_eq!(ledger.len(EventKind::Content), 1);
}

#[test]
fn ledger_without_capacity_takes_nothing() {
    let mut ledger = Ledger::with_capacity(0);
    assert_eq!(
        ledger.record(milestone_key(1, "m"), "t".to_string()),
        Err(LedgerError::StorageFailure)
    );
    assert_eq!(ledger.len(EventKind::Milestone), 0);
}

#[test]
fn a_present_key_answers_already_exists_even_when_the_table_is_full() {
    let mut ledger = Ledger::with_capacity(1);
    assert_eq!(ledger.record(content_key("a"), "a".to_string()), Ok(()));
    assert_eq!(
        ledger.record(content_key("a"), "again".to_string()),
        Err(LedgerError::AlreadyExists)
    );
}

#[test]
fn the_two_tables_fill_up_separately() {
    let mut ledger = Ledger::with_capacity(1);
    assert_eq!(ledger.record(content_key("a"), "a".to_string()), Ok(()));
    assert_eq!(ledger.record(milestone_key(7, "a"), "m".to_string()), Ok(()));
    assert_eq!(ledger.len(EventKind::Content), 1);
    assert_eq!(ledger.len(EventKind::Milestone), 1);
    assert_eq!(
        ledger.record(milestone_key(8, "a"), "m".to_string()),
        Err(LedgerError::StorageFailure)
    );
}

#[test]
fn rows_are_numbered_from_one_in_insertion_order() {
    let mut ledger = Ledger::new();
    ledger.record(content_key("a"), "first".to_string()).unwrap();
    ledger.record(milestone_key(42, "v1.2"), "milestone".to_string()).unwrap();
    ledger.record(content_key("b"), "second".to_string()).unwrap();
    assert_eq!(
        ledger.get(&content_key("a")),
        Some(DedupRecord { id: 1, key: content_key("a"), title: "first".to_string() })
    );
    assert_eq!(
        ledger.get(&content_key("b")),
        Some(DedupRecord { id: 2, key: content_key("b"), title: "second".to_string() })
    );
    assert_eq!(
        ledger.get(&milestone_key(42, "v1.2")),
        Some(DedupRecord {
            id: 1,
            key: milestone_key(42, "v1.2"),
            title: "milestone".to_string()
        })
    );
}

#[test]
fn keys_match_by_family_and_fields() {
    assert!(milestone_key(42, "v1.2").matches(&milestone_key(42, "v1.2")));
    assert!(!milestone_key(42, "v1.2").matches(&milestone_key(42, "v1.3")));
    assert!(!milestone_key(42, "v1.2").matches(&milestone_key(41, "v1.2")));
    assert!(content_key("cid").matches(&content_key("cid")));
    assert!(!content_key("cid").matches(&content_key("cie")));
    assert!(!content_key("v1.2").matches(&milestone_key(42, "v1.2")));
    assert!(!milestone_key(42, "v1.2").matches(&content_key("v1.2")));
    assert_eq!(milestone_key(1, "m").kind(), EventKind::Milestone);
    assert_eq!(content_key("c").kind(), EventKind::Content);
    assert_eq!(milestone_key(1, "m").clone(), milestone_key(1, "m"));
}

#[test]
fn rejected_insert_is_a_duplicate_only_for_a_uniqueness_violation() {
    assert_eq!(LedgerError::of_rejected_insert(true), LedgerError::AlreadyExists);
    assert_eq!(LedgerError::of_rejected_insert(false), LedgerError::StorageFailure);
}

#[test]
fn ledger_answers_the_calls_addressed_to_it() {
    let mut ledger = Ledger::new();
    let check = Action::Check { key: content_key("cid123") };
    let record = Action::Record { key: content_key("cid123"), title: "merged".to_string() };
    assert_eq!(ledger.answer(&check), Some(Event::Checked(false)));
    assert_eq!(ledger.answer(&record), Some(Event::Recorded(Ok(()))));
    assert_eq!(ledger.answer(&check), Some(Event::Checked(true)));
    assert_eq!(ledger.answer(&record), Some(Event::Recorded(Err(LedgerError::AlreadyExists))));
    assert_eq!(ledger.len(EventKind::Content), 1);
}

#[test]
fn ledger_has_no_answer_to_other_calls() {
    let mut ledger = Ledger::new();
    let post = ComposedPost { text: "text".to_string(), link: None };
    assert_eq!(ledger.answer(&Action::Fetch { cursor: None }), None);
    assert_eq!(ledger.answer(&Action::Summarize { context: "context".to_string() }), None);
    assert_eq!(ledger.answer(&Action::Publish { post }), None);
    assert_eq!(ledger.answer(&Action::Finish), None);
    assert_eq!(ledger.len(EventKind::Content), 0);
    assert_eq!(ledger.len(EventKind::Milestone), 0);
}
