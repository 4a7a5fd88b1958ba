use dedup_relay::ledger::{EventKind, Ledger, LedgerError, NaturalKey};
use dedup_relay::pipeline::{
    Action, Candidate, ComposedPost, Event, Outcome, Page, PublishError, UpstreamError,
};
use dedup_relay::post_data::PostRef;
use dedup_relay::summarizer::SummarizeError;
use dedup_relay::watcher::{Phase, StepError, Watcher};

fn milestone_candidate(issue_id: u64, label: &str) -> Candidate {
    Candidate {
        key: NaturalKey::milestone(issue_id, label.to_string()),
        title: format!("#{} reached {}", issue_id, label),
        context: format!("issue {} is part of {}", issue_id, label),
        link: Some(format!("https://example.org/issues/{}", issue_id)),
    }
}

fn content_candidate(cid: &str) -> Candidate {
    Candidate {
        key: NaturalKey::content(cid.to_string()),
        title: format!("merged {}", cid),
        context: format!("what {} changed", cid),
        link: None,
    }
}

fn page(candidates: Vec<Candidate>, cursor: Option<&str>) -> Page {
    Page { candidates, cursor: cursor.map(|c| c.to_string()) }
}

fn post_ref(name: &str) -> PostRef {
    PostRef { cid: format!("cid-{}", name), uri: format!("at://posts/{}", name) }
}

/// Drives one cycle over the given pages against `ledger`. The summarizer
/// answers "summary of <context>", the publisher answers with a reference
/// named after the post text. Returns every action the watcher asked for.
fn run_cycle(watcher: &mut Watcher, ledger: &mut Ledger, pages: Vec<Page>) -> Vec<Action> {
    let mut pages = pages.into_iter();
    let mut asked = Vec::new();
    let mut action = watcher.pending();
    loop {
        let event = match &action {
            Action::Fetch { .. } => Event::Fetched(pages.next().ok_or(UpstreamError::NotFound)),
            Action::Check { .. } | Action::Record { .. } => ledger.answer(&action).unwrap(),
            Action::Summarize { context } => Event::Summarized(Ok(format!("summary of {}", context))),
            Action::Publish { post } => Event::Published(Ok(post_ref(&post.text))),
            Action::Finish => {
                asked.push(action);
                return asked;
            }
        };
        asked.push(action);
        action = watcher.step(event).unwrap();
    }
}

fn publish_count(actions: &[Action]) -> usize {
    actions.iter().filter(|a| matches!(a, Action::Publish { .. })).count()
}

#[test]
fn new_watcher_asks_for_the_first_page() {
    let watcher = Watcher::new();
    assert_eq!(watcher.phase(), Phase::Fetching);
    assert!(!watcher.is_done());
    assert_eq!(watcher.pending(), Action::Fetch { cursor: None });
    assert!(watcher.candidates().is_empty());
    assert!(watcher.outcomes().is_empty());
    assert_eq!(watcher.halted(), None);
}

#[test]
fn resumed_watcher_asks_for_the_page_behind_the_cursor() {
    let watcher = Watcher::resume(Some("page-7".to_string()));
    assert_eq!(watcher.pending(), Action::Fetch { cursor: Some("page-7".to_string()) });
}

#[test]
fn milestone_is_published_once_over_two_cycles() {
    let mut ledger = Ledger::new();
    let key = NaturalKey::milestone(42, "v1.2".to_string());
    assert!(!ledger.has(&key));

    let mut first = Watcher::new();
    let asked = run_cycle(&mut first, &mut ledger, vec![page(vec![milestone_candidate(42, "v1.2")], None)]);
    assert_eq!(
        asked,
        vec![
            Action::Fetch { cursor: None },
            Action::Check { key: key.clone() },
            Action::Summarize { context: "issue 42 is part of v1.2".to_string() },
            Action::Publish {
                post: ComposedPost {
                    text: "summary of issue 42 is part of v1.2".to_string(),
                    link: Some("https://example.org/issues/42".to_string()),
                }
            },
            Action::Record { key: key.clone(), title: "#42 reached v1.2".to_string() },
            Action::Finish,
        ]
    );
    assert_eq!(
        first.outcomes(),
        &vec![Outcome::Recorded { post: post_ref("summary of issue 42 is part of v1.2") }]
    );
    assert!(ledger.has(&key));

    let mut second = Watcher::new();
    let asked = run_cycle(&mut second, &mut ledger, vec![page(vec![milestone_candidate(42, "v1.2")], None)]);
    assert_eq!(
        asked,
        vec![Action::Fetch { cursor: None }, Action::Check { key: key.clone() }, Action::Finish]
    );
    assert_eq!(publish_count(&asked), 0);
    assert_eq!(second.outcomes(), &vec![Outcome::AlreadyHandled]);
    assert_eq!(ledger.len(EventKind::Milestone), 1);
}

#[test]
fn overlapping_cycles_publish_twice_and_record_once() {
    let mut ledger = Ledger::new();
    let key = NaturalKey::content("cid123".to_string());
    let mut one = Watcher::new();
    let mut two = Watcher::new();

    for watcher in [&mut one, &mut two] {
        let check = watcher
            .step(Event::Fetched(Ok(page(vec![content_candidate("cid123")], None))))
            .unwrap();
        assert_eq!(check, Action::Check { key: key.clone() });
    }
    // Both ask the ledger before either has recorded.
    let seen_by_one = ledger.has(&key);
    let seen_by_two = ledger.has(&key);
    assert!(!seen_by_one && !seen_by_two);

    let mut records = Vec::new();
    for (watcher, name) in [(&mut one, "one"), (&mut two, "two")] {
        let summarize = watcher.step(Event::Checked(false)).unwrap();
        assert_eq!(summarize, Action::Summarize { context: "what cid123 changed".to_string() });
        let publish = watcher.step(Event::Summarized(Ok("a summary".to_string()))).unwrap();
        assert_eq!(
            publish,
            Action::Publish { post: ComposedPost { text: "a summary".to_string(), link: None } }
        );
        records.push(watcher.step(Event::Published(Ok(post_ref(name)))).unwrap());
    }
    assert_eq!(records[0], Action::Record { key: key.clone(), title: "merged cid123".to_string() });
    assert_eq!(records[1], records[0]);

    let first = ledger.record(key.clone(), "merged cid123".to_string());
    let second = ledger.record(key.clone(), "merged cid123".to_string());
    assert_eq!(first, Ok(()));
    assert_eq!(second, Err(LedgerError::AlreadyExists));

    assert_eq!(one.step(Event::Recorded(first)), Ok(Action::Finish));
    assert_eq!(two.step(Event::Recorded(second)), Ok(Action::Finish));
    assert_eq!(one.outcomes(), &vec![Outcome::Recorded { post: post_ref("one") }]);
    assert_eq!(two.outcomes(), &vec![Outcome::RecordedElsewhere { post: post_ref("two") }]);
    assert!(one.is_done() && two.is_done());
    assert_eq!(one.halted(), None);
    assert_eq!(two.halted(), None);
    assert_eq!(ledger.len(EventKind::Content), 1);
}

#[test]
fn storage_failure_after_publish_is_flagged_and_the_cycle_goes_on() {
    let mut watcher = Watcher::new();
    watcher
        .step(Event::Fetched(Ok(page(vec![content_candidate("a"), content_candidate("b")], None))))
        .unwrap();
    watcher.step(Event::Checked(false)).unwrap();
    watcher.step(Event::Summarized(Ok("about a".to_string()))).unwrap();
    let record = watcher.step(Event::Published(Ok(post_ref("a")))).unwrap();
    assert_eq!(
        record,
        Action::Record { key: NaturalKey::content("a".to_string()), title: "merged a".to_string() }
    );
    assert_eq!(watcher.phase(), Phase::Recording);

    let next = watcher.step(Event::Recorded(Err(LedgerError::StorageFailure))).unwrap();
    assert_eq!(next, Action::Check { key: NaturalKey::content("b".to_string()) });
    assert_eq!(watcher.phase(), Phase::Filtering);
    assert_eq!(watcher.outcomes(), &vec![Outcome::Unrecorded { post: post_ref("a") }]);
    assert!(!watcher.is_done());
    assert_eq!(watcher.halted(), None);
}

#[test]
fn failed_summary_defers_the_candidate_without_publish_or_record() {
    for failure in [SummarizeError::EmptyResponse, SummarizeError::TransportFailure] {
        let mut watcher = Watcher::new();
        watcher
            .step(Event::Fetched(Ok(page(vec![content_candidate("a"), content_candidate("b")], None))))
            .unwrap();
        watcher.step(Event::Checked(false)).unwrap();
        let next = watcher.step(Event::Summarized(Err(failure))).unwrap();
        assert_eq!(next, Action::Check { key: NaturalKey::content("b".to_string()) });
        assert_eq!(watcher.outcomes(), &vec![Outcome::SummaryFailed(failure)]);
    }
}

#[test]
fn empty_summary_text_counts_as_empty_response() {
    let mut watcher = Watcher::new();
    watcher.step(Event::Fetched(Ok(page(vec![content_candidate("a")], None)))).unwrap();
    watcher.step(Event::Checked(false)).unwrap();
    let next = watcher.step(Event::Summarized(Ok(String::new()))).unwrap();
    assert_eq!(next, Action::Finish);
    assert_eq!(
        watcher.outcomes(),
        &vec![Outcome::SummaryFailed(SummarizeError::EmptyResponse)]
    );
}

#[test]
fn failed_publish_defers_the_candidate_without_record() {
    let mut watcher = Watcher::new();
    watcher
        .step(Event::Fetched(Ok(page(vec![content_candidate("a"), content_candidate("b")], None))))
        .unwrap();
    watcher.step(Event::Checked(false)).unwrap();
    watcher.step(Event::Summarized(Ok("about a".to_string()))).unwrap();
    assert_eq!(watcher.phase(), Phase::Publishing);
    let next = watcher.step(Event::Published(Err(PublishError::TransportFailure))).unwrap();
    assert_eq!(next, Action::Check { key: NaturalKey::content("b".to_string()) });
    assert_eq!(
        watcher.outcomes(),
        &vec![Outcome::PublishFailed(PublishError::TransportFailure)]
    );
}

#[test]
fn publish_calls_follow_upstream_order() {
    let mut ledger = Ledger::new();
    let mut watcher = Watcher::new();
    let candidates = vec![content_candidate("A"), content_candidate("B"), content_candidate("C")];
    let asked = run_cycle(&mut watcher, &mut ledger, vec![page(candidates, None)]);
    let published: Vec<String> = asked
        .iter()
        .filter_map(|a| match a {
            Action::Publish { post } => Some(post.text.clone()),
            _ => None,
        })
        .collect();
    assert_eq!(
        published,
        vec![
            "summary of what A changed".to_string(),
            "summary of what B changed".to_string(),
            "summary of what C changed".to_string(),
        ]
    );
    let recorded: Vec<NaturalKey> = asked
        .iter()
        .filter_map(|a| match a {
            Action::Record { key, .. } => Some(key.clone()),
            _ => None,
        })
        .collect();
    assert_eq!(
        recorded,
        vec![
            NaturalKey::content("A".to_string()),
            NaturalKey::content("B".to_string()),
            NaturalKey::content("C".to_string()),
        ]
    );
    assert_eq!(watcher.outcomes().len(), 3);
}

#[test]
fn pages_are_fetched_until_one_comes_without_cursor() {
    let mut ledger = Ledger::new();
    let mut watcher = Watcher::new();
    let pages = vec![
        page(vec![content_candidate("a")], Some("c1")),
        page(vec![], Some("c2")),
        page(vec![content_candidate("b")], None),
    ];
    let asked = run_cycle(&mut watcher, &mut ledger, pages);
    let fetches: Vec<&Action> = asked.iter().filter(|a| matches!(a, Action::Fetch { .. })).collect();
    assert_eq!(
        fetches,
        vec![
            &Action::Fetch { cursor: None },
            &Action::Fetch { cursor: Some("c1".to_string()) },
            &Action::Fetch { cursor: Some("c2".to_string()) },
        ]
    );
    assert_eq!(publish_count(&asked), 2);
    assert_eq!(watcher.candidates().len(), 2);
    assert_eq!(watcher.candidates()[1], content_candidate("b"));
    assert!(watcher.is_done());
    assert_eq!(asked.last(), Some(&Action::Finish));
}

#[test]
fn empty_final_page_ends_the_cycle() {
    let mut watcher = Watcher::new();
    assert_eq!(watcher.step(Event::Fetched(Ok(page(vec![], None)))), Ok(Action::Finish));
    assert!(watcher.is_done());
    assert_eq!(watcher.halted(), None);
}

#[test]
fn failed_fetch_ends_the_cycle_and_is_reported() {
    for failure in [
        UpstreamError::NotFound,
        UpstreamError::RateLimited,
        UpstreamError::TransportFailure,
    ] {
        let mut watcher = Watcher::new();
        assert_eq!(watcher.step(Event::Fetched(Err(failure))), Ok(Action::Finish));
        assert!(watcher.is_done());
        assert_eq!(watcher.halted(), Some(failure));
        assert!(watcher.outcomes().is_empty());
    }
}

#[test]
fn unexpected_event_is_refused_and_changes_nothing() {
    let mut watcher = Watcher::new();
    assert_eq!(watcher.step(Event::Checked(true)), Err(StepError::UnexpectedEvent));
    assert_eq!(watcher.step(Event::Recorded(Ok(()))), Err(StepError::UnexpectedEvent));
    assert_eq!(watcher.pending(), Action::Fetch { cursor: None });

    watcher.step(Event::Fetched(Ok(page(vec![content_candidate("a")], None)))).unwrap();
    assert_eq!(
        watcher.step(Event::Published(Ok(post_ref("a")))),
        Err(StepError::UnexpectedEvent)
    );
    assert_eq!(
        watcher.step(Event::Summarized(Ok("text".to_string()))),
        Err(StepError::UnexpectedEvent)
    );
    assert_eq!(
        watcher.step(Event::Fetched(Ok(page(vec![], None)))),
        Err(StepError::UnexpectedEvent)
    );
    assert_eq!(watcher.phase(), Phase::Filtering);
    assert_eq!(watcher.pending(), Action::Check { key: NaturalKey::content("a".to_string()) });
    assert_eq!(watcher.candidates().len(), 1);
}

#[test]
fn every_event_is_refused_after_the_end() {
    let mut watcher = Watcher::new();
    watcher.step(Event::Fetched(Ok(page(vec![], None)))).unwrap();
    assert_eq!(watcher.step(Event::Checked(false)), Err(StepError::UnexpectedEvent));
    assert_eq!(
        watcher.step(Event::Fetched(Ok(page(vec![content_candidate("a")], None)))),
        Err(StepError::UnexpectedEvent)
    );
    assert_eq!(watcher.pending(), Action::Finish);
    assert!(watcher.candidates().is_empty());
}

#[test]
fn candidate_hands_out_its_natural_key() {
    let candidate = milestone_candidate(42, "v1.2");
    assert_eq!(candidate.natural_key(), NaturalKey::milestone(42, "v1.2".to_string()));
    assert_eq!(candidate.clone(), candidate);
}

#[test]
fn unrecorded_posts_are_listed_for_reconciliation() {
    let mut watcher = Watcher::new();
    let candidates = vec![content_candidate("a"), content_candidate("b"), content_candidate("c")];
    watcher.step(Event::Fetched(Ok(page(candidates, None)))).unwrap();
    for (name, recorded) in [
        ("a", Err(LedgerError::StorageFailure)),
        ("b", Ok(())),
        ("c", Err(LedgerError::StorageFailure)),
    ] {
        assert!(watcher.needs_reconciliation().len() <= 1);
        watcher.step(Event::Checked(false)).unwrap();
        watcher.step(Event::Summarized(Ok(format!("about {}", name)))).unwrap();
        watcher.step(Event::Published(Ok(post_ref(name)))).unwrap();
        watcher.step(Event::Recorded(recorded)).unwrap();
    }
    assert!(watcher.is_done());
    assert_eq!(
        watcher.needs_reconciliation(),
        vec![NaturalKey::content("a".to_string()), NaturalKey::content("c".to_string())]
    );
    assert_eq!(Watcher::new().needs_reconciliation(), Vec::<NaturalKey>::new());
}
