use event_logger::dispatch::plan_for_entry;
use event_logger::event::{Event, EventKind, LogEntry};
use event_logger::store::{create_event_logger, AggregateRecord, EventStore};

fn completion(completion_id: &str, language: &str, prompt: &str, user_agent: &str) -> Event {
    Event::Completion {
        completion_id: completion_id.into(),
        language: language.into(),
        prompt: prompt.into(),
        segments: None,
        choices: vec![],
        user_agent: Some(user_agent.into()),
    }
}

fn view(completion_id: &str) -> Event {
    Event::View { completion_id: completion_id.into(), choice_index: 0, view_id: None }
}

fn select(completion_id: &str) -> Event {
    Event::Select {
        completion_id: completion_id.into(),
        choice_index: 0,
        view_id: None,
        kind: None,
        elapsed: None,
    }
}

fn dismiss(completion_id: &str) -> Event {
    Event::Dismiss {
        completion_id: completion_id.into(),
        choice_index: 0,
        view_id: None,
        elapsed: None,
    }
}

#[test]
fn test_event_logger() {
    let mut db = EventStore::new();
    let user_id = db.create_user();
    let mut logger = create_event_logger(db);
    let id = user_id.to_string();

    logger.log(1, Some(id), completion("test_id", "rust", "testprompt", "ide: version test"));
    assert!(logger.db.aggregates.first().is_some());

    logger.log(2, None, view("test_id"));
    assert_eq!(logger.db.aggregates[0].views, 1);

    logger.log(3, None, dismiss("test_id"));
    assert_eq!(logger.db.aggregates[0].dismisses, 1);

    logger.log(4, None, select("test_id"));
    assert_eq!(logger.db.aggregates[0].selects, 1);
}

#[test]
fn test_event_without_user_will_be_skipped() {
    let mut logger = create_event_logger(EventStore::new());

    logger.log(
        1,
        Some("testuser".into()),
        completion("test_id", "rust", "testprompt", "ide: version unknown"),
    );
    assert!(logger.db.aggregates.first().is_none());

    logger.log(2, None, completion("test_id", "rust", "testprompt", "ide: version unknown"));
    assert!(logger.db.aggregates.first().is_none());
}

#[test]
fn test_chat_completion_event_will_be_skipped() {
    let mut logger = create_event_logger(EventStore::new());

    logger.log(1, None, Event::ChatCompletion {});
    assert!(logger.db.aggregates.first().is_none());
    assert!(logger.db.audits.is_empty());
}

// Scenario: a Completion under a real user, then anonymous View, Dismiss and
// Select for the same completion id, drain to one aggregate with each counter
// at one and exactly one audit record (the Completion's).
#[test]
fn scenario_completion_then_interactions() {
    let mut db = EventStore::new();
    let user_id = db.create_user();
    let mut logger = create_event_logger(db);

    logger.log(10, Some(user_id.to_string()), completion("c1", "rust", "p", "agent"));
    logger.log(11, None, view("c1"));
    logger.log(12, None, dismiss("c1"));
    logger.log(13, None, select("c1"));

    assert_eq!(logger.db.aggregates.len(), 1);
    let agg = &logger.db.aggregates[0];
    assert_eq!(agg.completion_id, "c1");
    assert_eq!(agg.views, 1);
    assert_eq!(agg.selects, 1);
    assert_eq!(agg.dismisses, 1);
    assert_eq!(agg.language, "rust");
    assert_eq!(logger.db.audits.len(), 1);
    assert_eq!(logger.db.audits[0].kind, "completion");
}

// Scenario: a Completion whose identifier does not resolve leaves no
// aggregate and no audit record.
#[test]
fn scenario_unresolved_completion_is_a_no_op() {
    let mut logger = create_event_logger(EventStore::new());
    logger.log(1, Some("unknown-id".into()), completion("c2", "rust", "p", "agent"));
    assert!(logger.db.aggregates.is_empty());
    assert!(logger.db.audits.is_empty());
}

// Scenario: an anonymous ChatCompletion leaves no records of any kind.
#[test]
fn scenario_anonymous_chat_completion_is_a_no_op() {
    let mut logger = create_event_logger(EventStore::new());
    logger.log(1, None, Event::ChatCompletion {});
    assert!(logger.db.users.is_empty());
    assert!(logger.db.aggregates.is_empty());
    assert!(logger.db.audits.is_empty());
}

// An interaction with resolvable identity: the matching counter moves by one,
// the other counters stay, and exactly one audit record appears.
#[test]
fn interaction_with_identity_audits_once() {
    let mut db = EventStore::new();
    let user_id = db.create_user();
    let mut logger = create_event_logger(db);

    logger.log(5, Some(user_id.to_string()), completion("c", "go", "p", "a"));
    assert_eq!(logger.db.audits.len(), 1);

    logger.log(6, Some(user_id.to_string()), view("c"));
    assert_eq!(logger.db.aggregates[0].views, 1);
    assert_eq!(logger.db.aggregates[0].selects, 0);
    assert_eq!(logger.db.aggregates[0].dismisses, 0);
    assert_eq!(logger.db.audits.len(), 2);
    assert_eq!(logger.db.audits[1].kind, "view");
    assert_eq!(logger.db.audits[1].ts, 6);
    assert_eq!(logger.db.audits[1].user_id, user_id);
}

// An interaction without identity still counts, but is not audited.
#[test]
fn interaction_without_identity_still_counts() {
    let mut db = EventStore::new();
    let user_id = db.create_user();
    let mut logger = create_event_logger(db);

    logger.log(5, Some(user_id.to_string()), completion("c", "go", "p", "a"));
    logger.log(6, None, select("c"));
    assert_eq!(logger.db.aggregates[0].selects, 1);
    assert_eq!(logger.db.audits.len(), 1);

    logger.log(7, Some("not a number".into()), dismiss("c"));
    assert_eq!(logger.db.aggregates[0].dismisses, 1);
    assert_eq!(logger.db.audits.len(), 1);
}

// A ChatCompletion with resolvable identity: exactly one audit record and no
// aggregate effect.
#[test]
fn chat_completion_with_identity_audits_once() {
    let mut db = EventStore::new();
    let user_id = db.create_user();
    let mut logger = create_event_logger(db);

    logger.log(9, Some(user_id.to_string()), Event::ChatCompletion {});
    assert!(logger.db.aggregates.is_empty());
    assert_eq!(logger.db.audits.len(), 1);
    assert_eq!(logger.db.audits[0].kind, "chat_completion");
    assert_eq!(logger.db.audits[0].payload, "{\"ChatCompletion\":{}}");
}

// A Completion whose identifier resolves but matches no user row fails its
// unit at the lookup: nothing is written, not even the audit record.
#[test]
fn completion_for_missing_user_row_writes_nothing() {
    let mut logger = create_event_logger(EventStore::new());
    logger.log(1, Some("7".into()), completion("c", "rust", "p", "a"));
    assert!(logger.db.aggregates.is_empty());
    assert!(logger.db.audits.is_empty());
}

// Many View events for the same completion id converge to that many views.
#[test]
fn many_views_converge() {
    let mut db = EventStore::new();
    let user_id = db.create_user();
    let mut logger = create_event_logger(db);

    logger.log(0, Some(user_id.to_string()), completion("hot", "rust", "p", "a"));
    for i in 0..5 {
        logger.log(i + 1, None, view("hot"));
    }
    assert_eq!(logger.db.aggregates[0].views, 5);
    assert_eq!(logger.db.aggregates[0].selects, 0);
}

// A counter at the top of its range makes the increment fail as a gateway
// error: the whole unit aborts, so not even the audit record is written.
#[test]
fn increment_overflow_aborts_the_unit() {
    let mut db = EventStore::new();
    let user_id = db.create_user();
    db.aggregates.push(AggregateRecord {
        ts: 0,
        user_id,
        completion_id: "full".into(),
        language: "rust".into(),
        views: u64::MAX,
        selects: 0,
        dismisses: 0,
    });
    let mut logger = create_event_logger(db);
    logger.log(1, Some(user_id.to_string()), view("full"));
    assert_eq!(logger.db.aggregates[0].views, u64::MAX);
    assert!(logger.db.audits.is_empty());
}

// A repeated Completion issues one create per event; creation under an
// existing key overwrites the aggregate with fresh counters.
#[test]
fn repeated_completion_overwrites_the_aggregate() {
    let mut db = EventStore::new();
    let user_id = db.create_user();
    let mut logger = create_event_logger(db);

    logger.log(1, Some(user_id.to_string()), completion("c", "rust", "p", "a"));
    logger.log(2, None, view("c"));
    assert_eq!(logger.db.aggregates[0].views, 1);

    logger.log(3, Some(user_id.to_string()), completion("c", "go", "p2", "a"));
    assert_eq!(logger.db.aggregates.len(), 1);
    assert_eq!(logger.db.aggregates[0].views, 0);
    assert_eq!(logger.db.aggregates[0].language, "go");
    assert_eq!(logger.db.audits.len(), 2);
}

// The planner itself: anonymous interactions plan a single counter call,
// attributed ones add the audit call, and events that require identity plan
// nothing at all without it.
#[test]
fn plans_follow_the_policy_table() {
    let unit = plan_for_entry(LogEntry { ts: 1, user: None, event: view("c") }).unwrap();
    assert_eq!(unit.steps.len(), 1);

    let unit = plan_for_entry(LogEntry { ts: 1, user: Some("3".into()), event: view("c") }).unwrap();
    assert_eq!(unit.steps.len(), 2);

    assert!(plan_for_entry(LogEntry {
        ts: 1,
        user: None,
        event: completion("c", "rust", "p", "a"),
    }).is_none());
    assert!(plan_for_entry(LogEntry { ts: 1, user: None, event: Event::ChatCompletion {} }).is_none());

    let unit = plan_for_entry(LogEntry {
        ts: 1,
        user: Some("3".into()),
        event: completion("c", "rust", "p", "a"),
    }).unwrap();
    assert_eq!(unit.steps.len(), 3);
}

// The stable string form of each event kind, as audit records carry it.
#[test]
fn kind_strings_are_stable() {
    assert_eq!(view("c").kind(), EventKind::View);
    assert_eq!(select("c").kind(), EventKind::Select);
    assert_eq!(dismiss("c").kind(), EventKind::Dismiss);
    assert_eq!(completion("c", "rust", "p", "a").kind(), EventKind::Completion);
    assert_eq!(Event::ChatCompletion {}.kind(), EventKind::ChatCompletion);
    assert_eq!(EventKind::View.as_enum_str(), "view");
    assert_eq!(EventKind::Select.as_enum_str(), "select");
    assert_eq!(EventKind::Dismiss.as_enum_str(), "dismiss");
    assert_eq!(EventKind::Completion.as_enum_str(), "completion");
    assert_eq!(EventKind::ChatCompletion.as_enum_str(), "chat_completion");
}

// The audit record carries the event's serialized payload verbatim.
#[test]
fn audit_carries_the_serialized_payload() {
    let mut db = EventStore::new();
    let user_id = db.create_user();
    let mut logger = create_event_logger(db);

    let e = view("c9");
    let expected = event_logger::json::serialize_event(&e);
    logger.log(3, Some(user_id.to_string()), e);
    assert_eq!(logger.db.audits.len(), 1);
    assert_eq!(logger.db.audits[0].payload, expected);
}
