//! The dispatcher: the per-kind classification policy.
//!
//! Given one ingested entry, `plan_for_entry` resolves identity once and
//! decides, as a pure function, which gateway calls to issue: the unit of
//! work. An embedder executes each unit independently in the background; the
//! caller of the ingestion API never observes its outcome.
//!
//! The policy table, with `plan_spec` as its statement:
//!
//! | kind           | identity      | aggregate effect        | audit record        |
//! |----------------|---------------|-------------------------|---------------------|
//! | View           | not required  | `+1` to `views`         | only if resolved    |
//! | Select         | not required  | `+1` to `selects`       | only if resolved    |
//! | Dismiss        | not required  | `+1` to `dismisses`     | only if resolved    |
//! | Completion     | required      | look up user, create    | one                 |
//! | ChatCompletion | required      | none                    | one                 |
//!
//! Where identity is required and does not resolve, the entry is dropped
//! whole: no gateway call of any kind.

use vstd::prelude::*;
use crate::event::{Event, EventKind, EventV, LogEntry, LogEntryV};
use crate::ident::{get_user_id, resolve_user};
use crate::json::{json_of_event, serialize_event};

verus! {

/// One gateway call of a unit of work.
pub enum Step {
    /// Add the deltas to the counters of the aggregate completion record
    /// keyed by `completion_id`. A missing aggregate is left missing. The
    /// timestamp accompanies the call as the gateway's update time, which
    /// the model does not track.
    IncrementCounters {
        ts: u64,
        completion_id: String,
        views: u64,
        selects: u64,
        dismisses: u64,
    },
    /// Look the resolved identity up; the unit fails here when no user row
    /// exists for it.
    RequireUser { user_id: i64 },
    /// Create the aggregate completion record, seeded with zero counters and
    /// the event's language.
    CreateAggregate { ts: u64, user_id: i64, completion_id: String, language: String },
    /// Append one audit record with the serialized payload.
    CreateAudit { user_id: i64, kind: EventKind, ts: u64, payload: String },
}

/// Mathematical view of a gateway call.
pub enum StepV {
    IncrementCounters {
        ts: u64,
        completion_id: Seq<char>,
        views: u64,
        selects: u64,
        dismisses: u64,
    },
    RequireUser { user_id: i64 },
    CreateAggregate { ts: u64, user_id: i64, completion_id: Seq<char>, language: Seq<char> },
    CreateAudit { user_id: i64, kind: EventKind, ts: u64, payload: Seq<char> },
}

impl View for Step {
    type V = StepV;

    open spec fn view(&self) -> StepV {
        match self {
            Step::IncrementCounters { ts, completion_id, views, selects, dismisses } => {
                StepV::IncrementCounters {
                    ts: *ts,
                    completion_id: completion_id@,
                    views: *views,
                    selects: *selects,
                    dismisses: *dismisses,
                }
            },
            Step::RequireUser { user_id } => StepV::RequireUser { user_id: *user_id },
            Step::CreateAggregate { ts, user_id, completion_id, language } => {
                StepV::CreateAggregate {
                    ts: *ts,
                    user_id: *user_id,
                    completion_id: completion_id@,
                    language: language@,
                }
            },
            Step::CreateAudit { user_id, kind, ts, payload } => {
                StepV::CreateAudit { user_id: *user_id, kind: *kind, ts: *ts, payload: payload@ }
            },
        }
    }
}

/// A unit of work: the gateway calls for one ingested entry, to be executed
/// in order and aborted at the first failure.
pub struct WorkUnit {
    pub steps: Vec<Step>,
}

impl View for WorkUnit {
    type V = Seq<StepV>;

    open spec fn view(&self) -> Seq<StepV> {
        self.steps@.map_values(|s: Step| s@)
    }
}

/// The audit step an event is owed: exactly one record when the identity
/// resolves, none otherwise.
pub open spec fn audit_steps(
    user: Option<i64>,
    kind: EventKind,
    ts: u64,
    payload: Seq<char>,
) -> Seq<StepV> {
    match user {
        None => Seq::empty(),
        Some(uid) => seq![StepV::CreateAudit { user_id: uid, kind, ts, payload }],
    }
}

/// The policy table: the gateway calls one entry gives rise to, or `None`
/// where the entry is dropped whole (identity required but unresolved).
pub open spec fn plan_spec(entry: LogEntryV) -> Option<Seq<StepV>> {
    let payload = json_of_event(entry.event);
    let user = resolve_user(entry.user);
    match entry.event {
        EventV::View { completion_id, .. } => Some(
            seq![
                StepV::IncrementCounters {
                    ts: entry.ts,
                    completion_id,
                    views: 1,
                    selects: 0,
                    dismisses: 0,
                },
            ] + audit_steps(user, EventKind::View, entry.ts, payload),
        ),
        EventV::Select { completion_id, .. } => Some(
            seq![
                StepV::IncrementCounters {
                    ts: entry.ts,
                    completion_id,
                    views: 0,
                    selects: 1,
                    dismisses: 0,
                },
            ] + audit_steps(user, EventKind::Select, entry.ts, payload),
        ),
        EventV::Dismiss { completion_id, .. } => Some(
            seq![
                StepV::IncrementCounters {
                    ts: entry.ts,
                    completion_id,
                    views: 0,
                    selects: 0,
                    dismisses: 1,
                },
            ] + audit_steps(user, EventKind::Dismiss, entry.ts, payload),
        ),
        EventV::Completion { completion_id, language, .. } => match user {
            None => None,
            Some(uid) => Some(
                seq![
                    StepV::RequireUser { user_id: uid },
                    StepV::CreateAggregate { ts: entry.ts, user_id: uid, completion_id, language },
                    StepV::CreateAudit {
                        user_id: uid,
                        kind: EventKind::Completion,
                        ts: entry.ts,
                        payload,
                    },
                ],
            ),
        },
        EventV::ChatCompletion { .. } => match user {
            None => None,
            Some(uid) => Some(
                seq![
                    StepV::CreateAudit {
                        user_id: uid,
                        kind: EventKind::ChatCompletion,
                        ts: entry.ts,
                        payload,
                    },
                ],
            ),
        },
    }
}

/// View of an optional unit as the optional step sequence it performs.
pub open spec fn unit_opt_view(r: Option<WorkUnit>) -> Option<Seq<StepV>> {
    match r {
        None => None,
        Some(u) => Some(u@),
    }
}

/// Classifies one entry: serializes the audit payload, resolves identity
/// once, and builds the unit of work the policy table prescribes. Returns
/// `None` exactly where the policy drops the entry.
pub fn plan_for_entry(entry: LogEntry) -> (r: Option<WorkUnit>)
    ensures
        unit_opt_view(r) == plan_spec(entry@),
{
    let LogEntry { ts, user, event } = entry;
    let payload = serialize_event(&event);
    let user_id = get_user_id(user);
    match event {
        Event::View { completion_id, .. } => {
            let mut steps: Vec<Step> = Vec::new();
            steps.push(
                Step::IncrementCounters { ts, completion_id, views: 1, selects: 0, dismisses: 0 },
            );
            if let Some(uid) = user_id {
                steps.push(
                    Step::CreateAudit { user_id: uid, kind: EventKind::View, ts, payload },
                );
            }
            let unit = WorkUnit { steps };
            proof {
                assert(unit@ =~= plan_spec(entry@)->Some_0);
            }
            Some(unit)
        },
        Event::Select { completion_id, .. } => {
            let mut steps: Vec<Step> = Vec::new();
            steps.push(
                Step::IncrementCounters { ts, completion_id, views: 0, selects: 1, dismisses: 0 },
            );
            if let Some(uid) = user_id {
                steps.push(
                    Step::CreateAudit { user_id: uid, kind: EventKind::Select, ts, payload },
                );
            }
            let unit = WorkUnit { steps };
            proof {
                assert(unit@ =~= plan_spec(entry@)->Some_0);
            }
            Some(unit)
        },
        Event::Dismiss { completion_id, .. } => {
            let mut steps: Vec<Step> = Vec::new();
            steps.push(
                Step::IncrementCounters { ts, completion_id, views: 0, selects: 0, dismisses: 1 },
            );
            if let Some(uid) = user_id {
                steps.push(
                    Step::CreateAudit { user_id: uid, kind: EventKind::Dismiss, ts, payload },
                );
            }
            let unit = WorkUnit { steps };
            proof {
                assert(unit@ =~= plan_spec(entry@)->Some_0);
            }
            Some(unit)
        },
        Event::Completion { completion_id, language, .. } => {
            match user_id {
                None => None,
                Some(uid) => {
                    let mut steps: Vec<Step> = Vec::new();
                    steps.push(Step::RequireUser { user_id: uid });
                    steps.push(
                        Step::CreateAggregate { ts, user_id: uid, completion_id, language },
                    );
                    steps.push(
                        Step::CreateAudit {
                            user_id: uid,
                            kind: EventKind::Completion,
                            ts,
                            payload,
                        },
                    );
                    let unit = WorkUnit { steps };
                    proof {
                        assert(unit@ =~= plan_spec(entry@)->Some_0);
                    }
                    Some(unit)
                },
            }
        },
        Event::ChatCompletion {} => {
            match user_id {
                None => None,
                Some(uid) => {
                    let mut steps: Vec<Step> = Vec::new();
                    steps.push(
                        Step::CreateAudit {
                            user_id: uid,
                            kind: EventKind::ChatCompletion,
                            ts,
                            payload,
                        },
                    );
                    let unit = WorkUnit { steps };
                    proof {
                        assert(unit@ =~= plan_spec(entry@)->Some_0);
                    }
                    Some(unit)
                },
            }
        },
    }
}

} // verus!
