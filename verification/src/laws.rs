//! The laws of the pipeline, proved for all inputs over the drained effect
//! `write_v` of an ingested entry and over arbitrary interleavings of
//! gateway calls.

use vstd::prelude::*;
use crate::dispatch::{audit_steps, plan_spec, StepV};
use crate::event::{kind_of, kind_str, EventKind, EventV, LogEntryV};
use crate::ident::resolve_user;
use crate::json::json_of_event;
use crate::store::{
    bump_all, bumped, create_agg, fresh_agg, increment_overflows, run_v, step_v, write_v,
    AggregateRecordV, AuditRecordV, StoreV,
};

verus! {

/// Whether the event is an interaction: View, Select or Dismiss.
pub open spec fn is_interaction(e: EventV) -> bool {
    e is View || e is Select || e is Dismiss
}

/// The completion id an event speaks of (meaningful for every kind but
/// ChatCompletion, which speaks of none).
pub open spec fn event_cid(e: EventV) -> Seq<char> {
    match e {
        EventV::View { completion_id, .. } => completion_id,
        EventV::Select { completion_id, .. } => completion_id,
        EventV::Dismiss { completion_id, .. } => completion_id,
        EventV::Completion { completion_id, .. } => completion_id,
        EventV::ChatCompletion { .. } => Seq::empty(),
    }
}

/// The language a Completion event carries.
pub open spec fn completion_language(e: EventV) -> Seq<char> {
    match e {
        EventV::Completion { language, .. } => language,
        _ => Seq::empty(),
    }
}

/// The counter deltas an interaction requests: `+1` to exactly the counter
/// matching its kind.
pub open spec fn interaction_deltas(e: EventV) -> (u64, u64, u64) {
    match e {
        EventV::View { .. } => (1u64, 0u64, 0u64),
        EventV::Select { .. } => (0u64, 1u64, 0u64),
        EventV::Dismiss { .. } => (0u64, 0u64, 1u64),
        _ => (0u64, 0u64, 0u64),
    }
}

/// The audit record an entry is owed when its identity resolves to `uid`.
pub open spec fn audit_of(entry: LogEntryV, uid: i64) -> AuditRecordV {
    AuditRecordV {
        user_id: uid,
        kind: kind_str(kind_of(entry.event)),
        ts: entry.ts,
        payload: json_of_event(entry.event),
    }
}

/// An interaction event (View, Select, Dismiss) never requires identity:
/// draining it bumps exactly the matching counter of every aggregate under
/// its completion id by one, leaves the other counters and all other records
/// untouched, and appends exactly one audit record when the identity
/// resolves and none when it does not. Users are never touched.
pub proof fn lemma_interaction_effect(s: StoreV, entry: LogEntryV)
    requires
        is_interaction(entry.event),
        !increment_overflows(
            s.aggregates,
            event_cid(entry.event),
            interaction_deltas(entry.event).0,
            interaction_deltas(entry.event).1,
            interaction_deltas(entry.event).2,
        ),
    ensures
        ({
            let s2 = write_v(s, entry);
            let cid = event_cid(entry.event);
            let dv = interaction_deltas(entry.event).0;
            let ds = interaction_deltas(entry.event).1;
            let dd = interaction_deltas(entry.event).2;
            &&& s2.users == s.users
            &&& s2.aggregates == bump_all(s.aggregates, cid, dv, ds, dd)
            &&& (match resolve_user(entry.user) {
                Some(uid) => s2.audits == s.audits.push(audit_of(entry, uid)),
                None => s2.audits == s.audits,
            })
        }),
{
    let user = resolve_user(entry.user);
    let cid = event_cid(entry.event);
    let dv = interaction_deltas(entry.event).0;
    let ds = interaction_deltas(entry.event).1;
    let dd = interaction_deltas(entry.event).2;
    let steps = plan_spec(entry)->Some_0;
    let incr = StepV::IncrementCounters {
        ts: entry.ts,
        completion_id: cid,
        views: dv,
        selects: ds,
        dismisses: dd,
    };
    let audit = audit_steps(user, kind_of(entry.event), entry.ts, json_of_event(entry.event));
    assert(steps =~= seq![incr] + audit);
    assert(steps[0] == incr);
    let s1 = StoreV { aggregates: bump_all(s.aggregates, cid, dv, ds, dd), ..s };
    assert(step_v(s, incr).0 =~= s1);
    assert(step_v(s, incr).1);
    assert(steps.drop_first() =~= audit);
    match user {
        None => {
            assert(audit.len() == 0);
            assert(run_v(s1, audit) == s1);
        },
        Some(uid) => {
            let au = StepV::CreateAudit {
                user_id: uid,
                kind: kind_of(entry.event),
                ts: entry.ts,
                payload: json_of_event(entry.event),
            };
            assert(audit =~= seq![au]);
            let s2 = step_v(s1, au).0;
            assert(s2 =~= (StoreV { audits: s1.audits.push(audit_of(entry, uid)), ..s1 }));
            assert(audit.drop_first() =~= Seq::<StepV>::empty());
            assert(run_v(s2, audit.drop_first()) == s2);
            assert(run_v(s1, audit) == s2);
        },
    }
}

/// A Completion or ChatCompletion entry whose identity does not resolve is
/// dropped whole: no gateway call of any kind, the drained effect is no
/// effect.
pub proof fn lemma_identity_required_drop(s: StoreV, entry: LogEntryV)
    requires
        entry.event is Completion || entry.event is ChatCompletion,
        resolve_user(entry.user) is None,
    ensures
        write_v(s, entry) == s,
{
}

/// A ChatCompletion entry with resolved identity appends exactly one audit
/// record and has no aggregate effect of any kind.
pub proof fn lemma_chat_completion_effect(s: StoreV, entry: LogEntryV, uid: i64)
    requires
        entry.event is ChatCompletion,
        resolve_user(entry.user) == Some(uid),
    ensures
        write_v(s, entry).users == s.users,
        write_v(s, entry).aggregates == s.aggregates,
        write_v(s, entry).audits == s.audits.push(audit_of(entry, uid)),
{
    let steps = plan_spec(entry)->Some_0;
    let au = StepV::CreateAudit {
        user_id: uid,
        kind: EventKind::ChatCompletion,
        ts: entry.ts,
        payload: json_of_event(entry.event),
    };
    assert(steps =~= seq![au]);
    assert(steps.drop_first() =~= Seq::<StepV>::empty());
    let s2 = step_v(s, au).0;
    assert(run_v(s2, steps.drop_first()) == s2);
}

/// A Completion entry with resolved identity looks the user row up first:
/// with the row present, the aggregate under its completion id is created
/// anew (zero counters, the event's language, owned by that user) and
/// exactly one audit record is appended; with the row missing, the unit
/// fails at the lookup and the store is untouched.
pub proof fn lemma_completion_effect(s: StoreV, entry: LogEntryV, uid: i64)
    requires
        entry.event is Completion,
        resolve_user(entry.user) == Some(uid),
    ensures
        !s.users.contains(uid) ==> write_v(s, entry) == s,
        s.users.contains(uid) ==> ({
            let s2 = write_v(s, entry);
            &&& s2.users == s.users
            &&& s2.aggregates == create_agg(
                s.aggregates,
                fresh_agg(entry.ts, uid, event_cid(entry.event), completion_language(entry.event)),
            )
            &&& s2.audits == s.audits.push(audit_of(entry, uid))
        }),
{
    let steps = plan_spec(entry)->Some_0;
    let require = StepV::RequireUser { user_id: uid };
    let create = StepV::CreateAggregate {
        ts: entry.ts,
        user_id: uid,
        completion_id: event_cid(entry.event),
        language: completion_language(entry.event),
    };
    let au = StepV::CreateAudit {
        user_id: uid,
        kind: EventKind::Completion,
        ts: entry.ts,
        payload: json_of_event(entry.event),
    };
    assert(steps =~= seq![require, create, au]);
    assert(steps[0] == require);
    if !s.users.contains(uid) {
        assert(step_v(s, require).1 == false);
        assert(run_v(s, steps) == s);
    } else {
        assert(step_v(s, require).0 == s);
        let t1 = steps.drop_first();
        assert(t1 =~= seq![create, au]);
        assert(t1[0] == create);
        let s1 = step_v(s, create).0;
        assert(s1 =~= (StoreV {
            aggregates: create_agg(
                s.aggregates,
                fresh_agg(entry.ts, uid, event_cid(entry.event), completion_language(entry.event)),
            ),
            ..s
        }));
        let t2 = t1.drop_first();
        assert(t2 =~= seq![au]);
        let s2 = step_v(s1, au).0;
        assert(s2 =~= (StoreV { audits: s1.audits.push(audit_of(entry, uid)), ..s1 }));
        assert(t2.drop_first() =~= Seq::<StepV>::empty());
        assert(run_v(s2, t2.drop_first()) == s2);
        assert(run_v(s1, t2) == s2);
        assert(run_v(s1, t1.drop_first()) == s2);
        assert(run_v(s, t1) == s2);
        assert(run_v(s, steps.drop_first()) == s2);
        assert(run_v(s, steps) == s2);
    }
}

/// Whether a gateway call is the increment a View event plans for `cid`.
pub open spec fn is_view_incr(st: StepV, cid: Seq<char>) -> bool {
    st matches StepV::IncrementCounters { completion_id, views, selects, dismisses, .. }
        && completion_id == cid && views == 1 && selects == 0 && dismisses == 0
}

/// Whether a gateway call is an audit append.
pub open spec fn is_audit(st: StepV) -> bool {
    st is CreateAudit
}

/// How many View increments for `cid` a sequence of calls holds.
pub open spec fn count_view_incrs(steps: Seq<StepV>, cid: Seq<char>) -> int
    decreases steps.len(),
{
    if steps.len() == 0 {
        0
    } else {
        (if is_view_incr(steps[0], cid) {
            1int
        } else {
            0int
        }) + count_view_incrs(steps.drop_first(), cid)
    }
}

proof fn lemma_count_view_incrs_bounds(steps: Seq<StepV>, cid: Seq<char>)
    ensures
        0 <= count_view_incrs(steps, cid) <= steps.len(),
    decreases steps.len(),
{
    if steps.len() > 0 {
        lemma_count_view_incrs_bounds(steps.drop_first(), cid);
    }
}

/// The record `r` with `n` more views.
pub open spec fn views_plus(r: AggregateRecordV, n: int) -> AggregateRecordV {
    AggregateRecordV { views: (r.views + n) as u64, ..r }
}

/// Convergence under concurrency: any interleaving of the gateway calls of
/// concurrent View units for one completion id — their counter increments
/// and whatever audit appends they carry, in any order — drains to `views`
/// grown by exactly the number of increments on every aggregate under that
/// id, with every other record, every other counter, and the user table
/// untouched. No update is lost.
pub proof fn lemma_concurrent_views_converge(s: StoreV, steps: Seq<StepV>, cid: Seq<char>)
    requires
        forall|k: int|
            0 <= k < steps.len() ==> is_view_incr(#[trigger] steps[k], cid) || is_audit(steps[k]),
        forall|i: int|
            0 <= i < s.aggregates.len() && (#[trigger] s.aggregates[i]).completion_id == cid
                ==> s.aggregates[i].views + count_view_incrs(steps, cid) <= u64::MAX,
    ensures
        ({
            let s2 = run_v(s, steps);
            let n = count_view_incrs(steps, cid);
            &&& s2.users == s.users
            &&& s2.aggregates.len() == s.aggregates.len()
            &&& forall|i: int|
                0 <= i < s.aggregates.len() ==> s2.aggregates[i] == (if (
                #[trigger] s.aggregates[i]).completion_id == cid {
                    views_plus(s.aggregates[i], n)
                } else {
                    s.aggregates[i]
                })
        }),
    decreases steps.len(),
{
    lemma_count_view_incrs_bounds(steps, cid);
    if steps.len() == 0 {
        assert(forall|i: int|
            0 <= i < s.aggregates.len() && (#[trigger] s.aggregates[i]).completion_id == cid
                ==> s.aggregates[i] == views_plus(s.aggregates[i], 0));
    } else {
        let st = steps[0];
        let rest = steps.drop_first();
        lemma_count_view_incrs_bounds(rest, cid);
        let n = count_view_incrs(steps, cid);
        if is_view_incr(st, cid) {
            assert(n == 1 + count_view_incrs(rest, cid));
            assert(!increment_overflows(s.aggregates, cid, 1, 0, 0));
            let s1 = step_v(s, st).0;
            assert(step_v(s, st).1);
            assert(s1.aggregates =~= bump_all(s.aggregates, cid, 1, 0, 0));
            assert(s1.users == s.users);
            assert(forall|i: int|
                0 <= i < s1.aggregates.len() && (#[trigger] s1.aggregates[i]).completion_id == cid
                    ==> s1.aggregates[i].views + count_view_incrs(rest, cid) <= u64::MAX);
            lemma_concurrent_views_converge(s1, rest, cid);
            let s2 = run_v(s1, rest);
            assert forall|i: int| 0 <= i < s.aggregates.len() implies s2.aggregates[i] == (if (
                #[trigger] s.aggregates[i]).completion_id == cid {
                views_plus(s.aggregates[i], n)
            } else {
                s.aggregates[i]
            }) by {
                let r = s.aggregates[i];
                if r.completion_id == cid {
                    assert(s1.aggregates[i] == bumped(r, 1, 0, 0));
                    assert(s1.aggregates[i].completion_id == cid);
                    assert(r.views + n <= u64::MAX);
                    assert(s2.aggregates[i] == views_plus(s1.aggregates[i], n - 1));
                    assert(views_plus(s1.aggregates[i], n - 1) == views_plus(r, n));
                } else {
                    assert(s1.aggregates[i] == r);
                    assert(s2.aggregates[i] == r);
                }
            }
            assert(run_v(s, steps) == s2);
        } else {
            let s1 = step_v(s, st).0;
            assert(s1.aggregates == s.aggregates);
            assert(s1.users == s.users);
            assert(n == count_view_incrs(rest, cid));
            assert(forall|i: int|
                0 <= i < s1.aggregates.len() && (#[trigger] s1.aggregates[i]).completion_id == cid
                    ==> s1.aggregates[i].views + count_view_incrs(rest, cid) <= u64::MAX);
            lemma_concurrent_views_converge(s1, rest, cid);
            assert(run_v(s, steps) == run_v(s1, rest));
        }
    }
}

/// The gateway calls a View entry plans for satisfy the premise of the
/// convergence law: each is the View increment for its completion id or an
/// audit append, and exactly one is the increment. Concurrent View units are
/// therefore interleavings of such calls.
pub proof fn lemma_view_plan_shape(entry: LogEntryV)
    requires
        entry.event is View,
    ensures
        plan_spec(entry) is Some,
        ({
            let steps = plan_spec(entry)->Some_0;
            let cid = event_cid(entry.event);
            &&& forall|k: int|
                0 <= k < steps.len() ==> is_view_incr(#[trigger] steps[k], cid) || is_audit(
                    steps[k],
                )
            &&& count_view_incrs(steps, cid) == 1
        }),
{
    let user = resolve_user(entry.user);
    let cid = event_cid(entry.event);
    let steps = plan_spec(entry)->Some_0;
    let incr = StepV::IncrementCounters {
        ts: entry.ts,
        completion_id: cid,
        views: 1,
        selects: 0,
        dismisses: 0,
    };
    let audit = audit_steps(user, kind_of(entry.event), entry.ts, json_of_event(entry.event));
    assert(steps =~= seq![incr] + audit);
    assert(is_view_incr(steps[0], cid));
    assert(steps.drop_first() =~= audit);
    match user {
        None => {
            assert(steps.drop_first() =~= Seq::<StepV>::empty());
            assert(count_view_incrs(steps.drop_first(), cid) == 0);
        },
        Some(uid) => {
            let rest = steps.drop_first();
            assert(rest.len() == 1 && is_audit(rest[0]));
            assert(rest.drop_first() =~= Seq::<StepV>::empty());
            assert(count_view_incrs(rest.drop_first(), cid) == 0);
            assert(count_view_incrs(rest, cid) == 0);
        },
    }
}

/// Draining a queue of ingested entries: each entry's whole unit in turn.
pub open spec fn write_all(s: StoreV, entries: Seq<LogEntryV>) -> StoreV
    decreases entries.len(),
{
    if entries.len() == 0 {
        s
    } else {
        write_all(write_v(s, entries[0]), entries.drop_first())
    }
}

/// Convergence at the entry level: draining any number of View entries for
/// one completion id, in any order and whoever their callers were, grows
/// `views` of every aggregate under that id by exactly the number of
/// entries; no other counter, record or user moves. No update is lost.
pub proof fn lemma_view_entries_converge(s: StoreV, entries: Seq<LogEntryV>, cid: Seq<char>)
    requires
        forall|k: int|
            0 <= k < entries.len() ==> (#[trigger] entries[k]).event is View && event_cid(
                entries[k].event,
            ) == cid,
        forall|i: int|
            0 <= i < s.aggregates.len() && (#[trigger] s.aggregates[i]).completion_id == cid
                ==> s.aggregates[i].views + entries.len() <= u64::MAX,
    ensures
        ({
            let s2 = write_all(s, entries);
            &&& s2.users == s.users
            &&& s2.aggregates.len() == s.aggregates.len()
            &&& forall|i: int|
                0 <= i < s.aggregates.len() ==> s2.aggregates[i] == (if (
                #[trigger] s.aggregates[i]).completion_id == cid {
                    views_plus(s.aggregates[i], entries.len() as int)
                } else {
                    s.aggregates[i]
                })
        }),
    decreases entries.len(),
{
    if entries.len() == 0 {
        assert(forall|i: int|
            0 <= i < s.aggregates.len() && (#[trigger] s.aggregates[i]).completion_id == cid
                ==> s.aggregates[i] == views_plus(s.aggregates[i], 0));
    } else {
        let e0 = entries[0];
        let rest = entries.drop_first();
        let n = entries.len() as int;
        assert(interaction_deltas(e0.event) == (1u64, 0u64, 0u64));
        assert(!increment_overflows(s.aggregates, cid, 1, 0, 0));
        lemma_interaction_effect(s, e0);
        let s1 = write_v(s, e0);
        assert(s1.aggregates == bump_all(s.aggregates, cid, 1, 0, 0));
        assert(forall|i: int|
            0 <= i < s1.aggregates.len() && (#[trigger] s1.aggregates[i]).completion_id == cid
                ==> s1.aggregates[i].views + rest.len() <= u64::MAX);
        lemma_view_entries_converge(s1, rest, cid);
        let s2 = write_all(s1, rest);
        assert forall|i: int| 0 <= i < s.aggregates.len() implies s2.aggregates[i] == (if (
            #[trigger] s.aggregates[i]).completion_id == cid {
            views_plus(s.aggregates[i], n)
        } else {
            s.aggregates[i]
        }) by {
            let r = s.aggregates[i];
            if r.completion_id == cid {
                assert(s1.aggregates[i] == bumped(r, 1, 0, 0));
                assert(s1.aggregates[i].completion_id == cid);
                assert(r.views + n <= u64::MAX);
                assert(s2.aggregates[i] == views_plus(s1.aggregates[i], n - 1));
                assert(views_plus(s1.aggregates[i], n - 1) == views_plus(r, n));
            } else {
                assert(s1.aggregates[i] == r);
                assert(s2.aggregates[i] == r);
            }
        }
        assert(write_all(s, entries) == s2);
    }
}

} // verus!
