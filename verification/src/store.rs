//! An executable model of the persistence gateway, and the logger over it.
//!
//! The model pins down what each gateway call means: what a counter
//! increment does to an aggregate, when a lookup fails, what a create
//! overwrites, that audit records are append-only. The pipeline is verified
//! against these semantics; an embedder's real gateway must provide the
//! same operations with the same meaning.
//!
//! Counter increments are atomic at the gateway (a whole step either happens
//! or does not), so concurrent units commute on the counters they touch; the
//! gateway owns that invariant, the pipeline takes no locks itself.

use vstd::prelude::*;
use crate::dispatch::{plan_for_entry, plan_spec, Step, StepV, WorkUnit};
use crate::event::{kind_str, Event, EventKind, LogEntry, LogEntryV};

verus! {

/// The aggregate completion record: per-`completion_id` counters and
/// metadata. Counters only ever grow.
pub struct AggregateRecord {
    pub ts: u64,
    pub user_id: i64,
    pub completion_id: String,
    pub language: String,
    pub views: u64,
    pub selects: u64,
    pub dismisses: u64,
}

/// An append-only audit record: one occurrence of an identity-attributed
/// event, its kind in its stable string form. Never updated or deleted.
pub struct AuditRecord {
    pub user_id: i64,
    pub kind: String,
    pub ts: u64,
    pub payload: String,
}

/// Mathematical view of an aggregate record.
pub struct AggregateRecordV {
    pub ts: u64,
    pub user_id: i64,
    pub completion_id: Seq<char>,
    pub language: Seq<char>,
    pub views: u64,
    pub selects: u64,
    pub dismisses: u64,
}

/// Mathematical view of an audit record.
pub struct AuditRecordV {
    pub user_id: i64,
    pub kind: Seq<char>,
    pub ts: u64,
    pub payload: Seq<char>,
}

impl View for AggregateRecord {
    type V = AggregateRecordV;

    open spec fn view(&self) -> AggregateRecordV {
        AggregateRecordV {
            ts: self.ts,
            user_id: self.user_id,
            completion_id: self.completion_id@,
            language: self.language@,
            views: self.views,
            selects: self.selects,
            dismisses: self.dismisses,
        }
    }
}

impl View for AuditRecord {
    type V = AuditRecordV;

    open spec fn view(&self) -> AuditRecordV {
        AuditRecordV {
            user_id: self.user_id,
            kind: self.kind@,
            ts: self.ts,
            payload: self.payload@,
        }
    }
}

/// The model state of the persistence gateway.
#[verifier::ext_equal]
pub struct StoreV {
    pub users: Seq<i64>,
    pub aggregates: Seq<AggregateRecordV>,
    pub audits: Seq<AuditRecordV>,
}

/// The in-memory persistence gateway: user rows, aggregate completion
/// records, and the append-only audit log.
pub struct EventStore {
    pub users: Vec<i64>,
    pub aggregates: Vec<AggregateRecord>,
    pub audits: Vec<AuditRecord>,
}

impl View for EventStore {
    type V = StoreV;

    open spec fn view(&self) -> StoreV {
        StoreV {
            users: self.users@,
            aggregates: self.aggregates@.map_values(|r: AggregateRecord| r@),
            audits: self.audits@.map_values(|r: AuditRecord| r@),
        }
    }
}

/// The record `r` with the counter deltas added (meaningful only where no
/// counter overflows).
pub open spec fn bumped(r: AggregateRecordV, dv: u64, ds: u64, dd: u64) -> AggregateRecordV {
    AggregateRecordV {
        views: (r.views + dv) as u64,
        selects: (r.selects + ds) as u64,
        dismisses: (r.dismisses + dd) as u64,
        ..r
    }
}

/// Whether adding the deltas would overflow a counter of some record keyed
/// by `cid`.
pub open spec fn increment_overflows(
    aggs: Seq<AggregateRecordV>,
    cid: Seq<char>,
    dv: u64,
    ds: u64,
    dd: u64,
) -> bool {
    exists|i: int|
        0 <= i < aggs.len() && (#[trigger] aggs[i]).completion_id == cid && (aggs[i].views + dv
            > u64::MAX || aggs[i].selects + ds > u64::MAX || aggs[i].dismisses + dd > u64::MAX)
}

/// Every record keyed by `cid`, bumped; every other record untouched.
pub open spec fn bump_all(
    aggs: Seq<AggregateRecordV>,
    cid: Seq<char>,
    dv: u64,
    ds: u64,
    dd: u64,
) -> Seq<AggregateRecordV> {
    Seq::new(
        aggs.len(),
        |i: int|
            if aggs[i].completion_id == cid {
                bumped(aggs[i], dv, ds, dd)
            } else {
                aggs[i]
            },
    )
}

/// Whether some aggregate record is keyed by `cid`.
pub open spec fn has_agg(aggs: Seq<AggregateRecordV>, cid: Seq<char>) -> bool {
    exists|i: int| 0 <= i < aggs.len() && (#[trigger] aggs[i]).completion_id == cid
}

/// The fresh aggregate a create call writes: zero counters, the event's
/// language.
pub open spec fn fresh_agg(
    ts: u64,
    user_id: i64,
    cid: Seq<char>,
    language: Seq<char>,
) -> AggregateRecordV {
    AggregateRecordV {
        ts,
        user_id,
        completion_id: cid,
        language,
        views: 0,
        selects: 0,
        dismisses: 0,
    }
}

/// Create semantics: creation under an existing key overwrites the record
/// under it; otherwise the fresh record is appended.
pub open spec fn create_agg(
    aggs: Seq<AggregateRecordV>,
    fresh: AggregateRecordV,
) -> Seq<AggregateRecordV> {
    if has_agg(aggs, fresh.completion_id) {
        Seq::new(
            aggs.len(),
            |i: int|
                if aggs[i].completion_id == fresh.completion_id {
                    fresh
                } else {
                    aggs[i]
                },
        )
    } else {
        aggs.push(fresh)
    }
}

/// What one gateway call does to the model state, and whether it succeeds.
/// A failed call leaves the state as it was.
pub open spec fn step_v(s: StoreV, step: StepV) -> (StoreV, bool) {
    match step {
        StepV::IncrementCounters { ts, completion_id, views, selects, dismisses } => {
            if increment_overflows(s.aggregates, completion_id, views, selects, dismisses) {
                (s, false)
            } else {
                (
                    StoreV {
                        aggregates: bump_all(s.aggregates, completion_id, views, selects, dismisses),
                        ..s
                    },
                    true,
                )
            }
        },
        StepV::RequireUser { user_id } => (s, s.users.contains(user_id)),
        StepV::CreateAggregate { ts, user_id, completion_id, language } => (
            StoreV {
                aggregates: create_agg(s.aggregates, fresh_agg(ts, user_id, completion_id, language)),
                ..s
            },
            true,
        ),
        StepV::CreateAudit { user_id, kind, ts, payload } => (
            StoreV {
                audits: s.audits.push(
                    AuditRecordV { user_id, kind: kind_str(kind), ts, payload },
                ),
                ..s
            },
            true,
        ),
    }
}

/// Running a unit of work: its calls in order, aborted at the first failure.
pub open spec fn run_v(s: StoreV, steps: Seq<StepV>) -> StoreV
    decreases steps.len(),
{
    if steps.len() == 0 {
        s
    } else {
        let (s2, ok) = step_v(s, steps[0]);
        if ok {
            run_v(s2, steps.drop_first())
        } else {
            s2
        }
    }
}

/// The drained effect of one ingested entry: its unit of work run whole, or
/// nothing where the policy drops the entry.
pub open spec fn write_v(s: StoreV, entry: LogEntryV) -> StoreV {
    match plan_spec(entry) {
        None => s,
        Some(steps) => run_v(s, steps),
    }
}

impl EventStore {
    /// A gateway with no users and no records.
    pub fn new() -> (r: EventStore)
        ensures
            r@ == (StoreV {
                users: Seq::<i64>::empty(),
                aggregates: Seq::<AggregateRecordV>::empty(),
                audits: Seq::<AuditRecordV>::empty(),
            }),
    {
        let r = EventStore { users: Vec::new(), aggregates: Vec::new(), audits: Vec::new() };
        proof {
            assert(r@.aggregates =~= Seq::<AggregateRecordV>::empty());
            assert(r@.audits =~= Seq::<AuditRecordV>::empty());
            assert(r@ =~= StoreV {
                users: Seq::<i64>::empty(),
                aggregates: Seq::<AggregateRecordV>::empty(),
                audits: Seq::<AuditRecordV>::empty(),
            });
        }
        r
    }

    /// Registers a user row and returns its fresh identity.
    pub fn create_user(&mut self) -> (r: i64)
        requires
            old(self).users@.len() < i64::MAX,
        ensures
            r == old(self)@.users.len() + 1,
            final(self)@ == (StoreV { users: old(self)@.users.push(r), ..old(self)@ }),
    {
        let id = (self.users.len() as i64) + 1;
        self.users.push(id);
        proof {
            assert(self@ =~= (StoreV { users: old(self)@.users.push(id), ..old(self)@ }));
        }
        id
    }

    /// Performs one gateway call and reports whether it succeeded. A failed
    /// call leaves the store unchanged.
    pub fn apply_step(&mut self, step: Step) -> (ok: bool)
        ensures
            ({
                let (s2, ok2) = step_v(old(self)@, step@);
                final(self)@ == s2 && ok == ok2
            }),
    {
        match step {
            Step::IncrementCounters { ts, completion_id, views, selects, dismisses } => {
                let ghost orig = self@.aggregates;
                let ghost cid = completion_id@;
                let n = self.aggregates.len();
                // First pass: the overflow guard over every matching record.
                let mut i: usize = 0;
                while i < n
                    invariant
                        0 <= i <= n,
                        n == orig.len(),
                        orig == self@.aggregates,
                        cid == completion_id@,
                        step@ == (StepV::IncrementCounters {
                            ts,
                            completion_id: cid,
                            views,
                            selects,
                            dismisses,
                        }),
                        self@ == old(self)@,
                        forall|k: int|
                            0 <= k < i && (#[trigger] orig[k]).completion_id == cid ==> orig[k].views
                                + views <= u64::MAX && orig[k].selects + selects <= u64::MAX
                                && orig[k].dismisses + dismisses <= u64::MAX,
                    decreases n - i,
                {
                    proof {
                        assert(orig[i as int] == self.aggregates@[i as int]@);
                    }
                    if self.aggregates[i].completion_id.eq(&completion_id) {
                        let r = &self.aggregates[i];
                        if views > u64::MAX - r.views || selects > u64::MAX - r.selects
                            || dismisses > u64::MAX - r.dismisses {
                            proof {
                                assert(orig[i as int].completion_id == cid);
                                assert(increment_overflows(orig, cid, views, selects, dismisses));
                            }
                            return false;
                        }
                    }
                    i = i + 1;
                }
                proof {
                    assert(!increment_overflows(orig, cid, views, selects, dismisses));
                }
                // Second pass: bump every matching record.
                let mut j: usize = 0;
                while j < n
                    invariant
                        0 <= j <= n,
                        n == orig.len(),
                        self@.aggregates.len() == orig.len(),
                        self@.users == old(self)@.users,
                        self@.audits == old(self)@.audits,
                        old(self)@.aggregates == orig,
                        cid == completion_id@,
                        step@ == (StepV::IncrementCounters {
                            ts,
                            completion_id: cid,
                            views,
                            selects,
                            dismisses,
                        }),
                        forall|k: int|
                            0 <= k < n && (#[trigger] orig[k]).completion_id == cid ==> orig[k].views
                                + views <= u64::MAX && orig[k].selects + selects <= u64::MAX
                                && orig[k].dismisses + dismisses <= u64::MAX,
                        forall|k: int|
                            0 <= k < j ==> self@.aggregates[k] == (if (
                            #[trigger] orig[k]).completion_id == cid {
                                bumped(orig[k], views, selects, dismisses)
                            } else {
                                orig[k]
                            }),
                        forall|k: int| j <= k < n ==> self@.aggregates[k] == #[trigger] orig[k],
                    decreases n - j,
                {
                    proof {
                        assert(self@.aggregates[j as int] == self.aggregates@[j as int]@);
                        assert(self@.aggregates[j as int] == orig[j as int]);
                    }
                    if self.aggregates[j].completion_id.eq(&completion_id) {
                        proof {
                            assert(orig[j as int].completion_id == cid);
                            assert(orig[j as int].views + views <= u64::MAX && orig[j as int].selects
                                + selects <= u64::MAX && orig[j as int].dismisses + dismisses
                                <= u64::MAX);
                        }
                        let nv = self.aggregates[j].views + views;
                        let ns = self.aggregates[j].selects + selects;
                        let nd = self.aggregates[j].dismisses + dismisses;
                        self.aggregates[j].views = nv;
                        self.aggregates[j].selects = ns;
                        self.aggregates[j].dismisses = nd;
                        proof {
                            assert(self@.aggregates[j as int] == bumped(
                                orig[j as int],
                                views,
                                selects,
                                dismisses,
                            ));
                        }
                    }
                    j = j + 1;
                }
                proof {
                    assert(self@.aggregates =~= bump_all(orig, cid, views, selects, dismisses));
                    assert(self@ =~= (StoreV {
                        aggregates: bump_all(orig, cid, views, selects, dismisses),
                        ..old(self)@
                    }));
                }
                true
            },
            Step::RequireUser { user_id } => {
                let n = self.users.len();
                let mut i: usize = 0;
                while i < n
                    invariant
                        0 <= i <= n,
                        n == self.users@.len(),
                        self@ == old(self)@,
                        step@ == (StepV::RequireUser { user_id }),
                        forall|k: int| 0 <= k < i ==> self.users@[k] != user_id,
                    decreases n - i,
                {
                    if self.users[i] == user_id {
                        proof {
                            assert(old(self)@.users.contains(user_id));
                        }
                        return true;
                    }
                    i = i + 1;
                }
                proof {
                    assert(!old(self)@.users.contains(user_id));
                }
                false
            },
            Step::CreateAggregate { ts, user_id, completion_id, language } => {
                let ghost orig = self@.aggregates;
                let ghost freshv = fresh_agg(ts, user_id, completion_id@, language@);
                let n = self.aggregates.len();
                let mut found = false;
                let mut i: usize = 0;
                while i < n
                    invariant
                        0 <= i <= n,
                        n == orig.len(),
                        self@.aggregates.len() == orig.len(),
                        self@.users == old(self)@.users,
                        self@.audits == old(self)@.audits,
                        old(self)@.aggregates == orig,
                        freshv == fresh_agg(ts, user_id, completion_id@, language@),
                        step@ == (StepV::CreateAggregate {
                            ts,
                            user_id,
                            completion_id: completion_id@,
                            language: language@,
                        }),
                        found == exists|k: int|
                            0 <= k < i && (#[trigger] orig[k]).completion_id == completion_id@,
                        forall|k: int|
                            0 <= k < i ==> self@.aggregates[k] == (if (
                            #[trigger] orig[k]).completion_id == completion_id@ {
                                freshv
                            } else {
                                orig[k]
                            }),
                        forall|k: int| i <= k < n ==> self@.aggregates[k] == #[trigger] orig[k],
                    decreases n - i,
                {
                    proof {
                        assert(self@.aggregates[i as int] == self.aggregates@[i as int]@);
                        assert(self@.aggregates[i as int] == orig[i as int]);
                    }
                    if self.aggregates[i].completion_id.eq(&completion_id) {
                        proof {
                            assert(orig[i as int].completion_id == completion_id@);
                        }
                        self.aggregates[i] = AggregateRecord {
                            ts,
                            user_id,
                            completion_id: completion_id.clone(),
                            language: language.clone(),
                            views: 0,
                            selects: 0,
                            dismisses: 0,
                        };
                        found = true;
                        proof {
                            assert(self@.aggregates[i as int] == freshv);
                        }
                    } else {
                        proof {
                            assert(orig[i as int].completion_id != completion_id@);
                        }
                    }
                    i = i + 1;
                }
                if !found {
                    self.aggregates.push(
                        AggregateRecord {
                            ts,
                            user_id,
                            completion_id,
                            language,
                            views: 0,
                            selects: 0,
                            dismisses: 0,
                        },
                    );
                    proof {
                        assert(!has_agg(orig, freshv.completion_id));
                        assert(self@.aggregates =~= orig.push(freshv));
                        assert(self@ =~= (StoreV {
                            aggregates: create_agg(orig, freshv),
                            ..old(self)@
                        }));
                    }
                } else {
                    proof {
                        assert(has_agg(orig, freshv.completion_id));
                        assert(self@.aggregates =~= create_agg(orig, freshv));
                        assert(self@ =~= (StoreV {
                            aggregates: create_agg(orig, freshv),
                            ..old(self)@
                        }));
                    }
                }
                true
            },
            Step::CreateAudit { user_id, kind, ts, payload } => {
                let ghost recv = AuditRecordV { user_id, kind: kind_str(kind), ts, payload: payload@ };
                let kind_string = kind.as_enum_str().to_owned();
                self.audits.push(AuditRecord { user_id, kind: kind_string, ts, payload });
                proof {
                    assert(self@.audits =~= old(self)@.audits.push(recv));
                    assert(self@ =~= (StoreV {
                        audits: old(self)@.audits.push(recv),
                        ..old(self)@
                    }));
                }
                true
            },
        }
    }

    /// Executes one unit of work: its gateway calls in order, aborted at the
    /// first failure. The outcome is discarded; the pipeline never surfaces
    /// it to the ingestion caller.
    pub fn apply_unit(&mut self, unit: WorkUnit)
        ensures
            final(self)@ == run_v(old(self)@, unit@),
    {
        let WorkUnit { mut steps } = unit;
        let ghost all = steps@.map_values(|s: Step| s@);
        while steps.len() > 0
            invariant
                all == unit@,
                run_v(old(self)@, all) == run_v(self@, steps@.map_values(|s: Step| s@)),
            decreases steps@.len(),
        {
            let ghost remaining = steps@.map_values(|s: Step| s@);
            let ghost pre = self@;
            let st = steps.remove(0);
            proof {
                assert(steps@.map_values(|s: Step| s@) =~= remaining.drop_first());
                assert(remaining[0] == st@);
                assert(remaining.len() > 0);
            }
            let ok = self.apply_step(st);
            proof {
                assert(step_v(pre, remaining[0]).0 == self@ && step_v(pre, remaining[0]).1 == ok);
            }
            if !ok {
                proof {
                    assert(run_v(pre, remaining) == self@);
                    assert(run_v(old(self)@, all) == self@);
                }
                return;
            }
            proof {
                assert(run_v(pre, remaining) == run_v(self@, remaining.drop_first()));
            }
        }
        proof {
            assert(steps@.map_values(|s: Step| s@) =~= Seq::<StepV>::empty());
            assert(all == unit@);
        }
    }
}

/// The event logger over a gateway: the ingestion entry point.
pub struct DbEventLogger {
    pub db: EventStore,
}

/// Creates the event logger over the given gateway.
pub fn create_event_logger(db: EventStore) -> (r: DbEventLogger)
    ensures
        r.db == db,
{
    DbEventLogger { db }
}

impl DbEventLogger {
    /// Ingests one entry: classifies it by the policy table and performs its
    /// unit of work. The effect on the store is exactly the drained effect
    /// `write_v`; a dropped entry (identity required but unresolved) touches
    /// nothing.
    pub fn write(&mut self, entry: LogEntry)
        ensures
            final(self).db@ == write_v(old(self).db@, entry@),
    {
        match plan_for_entry(entry) {
            None => {},
            Some(unit) => {
                self.db.apply_unit(unit);
            },
        }
    }

    /// Convenience entry point: builds the entry from a timestamp, the
    /// optional caller identifier, and the event, then writes it.
    pub fn log(&mut self, ts: u64, user: Option<String>, event: Event)
        ensures
            final(self).db@ == write_v(
                old(self).db@,
                LogEntryV { ts, user: user.deep_view(), event: event@ },
            ),
    {
        self.write(LogEntry { ts, user, event });
    }
}

} // verus!
