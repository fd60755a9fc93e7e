use vstd::prelude::*;

use crate::anomaly::Severity;
use crate::detection::{
    detections, detection_plan, lemma_findings_follow_event_kind, present, rule_findings, run_all,
    DetectionOutcomes, OutcomeView,
};
use crate::event::{EventKind, PhysicalEvent};
use crate::lookup::{
    is_counted_denial, is_counted_visit, is_matching_transaction, is_zone_window_event,
    window_representable, AccessDenialLookup, TransactionLookup, ZoneActivity, ZoneVisitLookup,
    ZoneWindowLookup, ACCESS_DENIAL_WINDOW_SECS, TRANSACTION_WINDOW_SECS, ZONE_ENTRY_WINDOW_SECS,
};
use crate::rules::{
    access_denied_explanation, entry_ids, finding, missing_object_explanation, novel_zone_explanation,
    off_hours_explanation, is_reentry, reentered_without_exit, repeated_zone_explanation, DetectedAnomaly,
    DetectedAnomalyView,
};
use crate::time::{at_or_before, hour_of_day, within, UtcTimestamp};

verus! {

/// The instant `secs` seconds before `t`.
pub open spec fn seconds_before(t: UtcTimestamp, secs: i64) -> UtcTimestamp {
    UtcTimestamp { secs: (t.secs - secs) as i64, nanos: t.nanos }
}

/// `x` is an inventory transaction of `e`'s entity in `e`'s zone during the
/// hour up to and including `e`.
pub open spec fn is_transaction_before(e: PhysicalEvent, x: PhysicalEvent) -> bool {
    &&& x.entity_id@ == e.entity_id@
    &&& x.zone@ == e.zone@
    &&& x.kind == EventKind::TransactionRecorded
    &&& within(x.occurred_at, seconds_before(e.occurred_at, TRANSACTION_WINDOW_SECS), e.occurred_at)
}

/// `x` is an access denial of `e`'s entity during the ten minutes up to and
/// including `e`.
pub open spec fn is_recent_denial(e: PhysicalEvent, x: PhysicalEvent) -> bool {
    &&& x.entity_id@ == e.entity_id@
    &&& x.kind == EventKind::AccessDenied
    &&& within(x.occurred_at, seconds_before(e.occurred_at, ACCESS_DENIAL_WINDOW_SECS), e.occurred_at)
}

/// `x` is an entry of `e`'s entity into `e`'s zone at or before `e`, other
/// than `e` itself.
pub open spec fn is_other_visit(e: PhysicalEvent, x: PhysicalEvent) -> bool {
    &&& x.entity_id@ == e.entity_id@
    &&& x.zone@ == e.zone@
    &&& x.kind == EventKind::EnteredZone
    &&& x.id != e.id
    &&& at_or_before(x.occurred_at, e.occurred_at)
}

/// `x` is an event of `e`'s entity in `e`'s zone during the fifteen minutes
/// up to and including `e`.
pub open spec fn is_recent_zone_event(e: PhysicalEvent, x: PhysicalEvent) -> bool {
    &&& x.entity_id@ == e.entity_id@
    &&& x.zone@ == e.zone@
    &&& within(x.occurred_at, seconds_before(e.occurred_at, ZONE_ENTRY_WINDOW_SECS), e.occurred_at)
}

/// How many events of `h` satisfy `p`.
pub open spec fn count_where(h: Seq<PhysicalEvent>, p: spec_fn(PhysicalEvent) -> bool) -> nat
    decreases h.len(),
{
    if h.len() == 0 {
        0
    } else {
        count_where(h.drop_last(), p) + if p(h.last()) { 1nat } else { 0nat }
    }
}

/// Where a row at time `t` goes in `s`: just after the last row, counting
/// from the end, that is not later than `t` (at the front if there is none).
pub open spec fn insertion_point(s: Seq<ZoneActivity>, t: UtcTimestamp) -> nat
    decreases s.len(),
{
    if s.len() == 0 {
        0
    } else if at_or_before(s.last().occurred_at, t) {
        s.len()
    } else {
        insertion_point(s.drop_last(), t)
    }
}

/// `s` with `r` put in its place by time.
pub open spec fn insert_by_time(s: Seq<ZoneActivity>, r: ZoneActivity) -> Seq<ZoneActivity> {
    s.insert(insertion_point(s, r.occurred_at) as int, r)
}

/// The rows of `s` are in time order.
pub open spec fn sorted_by_time(s: Seq<ZoneActivity>) -> bool {
    forall|i: int, j: int| 0 <= i < j < s.len() ==> at_or_before(s[i].occurred_at, s[j].occurred_at)
}

/// The zone activity of the events of `h` that satisfy `p`, in time order;
/// rows at the same instant keep the order in which they were recorded.
pub open spec fn activity_where(h: Seq<PhysicalEvent>, p: spec_fn(PhysicalEvent) -> bool) -> Seq<ZoneActivity>
    decreases h.len(),
{
    if h.len() == 0 {
        Seq::empty()
    } else {
        let rest = activity_where(h.drop_last(), p);
        if p(h.last()) {
            insert_by_time(rest, ZoneActivity { id: h.last().id, kind: h.last().kind, occurred_at: h.last().occurred_at })
        } else {
            rest
        }
    }
}

/// In a time-ordered `s`, the rows before the insertion point of `t` are
/// not later than `t` and the rows from it on are later.
pub proof fn lemma_insertion_point(s: Seq<ZoneActivity>, t: UtcTimestamp)
    requires
        sorted_by_time(s),
    ensures
        insertion_point(s, t) <= s.len(),
        forall|i: int| 0 <= i < insertion_point(s, t) ==> at_or_before(#[trigger] s[i].occurred_at, t),
        forall|i: int| insertion_point(s, t) <= i < s.len() ==> !at_or_before(#[trigger] s[i].occurred_at, t),
    decreases s.len(),
{
    if s.len() > 0 {
        let rest = s.drop_last();
        assert(sorted_by_time(rest));
        lemma_insertion_point(rest, t);
        let n = s.len() - 1;
        assert(s.last() == s[n]);
        if at_or_before(s[n].occurred_at, t) {
            assert forall|i: int| 0 <= i < insertion_point(s, t) implies at_or_before(#[trigger] s[i].occurred_at, t) by {
                if i < n {
                    assert(at_or_before(s[i].occurred_at, s[n].occurred_at));
                }
            }
        } else {
            assert forall|i: int| 0 <= i < insertion_point(s, t) implies at_or_before(#[trigger] s[i].occurred_at, t) by {
                assert(rest[i] == s[i]);
            }
            assert forall|i: int| insertion_point(s, t) <= i < s.len() implies !at_or_before(#[trigger] s[i].occurred_at, t) by {
                if i < n {
                    assert(rest[i] == s[i]);
                }
            }
        }
    }
}

/// Putting a row in its place keeps the rows in time order.
pub proof fn lemma_insert_keeps_order(s: Seq<ZoneActivity>, r: ZoneActivity)
    requires
        sorted_by_time(s),
    ensures
        sorted_by_time(insert_by_time(s, r)),
{
    lemma_insertion_point(s, r.occurred_at);
}

/// The reported activity is in time order.
pub proof fn lemma_activity_sorted(h: Seq<PhysicalEvent>, p: spec_fn(PhysicalEvent) -> bool)
    ensures
        sorted_by_time(activity_where(h, p)),
    decreases h.len(),
{
    if h.len() > 0 {
        lemma_activity_sorted(h.drop_last(), p);
        if p(h.last()) {
            lemma_insert_keeps_order(
                activity_where(h.drop_last(), p),
                ZoneActivity { id: h.last().id, kind: h.last().kind, occurred_at: h.last().occurred_at },
            );
        }
    }
}

/// What a store holding exactly the events `h` answers to the lookups the
/// rules make for `e`.
pub open spec fn history_answers(h: Seq<PhysicalEvent>, e: PhysicalEvent) -> OutcomeView {
    OutcomeView {
        transaction_found: if e.kind == EventKind::ObjectMissing {
            Some(exists|i: int| 0 <= i < h.len() && #[trigger] is_transaction_before(e, h[i]))
        } else {
            None
        },
        access_denials: if e.kind == EventKind::AccessDenied {
            Some(count_where(h, |x: PhysicalEvent| is_recent_denial(e, x)) as u64)
        } else {
            None
        },
        prior_visits: if e.kind == EventKind::EnteredZone {
            Some(count_where(h, |x: PhysicalEvent| is_other_visit(e, x)) as u64)
        } else {
            None
        },
        zone_activity: if e.kind == EventKind::EnteredZone {
            activity_where(h, |x: PhysicalEvent| is_recent_zone_event(e, x))
        } else {
            Seq::empty()
        },
    }
}

/// Every anomaly the rules detect for `e` against a store holding `h`.
pub open spec fn detections_in(h: Seq<PhysicalEvent>, e: PhysicalEvent) -> Seq<DetectedAnomalyView> {
    detections(e, history_answers(h, e))
}

/// No event of `h` satisfies `p` exactly when `count_where` is zero.
pub proof fn lemma_count_zero_iff_none(h: Seq<PhysicalEvent>, p: spec_fn(PhysicalEvent) -> bool)
    ensures
        (count_where(h, p) == 0) <==> (forall|i: int| 0 <= i < h.len() ==> !p(#[trigger] h[i])),
    decreases h.len(),
{
    if h.len() > 0 {
        lemma_count_zero_iff_none(h.drop_last(), p);
        assert forall|i: int| 0 <= i < h.len() - 1 implies h.drop_last()[i] == #[trigger] h[i] by {}
        if count_where(h, p) == 0 {
            assert forall|i: int| 0 <= i < h.len() implies !p(#[trigger] h[i]) by {
                if i < h.len() - 1 {
                    assert(h.drop_last()[i] == h[i]);
                }
            }
        }
    }
}

/// `count_where` never exceeds the number of events.
pub proof fn lemma_count_bounded(h: Seq<PhysicalEvent>, p: spec_fn(PhysicalEvent) -> bool)
    ensures
        count_where(h, p) <= h.len(),
    decreases h.len(),
{
    if h.len() > 0 {
        lemma_count_bounded(h.drop_last(), p);
    }
}

/// An entity's first entry into a zone (the store holds no other entry of
/// it into that zone at or before this one) is a novel zone entry: low, score 0.5, relating the
/// entry, and it is the first finding; while an entry preceded by another
/// is never flagged as novel.
pub proof fn lemma_first_entry_is_novel(h: Seq<PhysicalEvent>, e: PhysicalEvent)
    requires
        e.kind == EventKind::EnteredZone,
        h.len() <= u64::MAX,
    ensures
        (forall|i: int| 0 <= i < h.len() ==> !is_other_visit(e, #[trigger] h[i])) ==> {
            &&& detections_in(h, e).len() >= 1
            &&& detections_in(h, e)[0] == finding(
                "Novel zone entry"@,
                novel_zone_explanation(e.entity_id@, e.zone@),
                Severity::Low,
                50,
                seq![e.id],
            )
        },
        (exists|i: int| 0 <= i < h.len() && is_other_visit(e, #[trigger] h[i])) ==>
            forall|k: int| 0 <= k < detections_in(h, e).len() ==> (#[trigger] detections_in(h, e)[k]).severity != Severity::Low,
{
    reveal_with_fuel(present, 6);
    let p = |x: PhysicalEvent| is_other_visit(e, x);
    lemma_count_zero_iff_none(h, p);
    lemma_count_bounded(h, p);
    let fs = rule_findings(e, history_answers(h, e));
    assert(fs.drop_last().drop_last().drop_last().drop_last().drop_last() =~= Seq::<Option<DetectedAnomalyView>>::empty());
    if exists|i: int| 0 <= i < h.len() && is_other_visit(e, #[trigger] h[i]) {
        let i = choose|i: int| 0 <= i < h.len() && is_other_visit(e, #[trigger] h[i]);
        assert(p(h[i]));
    }
}

/// An object that goes missing is flagged (high, score 0.9, relating the
/// event) exactly when the store holds no inventory transaction of the same
/// entity in the same zone during the hour up to and including the event;
/// nothing else is found for it.
pub proof fn lemma_missing_object_without_transaction(h: Seq<PhysicalEvent>, e: PhysicalEvent)
    requires
        e.kind == EventKind::ObjectMissing,
    ensures
        detections_in(h, e) == if exists|i: int| 0 <= i < h.len() && #[trigger] is_transaction_before(e, h[i]) {
            Seq::<DetectedAnomalyView>::empty()
        } else {
            seq![finding(
                "Object missing without transaction"@,
                missing_object_explanation(e.entity_id@, e.zone@),
                Severity::High,
                90,
                seq![e.id],
            )]
        },
{
    reveal_with_fuel(present, 6);
    let fs = rule_findings(e, history_answers(h, e));
    assert(fs.drop_last().drop_last().drop_last().drop_last().drop_last() =~= Seq::<Option<DetectedAnomalyView>>::empty());
}

/// An access denial is flagged (critical, score 0.95, relating the event)
/// exactly when the store holds three or more denials of the same entity
/// during the ten minutes up to and including it; nothing else is found.
pub proof fn lemma_third_denial_is_critical(h: Seq<PhysicalEvent>, e: PhysicalEvent)
    requires
        e.kind == EventKind::AccessDenied,
        h.len() <= u64::MAX,
    ensures
        ({
            let n = count_where(h, |x: PhysicalEvent| is_recent_denial(e, x));
            detections_in(h, e) == if n >= 3 {
                seq![finding(
                    "Repeated access denied"@,
                    access_denied_explanation(e.entity_id@, n),
                    Severity::Critical,
                    95,
                    seq![e.id],
                )]
            } else {
                Seq::<DetectedAnomalyView>::empty()
            }
        }),
{
    reveal_with_fuel(present, 6);
    lemma_count_bounded(h, |x: PhysicalEvent| is_recent_denial(e, x));
    let fs = rule_findings(e, history_answers(h, e));
    assert(fs.drop_last().drop_last().drop_last().drop_last().drop_last() =~= Seq::<Option<DetectedAnomalyView>>::empty());
}

/// A movement is flagged (medium, score 0.7, relating the event) exactly
/// when it happens before 06:00 UTC, whatever the store holds.
pub proof fn lemma_off_hours_movement(h: Seq<PhysicalEvent>, e: PhysicalEvent)
    requires
        e.kind == EventKind::ObjectMoved,
    ensures
        ({
            let hour = hour_of_day(e.occurred_at.secs as int);
            detections_in(h, e) == if hour < 6 {
                seq![finding(
                    "Off-hours movement"@,
                    off_hours_explanation(e.entity_id@, e.zone@, hour as nat),
                    Severity::Medium,
                    70,
                    seq![e.id],
                )]
            } else {
                Seq::<DetectedAnomalyView>::empty()
            }
        }),
{
    reveal_with_fuel(present, 6);
    let fs = rule_findings(e, history_answers(h, e));
    assert(fs.drop_last().drop_last().drop_last().drop_last().drop_last() =~= Seq::<Option<DetectedAnomalyView>>::empty());
}

/// A zone entry is flagged as a repeated entry (high, score 0.9, relating
/// every entry of the window) exactly when the entity's events in that zone
/// during the fifteen minutes up to and including it show two entries with
/// no exit at or between their times; that finding comes last.
pub proof fn lemma_reentry_without_exit(h: Seq<PhysicalEvent>, e: PhysicalEvent)
    requires
        e.kind == EventKind::EnteredZone,
    ensures
        ({
            let rows = activity_where(h, |x: PhysicalEvent| is_recent_zone_event(e, x));
            let d = detections_in(h, e);
            &&& reentered_without_exit(rows) ==> d.len() >= 1 && d.last() == finding(
                "Repeated zone entry"@,
                repeated_zone_explanation(e.entity_id@, e.zone@, entry_ids(rows).len()),
                Severity::High,
                90,
                entry_ids(rows),
            )
            &&& !reentered_without_exit(rows) ==> forall|k: int| 0 <= k < d.len() ==> (#[trigger] d[k]).severity != Severity::High
        }),
{
    reveal_with_fuel(present, 6);
    let fs = rule_findings(e, history_answers(h, e));
    assert(fs.drop_last().drop_last().drop_last().drop_last().drop_last() =~= Seq::<Option<DetectedAnomalyView>>::empty());
}

/// Events of `h` from `k` up to `n` that fail `p` add nothing to the count.
pub proof fn lemma_count_prefix_skip(h: Seq<PhysicalEvent>, p: spec_fn(PhysicalEvent) -> bool, k: int, n: int)
    requires
        0 <= k <= n <= h.len(),
        forall|j: int| k <= j < n ==> !p(#[trigger] h[j]),
    ensures
        count_where(h.take(n), p) == count_where(h.take(k), p),
    decreases n - k,
{
    if n > k {
        lemma_count_prefix_skip(h, p, k, n - 1);
        assert(h.take(n).drop_last() =~= h.take(n - 1));
        assert(h.take(n).last() == h[n - 1]);
    }
}

/// Events of `h` from `k` up to `n` that satisfy `p` each add one.
pub proof fn lemma_count_prefix_all(h: Seq<PhysicalEvent>, p: spec_fn(PhysicalEvent) -> bool, k: int, n: int)
    requires
        0 <= k <= n <= h.len(),
        forall|j: int| k <= j < n ==> p(#[trigger] h[j]),
    ensures
        count_where(h.take(n), p) == count_where(h.take(k), p) + (n - k),
    decreases n - k,
{
    if n > k {
        lemma_count_prefix_all(h, p, k, n - 1);
        assert(h.take(n).drop_last() =~= h.take(n - 1));
        assert(h.take(n).last() == h[n - 1]);
    }
}

/// Events of `h` from `k` up to `n` that fail `p` add no activity.
pub proof fn lemma_activity_prefix_skip(h: Seq<PhysicalEvent>, p: spec_fn(PhysicalEvent) -> bool, k: int, n: int)
    requires
        0 <= k <= n <= h.len(),
        forall|j: int| k <= j < n ==> !p(#[trigger] h[j]),
    ensures
        activity_where(h.take(n), p) == activity_where(h.take(k), p),
    decreases n - k,
{
    if n > k {
        lemma_activity_prefix_skip(h, p, k, n - 1);
        assert(h.take(n).drop_last() =~= h.take(n - 1));
        assert(h.take(n).last() == h[n - 1]);
    }
}


/// No two events of `h` share an id.
pub open spec fn unique_ids(h: Seq<PhysicalEvent>) -> bool {
    forall|i: int, j: int| 0 <= i < h.len() && 0 <= j < h.len() && i != j ==> h[i].id != h[j].id
}

/// The insertion point lies within the rows.
pub proof fn lemma_insertion_point_bounded(s: Seq<ZoneActivity>, t: UtcTimestamp)
    ensures
        insertion_point(s, t) <= s.len(),
    decreases s.len(),
{
    if s.len() > 0 {
        lemma_insertion_point_bounded(s.drop_last(), t);
    }
}

/// Every reported activity row is the activity of some event of `h` that
/// satisfies `p`.
pub proof fn lemma_activity_rows_come_from_events(h: Seq<PhysicalEvent>, p: spec_fn(PhysicalEvent) -> bool, r: int)
    requires
        0 <= r < activity_where(h, p).len(),
    ensures
        exists|k: int| 0 <= k < h.len() && p(#[trigger] h[k]) && activity_where(h, p)[r] == (ZoneActivity {
            id: h[k].id,
            kind: h[k].kind,
            occurred_at: h[k].occurred_at,
        }),
    decreases h.len(),
{
    let rest = h.drop_last();
    let rows = activity_where(rest, p);
    let last = h.last();
    assert(h[h.len() - 1] == last);
    let x = ZoneActivity { id: last.id, kind: last.kind, occurred_at: last.occurred_at };
    let pos = insertion_point(rows, x.occurred_at) as int;
    lemma_insertion_point_bounded(rows, x.occurred_at);
    // The row comes from `rest` at index `q`, or is the last event's row.
    let q = if !p(last) || r < pos { r } else { r - 1 };
    if p(last) && r == pos {
        assert(activity_where(h, p)[r] == x);
    } else {
        lemma_activity_rows_come_from_events(rest, p, q);
        let k = choose|k: int| 0 <= k < rest.len() && p(#[trigger] rest[k]) && rows[q] == (ZoneActivity {
            id: rest[k].id,
            kind: rest[k].kind,
            occurred_at: rest[k].occurred_at,
        });
        assert(rest[k] == h[k]);
        assert(activity_where(h, p)[r] == rows[q]);
    }
}

/// The rows reported from a store with unique ids have unique ids.
pub proof fn lemma_activity_ids_unique(h: Seq<PhysicalEvent>, p: spec_fn(PhysicalEvent) -> bool)
    requires
        unique_ids(h),
    ensures
        forall|a: int, b: int| 0 <= a < activity_where(h, p).len() && 0 <= b < activity_where(h, p).len() && a != b
            ==> #[trigger] activity_where(h, p)[a].id != #[trigger] activity_where(h, p)[b].id,
    decreases h.len(),
{
    if h.len() > 0 {
        let rest = h.drop_last();
        assert(unique_ids(rest)) by {
            assert forall|i: int, j: int| 0 <= i < rest.len() && 0 <= j < rest.len() && i != j implies rest[i].id != rest[j].id by {
                assert(rest[i] == h[i] && rest[j] == h[j]);
            }
        }
        lemma_activity_ids_unique(rest, p);
        let rows = activity_where(rest, p);
        let last = h.last();
        if p(last) {
            assert forall|r: int| 0 <= r < rows.len() implies rows[r].id != last.id by {
                lemma_activity_rows_come_from_events(rest, p, r);
                let k = choose|k: int| 0 <= k < rest.len() && p(#[trigger] rest[k]) && rows[r] == (ZoneActivity {
                    id: rest[k].id,
                    kind: rest[k].kind,
                    occurred_at: rest[k].occurred_at,
                });
                assert(rest[k] == h[k]);
                assert(h[h.len() - 1] == last);
            }
            let x = ZoneActivity { id: last.id, kind: last.kind, occurred_at: last.occurred_at };
            let pos = insertion_point(rows, x.occurred_at) as int;
            lemma_insertion_point_bounded(rows, x.occurred_at);
            let all = activity_where(h, p);
            assert forall|a: int, b: int| 0 <= a < all.len() && 0 <= b < all.len() && a != b
                implies #[trigger] all[a].id != #[trigger] all[b].id by {
                let qa = if a < pos { a } else { a - 1 };
                let qb = if b < pos { b } else { b - 1 };
                if a != pos {
                    assert(all[a] == rows[qa]);
                }
                if b != pos {
                    assert(all[b] == rows[qb]);
                }
            }
        }
    }
}

/// With unique ids, a zone entry is never both a novel entry and a repeated
/// one, so every event yields at most one finding: the missing-object,
/// access and off-hours rules concern distinct kinds, and a repeated entry
/// has an earlier entry that rules out novelty.
pub proof fn lemma_at_most_one_finding(h: Seq<PhysicalEvent>, e: PhysicalEvent)
    requires
        unique_ids(h),
        h.len() <= u64::MAX,
    ensures
        detections_in(h, e).len() <= 1,
{
    lemma_findings_follow_event_kind(e, history_answers(h, e));
    if e.kind == EventKind::EnteredZone {
        reveal_with_fuel(present, 6);
        let fs = rule_findings(e, history_answers(h, e));
        assert(fs.drop_last().drop_last().drop_last().drop_last().drop_last() =~= Seq::<Option<DetectedAnomalyView>>::empty());
        let p = |x: PhysicalEvent| is_recent_zone_event(e, x);
        let rows = activity_where(h, p);
        if reentered_without_exit(rows) {
            let (i, j) = choose|i: int, j: int| #[trigger] is_reentry(rows, i, j);
            lemma_activity_ids_unique(h, p);
            assert(rows[i].id != rows[j].id);
            let r = if rows[i].id != e.id { i } else { j };
            lemma_activity_rows_come_from_events(h, p, r);
            let k = choose|k: int| 0 <= k < h.len() && p(#[trigger] h[k]) && rows[r] == (ZoneActivity {
                id: h[k].id,
                kind: h[k].kind,
                occurred_at: h[k].occurred_at,
            });
            let q = |x: PhysicalEvent| is_other_visit(e, x);
            assert(q(h[k]));
            lemma_count_zero_iff_none(h, q);
            lemma_count_bounded(h, q);
        }
    }
}

/// `count_where` over two stores one after the other adds up.
pub proof fn lemma_count_append(h: Seq<PhysicalEvent>, more: Seq<PhysicalEvent>, p: spec_fn(PhysicalEvent) -> bool)
    ensures
        count_where(h + more, p) == count_where(h, p) + count_where(more, p),
    decreases more.len(),
{
    if more.len() > 0 {
        lemma_count_append(h, more.drop_last(), p);
        assert((h + more).drop_last() =~= h + more.drop_last());
        assert((h + more).last() == more.last());
    } else {
        assert(h + more =~= h);
    }
}

/// Once an access denial is flagged, it stays flagged however many events
/// are added to the store: the denials in its window can only grow.
pub proof fn lemma_denial_finding_persists(h: Seq<PhysicalEvent>, more: Seq<PhysicalEvent>, e: PhysicalEvent)
    requires
        e.kind == EventKind::AccessDenied,
        h.len() + more.len() <= u64::MAX,
    ensures
        count_where(h, |x: PhysicalEvent| is_recent_denial(e, x))
            <= count_where(h + more, |x: PhysicalEvent| is_recent_denial(e, x)),
        detections_in(h, e).len() > 0 ==> detections_in(h + more, e).len() > 0,
{
    let p = |x: PhysicalEvent| is_recent_denial(e, x);
    lemma_count_append(h, more, p);
    lemma_third_denial_is_critical(h, e);
    lemma_third_denial_is_critical(h + more, e);
}

/// An in-memory store of physical events, in the order they were recorded,
/// that answers the detection rules' lookups.
#[derive(Debug)]
pub struct EventLog {
    events: Vec<PhysicalEvent>,
}

impl View for EventLog {
    type V = Seq<PhysicalEvent>;

    closed spec fn view(&self) -> Seq<PhysicalEvent> {
        self.events@
    }
}

/// Where a row at time `t` goes in `rows`.
fn insertion_index(rows: &Vec<ZoneActivity>, t: &UtcTimestamp) -> (at: usize)
    ensures
        at == insertion_point(rows@, *t),
{
    let mut j: usize = rows.len();
    assert(rows@.take(j as int) =~= rows@);
    while j > 0
        invariant
            j <= rows.len(),
            insertion_point(rows@, *t) == insertion_point(rows@.take(j as int), *t),
        decreases j,
    {
        let ghost prefix = rows@.take(j as int);
        assert(prefix.last() == rows@[j - 1]);
        if rows[j - 1].occurred_at.is_at_or_before(t) {
            return j;
        }
        assert(prefix.drop_last() =~= rows@.take(j - 1));
        j = j - 1;
    }
    assert(rows@.take(0) =~= Seq::<ZoneActivity>::empty());
    0
}

/// Whether two texts are equal.
fn same_string(a: &String, b: &String) -> (r: bool)
    ensures
        r == (a@ == b@),
{
    *a == *b
}

impl EventLog {
    /// An empty log.
    pub fn new() -> (log: EventLog)
        ensures
            log@ == Seq::<PhysicalEvent>::empty(),
    {
        EventLog { events: Vec::new() }
    }

    /// Number of recorded events.
    pub fn len(&self) -> (n: usize)
        ensures
            n == self@.len(),
    {
        self.events.len()
    }

    /// The `i`-th recorded event.
    pub fn get(&self, i: usize) -> (e: &PhysicalEvent)
        requires
            i < self@.len(),
        ensures
            *e == self@[i as int],
    {
        &self.events[i]
    }

    /// Records `event` after all others.
    pub fn record(&mut self, event: PhysicalEvent)
        ensures
            final(self)@ == old(self)@.push(event),
    {
        self.events.push(event);
    }

    /// Whether the log holds a transaction that answers `l` positively.
    pub fn has_transaction(&self, l: &TransactionLookup) -> (r: bool)
        ensures
            r == exists|i: int| 0 <= i < self@.len() && #[trigger] is_matching_transaction(*l, self@[i]),
    {
        let mut i: usize = 0;
        while i < self.events.len()
            invariant
                i <= self.events@.len(),
                forall|j: int| 0 <= j < i ==> !#[trigger] is_matching_transaction(*l, self.events@[j]),
            decreases self.events.len() - i,
        {
            let x = &self.events[i];
            if same_string(&x.entity_id, &l.entity_id) && same_string(&x.zone, &l.zone)
                && x.kind == EventKind::TransactionRecorded && x.occurred_at.is_within(&l.from, &l.to)
            {
                assert(is_matching_transaction(*l, self@[i as int]));
                return true;
            }
            i = i + 1;
        }
        false
    }

    /// How many access denials of the log `l` counts.
    pub fn count_denials(&self, l: &AccessDenialLookup) -> (n: u64)
        ensures
            n == count_where(self@, |x: PhysicalEvent| is_counted_denial(*l, x)),
    {
        let ghost p = |x: PhysicalEvent| is_counted_denial(*l, x);
        let mut c: usize = 0;
        let mut i: usize = 0;
        while i < self.events.len()
            invariant
                p == (|x: PhysicalEvent| is_counted_denial(*l, x)),
                i <= self.events@.len(),
                c <= i,
                c == count_where(self.events@.take(i as int), p),
            decreases self.events.len() - i,
        {
            assert(self.events@.take(i + 1).drop_last() =~= self.events@.take(i as int));
            assert(self.events@.take(i + 1).last() == self.events@[i as int]);
            let x = &self.events[i];
            let hit = same_string(&x.entity_id, &l.entity_id) && x.kind == EventKind::AccessDenied
                && x.occurred_at.is_within(&l.from, &l.to);
            assert(hit == p(self.events@[i as int]));
            if hit {
                c = c + 1;
            }
            i = i + 1;
        }
        assert(self.events@.take(i as int) =~= self.events@);
        c as u64
    }

    /// How many zone entries of the log `l` counts.
    pub fn count_visits(&self, l: &ZoneVisitLookup) -> (n: u64)
        ensures
            n == count_where(self@, |x: PhysicalEvent| is_counted_visit(*l, x)),
    {
        let ghost p = |x: PhysicalEvent| is_counted_visit(*l, x);
        let mut c: usize = 0;
        let mut i: usize = 0;
        while i < self.events.len()
            invariant
                p == (|x: PhysicalEvent| is_counted_visit(*l, x)),
                i <= self.events@.len(),
                c <= i,
                c == count_where(self.events@.take(i as int), p),
            decreases self.events.len() - i,
        {
            assert(self.events@.take(i + 1).drop_last() =~= self.events@.take(i as int));
            assert(self.events@.take(i + 1).last() == self.events@[i as int]);
            let x = &self.events[i];
            let hit = same_string(&x.entity_id, &l.entity_id) && same_string(&x.zone, &l.zone)
                && x.kind == EventKind::EnteredZone && x.id != l.excluded_id
                && x.occurred_at.is_at_or_before(&l.to);
            assert(hit == p(self.events@[i as int]));
            if hit {
                c = c + 1;
            }
            i = i + 1;
        }
        assert(self.events@.take(i as int) =~= self.events@);
        c as u64
    }

    /// The activity of the log that `l` reports, in time order (as the
    /// service's database lookup orders it); rows at the same instant keep
    /// the order in which they were recorded.
    pub fn zone_activity(&self, l: &ZoneWindowLookup) -> (rows: Vec<ZoneActivity>)
        ensures
            rows@ == activity_where(self@, |x: PhysicalEvent| is_zone_window_event(*l, x)),
    {
        let ghost p = |x: PhysicalEvent| is_zone_window_event(*l, x);
        let mut rows: Vec<ZoneActivity> = Vec::new();
        let mut i: usize = 0;
        while i < self.events.len()
            invariant
                p == (|x: PhysicalEvent| is_zone_window_event(*l, x)),
                i <= self.events@.len(),
                rows@ == activity_where(self.events@.take(i as int), p),
            decreases self.events.len() - i,
        {
            assert(self.events@.take(i + 1).drop_last() =~= self.events@.take(i as int));
            assert(self.events@.take(i + 1).last() == self.events@[i as int]);
            let x = &self.events[i];
            let hit = same_string(&x.entity_id, &l.entity_id) && same_string(&x.zone, &l.zone)
                && x.occurred_at.is_within(&l.from, &l.to);
            assert(hit == p(self.events@[i as int]));
            if hit {
                let row = ZoneActivity { id: x.id, kind: x.kind, occurred_at: x.occurred_at };
                let at = insertion_index(&rows, &x.occurred_at);
                proof { lemma_insertion_point_bounded(rows@, x.occurred_at); }
                rows.insert(at, row);
            }
            i = i + 1;
        }
        assert(self.events@.take(i as int) =~= self.events@);
        rows
    }

    /// What the log answers to the lookups the rules make for `event`.
    pub fn answers(&self, event: &PhysicalEvent) -> (o: DetectionOutcomes)
        requires
            window_representable(*event),
        ensures
            o@ == history_answers(self@, *event),
    {
        let plan = detection_plan(event);
        let ghost e = *event;
        let ghost h = self@;
        let transaction_found = match &plan.transaction {
            Some(l) => {
                let found = self.has_transaction(l);
                proof {
                    assert(l.from == seconds_before(e.occurred_at, TRANSACTION_WINDOW_SECS));
                    assert forall|i: int| 0 <= i < h.len() implies
                        is_matching_transaction(*l, h[i]) == is_transaction_before(e, h[i]) by {}
                    if found {
                        let i = choose|i: int| 0 <= i < h.len() && #[trigger] is_matching_transaction(*l, h[i]);
                        assert(is_transaction_before(e, h[i]));
                    } else {
                        assert forall|i: int| 0 <= i < h.len() implies !#[trigger] is_transaction_before(e, h[i]) by {
                            assert(!is_matching_transaction(*l, h[i]));
                        }
                    }
                }
                Some(found)
            },
            None => None,
        };
        let access_denials = match &plan.access_denials {
            Some(l) => {
                let n = self.count_denials(l);
                proof {
                    assert(l.from == seconds_before(e.occurred_at, ACCESS_DENIAL_WINDOW_SECS));
                    assert((|x: PhysicalEvent| is_counted_denial(*l, x)) =~= (|x: PhysicalEvent| is_recent_denial(e, x)));
                }
                Some(n)
            },
            None => None,
        };
        let prior_visits = match &plan.zone_visits {
            Some(l) => {
                let n = self.count_visits(l);
                proof {
                    assert((|x: PhysicalEvent| is_counted_visit(*l, x)) =~= (|x: PhysicalEvent| is_other_visit(e, x)));
                }
                Some(n)
            },
            None => None,
        };
        let zone_activity = match &plan.zone_window {
            Some(l) => {
                let rows = self.zone_activity(l);
                proof {
                    assert(l.from == seconds_before(e.occurred_at, ZONE_ENTRY_WINDOW_SECS));
                    assert((|x: PhysicalEvent| is_zone_window_event(*l, x)) =~= (|x: PhysicalEvent| is_recent_zone_event(e, x)));
                }
                Some(rows)
            },
            None => None,
        };
        let o = DetectionOutcomes { transaction_found, access_denials, prior_visits, zone_activity };
        assert(o@.zone_activity == history_answers(h, e).zone_activity);
        o
    }

    /// Records `event` and runs every rule on it against the log that now
    /// holds it, as the service does for each ingested event; returns the
    /// anomalies found, in rule order.
    pub fn ingest(&mut self, event: PhysicalEvent) -> (found: Vec<DetectedAnomaly>)
        requires
            window_representable(event),
        ensures
            final(self)@ == old(self)@.push(event),
            found@.map_values(|a: DetectedAnomaly| a@) == detections_in(final(self)@, event),
    {
        let n = self.events.len();
        self.events.push(event);
        let e = &self.events[n];
        let outcomes = self.answers(e);
        run_all(e, outcomes)
    }
}

} // verus!
