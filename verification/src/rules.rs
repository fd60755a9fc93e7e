use vstd::prelude::*;
use vstd::string::*;

use crate::anomaly::Severity;
use crate::event::{EventKind, PhysicalEvent};
use crate::lookup::ZoneActivity;
use crate::text::{decimal, decimal_string, decimal_two_digits, two_digit_string};
use crate::time::{at_or_before, hour_of_day, within, UtcTimestamp};

verus! {

/// A rule's finding about an event, before it is stored. The score is in
/// hundredths (90 stands for 0.9); `related_event_ids` hold UUID bits.
#[derive(Debug)]
pub struct DetectedAnomaly {
    pub title: String,
    pub explanation: String,
    pub severity: Severity,
    pub score_hundredths: u32,
    pub related_event_ids: Vec<u128>,
    pub snapshot_ids: Vec<String>,
}

/// The content of a finding.
pub struct DetectedAnomalyView {
    pub title: Seq<char>,
    pub explanation: Seq<char>,
    pub severity: Severity,
    pub score_hundredths: u32,
    pub related_event_ids: Seq<u128>,
    pub snapshot_ids: Seq<Seq<char>>,
}

impl View for DetectedAnomaly {
    type V = DetectedAnomalyView;

    open spec fn view(&self) -> DetectedAnomalyView {
        DetectedAnomalyView {
            title: self.title@,
            explanation: self.explanation@,
            severity: self.severity,
            score_hundredths: self.score_hundredths,
            related_event_ids: self.related_event_ids@,
            snapshot_ids: self.snapshot_ids@.map_values(|s: String| s@),
        }
    }
}

/// The content of an optional finding.
pub open spec fn finding_view(f: Option<DetectedAnomaly>) -> Option<DetectedAnomalyView> {
    match f {
        Some(a) => Some(a@),
        None => None,
    }
}

/// A finding with the given content and no snapshot attachments.
pub open spec fn finding(
    title: Seq<char>,
    explanation: Seq<char>,
    severity: Severity,
    score_hundredths: u32,
    related_event_ids: Seq<u128>,
) -> DetectedAnomalyView {
    DetectedAnomalyView {
        title,
        explanation,
        severity,
        score_hundredths,
        related_event_ids,
        snapshot_ids: Seq::empty(),
    }
}

/// Builds a finding with no snapshot attachments.
fn new_finding(
    title: &str,
    explanation: String,
    severity: Severity,
    score_hundredths: u32,
    related_event_ids: Vec<u128>,
) -> (a: DetectedAnomaly)
    ensures
        a@ == finding(title@, explanation@, severity, score_hundredths, related_event_ids@),
{
    let snapshot_ids: Vec<String> = Vec::new();
    let a = DetectedAnomaly {
        title: String::from_str(title),
        explanation,
        severity,
        score_hundredths,
        related_event_ids,
        snapshot_ids,
    };
    assert(a@.snapshot_ids =~= Seq::<Seq<char>>::empty());
    a
}

/// The single event id `id` as a list.
fn only_event(id: u128) -> (v: Vec<u128>)
    ensures
        v@ == seq![id],
{
    let mut v: Vec<u128> = Vec::new();
    v.push(id);
    v
}

// ---------------------------------------------------------------------
// Rule 1: an object goes missing with no inventory transaction recorded in
// the same zone during the preceding hour.

/// Explanation of a missing object.
pub open spec fn missing_object_explanation(entity: Seq<char>, zone: Seq<char>) -> Seq<char> {
    "Entity '"@ + entity + "' went missing in zone '"@ + zone
        + "' with no inventory transaction in the prior 60 minutes."@
}

/// What the missing-object rule finds for `e`, given whether the
/// transaction lookup found a transaction (`None`: the lookup failed, which
/// counts as finding none).
pub open spec fn missing_object_finding(e: PhysicalEvent, transaction_found: Option<bool>) -> Option<DetectedAnomalyView> {
    if e.kind == EventKind::ObjectMissing && transaction_found != Some(true) {
        Some(finding(
            "Object missing without transaction"@,
            missing_object_explanation(e.entity_id@, e.zone@),
            Severity::High,
            90,
            seq![e.id],
        ))
    } else {
        None
    }
}

/// Rule 1: an `ObjectMissing` event with no inventory transaction of the
/// same entity in the same zone within the prior 60 minutes is a high
/// anomaly (score 0.9).
pub fn object_missing_without_transaction(event: &PhysicalEvent, transaction_found: Option<bool>) -> (r: Option<DetectedAnomaly>)
    ensures
        finding_view(r) == missing_object_finding(*event, transaction_found),
{
    if event.kind != EventKind::ObjectMissing {
        return None;
    }
    let found = match transaction_found {
        Some(f) => f,
        None => false,
    };
    if found {
        return None;
    }
    let mut explanation = String::from_str("Entity '");
    explanation.append(event.entity_id.as_str());
    explanation.append("' went missing in zone '");
    explanation.append(event.zone.as_str());
    explanation.append("' with no inventory transaction in the prior 60 minutes.");
    Some(new_finding("Object missing without transaction", explanation, Severity::High, 90, only_event(event.id)))
}

// ---------------------------------------------------------------------
// Rule 2: three or more access denials for the same entity within ten
// minutes.

/// Explanation of repeated access denials.
pub open spec fn access_denied_explanation(entity: Seq<char>, count: nat) -> Seq<char> {
    "Entity '"@ + entity + "' had "@ + decimal(count) + " consecutive access denials within 10 minutes."@
}

/// What the access rule finds for `e`, given the number of denials the
/// lookup counted (`None`: the lookup failed, which counts as none).
pub open spec fn access_denied_finding(e: PhysicalEvent, denials: Option<u64>) -> Option<DetectedAnomalyView> {
    let count: u64 = match denials { Some(c) => c, None => 0 };
    if e.kind == EventKind::AccessDenied && count >= 3 {
        Some(finding(
            "Repeated access denied"@,
            access_denied_explanation(e.entity_id@, count as nat),
            Severity::Critical,
            95,
            seq![e.id],
        ))
    } else {
        None
    }
}

/// Rule 2: an `AccessDenied` event when the entity was denied three or more
/// times (this event included) within 10 minutes is a critical anomaly
/// (score 0.95).
pub fn repeated_access_denied(event: &PhysicalEvent, denials: Option<u64>) -> (r: Option<DetectedAnomaly>)
    ensures
        finding_view(r) == access_denied_finding(*event, denials),
{
    if event.kind != EventKind::AccessDenied {
        return None;
    }
    let count: u64 = match denials {
        Some(c) => c,
        None => 0,
    };
    if count < 3 {
        return None;
    }
    let mut explanation = String::from_str("Entity '");
    explanation.append(event.entity_id.as_str());
    explanation.append("' had ");
    let count_text = decimal_string(count);
    explanation.append(count_text.as_str());
    explanation.append(" consecutive access denials within 10 minutes.");
    Some(new_finding("Repeated access denied", explanation, Severity::Critical, 95, only_event(event.id)))
}

// ---------------------------------------------------------------------
// Rule 3: an object moves outside operating hours (00:00 to 06:00 UTC).

/// Explanation of an off-hours movement in the given UTC hour.
pub open spec fn off_hours_explanation(entity: Seq<char>, zone: Seq<char>, hour: nat) -> Seq<char> {
    "Entity '"@ + entity + "' was moved in zone '"@ + zone + "' during off-hours ("@
        + decimal_two_digits(hour) + ":00 UTC)."@
}

/// What the off-hours rule finds for `e`.
pub open spec fn off_hours_finding(e: PhysicalEvent) -> Option<DetectedAnomalyView> {
    let hour = hour_of_day(e.occurred_at.secs as int);
    if e.kind == EventKind::ObjectMoved && hour < 6 {
        Some(finding(
            "Off-hours movement"@,
            off_hours_explanation(e.entity_id@, e.zone@, hour as nat),
            Severity::Medium,
            70,
            seq![e.id],
        ))
    } else {
        None
    }
}

/// Rule 3: an `ObjectMoved` event whose UTC hour is before 06:00 is a
/// medium anomaly (score 0.7).
pub fn off_hours_movement(event: &PhysicalEvent) -> (r: Option<DetectedAnomaly>)
    ensures
        finding_view(r) == off_hours_finding(*event),
{
    if event.kind != EventKind::ObjectMoved {
        return None;
    }
    let hour = event.occurred_at.utc_hour();
    if hour >= 6 {
        return None;
    }
    let mut explanation = String::from_str("Entity '");
    explanation.append(event.entity_id.as_str());
    explanation.append("' was moved in zone '");
    explanation.append(event.zone.as_str());
    explanation.append("' during off-hours (");
    let hour_text = two_digit_string(hour as u64);
    explanation.append(hour_text.as_str());
    explanation.append(":00 UTC).");
    Some(new_finding("Off-hours movement", explanation, Severity::Medium, 70, only_event(event.id)))
}

// ---------------------------------------------------------------------
// Rule 4: an entity enters a zone it has never been seen entering before.

/// Explanation of a first entry into a zone.
pub open spec fn novel_zone_explanation(entity: Seq<char>, zone: Seq<char>) -> Seq<char> {
    "Entity '"@ + entity + "' entered zone '"@ + zone + "' for the first time."@
}

/// What the novel-zone rule finds for `e`, given the number of its other
/// entries into the zone at or before it (`None`: the lookup failed, which counts as a
/// previous visit).
pub open spec fn novel_zone_finding(e: PhysicalEvent, prior_visits: Option<u64>) -> Option<DetectedAnomalyView> {
    let visits: u64 = match prior_visits { Some(c) => c, None => 1 };
    if e.kind == EventKind::EnteredZone && visits == 0 {
        Some(finding(
            "Novel zone entry"@,
            novel_zone_explanation(e.entity_id@, e.zone@),
            Severity::Low,
            50,
            seq![e.id],
        ))
    } else {
        None
    }
}

/// Rule 4: an `EnteredZone` event of an entity that has no other entry into
/// that zone at or before it (it has never been seen entering the zone) is a
/// low anomaly (score 0.5).
pub fn novel_zone_entry(event: &PhysicalEvent, prior_visits: Option<u64>) -> (r: Option<DetectedAnomaly>)
    ensures
        finding_view(r) == novel_zone_finding(*event, prior_visits),
{
    if event.kind != EventKind::EnteredZone {
        return None;
    }
    let visits: u64 = match prior_visits {
        Some(c) => c,
        None => 1,
    };
    if visits > 0 {
        return None;
    }
    let mut explanation = String::from_str("Entity '");
    explanation.append(event.entity_id.as_str());
    explanation.append("' entered zone '");
    explanation.append(event.zone.as_str());
    explanation.append("' for the first time.");
    Some(new_finding("Novel zone entry", explanation, Severity::Low, 50, only_event(event.id)))
}

// ---------------------------------------------------------------------
// Rule 5: an entity enters the same zone twice within fifteen minutes
// without leaving it in between.

/// Ids of the zone entries among `rows`, in their order.
pub open spec fn entry_ids(rows: Seq<ZoneActivity>) -> Seq<u128>
    decreases rows.len(),
{
    if rows.len() == 0 {
        Seq::empty()
    } else {
        let rest = entry_ids(rows.drop_last());
        if rows.last().kind == EventKind::EnteredZone { rest.push(rows.last().id) } else { rest }
    }
}

/// Some exit among `rows` happened within `[from, to]`.
pub open spec fn exit_between(rows: Seq<ZoneActivity>, from: UtcTimestamp, to: UtcTimestamp) -> bool {
    exists|k: int| 0 <= k < rows.len() && #[trigger] rows[k].kind == EventKind::ExitedZone
        && within(rows[k].occurred_at, from, to)
}

/// Two different entries among `rows`, the first no later than the second,
/// with no exit at or between their times.
pub open spec fn is_reentry(rows: Seq<ZoneActivity>, i: int, j: int) -> bool {
    &&& 0 <= i < rows.len()
    &&& 0 <= j < rows.len()
    &&& i != j
    &&& rows[i].kind == EventKind::EnteredZone
    &&& rows[j].kind == EventKind::EnteredZone
    &&& at_or_before(rows[i].occurred_at, rows[j].occurred_at)
    &&& !exit_between(rows, rows[i].occurred_at, rows[j].occurred_at)
}

/// The activity shows the entity entering the zone twice without an exit in
/// between.
pub open spec fn reentered_without_exit(rows: Seq<ZoneActivity>) -> bool {
    exists|i: int, j: int| #[trigger] is_reentry(rows, i, j)
}

/// Explanation of a repeated entry.
pub open spec fn repeated_zone_explanation(entity: Seq<char>, zone: Seq<char>, entries: nat) -> Seq<char> {
    "Entity '"@ + entity + "' entered zone '"@ + zone + "' "@ + decimal(entries)
        + " times within a short window without an exit."@
}

/// The activity a zone-window lookup reported (`None`: the lookup failed,
/// which counts as no activity).
pub open spec fn reported_activity(activity: Option<Vec<ZoneActivity>>) -> Seq<ZoneActivity> {
    match activity {
        Some(rows) => rows@,
        None => Seq::empty(),
    }
}

/// What the re-entry rule finds for `e`, given the reported activity of its
/// entity in its zone during the window.
pub open spec fn repeated_zone_finding(e: PhysicalEvent, rows: Seq<ZoneActivity>) -> Option<DetectedAnomalyView> {
    if e.kind == EventKind::EnteredZone && reentered_without_exit(rows) {
        Some(finding(
            "Repeated zone entry"@,
            repeated_zone_explanation(e.entity_id@, e.zone@, entry_ids(rows).len()),
            Severity::High,
            90,
            entry_ids(rows),
        ))
    } else {
        None
    }
}

/// Ids of the zone entries among `rows`, in their order.
fn collect_entry_ids(rows: &Vec<ZoneActivity>) -> (ids: Vec<u128>)
    ensures
        ids@ == entry_ids(rows@),
{
    let mut ids: Vec<u128> = Vec::new();
    let mut i: usize = 0;
    while i < rows.len()
        invariant
            i <= rows.len(),
            ids@ == entry_ids(rows@.take(i as int)),
        decreases rows.len() - i,
    {
        assert(rows@.take(i + 1).drop_last() =~= rows@.take(i as int));
        if rows[i].kind == EventKind::EnteredZone {
            ids.push(rows[i].id);
        }
        i = i + 1;
    }
    assert(rows@.take(rows.len() as int) =~= rows@);
    ids
}

/// Whether some exit among `rows` happened within `[from, to]`.
fn has_exit_between(rows: &Vec<ZoneActivity>, from: &UtcTimestamp, to: &UtcTimestamp) -> (r: bool)
    ensures
        r == exit_between(rows@, *from, *to),
{
    let mut k: usize = 0;
    while k < rows.len()
        invariant
            k <= rows.len(),
            forall|m: int| 0 <= m < k ==> !(#[trigger] rows@[m].kind == EventKind::ExitedZone
                && within(rows@[m].occurred_at, *from, *to)),
        decreases rows.len() - k,
    {
        if rows[k].kind == EventKind::ExitedZone && rows[k].occurred_at.is_within(from, to) {
            return true;
        }
        k = k + 1;
    }
    false
}

/// Whether the activity shows two entries without an exit in between.
fn has_reentry(rows: &Vec<ZoneActivity>) -> (r: bool)
    ensures
        r == reentered_without_exit(rows@),
{
    let n = rows.len();
    let mut i: usize = 0;
    while i < n
        invariant
            n == rows.len(),
            i <= n,
            forall|a: int, b: int| 0 <= a < i && 0 <= b < n ==> !#[trigger] is_reentry(rows@, a, b),
        decreases n - i,
    {
        let mut j: usize = 0;
        while j < n
            invariant
                n == rows.len(),
                i < n,
                j <= n,
                forall|a: int, b: int| 0 <= a < i && 0 <= b < n ==> !#[trigger] is_reentry(rows@, a, b),
                forall|b: int| 0 <= b < j ==> !#[trigger] is_reentry(rows@, i as int, b),
            decreases n - j,
        {
            if i != j && rows[i].kind == EventKind::EnteredZone && rows[j].kind == EventKind::EnteredZone
                && rows[i].occurred_at.is_at_or_before(&rows[j].occurred_at)
                && !has_exit_between(rows, &rows[i].occurred_at, &rows[j].occurred_at)
            {
                assert(is_reentry(rows@, i as int, j as int));
                return true;
            }
            j = j + 1;
        }
        i = i + 1;
    }
    assert forall|a: int, b: int| !is_reentry(rows@, a, b) by {
        if 0 <= a < n && 0 <= b < n {
        }
    }
    false
}

/// Rule 5: an `EnteredZone` event, when the entity's activity in the zone
/// during the 15 minutes up to it shows two entries with no exit at or
/// between their times, is a high anomaly (score 0.9) relating every entry
/// of the window.
pub fn repeated_zone_entry(event: &PhysicalEvent, activity: Option<Vec<ZoneActivity>>) -> (r: Option<DetectedAnomaly>)
    ensures
        finding_view(r) == repeated_zone_finding(*event, reported_activity(activity)),
{
    if event.kind != EventKind::EnteredZone {
        return None;
    }
    let rows: Vec<ZoneActivity> = match activity {
        Some(rows) => rows,
        None => Vec::new(),
    };
    assert(rows@ == reported_activity(activity));
    if !has_reentry(&rows) {
        return None;
    }
    let entered = collect_entry_ids(&rows);
    let mut explanation = String::from_str("Entity '");
    explanation.append(event.entity_id.as_str());
    explanation.append("' entered zone '");
    explanation.append(event.zone.as_str());
    explanation.append("' ");
    let count_text = decimal_string(entered.len() as u64);
    explanation.append(count_text.as_str());
    explanation.append(" times within a short window without an exit.");
    Some(new_finding("Repeated zone entry", explanation, Severity::High, 90, entered))
}


/// Rows `i` and `j` are two different entries, the first no later than the
/// second, and no exit of the rows lies at or between their two times.
pub open spec fn entries_without_exit_between(rows: Seq<ZoneActivity>, i: int, j: int) -> bool {
    &&& 0 <= i < rows.len()
    &&& 0 <= j < rows.len()
    &&& i != j
    &&& rows[i].kind == EventKind::EnteredZone
    &&& rows[j].kind == EventKind::EnteredZone
    &&& at_or_before(rows[i].occurred_at, rows[j].occurred_at)
    &&& forall|k: int| 0 <= k < rows.len() && (#[trigger] rows[k]).kind == EventKind::ExitedZone
        ==> !(at_or_before(rows[i].occurred_at, rows[k].occurred_at)
            && at_or_before(rows[k].occurred_at, rows[j].occurred_at))
}

/// A pair of rows is a re-entry exactly when it is two entries with no exit
/// at or between them.
proof fn lemma_reentry_pair(rows: Seq<ZoneActivity>, i: int, j: int)
    ensures
        is_reentry(rows, i, j) <==> entries_without_exit_between(rows, i, j),
{
    if 0 <= i < rows.len() && 0 <= j < rows.len() {
        if exit_between(rows, rows[i].occurred_at, rows[j].occurred_at) {
            let k = choose|k: int| 0 <= k < rows.len() && #[trigger] rows[k].kind == EventKind::ExitedZone
                && within(rows[k].occurred_at, rows[i].occurred_at, rows[j].occurred_at);
            assert(rows[k].kind == EventKind::ExitedZone);
        } else {
            assert forall|k: int| 0 <= k < rows.len() && (#[trigger] rows[k]).kind == EventKind::ExitedZone
                implies !(at_or_before(rows[i].occurred_at, rows[k].occurred_at)
                    && at_or_before(rows[k].occurred_at, rows[j].occurred_at)) by {
                if at_or_before(rows[i].occurred_at, rows[k].occurred_at)
                    && at_or_before(rows[k].occurred_at, rows[j].occurred_at) {
                    assert(within(rows[k].occurred_at, rows[i].occurred_at, rows[j].occurred_at));
                }
            }
        }
    }
}

/// An entity's zone entry is flagged as repeated exactly when the window
/// holds two different entries, the first no later than the second, with no
/// exit at or between their two times: exits before the first entry or
/// after the second never prevent the finding.
pub proof fn lemma_repeated_entry_needs_no_exit_between(e: PhysicalEvent, rows: Seq<ZoneActivity>)
    requires
        e.kind == EventKind::EnteredZone,
    ensures
        repeated_zone_finding(e, rows) is Some
            <==> exists|i: int, j: int| #[trigger] entries_without_exit_between(rows, i, j),
{
    if repeated_zone_finding(e, rows) is Some {
        let (i, j) = choose|i: int, j: int| #[trigger] is_reentry(rows, i, j);
        lemma_reentry_pair(rows, i, j);
        assert(entries_without_exit_between(rows, i, j));
    } else {
        assert forall|i: int, j: int| !#[trigger] entries_without_exit_between(rows, i, j) by {
            lemma_reentry_pair(rows, i, j);
        }
    }
}

/// Whether a row is a zone entry.
pub open spec fn is_entry_row(r: ZoneActivity) -> bool {
    r.kind == EventKind::EnteredZone
}

/// The ids a repeated-entry finding relates are those of all the entries of
/// the window, in the window's order: the entries kept by a filter, mapped
/// to their ids. So every entry of the window (the triggering one included)
/// is related, and the explanation counts them all.
pub proof fn lemma_entry_ids_are_all_entries(rows: Seq<ZoneActivity>)
    ensures
        entry_ids(rows) == rows.filter(|r: ZoneActivity| is_entry_row(r)).map_values(|r: ZoneActivity| r.id),
        forall|k: int| 0 <= k < rows.len() && (#[trigger] rows[k]).kind == EventKind::EnteredZone
            ==> entry_ids(rows).contains(rows[k].id),
    decreases rows.len(),
{
    let f = |r: ZoneActivity| is_entry_row(r);
    let g = |r: ZoneActivity| r.id;
    reveal(Seq::filter);
    if rows.len() > 0 {
        let rest = rows.drop_last();
        lemma_entry_ids_are_all_entries(rest);
        let fr = rest.filter(f);
        if f(rows.last()) {
            assert(rows.filter(f) == fr.push(rows.last()));
            assert(fr.push(rows.last()).map_values(g) =~= fr.map_values(g).push(rows.last().id));
        } else {
            assert(rows.filter(f) == fr);
        }
        assert forall|k: int| 0 <= k < rows.len() && (#[trigger] rows[k]).kind == EventKind::EnteredZone
            implies entry_ids(rows).contains(rows[k].id) by {
            if k < rows.len() - 1 {
                assert(rest[k] == rows[k]);
                assert(entry_ids(rest).contains(rest[k].id));
                let m = choose|m: int| 0 <= m < entry_ids(rest).len() && entry_ids(rest)[m] == rest[k].id;
                assert(entry_ids(rows)[m] == rows[k].id);
            } else {
                assert(rows[k] == rows.last());
                assert(entry_ids(rows).last() == rows[k].id);
                assert(entry_ids(rows)[entry_ids(rows).len() - 1] == rows[k].id);
            }
        }
    } else {
        assert(rows.filter(f) =~= Seq::<ZoneActivity>::empty());
    }
}

/// A repeated-entry finding relates exactly the ids of the window's entries,
/// in order, and its explanation gives their number.
pub proof fn lemma_repeated_entry_relates_every_entry(e: PhysicalEvent, rows: Seq<ZoneActivity>)
    requires
        repeated_zone_finding(e, rows) is Some,
    ensures
        ({
            let entries = rows.filter(|r: ZoneActivity| is_entry_row(r));
            let f = repeated_zone_finding(e, rows).unwrap();
            &&& f.related_event_ids == entries.map_values(|r: ZoneActivity| r.id)
            &&& f.related_event_ids.len() == entries.len()
            &&& f.explanation == "Entity '"@ + e.entity_id@ + "' entered zone '"@ + e.zone@ + "' "@
                + decimal(entries.len()) + " times within a short window without an exit."@
        }),
{
    lemma_entry_ids_are_all_entries(rows);
}

} // verus!
