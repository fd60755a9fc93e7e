use vstd::prelude::*;

use crate::anomaly::Severity;
use crate::event::{same_event, EventKind, PhysicalEvent};
use crate::lookup::{
    access_denial_lookup, access_denial_lookup_for, transaction_lookup, transaction_lookup_for,
    window_representable, zone_visit_lookup, zone_visit_lookup_for, zone_window_lookup,
    zone_window_lookup_for, AccessDenialLookup, TransactionLookup, ZoneActivity, ZoneVisitLookup,
    ZoneWindowLookup,
};
use crate::rules::{
    access_denied_finding, finding_view, missing_object_finding, novel_zone_entry, novel_zone_finding,
    object_missing_without_transaction, off_hours_finding, off_hours_movement, repeated_access_denied,
    repeated_zone_entry, repeated_zone_finding, reported_activity, DetectedAnomaly, DetectedAnomalyView,
};

verus! {

/// The lookups that the rules need for one event; each is made only for
/// the event kinds its rule concerns.
#[derive(Debug)]
pub struct DetectionPlan {
    pub transaction: Option<TransactionLookup>,
    pub access_denials: Option<AccessDenialLookup>,
    pub zone_visits: Option<ZoneVisitLookup>,
    pub zone_window: Option<ZoneWindowLookup>,
}

/// What the store answered to the lookups of a plan. `None` stands for a
/// lookup that was not made or that failed.
#[derive(Debug)]
pub struct DetectionOutcomes {
    pub transaction_found: Option<bool>,
    pub access_denials: Option<u64>,
    pub prior_visits: Option<u64>,
    pub zone_activity: Option<Vec<ZoneActivity>>,
}

/// The content of the store's answers.
pub struct OutcomeView {
    pub transaction_found: Option<bool>,
    pub access_denials: Option<u64>,
    pub prior_visits: Option<u64>,
    pub zone_activity: Seq<ZoneActivity>,
}

impl View for DetectionOutcomes {
    type V = OutcomeView;

    open spec fn view(&self) -> OutcomeView {
        OutcomeView {
            transaction_found: self.transaction_found,
            access_denials: self.access_denials,
            prior_visits: self.prior_visits,
            zone_activity: reported_activity(self.zone_activity),
        }
    }
}

/// The findings of the five rules for `e` and the outcomes, in rule order:
/// missing object, repeated access denial, off-hours movement, novel zone
/// entry, repeated zone entry.
pub open spec fn rule_findings(e: PhysicalEvent, o: OutcomeView) -> Seq<Option<DetectedAnomalyView>> {
    seq![
        missing_object_finding(e, o.transaction_found),
        access_denied_finding(e, o.access_denials),
        off_hours_finding(e),
        novel_zone_finding(e, o.prior_visits),
        repeated_zone_finding(e, o.zone_activity),
    ]
}

/// The findings that are present, in order.
pub open spec fn present(s: Seq<Option<DetectedAnomalyView>>) -> Seq<DetectedAnomalyView>
    decreases s.len(),
{
    if s.len() == 0 {
        Seq::empty()
    } else {
        let rest = present(s.drop_last());
        match s.last() {
            Some(a) => rest.push(a),
            None => rest,
        }
    }
}

/// The findings present among the first `k + 1` are those among the first
/// `k`, followed by the `k`-th if it is present.
pub proof fn lemma_present_step(fs: Seq<Option<DetectedAnomalyView>>, k: int)
    requires
        0 <= k < fs.len(),
    ensures
        present(fs.take(k + 1)) == match fs[k] {
            Some(a) => present(fs.take(k)).push(a),
            None => present(fs.take(k)),
        },
{
    assert(fs.take(k + 1).drop_last() =~= fs.take(k));
    assert(fs.take(k + 1).last() == fs[k]);
}

/// Every anomaly detected for `e` with the outcomes `o`, in rule order.
pub open spec fn detections(e: PhysicalEvent, o: OutcomeView) -> Seq<DetectedAnomalyView> {
    present(rule_findings(e, o))
}

/// The plan is the one the rules make for `e`.
pub open spec fn plan_for(p: DetectionPlan, e: PhysicalEvent) -> bool {
    &&& (p.transaction is Some <==> e.kind == EventKind::ObjectMissing)
    &&& (p.transaction matches Some(l) ==> transaction_lookup_for(l, e))
    &&& (p.access_denials is Some <==> e.kind == EventKind::AccessDenied)
    &&& (p.access_denials matches Some(l) ==> access_denial_lookup_for(l, e))
    &&& (p.zone_visits is Some <==> e.kind == EventKind::EnteredZone)
    &&& (p.zone_visits matches Some(l) ==> zone_visit_lookup_for(l, e))
    &&& (p.zone_window is Some <==> e.kind == EventKind::EnteredZone)
    &&& (p.zone_window matches Some(l) ==> zone_window_lookup_for(l, e))
}

/// The lookups the rules need for `event`.
pub fn detection_plan(event: &PhysicalEvent) -> (p: DetectionPlan)
    requires
        window_representable(*event),
    ensures
        plan_for(p, *event),
{
    DetectionPlan {
        transaction: transaction_lookup(event),
        access_denials: access_denial_lookup(event),
        zone_visits: zone_visit_lookup(event),
        zone_window: zone_window_lookup(event),
    }
}

/// Appends a finding, if there is one.
fn push_finding(found: &mut Vec<DetectedAnomaly>, f: Option<DetectedAnomaly>)
    ensures
        final(found)@.map_values(|a: DetectedAnomaly| a@) == match finding_view(f) {
            Some(v) => old(found)@.map_values(|a: DetectedAnomaly| a@).push(v),
            None => old(found)@.map_values(|a: DetectedAnomaly| a@),
        },
{
    let ghost before = found@;
    match f {
        Some(a) => {
            found.push(a);
            assert(found@.map_values(|a: DetectedAnomaly| a@) =~= before.map_values(|a: DetectedAnomaly| a@).push(
                found@.last()@,
            ));
        },
        None => {},
    }
}

/// Runs every rule on a newly recorded event, given the store's answers to
/// the lookups of its plan, and returns the anomalies found, in rule order.
pub fn run_all(event: &PhysicalEvent, outcomes: DetectionOutcomes) -> (found: Vec<DetectedAnomaly>)
    ensures
        found@.map_values(|a: DetectedAnomaly| a@) == detections(*event, outcomes@),
{
    let ghost o = outcomes;
    let ghost fs = rule_findings(*event, outcomes@);
    let DetectionOutcomes { transaction_found, access_denials, prior_visits, zone_activity } = outcomes;
    let mut found: Vec<DetectedAnomaly> = Vec::new();
    assert(found@.map_values(|a: DetectedAnomaly| a@) =~= present(fs.take(0)));
    push_finding(&mut found, object_missing_without_transaction(event, transaction_found));
    proof { lemma_present_step(fs, 0); }
    push_finding(&mut found, repeated_access_denied(event, access_denials));
    proof { lemma_present_step(fs, 1); }
    push_finding(&mut found, off_hours_movement(event));
    proof { lemma_present_step(fs, 2); }
    push_finding(&mut found, novel_zone_entry(event, prior_visits));
    proof { lemma_present_step(fs, 3); }
    push_finding(&mut found, repeated_zone_entry(event, zone_activity));
    proof { lemma_present_step(fs, 4); }
    assert(fs.take(5) =~= fs);
    found
}


/// The severity and score (in hundredths) that the rule table assigns to a
/// finding about an event of kind `kind`.
pub open spec fn graded_for(kind: EventKind, a: DetectedAnomalyView) -> bool {
    match kind {
        EventKind::ObjectMissing => a.severity == Severity::High && a.score_hundredths == 90,
        EventKind::AccessDenied => a.severity == Severity::Critical && a.score_hundredths == 95,
        EventKind::ObjectMoved => a.severity == Severity::Medium && a.score_hundredths == 70,
        EventKind::EnteredZone => (a.severity == Severity::Low && a.score_hundredths == 50)
            || (a.severity == Severity::High && a.score_hundredths == 90),
        _ => false,
    }
}

/// Only events that went missing, were denied access, moved or entered a
/// zone can be anomalous; each finding carries the severity and score of
/// the rule for its event's kind, carries no snapshot, and, except for a
/// repeated zone entry (high, about an entry), relates exactly the event
/// itself. An event yields at most one finding, or two when it is a zone
/// entry (a novel entry and a repeated one).
pub proof fn lemma_findings_follow_event_kind(e: PhysicalEvent, o: OutcomeView)
    ensures
        ({
            let d = detections(e, o);
            &&& (e.kind == EventKind::ExitedZone || e.kind == EventKind::StateChanged
                || e.kind == EventKind::AccessGranted || e.kind == EventKind::TransactionRecorded)
                ==> d.len() == 0
            &&& d.len() <= if e.kind == EventKind::EnteredZone { 2int } else { 1int }
            &&& forall|i: int| 0 <= i < d.len() ==> graded_for(e.kind, #[trigger] d[i])
            &&& forall|i: int| 0 <= i < d.len() ==> (#[trigger] d[i]).snapshot_ids.len() == 0
            &&& forall|i: int| 0 <= i < d.len()
                && !(e.kind == EventKind::EnteredZone && (#[trigger] d[i]).severity == Severity::High)
                ==> d[i].related_event_ids == seq![e.id]
        }),
{
    reveal_with_fuel(present, 6);
    let fs = rule_findings(e, o);
    assert(fs.drop_last().drop_last().drop_last().drop_last().drop_last() =~= Seq::<Option<DetectedAnomalyView>>::empty());
}

/// Detection depends on nothing but the content of the event and the
/// store's answers: the same content always yields the same anomalies, with
/// identical explanations.
pub proof fn lemma_detection_is_reproducible(e1: PhysicalEvent, e2: PhysicalEvent, o: OutcomeView)
    requires
        same_event(&e1, &e2),
    ensures
        detections(e1, o) == detections(e2, o),
{
    assert(rule_findings(e1, o) =~= rule_findings(e2, o));
}

} // verus!
