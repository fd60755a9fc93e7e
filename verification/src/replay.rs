use vstd::prelude::*;
use vstd::string::*;

use crate::anomaly::Severity;
use crate::event::{CreateEventRequest, EventKind, EventSource, PhysicalEvent};
use crate::event_log::{
    activity_where, count_where, detections_in, is_other_visit, is_recent_denial, is_recent_zone_event,
    is_transaction_before, lemma_activity_prefix_skip, lemma_count_prefix_all, lemma_count_prefix_skip,
    lemma_first_entry_is_novel, lemma_missing_object_without_transaction,
    lemma_off_hours_movement, lemma_reentry_without_exit, lemma_third_denial_is_critical, unique_ids,
};
use crate::lookup::ZoneActivity;
use crate::rules::{exit_between, is_reentry, DetectedAnomalyView};
use crate::time::{civil_unix_seconds, hour_of_day, utc_datetime, UtcTimestamp, CHRONO_MAX_SECS, CHRONO_MIN_SECS};

verus! {

/// One event of the deterministic demonstration scenario, with its time
/// already resolved; `metadata` is JSON text.
#[derive(Debug)]
pub struct ScenarioEvent {
    pub label: String,
    pub occurred_at: UtcTimestamp,
    pub source: EventSource,
    pub entity_id: String,
    pub kind: EventKind,
    pub zone: String,
    pub metadata: String,
}

/// The content of a scenario event.
pub struct ScenarioEventView {
    pub label: Seq<char>,
    pub occurred_at: UtcTimestamp,
    pub source: EventSource,
    pub entity_id: Seq<char>,
    pub kind: EventKind,
    pub zone: Seq<char>,
    pub metadata: Seq<char>,
}

impl View for ScenarioEvent {
    type V = ScenarioEventView;

    open spec fn view(&self) -> ScenarioEventView {
        ScenarioEventView {
            label: self.label@,
            occurred_at: self.occurred_at,
            source: self.source,
            entity_id: self.entity_id@,
            kind: self.kind,
            zone: self.zone@,
            metadata: self.metadata@,
        }
    }
}

/// A scenario event with the given content.
pub open spec fn scenario_row(
    label: Seq<char>,
    occurred_at: UtcTimestamp,
    source: EventSource,
    entity_id: Seq<char>,
    kind: EventKind,
    zone: Seq<char>,
    metadata: Seq<char>,
) -> ScenarioEventView {
    ScenarioEventView { label, occurred_at, source, entity_id, kind, zone, metadata }
}

/// The scenario, in posting order: normal warehouse activity, then the
/// package that goes missing from shelf B-12 at 14:32 (with a midnight
/// `base`), long after its last inventory transaction, a crate entering zone A twice without
/// leaving, a conveyor moved at `off_hours`, and three access denials of
/// one badge within four minutes. Times are offsets from `base`, except the
/// off-hours movement.
pub open spec fn scenario_table(base: UtcTimestamp, off_hours: UtcTimestamp) -> Seq<ScenarioEventView> {
    seq![
        scenario_row("Forklift enters loading dock"@, UtcTimestamp { secs: (base.secs + 0) as i64, nanos: base.nanos }, EventSource::Sensor, "forklift-07"@, EventKind::EnteredZone, "loading-dock"@, "{}"@),
        scenario_row("Forklift exits loading dock"@, UtcTimestamp { secs: (base.secs + 120) as i64, nanos: base.nanos }, EventSource::Sensor, "forklift-07"@, EventKind::ExitedZone, "loading-dock"@, "{}"@),
        scenario_row("Worker enters packing area"@, UtcTimestamp { secs: (base.secs + 150) as i64, nanos: base.nanos }, EventSource::AccessControl, "worker-12"@, EventKind::EnteredZone, "packing"@, "{}"@),
        scenario_row("Worker exits packing area"@, UtcTimestamp { secs: (base.secs + 600) as i64, nanos: base.nanos }, EventSource::AccessControl, "worker-12"@, EventKind::ExitedZone, "packing"@, "{}"@),
        scenario_row("Package BX-2041 placed on shelf B-12"@, UtcTimestamp { secs: (base.secs + 700) as i64, nanos: base.nanos }, EventSource::Camera, "package-BX-2041"@, EventKind::EnteredZone, "shelf-b12"@, "{\"camera_id\":\"cam-04\"}"@),
        scenario_row("Inventory transaction recorded for BX-2041"@, UtcTimestamp { secs: (base.secs + 710) as i64, nanos: base.nanos }, EventSource::Inventory, "package-BX-2041"@, EventKind::TransactionRecorded, "shelf-b12"@, "{\"transaction_type\":\"placement\"}"@),
        scenario_row("Second forklift makes a routine pass through zone A"@, UtcTimestamp { secs: (base.secs + 1800) as i64, nanos: base.nanos }, EventSource::Sensor, "forklift-03"@, EventKind::EnteredZone, "zone-a"@, "{}"@),
        scenario_row("Second forklift exits zone A"@, UtcTimestamp { secs: (base.secs + 1900) as i64, nanos: base.nanos }, EventSource::Sensor, "forklift-03"@, EventKind::ExitedZone, "zone-a"@, "{}"@),
        scenario_row("*** BX-2041 goes missing from Shelf B-12 (headline anomaly) ***"@, UtcTimestamp { secs: (base.secs + 52320) as i64, nanos: base.nanos }, EventSource::Camera, "package-BX-2041"@, EventKind::ObjectMissing, "shelf-b12"@, "{\"camera_id\":\"cam-04\"}"@),
        scenario_row("Crate CR-118 enters zone A"@, UtcTimestamp { secs: (base.secs + 24000) as i64, nanos: base.nanos }, EventSource::Camera, "crate-CR-118"@, EventKind::EnteredZone, "zone-a"@, "{}"@),
        scenario_row("Crate CR-118 enters zone A again, no exit in between"@, UtcTimestamp { secs: (base.secs + 24300) as i64, nanos: base.nanos }, EventSource::Camera, "crate-CR-118"@, EventKind::EnteredZone, "zone-a"@, "{}"@),
        scenario_row("Machine moved at 03:15 UTC (off-hours)"@, off_hours, EventSource::Machine, "conveyor-02"@, EventKind::ObjectMoved, "zone-c"@, "{}"@),
        scenario_row("Badge 099 denied access to server room (1/3)"@, UtcTimestamp { secs: (base.secs + 25200) as i64, nanos: base.nanos }, EventSource::AccessControl, "badge-099"@, EventKind::AccessDenied, "server-room"@, "{}"@),
        scenario_row("Badge 099 denied access to server room (2/3)"@, UtcTimestamp { secs: (base.secs + 25320) as i64, nanos: base.nanos }, EventSource::AccessControl, "badge-099"@, EventKind::AccessDenied, "server-room"@, "{}"@),
        scenario_row("Badge 099 denied access to server room (3/3)"@, UtcTimestamp { secs: (base.secs + 25440) as i64, nanos: base.nanos }, EventSource::AccessControl, "badge-099"@, EventKind::AccessDenied, "server-room"@, "{}"@),
    ]
}

/// 2026-01-15 00:00:00 UTC, the scenario's start.
pub open spec fn scenario_start() -> UtcTimestamp {
    UtcTimestamp { secs: 1768435200, nanos: 0 }
}

/// 2026-01-15 03:15:00 UTC, the scenario's off-hours movement.
pub open spec fn scenario_off_hours() -> UtcTimestamp {
    UtcTimestamp { secs: 1768446900, nanos: 0 }
}

/// The scenario's fixed start, 2026-01-15 00:00:00 UTC. Keeping it fixed
/// rather than taking the current time makes every replay identical.
pub fn scenario_date() -> (t: UtcTimestamp)
    ensures
        t.secs == civil_unix_seconds(2026, 1, 15, 0, 0, 0),
        t.secs == 1768435200,
        t.nanos == 0,
        CHRONO_MIN_SECS <= t.secs <= CHRONO_MAX_SECS,
{
    assert(civil_unix_seconds(2026, 1, 15, 0, 0, 0) == 1768435200);
    match utc_datetime(2026, 1, 15, 0, 0, 0) {
        Some(t) => t,
        None => {
            assert(false);
            UtcTimestamp { secs: 0, nanos: 0 }
        },
    }
}

/// The instant of the scenario's off-hours movement, 2026-01-15 03:15:00
/// UTC: that rule reads the literal UTC hour, so it is not an offset.
pub fn off_hours_time() -> (t: UtcTimestamp)
    ensures
        t.secs == civil_unix_seconds(2026, 1, 15, 3, 15, 0),
        t.secs == 1768446900,
        t.nanos == 0,
{
    assert(civil_unix_seconds(2026, 1, 15, 3, 15, 0) == 1768446900);
    match utc_datetime(2026, 1, 15, 3, 15, 0) {
        Some(t) => t,
        None => {
            assert(false);
            UtcTimestamp { secs: 0, nanos: 0 }
        },
    }
}

/// Builds one scenario event.
fn scenario_event(
    label: &str,
    occurred_at: UtcTimestamp,
    source: EventSource,
    entity_id: &str,
    kind: EventKind,
    zone: &str,
    metadata: &str,
) -> (e: ScenarioEvent)
    ensures
        e@ == scenario_row(label@, occurred_at, source, entity_id@, kind, zone@, metadata@),
{
    ScenarioEvent {
        label: String::from_str(label),
        occurred_at,
        source,
        entity_id: String::from_str(entity_id),
        kind,
        zone: String::from_str(zone),
        metadata: String::from_str(metadata),
    }
}

/// The scenario started at `base`, with its off-hours movement at
/// `off_hours`, every time resolved.
pub fn scenario_at(base: UtcTimestamp, off_hours: UtcTimestamp) -> (events: Vec<ScenarioEvent>)
    requires
        base.secs <= i64::MAX - 52320,
    ensures
        events@.map_values(|e: ScenarioEvent| e@) == scenario_table(base, off_hours),
{
    let mut events: Vec<ScenarioEvent> = Vec::new();
    events.push(scenario_event("Forklift enters loading dock", base.plus_seconds(0), EventSource::Sensor, "forklift-07", EventKind::EnteredZone, "loading-dock", "{}"));
    events.push(scenario_event("Forklift exits loading dock", base.plus_seconds(120), EventSource::Sensor, "forklift-07", EventKind::ExitedZone, "loading-dock", "{}"));
    events.push(scenario_event("Worker enters packing area", base.plus_seconds(150), EventSource::AccessControl, "worker-12", EventKind::EnteredZone, "packing", "{}"));
    events.push(scenario_event("Worker exits packing area", base.plus_seconds(600), EventSource::AccessControl, "worker-12", EventKind::ExitedZone, "packing", "{}"));
    events.push(scenario_event("Package BX-2041 placed on shelf B-12", base.plus_seconds(700), EventSource::Camera, "package-BX-2041", EventKind::EnteredZone, "shelf-b12", "{\"camera_id\":\"cam-04\"}"));
    events.push(scenario_event("Inventory transaction recorded for BX-2041", base.plus_seconds(710), EventSource::Inventory, "package-BX-2041", EventKind::TransactionRecorded, "shelf-b12", "{\"transaction_type\":\"placement\"}"));
    events.push(scenario_event("Second forklift makes a routine pass through zone A", base.plus_seconds(1800), EventSource::Sensor, "forklift-03", EventKind::EnteredZone, "zone-a", "{}"));
    events.push(scenario_event("Second forklift exits zone A", base.plus_seconds(1900), EventSource::Sensor, "forklift-03", EventKind::ExitedZone, "zone-a", "{}"));
    events.push(scenario_event("*** BX-2041 goes missing from Shelf B-12 (headline anomaly) ***", base.plus_seconds(52320), EventSource::Camera, "package-BX-2041", EventKind::ObjectMissing, "shelf-b12", "{\"camera_id\":\"cam-04\"}"));
    events.push(scenario_event("Crate CR-118 enters zone A", base.plus_seconds(24000), EventSource::Camera, "crate-CR-118", EventKind::EnteredZone, "zone-a", "{}"));
    events.push(scenario_event("Crate CR-118 enters zone A again, no exit in between", base.plus_seconds(24300), EventSource::Camera, "crate-CR-118", EventKind::EnteredZone, "zone-a", "{}"));
    events.push(scenario_event("Machine moved at 03:15 UTC (off-hours)", off_hours, EventSource::Machine, "conveyor-02", EventKind::ObjectMoved, "zone-c", "{}"));
    events.push(scenario_event("Badge 099 denied access to server room (1/3)", base.plus_seconds(25200), EventSource::AccessControl, "badge-099", EventKind::AccessDenied, "server-room", "{}"));
    events.push(scenario_event("Badge 099 denied access to server room (2/3)", base.plus_seconds(25320), EventSource::AccessControl, "badge-099", EventKind::AccessDenied, "server-room", "{}"));
    events.push(scenario_event("Badge 099 denied access to server room (3/3)", base.plus_seconds(25440), EventSource::AccessControl, "badge-099", EventKind::AccessDenied, "server-room", "{}"));
    assert(events@.map_values(|e: ScenarioEvent| e@) =~= scenario_table(base, off_hours));
    events
}

/// The full scenario: started at `scenario_date()`, with the off-hours
/// movement at `off_hours_time()`. Posting it to a fresh store exercises
/// every detection rule.
pub fn scenario() -> (events: Vec<ScenarioEvent>)
    ensures
        events@.map_values(|e: ScenarioEvent| e@) == scenario_table(scenario_start(), scenario_off_hours()),
{
    let base = scenario_date();
    let off_hours = off_hours_time();
    scenario_at(base, off_hours)
}

impl ScenarioEvent {
    /// The request that posts this event.
    pub fn to_request(&self) -> (r: CreateEventRequest)
        ensures
            r.occurred_at == self.occurred_at,
            r.source == self.source,
            r.entity_id@ == self.entity_id@,
            r.kind == self.kind,
            r.zone@ == self.zone@,
            r.metadata@ == self.metadata@,
    {
        CreateEventRequest {
            occurred_at: self.occurred_at,
            source: self.source,
            entity_id: self.entity_id.clone(),
            kind: self.kind,
            zone: self.zone.clone(),
            metadata: self.metadata.clone(),
        }
    }
}

/// `h` holds the scenario as the replay stores it: its events in posting
/// order, each with the entity, zone, kind and time of its scenario entry,
/// and with unique ids.
pub open spec fn stores_scenario(h: Seq<PhysicalEvent>) -> bool {
    let t = scenario_table(scenario_start(), scenario_off_hours());
    &&& h.len() == 15
    &&& forall|i: int| 0 <= i < 15 ==> {
        &&& (#[trigger] h[i]).entity_id@ == t[i].entity_id
        &&& h[i].zone@ == t[i].zone
        &&& h[i].kind == t[i].kind
        &&& h[i].occurred_at == t[i].occurred_at
    }
    &&& unique_ids(h)
}

/// What detection reports for the `i`-th replayed event, run against the
/// store holding the events posted up to and including it.
pub open spec fn replay_detections(h: Seq<PhysicalEvent>, i: int) -> Seq<DetectedAnomalyView> {
    detections_in(h.take(i + 1), h[i])
}

/// Some finding of `d` has the given title and severity.
pub open spec fn reports(d: Seq<DetectedAnomalyView>, title: Seq<char>, severity: Severity) -> bool {
    exists|k: int| 0 <= k < d.len() && (#[trigger] d[k]).title == title && d[k].severity == severity
}

/// The content of each replayed event, entry by entry.
proof fn lemma_scenario_contents(h: Seq<PhysicalEvent>)
    requires
        stores_scenario(h),
    ensures
        h[0].entity_id@ == "forklift-07"@, h[0].zone@ == "loading-dock"@, h[0].kind == EventKind::EnteredZone,
        h[0].occurred_at == (UtcTimestamp { secs: 1768435200, nanos: 0 }),
        h[1].entity_id@ == "forklift-07"@, h[1].zone@ == "loading-dock"@, h[1].kind == EventKind::ExitedZone,
        h[1].occurred_at == (UtcTimestamp { secs: 1768435320, nanos: 0 }),
        h[2].entity_id@ == "worker-12"@, h[2].zone@ == "packing"@, h[2].kind == EventKind::EnteredZone,
        h[2].occurred_at == (UtcTimestamp { secs: 1768435350, nanos: 0 }),
        h[3].entity_id@ == "worker-12"@, h[3].zone@ == "packing"@, h[3].kind == EventKind::ExitedZone,
        h[3].occurred_at == (UtcTimestamp { secs: 1768435800, nanos: 0 }),
        h[4].entity_id@ == "package-BX-2041"@, h[4].zone@ == "shelf-b12"@, h[4].kind == EventKind::EnteredZone,
        h[4].occurred_at == (UtcTimestamp { secs: 1768435900, nanos: 0 }),
        h[5].entity_id@ == "package-BX-2041"@, h[5].zone@ == "shelf-b12"@, h[5].kind == EventKind::TransactionRecorded,
        h[5].occurred_at == (UtcTimestamp { secs: 1768435910, nanos: 0 }),
        h[6].entity_id@ == "forklift-03"@, h[6].zone@ == "zone-a"@, h[6].kind == EventKind::EnteredZone,
        h[6].occurred_at == (UtcTimestamp { secs: 1768437000, nanos: 0 }),
        h[7].entity_id@ == "forklift-03"@, h[7].zone@ == "zone-a"@, h[7].kind == EventKind::ExitedZone,
        h[7].occurred_at == (UtcTimestamp { secs: 1768437100, nanos: 0 }),
        h[8].entity_id@ == "package-BX-2041"@, h[8].zone@ == "shelf-b12"@, h[8].kind == EventKind::ObjectMissing,
        h[8].occurred_at == (UtcTimestamp { secs: 1768487520, nanos: 0 }),
        h[9].entity_id@ == "crate-CR-118"@, h[9].zone@ == "zone-a"@, h[9].kind == EventKind::EnteredZone,
        h[9].occurred_at == (UtcTimestamp { secs: 1768459200, nanos: 0 }),
        h[10].entity_id@ == "crate-CR-118"@, h[10].zone@ == "zone-a"@, h[10].kind == EventKind::EnteredZone,
        h[10].occurred_at == (UtcTimestamp { secs: 1768459500, nanos: 0 }),
        h[11].entity_id@ == "conveyor-02"@, h[11].zone@ == "zone-c"@, h[11].kind == EventKind::ObjectMoved,
        h[11].occurred_at == (UtcTimestamp { secs: 1768446900, nanos: 0 }),
        h[12].entity_id@ == "badge-099"@, h[12].zone@ == "server-room"@, h[12].kind == EventKind::AccessDenied,
        h[12].occurred_at == (UtcTimestamp { secs: 1768460400, nanos: 0 }),
        h[13].entity_id@ == "badge-099"@, h[13].zone@ == "server-room"@, h[13].kind == EventKind::AccessDenied,
        h[13].occurred_at == (UtcTimestamp { secs: 1768460520, nanos: 0 }),
        h[14].entity_id@ == "badge-099"@, h[14].zone@ == "server-room"@, h[14].kind == EventKind::AccessDenied,
        h[14].occurred_at == (UtcTimestamp { secs: 1768460640, nanos: 0 }),
{
}

/// The lengths of the scenario's entity and zone names, which tell them
/// apart.
proof fn lemma_scenario_name_lengths()
    ensures
        "badge-099"@.len() == 9,
        "conveyor-02"@.len() == 11,
        "crate-CR-118"@.len() == 12,
        "forklift-03"@.len() == 11,
        "forklift-07"@.len() == 11,
        "loading-dock"@.len() == 12,
        "package-BX-2041"@.len() == 15,
        "packing"@.len() == 7,
        "server-room"@.len() == 11,
        "shelf-b12"@.len() == 9,
        "worker-12"@.len() == 9,
        "zone-a"@.len() == 6,
        "zone-c"@.len() == 6,
{
    reveal_strlit("badge-099");
    reveal_strlit("conveyor-02");
    reveal_strlit("crate-CR-118");
    reveal_strlit("forklift-03");
    reveal_strlit("forklift-07");
    reveal_strlit("loading-dock");
    reveal_strlit("package-BX-2041");
    reveal_strlit("packing");
    reveal_strlit("server-room");
    reveal_strlit("shelf-b12");
    reveal_strlit("worker-12");
    reveal_strlit("zone-a");
    reveal_strlit("zone-c");
}

/// The first entry of each entity into each zone is reported as novel.
proof fn lemma_replay_first_entry(h: Seq<PhysicalEvent>, i: int)
    requires
        stores_scenario(h),
        i == 0 || i == 2 || i == 4 || i == 6 || i == 9,
    ensures
        reports(replay_detections(h, i), "Novel zone entry"@, Severity::Low),
{
    lemma_scenario_contents(h);
    lemma_scenario_name_lengths();
    let hi = h.take(i + 1);
    assert forall|k: int| 0 <= k < i + 1 implies !is_other_visit(h[i], #[trigger] hi[k]) by {
        assert(hi[k] == h[k]);
    }
    lemma_first_entry_is_novel(hi, h[i]);
    assert(replay_detections(h, i)[0].title == "Novel zone entry"@);
}

/// Replaying the scenario into an empty store fires every rule: the first
/// entry of each entity into each zone is a novel entry (low), the
/// package's disappearance at 14:32 has no transaction in the hour before
/// it (high), the crate's second entry into zone A is a repeated entry
/// (high) and not a novel one, the conveyor moves at 03:15 (medium), and
/// the badge's third denial is critical.
pub proof fn lemma_replay_fires_every_rule(h: Seq<PhysicalEvent>)
    requires
        stores_scenario(h),
    ensures
        reports(replay_detections(h, 0), "Novel zone entry"@, Severity::Low),
        reports(replay_detections(h, 2), "Novel zone entry"@, Severity::Low),
        reports(replay_detections(h, 4), "Novel zone entry"@, Severity::Low),
        reports(replay_detections(h, 6), "Novel zone entry"@, Severity::Low),
        reports(replay_detections(h, 9), "Novel zone entry"@, Severity::Low),
        !reports(replay_detections(h, 10), "Novel zone entry"@, Severity::Low),
        reports(replay_detections(h, 8), "Object missing without transaction"@, Severity::High),
        reports(replay_detections(h, 10), "Repeated zone entry"@, Severity::High),
        reports(replay_detections(h, 11), "Off-hours movement"@, Severity::Medium),
        reports(replay_detections(h, 14), "Repeated access denied"@, Severity::Critical),
{
    lemma_scenario_contents(h);
    lemma_scenario_name_lengths();
    assert(unique_ids(h));
    lemma_replay_first_entry(h, 0);
    lemma_replay_first_entry(h, 2);
    lemma_replay_first_entry(h, 4);
    lemma_replay_first_entry(h, 6);
    lemma_replay_first_entry(h, 9);
    assert(h.take(11).len() == 11);
    assert(h.take(11)[9] == h[9]);
    assert(h[9].id != h[10].id);
    assert(is_other_visit(h[10], h.take(11)[9]));
    lemma_first_entry_is_novel(h.take(11), h[10]);
    assert(h.take(9).len() == 9);
    assert forall|k: int| 0 <= k < 9 implies !is_transaction_before(h[8], #[trigger] h.take(9)[k]) by {
        assert(h.take(9)[k] == h[k]);
    }
    lemma_missing_object_without_transaction(h.take(9), h[8]);
    assert(replay_detections(h, 8)[0].title == "Object missing without transaction"@);
    let zp = |x: PhysicalEvent| is_recent_zone_event(h[10], x);
    let h11 = h.take(11);
    assert forall|j: int| 0 <= j < 9 implies !zp(#[trigger] h11[j]) by {
        assert(h11[j] == h[j]);
    }
    assert(h11.take(0) =~= Seq::<PhysicalEvent>::empty());
    lemma_activity_prefix_skip(h11, zp, 0, 9);
    assert(h11.take(10).drop_last() =~= h11.take(9));
    assert(h11.take(11).drop_last() =~= h11.take(10));
    assert(h11[9] == h[9] && h11[10] == h[10]);
    let a9 = ZoneActivity { id: h[9].id, kind: h[9].kind, occurred_at: h[9].occurred_at };
    let a10 = ZoneActivity { id: h[10].id, kind: h[10].kind, occurred_at: h[10].occurred_at };
    assert(activity_where(h11.take(10), zp) =~= seq![a9]);
    assert(activity_where(h11.take(11), zp) =~= seq![a9, a10]);
    assert(h11.take(11) =~= h11);
    let rows = activity_where(h11, zp);
    assert(rows =~= seq![a9, a10]);
    assert(!exit_between(rows, rows[0].occurred_at, rows[1].occurred_at));
    assert(is_reentry(rows, 0, 1));
    lemma_reentry_without_exit(h11, h[10]);
    let d10 = replay_detections(h, 10);
    assert(d10[d10.len() - 1].title == "Repeated zone entry"@);
    assert(hour_of_day(1768446900) == 3);
    lemma_off_hours_movement(h.take(12), h[11]);
    assert(replay_detections(h, 11)[0].title == "Off-hours movement"@);
    let dp = |x: PhysicalEvent| is_recent_denial(h[14], x);
    let h15 = h.take(15);
    assert forall|j: int| 0 <= j < 12 implies !dp(#[trigger] h15[j]) by {
        assert(h15[j] == h[j]);
    }
    assert forall|j: int| 12 <= j < 15 implies dp(#[trigger] h15[j]) by {
        assert(h15[j] == h[j]);
    }
    assert(h15.take(0) =~= Seq::<PhysicalEvent>::empty());
    lemma_count_prefix_skip(h15, dp, 0, 12);
    lemma_count_prefix_all(h15, dp, 12, 15);
    assert(h15.take(15) =~= h15);
    lemma_third_denial_is_critical(h15, h[14]);
    assert(replay_detections(h, 14)[0].title == "Repeated access denied"@);
}


/// Each scenario event comes from the system that observes it: inventory
/// transactions from the inventory system, the conveyor's movement from the
/// machine, the worker's and the badge's events from access control, the
/// forklifts from floor sensors, and everything else (the package and the
/// crate) from the cameras. This holds whatever the start and off-hours
/// times.
pub proof fn lemma_scenario_sources(base: UtcTimestamp, off_hours: UtcTimestamp)
    ensures
        forall|i: int| 0 <= i < 15 ==> {
            let r = #[trigger] scenario_table(base, off_hours)[i];
            &&& (r.source == EventSource::Inventory <==> r.kind == EventKind::TransactionRecorded)
            &&& (r.source == EventSource::Machine <==> r.kind == EventKind::ObjectMoved)
            &&& (r.source == EventSource::AccessControl <==> (r.entity_id == "worker-12"@ || r.entity_id == "badge-099"@))
            &&& (r.source == EventSource::Sensor <==> (r.entity_id == "forklift-07"@ || r.entity_id == "forklift-03"@))
            &&& (r.source == EventSource::Camera <==> (r.entity_id == "package-BX-2041"@ || r.entity_id == "crate-CR-118"@)
                && r.kind != EventKind::TransactionRecorded)
        },
        scenario_table(base, off_hours).len() == 15,
{
    lemma_scenario_name_lengths();
    reveal_strlit("conveyor-02");
    reveal_strlit("forklift-03");
    reveal_strlit("forklift-07");
    assert("conveyor-02"@[0] != "forklift-03"@[0]);
    assert("conveyor-02"@[0] != "forklift-07"@[0]);
    assert("forklift-03"@[10] != "forklift-07"@[10]);
    reveal_strlit("worker-12");
    reveal_strlit("badge-099");
    assert("worker-12"@[0] != "badge-099"@[0]);
}

/// Only the package's events carry metadata: the cameras that see it report
/// camera `cam-04`, and its inventory transaction is a placement; every
/// other event carries the empty JSON object.
pub proof fn lemma_scenario_metadata(base: UtcTimestamp, off_hours: UtcTimestamp)
    ensures
        forall|i: int| 0 <= i < 15 ==> {
            let r = #[trigger] scenario_table(base, off_hours)[i];
            &&& r.entity_id != "package-BX-2041"@ ==> r.metadata == "{}"@
            &&& r.entity_id == "package-BX-2041"@ && r.source == EventSource::Camera
                ==> r.metadata == "{\"camera_id\":\"cam-04\"}"@
            &&& r.kind == EventKind::TransactionRecorded ==> r.metadata == "{\"transaction_type\":\"placement\"}"@
        },
{
    lemma_scenario_name_lengths();
}

} // verus!
