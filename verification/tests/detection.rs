use oddee::anomaly::Severity;
use oddee::detection::{detection_plan, run_all, DetectionOutcomes};
use oddee::event::{EventKind, EventSource, PhysicalEvent};
use oddee::event_log::EventLog;
use oddee::lookup::{
    access_denial_lookup, transaction_lookup, zone_visit_lookup, zone_window_lookup, ZoneActivity,
};
use oddee::replay::{off_hours_time, scenario, scenario_date};
use oddee::rules::{
    novel_zone_entry, object_missing_without_transaction, off_hours_movement, repeated_access_denied,
    repeated_zone_entry, DetectedAnomaly,
};
use oddee::time::UtcTimestamp;

const DAY: i64 = 1_768_435_200; // 2026-01-15 00:00:00 UTC

fn at(secs_into_day: i64) -> UtcTimestamp {
    UtcTimestamp { secs: DAY + secs_into_day, nanos: 0 }
}

fn event(id: u128, when: UtcTimestamp, kind: EventKind, entity_id: &str, zone: &str) -> PhysicalEvent {
    PhysicalEvent {
        id,
        occurred_at: when,
        source: EventSource::Sensor,
        entity_id: entity_id.to_string(),
        kind,
        zone: zone.to_string(),
        metadata: "{}".to_string(),
    }
}

fn activity(id: u128, kind: EventKind, when: UtcTimestamp) -> ZoneActivity {
    ZoneActivity { id, kind, occurred_at: when }
}

fn no_answers() -> DetectionOutcomes {
    DetectionOutcomes { transaction_found: None, access_denials: None, prior_visits: None, zone_activity: None }
}

fn titles(found: &[DetectedAnomaly]) -> Vec<&str> {
    found.iter().map(|a| a.title.as_str()).collect()
}

#[test]
fn missing_object_without_transaction_is_high() {
    let e = event(9, at(14 * 3600 + 32 * 60), EventKind::ObjectMissing, "package-BX-2041", "shelf-b12");
    let a = object_missing_without_transaction(&e, Some(false)).unwrap();
    assert_eq!(a.title, "Object missing without transaction");
    assert_eq!(
        a.explanation,
        "Entity 'package-BX-2041' went missing in zone 'shelf-b12' with no inventory transaction in the prior 60 minutes."
    );
    assert_eq!(a.severity, Severity::High);
    assert_eq!(a.score_hundredths, 90);
    assert_eq!(a.related_event_ids, vec![9]);
    assert!(a.snapshot_ids.is_empty());
    // A failed lookup counts as no transaction.
    assert!(object_missing_without_transaction(&e, None).is_some());
    assert!(object_missing_without_transaction(&e, Some(true)).is_none());
    let moved = event(9, at(0), EventKind::ObjectMoved, "package-BX-2041", "shelf-b12");
    assert!(object_missing_without_transaction(&moved, Some(false)).is_none());
}

#[test]
fn third_access_denial_is_critical() {
    let e = event(3, at(7 * 3600), EventKind::AccessDenied, "badge-099", "server-room");
    assert!(repeated_access_denied(&e, Some(2)).is_none());
    assert!(repeated_access_denied(&e, None).is_none());
    let a = repeated_access_denied(&e, Some(3)).unwrap();
    assert_eq!(a.title, "Repeated access denied");
    assert_eq!(a.explanation, "Entity 'badge-099' had 3 consecutive access denials within 10 minutes.");
    assert_eq!((a.severity, a.score_hundredths), (Severity::Critical, 95));
    assert_eq!(a.related_event_ids, vec![3]);
    let a = repeated_access_denied(&e, Some(12)).unwrap();
    assert_eq!(a.explanation, "Entity 'badge-099' had 12 consecutive access denials within 10 minutes.");
    let granted = event(3, at(0), EventKind::AccessGranted, "badge-099", "server-room");
    assert!(repeated_access_denied(&granted, Some(5)).is_none());
}

#[test]
fn movement_before_six_is_off_hours() {
    let e = event(4, at(3 * 3600 + 15 * 60), EventKind::ObjectMoved, "conveyor-02", "zone-c");
    let a = off_hours_movement(&e).unwrap();
    assert_eq!(a.title, "Off-hours movement");
    assert_eq!(a.explanation, "Entity 'conveyor-02' was moved in zone 'zone-c' during off-hours (03:00 UTC).");
    assert_eq!((a.severity, a.score_hundredths), (Severity::Medium, 70));
    assert_eq!(a.related_event_ids, vec![4]);
    let e = event(4, at(5 * 3600 + 59 * 60 + 59), EventKind::ObjectMoved, "conveyor-02", "zone-c");
    assert!(off_hours_movement(&e).unwrap().explanation.ends_with("(05:00 UTC)."));
    let e = event(4, at(6 * 3600), EventKind::ObjectMoved, "conveyor-02", "zone-c");
    assert!(off_hours_movement(&e).is_none());
    let e = event(4, at(3600), EventKind::ObjectMissing, "conveyor-02", "zone-c");
    assert!(off_hours_movement(&e).is_none());
}

#[test]
fn first_entry_into_a_zone_is_novel() {
    let e = event(5, at(0), EventKind::EnteredZone, "forklift-07", "loading-dock");
    let a = novel_zone_entry(&e, Some(0)).unwrap();
    assert_eq!(a.title, "Novel zone entry");
    assert_eq!(a.explanation, "Entity 'forklift-07' entered zone 'loading-dock' for the first time.");
    assert_eq!((a.severity, a.score_hundredths), (Severity::Low, 50));
    assert_eq!(a.related_event_ids, vec![5]);
    assert!(novel_zone_entry(&e, Some(1)).is_none());
    // A failed lookup counts as a previous visit.
    assert!(novel_zone_entry(&e, None).is_none());
}

#[test]
fn reentry_without_exit_is_high() {
    let e = event(11, at(6 * 3600 + 45 * 60), EventKind::EnteredZone, "crate-CR-118", "zone-a");
    let rows = vec![
        activity(10, EventKind::EnteredZone, at(6 * 3600 + 40 * 60)),
        activity(11, EventKind::EnteredZone, at(6 * 3600 + 45 * 60)),
    ];
    let a = repeated_zone_entry(&e, Some(rows)).unwrap();
    assert_eq!(a.title, "Repeated zone entry");
    assert_eq!(
        a.explanation,
        "Entity 'crate-CR-118' entered zone 'zone-a' 2 times within a short window without an exit."
    );
    assert_eq!((a.severity, a.score_hundredths), (Severity::High, 90));
    assert_eq!(a.related_event_ids, vec![10, 11]);
}

#[test]
fn reentry_after_an_exit_is_not_flagged() {
    let e = event(12, at(1000), EventKind::EnteredZone, "crate-CR-118", "zone-a");
    let rows = vec![
        activity(10, EventKind::EnteredZone, at(100)),
        activity(13, EventKind::ObjectMoved, at(200)),
        activity(11, EventKind::ExitedZone, at(500)),
        activity(12, EventKind::EnteredZone, at(1000)),
    ];
    assert!(repeated_zone_entry(&e, Some(rows)).is_none());
    assert!(repeated_zone_entry(&e, Some(vec![activity(12, EventKind::EnteredZone, at(1000))])).is_none());
    assert!(repeated_zone_entry(&e, None).is_none());
    // Two entries before the exit still count, with every entry related.
    let rows = vec![
        activity(10, EventKind::EnteredZone, at(100)),
        activity(14, EventKind::EnteredZone, at(150)),
        activity(11, EventKind::ExitedZone, at(500)),
        activity(12, EventKind::EnteredZone, at(1000)),
    ];
    let a = repeated_zone_entry(&e, Some(rows)).unwrap();
    assert_eq!(a.related_event_ids, vec![10, 14, 12]);
    assert!(a.explanation.contains(" 3 times "));
    let exit = event(12, at(1000), EventKind::ExitedZone, "crate-CR-118", "zone-a");
    let rows = vec![activity(1, EventKind::EnteredZone, at(1)), activity(2, EventKind::EnteredZone, at(2))];
    assert!(repeated_zone_entry(&exit, Some(rows)).is_none());
}

#[test]
fn lookups_follow_the_event_kind() {
    let e = event(1, at(10_000), EventKind::ObjectMissing, "p", "z");
    let l = transaction_lookup(&e).unwrap();
    assert_eq!((l.entity_id.as_str(), l.zone.as_str()), ("p", "z"));
    assert_eq!((l.from, l.to), (at(10_000 - 3600), at(10_000)));
    assert!(access_denial_lookup(&e).is_none());
    assert!(zone_visit_lookup(&e).is_none());
    let d = event(2, at(10_000), EventKind::AccessDenied, "badge", "z");
    let l = access_denial_lookup(&d).unwrap();
    assert_eq!((l.from, l.to), (at(10_000 - 600), at(10_000)));
    let n = event(3, at(10_000), EventKind::EnteredZone, "p", "z");
    assert_eq!(zone_visit_lookup(&n).unwrap().excluded_id, 3);
    let l = zone_window_lookup(&n).unwrap();
    assert_eq!((l.from, l.to), (at(10_000 - 900), at(10_000)));
    let plan = detection_plan(&n);
    assert!(plan.transaction.is_none() && plan.access_denials.is_none());
    assert!(plan.zone_visits.is_some() && plan.zone_window.is_some());
    let plan = detection_plan(&event(4, at(0), EventKind::StateChanged, "m", "z"));
    assert!(plan.transaction.is_none() && plan.access_denials.is_none());
    assert!(plan.zone_visits.is_none() && plan.zone_window.is_none());
}

#[test]
fn run_all_reports_in_rule_order() {
    let e = event(11, at(3 * 3600), EventKind::EnteredZone, "crate", "zone-a");
    let outcomes = DetectionOutcomes {
        transaction_found: None,
        access_denials: None,
        prior_visits: Some(0),
        zone_activity: Some(vec![
            activity(10, EventKind::EnteredZone, at(3 * 3600 - 60)),
            activity(11, EventKind::EnteredZone, at(3 * 3600)),
        ]),
    };
    let found = run_all(&e, outcomes);
    assert_eq!(titles(&found), vec!["Novel zone entry", "Repeated zone entry"]);
    let quiet = event(1, at(3 * 3600), EventKind::TransactionRecorded, "crate", "zone-a");
    assert!(run_all(&quiet, no_answers()).is_empty());
}

#[test]
fn log_answers_the_rule_lookups() {
    let mut log = EventLog::new();
    log.record(event(1, at(1000), EventKind::TransactionRecorded, "p", "z"));
    log.record(event(2, at(1000), EventKind::TransactionRecorded, "p", "other"));
    log.record(event(3, at(5000), EventKind::AccessDenied, "p", "z"));
    log.record(event(4, at(5100), EventKind::AccessDenied, "p", "y"));
    assert_eq!(log.len(), 4);
    let missing = event(5, at(1000 + 3600), EventKind::ObjectMissing, "p", "z");
    assert!(log.has_transaction(&transaction_lookup(&missing).unwrap()));
    let later = event(6, at(1001 + 3600), EventKind::ObjectMissing, "p", "z");
    assert!(!log.has_transaction(&transaction_lookup(&later).unwrap()));
    let denied = event(7, at(5200), EventKind::AccessDenied, "p", "x");
    assert_eq!(log.count_denials(&access_denial_lookup(&denied).unwrap()), 2);
    assert_eq!(log.answers(&denied).access_denials, Some(2));
    assert_eq!(log.get(2).id, 3);
}

#[test]
fn ingest_detects_against_the_log_including_the_event() {
    let mut log = EventLog::new();
    let found = log.ingest(event(1, at(0), EventKind::AccessDenied, "badge-099", "server-room"));
    assert!(found.is_empty());
    let found = log.ingest(event(2, at(120), EventKind::AccessDenied, "badge-099", "server-room"));
    assert!(found.is_empty());
    let found = log.ingest(event(3, at(240), EventKind::AccessDenied, "badge-099", "server-room"));
    assert_eq!(titles(&found), vec!["Repeated access denied"]);
    // Still three denials within the ten minutes up to 700 s.
    let found = log.ingest(event(4, at(700), EventKind::AccessDenied, "badge-099", "server-room"));
    assert_eq!(titles(&found), vec!["Repeated access denied"]);
    // At 1300 s only the 700 s denial and this one remain in the window.
    let found = log.ingest(event(5, at(1300), EventKind::AccessDenied, "badge-099", "server-room"));
    assert!(found.is_empty());
    assert_eq!(log.len(), 5);
}

#[test]
fn replay_scenario_has_fixed_times() {
    assert_eq!(scenario_date(), UtcTimestamp { secs: DAY, nanos: 0 });
    assert_eq!(off_hours_time(), at(3 * 3600 + 15 * 60));
    let events = scenario();
    assert_eq!(events.len(), 15);
    assert_eq!(events[0].label, "Forklift enters loading dock");
    assert_eq!(events[0].occurred_at, at(0));
    assert_eq!(events[8].entity_id, "package-BX-2041");
    assert_eq!(events[8].kind, EventKind::ObjectMissing);
    assert_eq!(events[8].occurred_at, at(14 * 3600 + 32 * 60));
    assert_eq!(events[8].occurred_at.utc_hour(), 14);
    assert_eq!(events[8].metadata, r#"{"camera_id":"cam-04"}"#);
    assert_eq!(events[11].occurred_at.utc_hour(), 3);
    assert_eq!(events[14].occurred_at, at(7 * 3600 + 240));
    let r = events[5].to_request();
    assert_eq!(r.kind, EventKind::TransactionRecorded);
    assert!(r.validate().is_ok());
}

#[test]
fn replay_produces_every_kind_of_anomaly() {
    let mut log = EventLog::new();
    let mut all: Vec<(String, DetectedAnomaly)> = Vec::new();
    for (i, s) in scenario().into_iter().enumerate() {
        let request = s.to_request();
        assert!(request.validate().is_ok());
        let found = log.ingest(request.into_event(i as u128 + 1));
        assert!(found.len() <= 1, "event {i} yields at most one finding");
        for a in found {
            all.push((s.entity_id.clone(), a));
        }
    }
    let count = |title: &str| all.iter().filter(|(_, a)| a.title == title).count();
    assert_eq!(count("Novel zone entry"), 5);
    assert_eq!(count("Object missing without transaction"), 1);
    assert_eq!(count("Repeated zone entry"), 1);
    assert_eq!(count("Off-hours movement"), 1);
    assert_eq!(count("Repeated access denied"), 1);
    assert_eq!(all.len(), 9);
    let headline = all.iter().find(|(_, a)| a.title == "Object missing without transaction").unwrap();
    assert_eq!(headline.0, "package-BX-2041");
    assert_eq!(headline.1.severity, Severity::High);
    assert_eq!(
        headline.1.explanation,
        "Entity 'package-BX-2041' went missing in zone 'shelf-b12' with no inventory transaction in the prior 60 minutes."
    );
    let crate_entry = all.iter().find(|(_, a)| a.title == "Repeated zone entry").unwrap();
    assert_eq!(crate_entry.0, "crate-CR-118");
    assert_eq!(crate_entry.1.related_event_ids, vec![10, 11]);
    let off = all.iter().find(|(_, a)| a.title == "Off-hours movement").unwrap();
    assert_eq!(off.1.explanation, "Entity 'conveyor-02' was moved in zone 'zone-c' during off-hours (03:00 UTC).");
    let denied = all.iter().find(|(_, a)| a.title == "Repeated access denied").unwrap();
    assert_eq!(denied.1.severity, Severity::Critical);
    assert_eq!(denied.1.related_event_ids, vec![15]);
}

#[test]
fn replay_is_reproducible() {
    let run = || {
        let mut log = EventLog::new();
        let mut out = Vec::new();
        for (i, s) in scenario().into_iter().enumerate() {
            for a in log.ingest(s.to_request().into_event(i as u128 + 1)) {
                out.push(a.explanation);
            }
        }
        out
    };
    assert_eq!(run(), run());
}

#[test]
fn scenario_times_are_offsets_from_its_start() {
    let events = oddee::replay::scenario_at(UtcTimestamp { secs: 0, nanos: 0 }, UtcTimestamp { secs: 42, nanos: 7 });
    let times: Vec<i64> = events.iter().map(|e| e.occurred_at.secs).collect();
    assert_eq!(
        times,
        vec![0, 120, 150, 600, 700, 710, 1800, 1900, 52320, 24000, 24300, 42, 25200, 25320, 25440]
    );
    assert_eq!(events[11].occurred_at.nanos, 7);
    assert_eq!(events[11].label, "Machine moved at 03:15 UTC (off-hours)");
}

#[test]
fn log_answers_zone_questions_in_time_order() {
    let mut log = EventLog::new();
    log.record(event(1, at(100), EventKind::EnteredZone, "crate", "zone-a"));
    log.record(event(2, at(50), EventKind::ExitedZone, "crate", "zone-a"));
    log.record(event(3, at(100), EventKind::EnteredZone, "crate", "zone-b"));
    log.record(event(4, at(100), EventKind::EnteredZone, "forklift", "zone-a"));
    let entry = event(5, at(200), EventKind::EnteredZone, "crate", "zone-a");
    assert_eq!(log.count_visits(&zone_visit_lookup(&entry).unwrap()), 1);
    let rows = log.zone_activity(&zone_window_lookup(&entry).unwrap());
    assert_eq!(rows, vec![activity(2, EventKind::ExitedZone, at(50)), activity(1, EventKind::EnteredZone, at(100))]);
    let answers = log.answers(&entry);
    assert_eq!(answers.prior_visits, Some(1));
    assert_eq!(answers.transaction_found, None);
    assert_eq!(answers.access_denials, None);
}

#[test]
fn later_time_by_whole_seconds() {
    assert_eq!(at(0).plus_seconds(25_440), at(25_440));
    assert!(at(0).is_at_or_before(&at(0)));
    assert!(!at(1).is_at_or_before(&at(0)));
}

#[test]
fn an_entry_is_novel_when_later_entries_were_stored_first() {
    let mut log = EventLog::new();
    let found = log.ingest(event(1, at(7 * 3600), EventKind::EnteredZone, "crate-CR-118", "zone-a"));
    assert_eq!(titles(&found), vec!["Novel zone entry"]);
    // Stored after the 07:00 entry, but it happened first: still the first visit.
    let found = log.ingest(event(2, at(6 * 3600), EventKind::EnteredZone, "crate-CR-118", "zone-a"));
    assert_eq!(titles(&found), vec!["Novel zone entry"]);
    // A third entry at 07:30 has earlier entries.
    let found = log.ingest(event(3, at(7 * 3600 + 1800), EventKind::EnteredZone, "crate-CR-118", "zone-a"));
    assert!(!titles(&found).contains(&"Novel zone entry"));
    let l = zone_visit_lookup(&event(2, at(6 * 3600), EventKind::EnteredZone, "crate-CR-118", "zone-a")).unwrap();
    assert_eq!(l.to, at(6 * 3600));
    assert_eq!(log.count_visits(&l), 0);
}

#[test]
fn denial_findings_persist_as_events_are_added() {
    let mut log = EventLog::new();
    for (id, t) in [(1, 0), (2, 60), (3, 120)] {
        log.record(event(id, at(t), EventKind::AccessDenied, "badge-099", "server-room"));
    }
    let third = event(3, at(120), EventKind::AccessDenied, "badge-099", "server-room");
    assert_eq!(log.answers(&third).access_denials, Some(3));
    log.record(event(4, at(130), EventKind::AccessDenied, "badge-099", "lab"));
    log.record(event(5, at(90), EventKind::AccessGranted, "badge-099", "server-room"));
    let outcomes = log.answers(&third);
    assert_eq!(outcomes.access_denials, Some(3));
    assert_eq!(titles(&run_all(&third, outcomes)), vec!["Repeated access denied"]);
}

#[test]
fn related_entries_come_in_time_order_when_recorded_out_of_order() {
    let mut log = EventLog::new();
    log.ingest(event(1, at(600), EventKind::EnteredZone, "crate-CR-118", "zone-a"));
    log.ingest(event(2, at(300), EventKind::EnteredZone, "crate-CR-118", "zone-a"));
    log.record(event(4, at(600), EventKind::ObjectMoved, "crate-CR-118", "zone-a"));
    let found = log.ingest(event(3, at(900), EventKind::EnteredZone, "crate-CR-118", "zone-a"));
    let repeated = found.iter().find(|a| a.title == "Repeated zone entry").unwrap();
    assert_eq!(repeated.related_event_ids, vec![2, 1, 3]);
    let rows = log.zone_activity(&zone_window_lookup(&event(5, at(900), EventKind::EnteredZone, "crate-CR-118", "zone-a")).unwrap());
    // Same instant: recording order is kept.
    assert_eq!(rows.iter().map(|r| r.id).collect::<Vec<_>>(), vec![2, 1, 4, 3]);
}
