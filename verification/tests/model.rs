use oddee::anomaly::{
    found_anomaly, initial_status, Anomaly, AnomalyStatus, Severity, UpdateAnomalyStatusRequest,
};
use oddee::error::{ApiError, ApiErrorKind, StoreAction};
use oddee::event::{found_event, CreateEventRequest, EventKind, EventSource, PhysicalEvent};
use oddee::pagination::{
    has_more, list_window, AnomalyFilters, EventFilters, ListWindow, PaginatedAnomaliesResponse,
    PaginatedEventsResponse,
};
use oddee::text::{decimal_string, is_blank, two_digit_string, uuid_string};
use oddee::time::{utc_datetime, UtcTimestamp};

fn request(entity_id: &str, zone: &str) -> CreateEventRequest {
    CreateEventRequest {
        occurred_at: UtcTimestamp { secs: 1_768_435_200, nanos: 0 },
        source: EventSource::Camera,
        entity_id: entity_id.to_string(),
        kind: EventKind::EnteredZone,
        zone: zone.to_string(),
        metadata: "{}".to_string(),
    }
}

#[test]
fn utc_hour_reads_the_hour_of_the_day() {
    assert_eq!(UtcTimestamp { secs: 1_768_435_200, nanos: 0 }.utc_hour(), 0);
    assert_eq!(UtcTimestamp { secs: 1_768_435_200 + 3 * 3600 + 15 * 60, nanos: 0 }.utc_hour(), 3);
    assert_eq!(UtcTimestamp { secs: 1_768_435_200 + 14 * 3600 + 32 * 60, nanos: 0 }.utc_hour(), 14);
    assert_eq!(UtcTimestamp { secs: -1, nanos: 0 }.utc_hour(), 23);
    assert_eq!(UtcTimestamp { secs: -86_400 + 5 * 3600, nanos: 0 }.utc_hour(), 5);
}

#[test]
fn windows_are_closed_at_both_ends() {
    let from = UtcTimestamp { secs: 100, nanos: 0 };
    let to = UtcTimestamp { secs: 200, nanos: 5 };
    assert!(from.is_within(&from, &to));
    assert!(to.is_within(&from, &to));
    assert!(!UtcTimestamp { secs: 200, nanos: 6 }.is_within(&from, &to));
    assert!(!UtcTimestamp { secs: 99, nanos: 999_999_999 }.is_within(&from, &to));
    assert_eq!(to.minus_seconds(3600), UtcTimestamp { secs: 200 - 3600, nanos: 5 });
}

#[test]
fn civil_dates_become_unix_timestamps() {
    assert_eq!(utc_datetime(2026, 1, 15, 0, 0, 0), Some(UtcTimestamp { secs: 1_768_435_200, nanos: 0 }));
    assert_eq!(utc_datetime(1970, 1, 1, 0, 0, 0), Some(UtcTimestamp { secs: 0, nanos: 0 }));
    assert_eq!(utc_datetime(2024, 2, 29, 12, 0, 0), Some(UtcTimestamp { secs: 1_709_208_000, nanos: 0 }));
    assert_eq!(utc_datetime(2023, 2, 29, 0, 0, 0), None);
    assert_eq!(utc_datetime(2023, 13, 1, 0, 0, 0), None);
    assert_eq!(utc_datetime(2023, 1, 1, 24, 0, 0), None);
    assert_eq!(utc_datetime(400_000, 1, 1, 0, 0, 0), None);
    assert_eq!(utc_datetime(-262_143, 1, 1, 0, 0, 0), Some(UtcTimestamp { secs: oddee::time::CHRONO_MIN_SECS, nanos: 0 }));
    assert_eq!(utc_datetime(262_142, 12, 31, 23, 59, 59), Some(UtcTimestamp { secs: oddee::time::CHRONO_MAX_SECS, nanos: 0 }));
    assert_eq!(utc_datetime(-262_144, 12, 31, 0, 0, 0), None);
}

#[test]
fn decimal_text_of_numbers() {
    assert_eq!(decimal_string(0), "0");
    assert_eq!(decimal_string(3), "3");
    assert_eq!(decimal_string(42), "42");
    assert_eq!(decimal_string(1_000_007), "1000007");
    assert_eq!(decimal_string(u64::MAX), u64::MAX.to_string());
    assert_eq!(two_digit_string(3), "03");
    assert_eq!(two_digit_string(0), "00");
    assert_eq!(two_digit_string(23), "23");
}

#[test]
fn blank_text_is_only_white_space() {
    assert!(is_blank(""));
    assert!(is_blank("   \t\n"));
    assert!(is_blank("\u{3000}\u{a0}\u{2009}"));
    assert!(!is_blank(" a "));
    assert!(!is_blank("zone-a"));
    for s in ["", " ", "\u{85}", "x", "\u{200b}", " \u{1680} "] {
        assert_eq!(is_blank(s), s.trim().is_empty(), "{s:?}");
    }
}

#[test]
fn uuid_text_is_hyphenated_lowercase() {
    assert_eq!(uuid_string(0x67e5504410b1426f9247bb680e5fe0c8), "67e55044-10b1-426f-9247-bb680e5fe0c8");
    assert_eq!(uuid_string(0), "00000000-0000-0000-0000-000000000000");
}

#[test]
fn error_kinds_map_to_status_codes() {
    assert_eq!(ApiErrorKind::BadRequest.status_code(), 400);
    assert_eq!(ApiErrorKind::NotFound.status_code(), 404);
    assert_eq!(ApiErrorKind::Internal.status_code(), 500);
    let e = ApiError::storage_failure(StoreAction::CreateEvent, "connection refused");
    assert_eq!(e.kind, ApiErrorKind::Internal);
    assert_eq!(e.status_code(), 500);
    assert_eq!(e.message, "Failed to create physical event: connection refused");
    let e = ApiError::storage_failure(StoreAction::CountAnomalies, "timeout");
    assert_eq!(e.message, "Failed to count anomalies: timeout");
}

#[test]
fn event_requests_need_an_entity_and_a_zone() {
    assert!(request("package-BX-2041", "warehouse-a").validate().is_ok());
    let e = request("   ", "warehouse-a").validate().unwrap_err();
    assert_eq!(e.kind, ApiErrorKind::BadRequest);
    assert_eq!(e.message, "entity_id must not be empty");
    let e = request("package-BX-2041", "").validate().unwrap_err();
    assert_eq!(e.kind, ApiErrorKind::BadRequest);
    assert_eq!(e.message, "zone must not be empty");
    let e = request("", " ").validate().unwrap_err();
    assert_eq!(e.message, "entity_id must not be empty");
}

#[test]
fn a_request_becomes_the_stored_event() {
    let e = request("package-BX-2041", "warehouse-a").into_event(7);
    assert_eq!(e.id, 7);
    assert_eq!(e.entity_id, "package-BX-2041");
    assert_eq!(e.zone, "warehouse-a");
    assert_eq!(e.kind, EventKind::EnteredZone);
    assert_eq!(e.source, EventSource::Camera);
}

#[test]
fn a_missing_event_is_not_found() {
    let id = 0x0dccd63e3fe3413683d55ff80ea58d8d_u128;
    let e = found_event(id, None).unwrap_err();
    assert_eq!(e.kind, ApiErrorKind::NotFound);
    assert_eq!(e.message, "Physical event 0dccd63e-3fe3-4136-83d5-5ff80ea58d8d not found");
    let event: PhysicalEvent = request("a", "b").into_event(id);
    assert_eq!(found_event(id, Some(event)).unwrap().id, id);
}

#[test]
fn status_updates_accept_the_four_statuses() {
    for (text, status) in [
        ("new", AnomalyStatus::New),
        ("investigating", AnomalyStatus::Investigating),
        ("resolved", AnomalyStatus::Resolved),
        ("dismissed", AnomalyStatus::Dismissed),
    ] {
        let r = UpdateAnomalyStatusRequest { status: text.to_string() };
        assert_eq!(r.validate().unwrap(), status);
        assert_eq!(status.name(), text);
    }
}

#[test]
fn status_updates_reject_anything_else() {
    for text in ["acknowledged", "New", "", "resolved "] {
        let e = UpdateAnomalyStatusRequest { status: text.to_string() }.validate().unwrap_err();
        assert_eq!(e.kind, ApiErrorKind::BadRequest);
        assert_eq!(
            e.message,
            format!("Invalid status '{text}'. Must be one of: new, investigating, resolved, dismissed")
        );
    }
}

#[test]
fn new_anomalies_default_to_new() {
    assert_eq!(initial_status(None), "new");
    assert_eq!(initial_status(Some("investigating".to_string())), "investigating");
    assert_eq!(Severity::High.name(), "High");
    assert_eq!(Severity::Critical.name(), "Critical");
    assert_eq!(Severity::Medium.name(), "Medium");
    assert_eq!(Severity::Low.name(), "Low");
}

#[test]
fn a_missing_anomaly_is_not_found() {
    let id = 0x57561b04e4bd401f81b64aba9e8c67e1_u128;
    let e = found_anomaly(id, None).unwrap_err();
    assert_eq!(e.status_code(), 404);
    assert_eq!(e.message, "Anomaly not found: 57561b04-e4bd-401f-81b6-4aba9e8c67e1");
    let a = Anomaly {
        id,
        detected_at: UtcTimestamp { secs: 0, nanos: 0 },
        severity: "High".to_string(),
        score_bits: 0.9f32.to_bits(),
        title: "t".to_string(),
        explanation: "x".to_string(),
        status: "new".to_string(),
        related_event_ids: vec![1, 2],
    };
    assert_eq!(found_anomaly(id, Some(a)).unwrap().related_event_ids, vec![1, 2]);
}

#[test]
fn list_windows_default_and_clamp() {
    assert_eq!(list_window(None, None), ListWindow { limit: 50, offset: 0 });
    assert_eq!(list_window(Some(10), Some(20)), ListWindow { limit: 10, offset: 20 });
    assert_eq!(list_window(Some(0), Some(-5)), ListWindow { limit: 1, offset: 0 });
    assert_eq!(list_window(Some(500), None), ListWindow { limit: 100, offset: 0 });
    assert_eq!(list_window(Some(i64::MIN), Some(i64::MAX)), ListWindow { limit: 1, offset: i64::MAX });
    let f = EventFilters { entity_id: Some("package-BX-2041".to_string()), zone: None, limit: Some(10), offset: None };
    assert_eq!(f.window(), ListWindow { limit: 10, offset: 0 });
    let f = AnomalyFilters { severity: Some("High".to_string()), status: None, limit: Some(20), offset: None };
    assert_eq!(f.window(), ListWindow { limit: 20, offset: 0 });
}

#[test]
fn has_more_when_items_remain_after_the_page() {
    assert!(has_more(0, 10, 42));
    assert!(!has_more(0, 3, 3));
    assert!(!has_more(40, 2, 42));
    assert!(has_more(39, 2, 42));
    assert!(!has_more(i64::MAX, 0, 42));
    assert!(!has_more(i64::MAX, 5, i64::MAX));
}

#[test]
fn pages_carry_their_window_and_total() {
    let p = PaginatedEventsResponse::new(Vec::new(), 42, ListWindow { limit: 10, offset: 50 });
    assert_eq!((p.total, p.limit, p.offset, p.has_more), (42, 10, 50, false));
    let a = Anomaly {
        id: 1,
        detected_at: UtcTimestamp { secs: 0, nanos: 0 },
        severity: "High".to_string(),
        score_bits: 0.9f32.to_bits(),
        title: "Repeated zone entry".to_string(),
        explanation: String::new(),
        status: "new".to_string(),
        related_event_ids: Vec::new(),
    };
    let p = PaginatedAnomaliesResponse::new(vec![a], 3, ListWindow { limit: 20, offset: 0 });
    assert_eq!((p.items.len(), p.total, p.limit, p.offset, p.has_more), (1, 3, 20, 0, true));
}

#[test]
fn status_names_round_trip() {
    for s in [AnomalyStatus::New, AnomalyStatus::Investigating, AnomalyStatus::Resolved, AnomalyStatus::Dismissed] {
        assert_eq!(AnomalyStatus::from_name(s.name()), Some(s));
    }
    assert_eq!(AnomalyStatus::from_name("closed"), None);
}
