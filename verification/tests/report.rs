use std::io::{Cursor, Write};

use gtfs_rt::model::feed::FeedMessage;
use gtfs_rt::report::{build_report, entity_counts, referenced_trip_ids, LoadedSchedule, Report};
use gtfs_rt::decode_feed_message;

/// A minimal GTFS archive with one trip and one stop.
fn schedule_zip() -> Vec<u8> {
    let files = [
        ("routes.txt", "route_id\nR1\n"),
        ("trips.txt", "route_id,service_id,trip_id\nR1,S1,T1\n"),
        ("stops.txt", "stop_id\nS1\n"),
        ("stop_times.txt", "trip_id,stop_id,stop_sequence\nT1,S1,1\n"),
    ];
    let mut output = Cursor::new(Vec::new());
    let mut writer = zip::ZipWriter::new(&mut output);
    for (name, content) in files {
        writer.start_file(name, zip::write::SimpleFileOptions::default()).unwrap();
        writer.write_all(content.as_bytes()).unwrap();
    }
    writer.finish().unwrap();
    output.into_inner()
}

fn field(number: u8, payload: &[u8]) -> Vec<u8> {
    let mut out = vec![(number << 3) | 2, payload.len() as u8];
    out.extend_from_slice(payload);
    out
}

/// A valid payload with one entity carrying `trip_id`.
fn realtime_with_trip(trip_id: &str) -> Vec<u8> {
    let mut header = vec![0x0a, 3];
    header.extend_from_slice(b"2.0");
    let trip = field(1, trip_id.as_bytes());
    let trip_descriptor = field(1, &trip);
    let mut entity = field(1, b"e1");
    entity.extend_from_slice(&field(3, &trip_descriptor));

    let mut out = field(1, &header);
    out.extend_from_slice(&field(2, &entity));
    out
}

/// A payload with a trip and an update for one of its stops.
fn realtime_with_stop_update(trip_id: &str, stop_id: &str, sequence: u8) -> Vec<u8> {
    let mut header = vec![0x0a, 3];
    header.extend_from_slice(b"2.0");

    let trip_descriptor = field(1, &field(1, trip_id.as_bytes()));
    let mut stop_update = vec![0x08, sequence];
    stop_update.extend_from_slice(&field(4, stop_id.as_bytes()));

    let mut trip_update = trip_descriptor;
    trip_update.extend_from_slice(&field(2, &stop_update));

    let mut entity = field(1, b"e1");
    entity.extend_from_slice(&field(3, &trip_update));

    let mut out = field(1, &header);
    out.extend_from_slice(&field(2, &entity));
    out
}

fn analyze_feed(bytes: &[u8]) -> Report {
    build_report(bytes, None)
}

fn analyze_feed_with_schedule(bytes: &[u8], schedule_zip: &[u8]) -> Report {
    build_report(bytes, Some(schedule_zip))
}

#[test]
fn empty_payload_produces_a_report() {
    let report = analyze_feed(&[]);
    assert_eq!(report.schema_version, 1);
    assert!(report.anomalies.iter().any(|a| a.kind == "missing_required_field"));
}

#[test]
fn html_payload_is_classified_before_wire_decoding() {
    let report = analyze_feed(b"<!DOCTYPE html><html></html>");
    assert!(!report.valid_protobuf);
    assert!(report.anomalies.iter().any(|a| a.kind == "not_protobuf"));
    assert!(report.anomalies.iter().any(|a| a.level == "payload"));
}

#[test]
fn without_a_schedule_there_is_no_consistency_section() {
    let report = analyze_feed(&realtime_with_trip("T1"));
    assert!(report.consistency.is_none());
    assert!(report.schedule_error.is_none());
}

#[test]
fn a_matching_trip_produces_a_clean_consistency_section() {
    let report = analyze_feed_with_schedule(&realtime_with_trip("T1"), &schedule_zip());
    let section = report.consistency.as_ref().expect("consistency");
    assert!(section.notices.is_empty(), "{report:?}");
    assert_eq!(section.schedule.trips, 1);
}

#[test]
fn a_referenced_trip_keeps_its_stop_times_through_the_filter() {
    let report =
        analyze_feed_with_schedule(&realtime_with_stop_update("T1", "S1", 1), &schedule_zip());
    let section = report.consistency.as_ref().expect("consistency");
    assert!(section.notices.is_empty(), "{report:?}");
    assert_eq!(section.indexed_stop_times, 1);
    assert_eq!(section.checked_stop_time_updates, 1);
}

#[test]
fn a_trip_missing_from_the_schedule_is_reported() {
    let report = analyze_feed_with_schedule(&realtime_with_trip("GHOST"), &schedule_zip());
    let section = report.consistency.as_ref().expect("consistency");
    assert!(section.notices.iter().any(|n| n.code == "RT_TRIP_NOT_IN_STATIC"), "{report:?}");
}

#[test]
fn the_cached_and_one_shot_paths_agree() {
    let zip = schedule_zip();
    for rt in [
        realtime_with_trip("T1"),
        realtime_with_trip("GHOST"),
        realtime_with_stop_update("T1", "S1", 1),
        realtime_with_stop_update("T1", "GHOST", 9),
    ] {
        let one_shot = analyze_feed_with_schedule(&rt, &zip);
        let cached = LoadedSchedule::load(&zip).unwrap().analyze(&rt);
        // The one difference allowed is how many stop-time rows are held.
        let strip = |mut report: Report| {
            if let Some(section) = report.consistency.as_mut() {
                section.indexed_stop_times = 0;
            }
            report
        };
        assert_eq!(strip(one_shot), strip(cached), "the paths differ");
    }
}

#[test]
fn a_cached_schedule_reports_what_it_holds() {
    let schedule = LoadedSchedule::load(&schedule_zip()).unwrap();
    assert_eq!(schedule.trips(), 1);
    assert_eq!(schedule.stop_times(), 1);
}

#[test]
fn a_broken_archive_is_rejected_by_the_cache() {
    assert!(LoadedSchedule::load(b"not a zip").is_err());
}

#[test]
fn a_broken_schedule_still_yields_the_realtime_report() {
    let report = analyze_feed_with_schedule(&realtime_with_trip("T1"), b"not a zip");
    assert!(report.schedule_error.is_some(), "{report:?}");
    assert!(report.consistency.is_none(), "{report:?}");
    assert_eq!(report.entities.total, 1);
}

// ── Further cases ───────────────────────────────────────────────────────────

#[test]
fn a_clean_payload_reads_as_protobuf() {
    let report = analyze_feed(&realtime_with_trip("T1"));
    assert!(report.valid_protobuf, "{report:?}");
    assert_eq!(report.bytes, realtime_with_trip("T1").len());
    let header = report.header.as_ref().unwrap();
    assert_eq!(header.gtfs_realtime_version.as_deref(), Some("2.0"));
    assert_eq!(header.incrementality, None);
    assert_eq!(report.entities.trip_updates, 1);
    assert_eq!(report.entities.without_payload, 0);
}

#[test]
fn anomaly_entries_carry_level_kind_path_and_offset() {
    // An entity with an id and nothing else: no payload.
    let mut header = vec![0x0a, 3];
    header.extend_from_slice(b"2.0");
    let mut bytes = field(1, &header);
    bytes.extend_from_slice(&field(2, &field(1, b"e1")));
    let report = analyze_feed(&bytes);
    assert!(report.valid_protobuf);
    let entry = report.anomalies.iter().find(|a| a.kind == "no_payload").unwrap();
    assert_eq!(entry.level, "schema");
    assert_eq!(entry.path, "entity[0]");
    assert_eq!(report.entities.without_payload, 1);
    assert!(!entry.message.is_empty());
}

#[test]
fn truncated_payload_is_a_wire_level_finding() {
    let mut bytes = realtime_with_trip("T1");
    bytes.pop();
    let report = analyze_feed(&bytes);
    assert!(!report.valid_protobuf);
    assert!(report.anomalies.iter().any(|a| a.level == "wire"), "{report:?}");
}

#[test]
fn referenced_trips_come_from_updates_and_vehicles() {
    let mut bytes = realtime_with_trip("T1");
    // A second entity with a vehicle position for T7.
    let mut entity = field(1, b"e2");
    entity.extend_from_slice(&field(4, &field(1, &field(1, b"T7"))));
    bytes.extend_from_slice(&field(2, &entity));
    let decoded = decode_feed_message(&bytes);
    let ids = referenced_trip_ids(&decoded.message);
    let ids: Vec<&str> = ids.iter().map(String::as_str).collect();
    assert_eq!(ids, vec!["T1", "T7"]);
    let counts = entity_counts(&decoded.message);
    assert_eq!(counts.total, 2);
    assert_eq!(counts.vehicles, 1);
    assert_eq!(counts.trip_updates, 1);
}

#[test]
fn an_empty_message_has_no_references() {
    let message = FeedMessage { header: None, entity: Vec::new() };
    assert!(referenced_trip_ids(&message).is_empty());
    assert_eq!(entity_counts(&message).total, 0);
}
