use std::io::{Cursor, Write};

use gtfs_rt::model::descriptor::TripDescriptor;
use gtfs_rt::model::enums::{StopTimeScheduleRelationship, TripScheduleRelationship};
use gtfs_rt::model::feed::{FeedEntity, FeedMessage};
use gtfs_rt::model::trip_update::{StopTimeEvent, StopTimeUpdate, TripUpdate};
use gtfs_rt::model::vehicle::VehiclePosition;
use gtfs_rt::rules::{check_snapshot, Severity};
use gtfs_rt::schedule::StaticFeed;
use zip::write::SimpleFileOptions;
use zip::ZipWriter;

fn static_feed() -> StaticFeed {
    feed_from(&[
        ("routes.txt", "route_id\nR1\n"),
        ("trips.txt", "route_id,service_id,trip_id\nR1,S1,T1\n"),
        ("stops.txt", "stop_id\nS1\nS2\n"),
        ("stop_times.txt", "trip_id,stop_id,stop_sequence\nT1,S1,1\nT1,S2,2\n"),
    ])
}

fn feed_from(files: &[(&str, &str)]) -> StaticFeed {
    let mut output = Cursor::new(Vec::new());
    let mut writer = ZipWriter::new(&mut output);
    for (name, content) in files {
        writer.start_file(*name, SimpleFileOptions::default()).unwrap();
        writer.write_all(content.as_bytes()).unwrap();
    }
    writer.finish().unwrap();
    StaticFeed::from_zip_bytes(&output.into_inner()).unwrap()
}

fn trip(trip_id: &str, route_id: Option<&str>) -> TripDescriptor {
    TripDescriptor {
        trip_id: Some(trip_id.to_owned()),
        route_id: route_id.map(str::to_owned),
        ..TripDescriptor::default()
    }
}

fn realtime(entities: Vec<FeedEntity>) -> FeedMessage {
    FeedMessage { header: None, entity: entities }
}

#[test]
fn unknown_trip_and_route_are_reported() {
    let entity = FeedEntity {
        id: Some("e1".to_owned()),
        trip_update: Some(TripUpdate {
            trip: Some(trip("ghost", Some("R9"))),
            ..TripUpdate::default()
        }),
        ..FeedEntity::default()
    };
    let report = check_snapshot(&static_feed(), &realtime(vec![entity]));
    assert_eq!(report.notices[0].code, "RT_TRIP_NOT_IN_STATIC");
    assert_eq!(report.notices.len(), 1);
}

#[test]
fn route_mismatch_and_stop_sequence_mismatch_are_reported() {
    let entity = FeedEntity {
        id: Some("e1".to_owned()),
        trip_update: Some(TripUpdate {
            trip: Some(trip("T1", Some("R9"))),
            stop_time_update: vec![StopTimeUpdate {
                stop_id: Some("S2".to_owned()),
                stop_sequence: Some(1),
                ..StopTimeUpdate::default()
            }],
            ..TripUpdate::default()
        }),
        ..FeedEntity::default()
    };
    let report = check_snapshot(&static_feed(), &realtime(vec![entity]));
    assert!(report.notices.iter().any(|notice| notice.code == "RT_ROUTE_MISMATCH"));
    assert!(report.notices.iter().any(|notice| notice.code == "RT_STOP_SEQUENCE_MISMATCH"));
}

#[test]
fn dynamic_relationship_skips_static_trip_requirement() {
    let entity = FeedEntity {
        id: Some("e1".to_owned()),
        vehicle: Some(VehiclePosition {
            trip: Some(TripDescriptor {
                trip_id: Some("added-trip".to_owned()),
                schedule_relationship: Some(TripScheduleRelationship::Added),
                ..TripDescriptor::default()
            }),
            ..VehiclePosition::default()
        }),
        ..FeedEntity::default()
    };
    let report = check_snapshot(&static_feed(), &realtime(vec![entity]));
    assert!(report.is_clean());
    assert_eq!(report.skipped_dynamic_trips, 1);
}

#[test]
fn multiple_vehicles_for_same_trip_are_a_warning() {
    let entities = (1..=2)
        .map(|number| FeedEntity {
            id: Some(format!("v{number}")),
            vehicle: Some(VehiclePosition {
                trip: Some(trip("T1", None)),
                ..VehiclePosition::default()
            }),
            ..FeedEntity::default()
        })
        .collect();
    let report = check_snapshot(&static_feed(), &realtime(entities));
    assert_eq!(report.notices.len(), 1);
    assert_eq!(report.notices[0].code, "RT_MULTIPLE_VEHICLES_FOR_TRIP");
    assert_eq!(report.notices[0].severity, Severity::Warning);
}

// ── Further cases ───────────────────────────────────────────────────────────

fn update_entity(trip_id: &str, updates: Vec<StopTimeUpdate>) -> FeedEntity {
    FeedEntity {
        id: Some("e1".to_owned()),
        trip_update: Some(TripUpdate {
            trip: Some(trip(trip_id, None)),
            stop_time_update: updates,
            ..TripUpdate::default()
        }),
        ..FeedEntity::default()
    }
}

#[test]
fn a_known_trip_on_its_route_is_clean() {
    let entity = FeedEntity {
        id: Some("e1".to_owned()),
        trip_update: Some(TripUpdate {
            trip: Some(trip("T1", Some("R1"))),
            stop_time_update: vec![StopTimeUpdate {
                stop_id: Some("S2".to_owned()),
                stop_sequence: Some(2),
                ..StopTimeUpdate::default()
            }],
            ..TripUpdate::default()
        }),
        ..FeedEntity::default()
    };
    let report = check_snapshot(&static_feed(), &realtime(vec![entity]));
    assert!(report.is_clean(), "{report:?}");
    assert_eq!(report.checked_entities, 1);
    assert_eq!(report.checked_trip_references, 1);
    assert_eq!(report.checked_stop_time_updates, 1);
}

#[test]
fn unknown_stop_is_reported_with_its_path() {
    let report = check_snapshot(
        &static_feed(),
        &realtime(vec![update_entity(
            "T1",
            vec![StopTimeUpdate { stop_id: Some("S9".to_owned()), ..StopTimeUpdate::default() }],
        )]),
    );
    assert_eq!(report.notices.len(), 1, "{report:?}");
    assert_eq!(report.notices[0].code, "RT_STOP_NOT_IN_STATIC");
    assert_eq!(report.notices[0].severity, Severity::Error);
    assert_eq!(report.notices[0].path, "entity[0].trip_update.stop_time_update[0].stop_id");
    assert_eq!(report.notices[0].entity_id.as_deref(), Some("e1"));
}

#[test]
fn unknown_stop_sequence_is_reported() {
    let report = check_snapshot(
        &static_feed(),
        &realtime(vec![update_entity(
            "T1",
            vec![StopTimeUpdate { stop_sequence: Some(7), ..StopTimeUpdate::default() }],
        )]),
    );
    assert_eq!(report.notices.len(), 1, "{report:?}");
    assert_eq!(report.notices[0].code, "RT_STOP_SEQUENCE_NOT_IN_STATIC");
}

#[test]
fn a_skipped_stop_with_a_prediction_is_reported() {
    let report = check_snapshot(
        &static_feed(),
        &realtime(vec![update_entity(
            "T1",
            vec![StopTimeUpdate {
                stop_sequence: Some(1),
                schedule_relationship: Some(StopTimeScheduleRelationship::Skipped),
                arrival: Some(StopTimeEvent { delay: Some(60), ..StopTimeEvent::default() }),
                ..StopTimeUpdate::default()
            }],
        )]),
    );
    assert!(
        report.notices.iter().any(|n| n.code == "RT_TIME_ON_NON_STOPPING_UPDATE"),
        "{report:?}"
    );
}

#[test]
fn unknown_stop_is_reported_even_for_a_trip_without_stop_times() {
    let feed = feed_from(&[
        ("routes.txt", "route_id\nR1\n"),
        ("trips.txt", "route_id,service_id,trip_id\nR1,S1,T1\nR1,S1,T2\n"),
        ("stops.txt", "stop_id\nS1\n"),
        ("stop_times.txt", "trip_id,stop_id,stop_sequence\nT1,S1,1\n"),
    ]);
    let report = check_snapshot(
        &feed,
        &realtime(vec![update_entity(
            "T2",
            vec![StopTimeUpdate {
                stop_id: Some("S9".to_owned()),
                stop_sequence: Some(1),
                ..StopTimeUpdate::default()
            }],
        )]),
    );
    let codes: Vec<&str> = report.notices.iter().map(|n| n.code).collect();
    assert_eq!(codes, vec!["RT_STOP_NOT_IN_STATIC"]);
    assert_eq!(report.checked_stop_time_updates, 1);
}

#[test]
fn updates_of_an_unknown_trip_are_not_checked() {
    let report = check_snapshot(
        &static_feed(),
        &realtime(vec![update_entity(
            "ghost",
            vec![StopTimeUpdate { stop_id: Some("S9".to_owned()), ..StopTimeUpdate::default() }],
        )]),
    );
    let codes: Vec<&str> = report.notices.iter().map(|n| n.code).collect();
    assert_eq!(codes, vec!["RT_TRIP_NOT_IN_STATIC"]);
    assert_eq!(report.checked_stop_time_updates, 0);
}

#[test]
fn an_empty_snapshot_is_clean() {
    let report = check_snapshot(&static_feed(), &realtime(Vec::new()));
    assert!(report.is_clean());
    assert_eq!(report.checked_entities, 0);
    assert_eq!(report.vehicle_trips, 0);
}
