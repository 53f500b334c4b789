use gtfs_rt::decode::ProtoEnum;
use gtfs_rt::model::enums::{
    AlertCause, AlertEffect, AlertSeverityLevel, DropOffPickupType, Incrementality, OccupancyStatus,
    TripScheduleRelationship, VehicleStopStatus,
};

#[test]
fn round_trips_through_i32() {
    assert_eq!(
        TripScheduleRelationship::from_i32(3),
        Some(TripScheduleRelationship::Canceled)
    );
    assert_eq!(TripScheduleRelationship::Canceled.as_i32(), 3);
    assert_eq!(TripScheduleRelationship::New.proto_name(), "New");
}

#[test]
fn undefined_trip_relationship_four_is_rejected() {
    // 4 is skipped in the specification; filling it would hide the producer's bug.
    assert_eq!(TripScheduleRelationship::from_i32(4), None);
}

#[test]
fn alert_enums_do_not_define_zero() {
    // Cause/Effect/SeverityLevel start at 1. A producer sending 0 probably
    // assumes a proto3 default, which is a finding.
    assert_eq!(AlertCause::from_i32(0), None);
    assert_eq!(AlertEffect::from_i32(0), None);
    assert_eq!(AlertSeverityLevel::from_i32(0), None);
}

#[test]
fn out_of_range_values_are_rejected() {
    assert_eq!(OccupancyStatus::from_i32(9), None);
    assert_eq!(VehicleStopStatus::from_i32(-1), None);
    assert_eq!(Incrementality::from_i32(2), None);
}

#[test]
fn every_defined_number_round_trips() {
    for v in -2..20 {
        if let Some(e) = TripScheduleRelationship::from_i32(v) {
            assert_eq!(e.as_i32(), v);
        }
        if let Some(e) = AlertEffect::from_i32(v) {
            assert_eq!(e.as_i32(), v);
        }
    }
    assert_eq!(TripScheduleRelationship::from_i32(8), Some(TripScheduleRelationship::New));
    assert_eq!(AlertCause::from_i32(13), Some(AlertCause::SpecialEvent));
}

#[test]
fn enum_names_follow_the_specification() {
    assert_eq!(TripScheduleRelationship::enum_name(), "TripDescriptor.ScheduleRelationship");
    assert_eq!(Incrementality::enum_name(), "FeedHeader.Incrementality");
    assert_eq!(DropOffPickupType::NotAvailable.proto_name(), "None");
    assert_eq!(DropOffPickupType::NotAvailable.as_i32(), 1);
    assert_eq!(Incrementality::Differential.proto_name(), "Differential");
}
