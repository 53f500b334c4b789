//! The field numbers of every message and the names of every enum, as
//! `gtfs-realtime.proto` gives them, stated apart from the decoding code.
use vstd::prelude::*;
use vstd::utf8::{decode_utf8, valid_utf8};
use crate::anomaly::{AnomalyKind, AnomalyView};
use crate::decode::{indexed_segment, law_enum_value_round_trip, spec_nested_at, Env, Message, ProtoEnum};
use crate::text::join_dot;
use crate::model::feed::spec_payload_count;
use crate::wire::{FieldView, ValueView};
use crate::model::feed::{FeedMessage, FeedMessageView, FeedHeader, FeedHeaderView, FeedEntity, FeedEntityView};
use crate::model::descriptor::{TripDescriptor, TripDescriptorView, ModifiedTripSelector, ModifiedTripSelectorView, VehicleDescriptor, VehicleDescriptorView, Position, PositionView, TimeRange, TimeRangeView, EntitySelector, EntitySelectorView, TranslatedString, TranslatedStringView, Translation, TranslationView, TranslatedImage, TranslatedImageView, LocalizedImage, LocalizedImageView};
use crate::model::trip_update::{TripUpdate, TripUpdateView, StopTimeUpdate, StopTimeUpdateView, StopTimeEvent, StopTimeEventView, StopTimeProperties, StopTimePropertiesView, TripProperties, TripPropertiesView};
use crate::model::vehicle::{VehiclePosition, VehiclePositionView, CarriageDetails, CarriageDetailsView};
use crate::model::alert::{Alert, AlertView};
use crate::model::modifications::{TripModifications, TripModificationsView, Modification, ModificationView, SelectedTrips, SelectedTripsView, StopSelector, StopSelectorView, ReplacementStop, ReplacementStopView};
use crate::model::shape_stop::{Shape, ShapeView, Stop, StopView};
use crate::model::enums::{Incrementality, TripScheduleRelationship, StopTimeScheduleRelationship, DropOffPickupType, VehicleStopStatus, CongestionLevel, OccupancyStatus, AlertCause, AlertEffect, AlertSeverityLevel, WheelchairAccessible, WheelchairBoarding, spec_incrementality_name, spec_trip_schedule_relationship_name, spec_stop_time_schedule_relationship_name, spec_drop_off_pickup_type_name, spec_vehicle_stop_status_name, spec_congestion_level_name, spec_occupancy_status_name, spec_alert_cause_name, spec_alert_effect_name, spec_alert_severity_level_name, spec_wheelchair_accessible_name, spec_wheelchair_boarding_name};

verus! {

/// The field numbers of `FeedMessage`: 1 `header`, 2 `entity`.
/// Each number sets its own field, read as protobuf reads its type, and
/// leaves the other fields as they were; a nested message comes from the
/// body decoded under the field's own name. A number the schema does not
/// define sets nothing and reports nothing here.
pub proof fn law_feed_message_field_numbers(
    m: FeedMessageView,
    s: Seq<u8>,
    offset: usize,
    env: Env,
    acc: Seq<AnomalyView>,
    g: FieldView,
)
    ensures
        ({
            let f = FieldView { number: 1, wire_type: 2, value: ValueView::Len(s), offset };
            let (r, a) = spec_nested_at::<FeedHeader>(f, "header"@, env, acc);
            &&& r matches Some(n) ==> <FeedMessage as Message>::spec_merge(m, f, env, acc) == (FeedMessageView { header: Some(n), ..m }, true, a)
            &&& r is None ==> <FeedMessage as Message>::spec_merge(m, f, env, acc) == (m, true, a)
        }),
        ({
            let f = FieldView { number: 2, wire_type: 2, value: ValueView::Len(s), offset };
            let (r, a) = spec_nested_at::<FeedEntity>(f, indexed_segment("entity"@, m.entity.len()), env, acc);
            &&& r matches Some(n) ==> <FeedMessage as Message>::spec_merge(m, f, env, acc) == (FeedMessageView { entity: m.entity.push(n), ..m }, true, a)
            &&& r is None ==> <FeedMessage as Message>::spec_merge(m, f, env, acc) == (m, true, a)
        }),
        !(g.number == 1 || g.number == 2) ==> <FeedMessage as Message>::spec_merge(m, g, env, acc) == (m, false, acc),
{
}

/// The field numbers of `FeedHeader`: 1 `gtfs_realtime_version`, 2 `incrementality`, 3 `timestamp`, 4 `feed_version`.
/// Each number sets its own field, read as protobuf reads its type, and
/// leaves the other fields as they were; a nested message comes from the
/// body decoded under the field's own name. A number the schema does not
/// define sets nothing and reports nothing here.
pub proof fn law_feed_header_field_numbers(
    m: FeedHeaderView,
    v: u64,
    s: Seq<u8>,
    e_incrementality: Incrementality,
    offset: usize,
    env: Env,
    acc: Seq<AnomalyView>,
    g: FieldView,
)
    ensures
        ({
            let f = FieldView { number: 1, wire_type: 2, value: ValueView::Len(s), offset };
            valid_utf8(s) ==> <FeedHeader as Message>::spec_merge(m, f, env, acc) == (FeedHeaderView { gtfs_realtime_version: Some(decode_utf8(s)), ..m }, true, acc)
        }),
        ({
            let f = FieldView { number: 2, wire_type: 0, value: ValueView::Varint(e_incrementality.spec_value() as i64 as u64), offset };
            <FeedHeader as Message>::spec_merge(m, f, env, acc) == (FeedHeaderView { incrementality: Some(e_incrementality), ..m }, true, acc)
        }),
        ({
            let f = FieldView { number: 3, wire_type: 0, value: ValueView::Varint(v), offset };
            <FeedHeader as Message>::spec_merge(m, f, env, acc) == (FeedHeaderView { timestamp: Some(v), ..m }, true, acc)
        }),
        ({
            let f = FieldView { number: 4, wire_type: 2, value: ValueView::Len(s), offset };
            valid_utf8(s) ==> <FeedHeader as Message>::spec_merge(m, f, env, acc) == (FeedHeaderView { feed_version: Some(decode_utf8(s)), ..m }, true, acc)
        }),
        !(g.number == 1 || g.number == 2 || g.number == 3 || g.number == 4) ==> <FeedHeader as Message>::spec_merge(m, g, env, acc) == (m, false, acc),
{
    law_enum_value_round_trip::<Incrementality>(
        env,
        acc,
        FieldView { number: 2, wire_type: 0, value: ValueView::Varint(e_incrementality.spec_value() as i64 as u64), offset },
        e_incrementality,
    );
}

/// The field numbers of `FeedEntity`: 1 `id`, 2 `is_deleted`, 3 `trip_update`, 4 `vehicle`, 5 `alert`, 6 `shape`, 7 `stop`, 8 `trip_modifications`.
/// Each number sets its own field, read as protobuf reads its type, and
/// leaves the other fields as they were; a nested message comes from the
/// body decoded under the field's own name. A number the schema does not
/// define sets nothing and reports nothing here.
pub proof fn law_feed_entity_field_numbers(
    m: FeedEntityView,
    v: u64,
    s: Seq<u8>,
    offset: usize,
    env: Env,
    acc: Seq<AnomalyView>,
    g: FieldView,
)
    ensures
        ({
            let f = FieldView { number: 1, wire_type: 2, value: ValueView::Len(s), offset };
            valid_utf8(s) ==> <FeedEntity as Message>::spec_merge(m, f, env, acc) == (FeedEntityView { id: Some(decode_utf8(s)), ..m }, true, acc)
        }),
        ({
            let f = FieldView { number: 2, wire_type: 0, value: ValueView::Varint(v), offset };
            <FeedEntity as Message>::spec_merge(m, f, env, acc) == (FeedEntityView { is_deleted: Some(v != 0), ..m }, true, acc)
        }),
        ({
            let f = FieldView { number: 3, wire_type: 2, value: ValueView::Len(s), offset };
            let (r, a) = spec_nested_at::<TripUpdate>(f, "trip_update"@, env, acc);
            &&& r matches Some(n) ==> <FeedEntity as Message>::spec_merge(m, f, env, acc) == (FeedEntityView { trip_update: Some(n), ..m }, true, a)
            &&& r is None ==> <FeedEntity as Message>::spec_merge(m, f, env, acc) == (m, true, a)
        }),
        ({
            let f = FieldView { number: 4, wire_type: 2, value: ValueView::Len(s), offset };
            let (r, a) = spec_nested_at::<VehiclePosition>(f, "vehicle"@, env, acc);
            &&& r matches Some(n) ==> <FeedEntity as Message>::spec_merge(m, f, env, acc) == (FeedEntityView { vehicle: Some(n), ..m }, true, a)
            &&& r is None ==> <FeedEntity as Message>::spec_merge(m, f, env, acc) == (m, true, a)
        }),
        ({
            let f = FieldView { number: 5, wire_type: 2, value: ValueView::Len(s), offset };
            let (r, a) = spec_nested_at::<Alert>(f, "alert"@, env, acc);
            &&& r matches Some(n) ==> <FeedEntity as Message>::spec_merge(m, f, env, acc) == (FeedEntityView { alert: Some(n), ..m }, true, a)
            &&& r is None ==> <FeedEntity as Message>::spec_merge(m, f, env, acc) == (m, true, a)
        }),
        ({
            let f = FieldView { number: 6, wire_type: 2, value: ValueView::Len(s), offset };
            let (r, a) = spec_nested_at::<Shape>(f, "shape"@, env, acc);
            &&& r matches Some(n) ==> <FeedEntity as Message>::spec_merge(m, f, env, acc) == (FeedEntityView { shape: Some(n), ..m }, true, a)
            &&& r is None ==> <FeedEntity as Message>::spec_merge(m, f, env, acc) == (m, true, a)
        }),
        ({
            let f = FieldView { number: 7, wire_type: 2, value: ValueView::Len(s), offset };
            let (r, a) = spec_nested_at::<Stop>(f, "stop"@, env, acc);
            &&& r matches Some(n) ==> <FeedEntity as Message>::spec_merge(m, f, env, acc) == (FeedEntityView { stop: Some(n), ..m }, true, a)
            &&& r is None ==> <FeedEntity as Message>::spec_merge(m, f, env, acc) == (m, true, a)
        }),
        ({
            let f = FieldView { number: 8, wire_type: 2, value: ValueView::Len(s), offset };
            let (r, a) = spec_nested_at::<TripModifications>(f, "trip_modifications"@, env, acc);
            &&& r matches Some(n) ==> <FeedEntity as Message>::spec_merge(m, f, env, acc) == (FeedEntityView { trip_modifications: Some(n), ..m }, true, a)
            &&& r is None ==> <FeedEntity as Message>::spec_merge(m, f, env, acc) == (m, true, a)
        }),
        !(g.number == 1 || g.number == 2 || g.number == 3 || g.number == 4 || g.number == 5 || g.number == 6 || g.number == 7 || g.number == 8) ==> <FeedEntity as Message>::spec_merge(m, g, env, acc) == (m, false, acc),
{
}

/// The field numbers of `TripDescriptor`: 1 `trip_id`, 2 `start_time`, 3 `start_date`, 4 `schedule_relationship`, 5 `route_id`, 6 `direction_id`, 7 `modified_trip`.
/// Each number sets its own field, read as protobuf reads its type, and
/// leaves the other fields as they were; a nested message comes from the
/// body decoded under the field's own name. A number the schema does not
/// define sets nothing and reports nothing here.
pub proof fn law_trip_descriptor_field_numbers(
    m: TripDescriptorView,
    v: u64,
    s: Seq<u8>,
    e_schedule_relationship: TripScheduleRelationship,
    offset: usize,
    env: Env,
    acc: Seq<AnomalyView>,
    g: FieldView,
)
    ensures
        ({
            let f = FieldView { number: 1, wire_type: 2, value: ValueView::Len(s), offset };
            valid_utf8(s) ==> <TripDescriptor as Message>::spec_merge(m, f, env, acc) == (TripDescriptorView { trip_id: Some(decode_utf8(s)), ..m }, true, acc)
        }),
        ({
            let f = FieldView { number: 5, wire_type: 2, value: ValueView::Len(s), offset };
            valid_utf8(s) ==> <TripDescriptor as Message>::spec_merge(m, f, env, acc) == (TripDescriptorView { route_id: Some(decode_utf8(s)), ..m }, true, acc)
        }),
        ({
            let f = FieldView { number: 6, wire_type: 0, value: ValueView::Varint(v), offset };
            <TripDescriptor as Message>::spec_merge(m, f, env, acc) == (TripDescriptorView { direction_id: Some(v as u32), ..m }, true, acc)
        }),
        ({
            let f = FieldView { number: 2, wire_type: 2, value: ValueView::Len(s), offset };
            valid_utf8(s) ==> <TripDescriptor as Message>::spec_merge(m, f, env, acc) == (TripDescriptorView { start_time: Some(decode_utf8(s)), ..m }, true, acc)
        }),
        ({
            let f = FieldView { number: 3, wire_type: 2, value: ValueView::Len(s), offset };
            valid_utf8(s) ==> <TripDescriptor as Message>::spec_merge(m, f, env, acc) == (TripDescriptorView { start_date: Some(decode_utf8(s)), ..m }, true, acc)
        }),
        ({
            let f = FieldView { number: 4, wire_type: 0, value: ValueView::Varint(e_schedule_relationship.spec_value() as i64 as u64), offset };
            <TripDescriptor as Message>::spec_merge(m, f, env, acc) == (TripDescriptorView { schedule_relationship: Some(e_schedule_relationship), ..m }, true, acc)
        }),
        ({
            let f = FieldView { number: 7, wire_type: 2, value: ValueView::Len(s), offset };
            let (r, a) = spec_nested_at::<ModifiedTripSelector>(f, "modified_trip"@, env, acc);
            &&& r matches Some(n) ==> <TripDescriptor as Message>::spec_merge(m, f, env, acc) == (TripDescriptorView { modified_trip: Some(n), ..m }, true, a)
            &&& r is None ==> <TripDescriptor as Message>::spec_merge(m, f, env, acc) == (m, true, a)
        }),
        !(g.number == 1 || g.number == 2 || g.number == 3 || g.number == 4 || g.number == 5 || g.number == 6 || g.number == 7) ==> <TripDescriptor as Message>::spec_merge(m, g, env, acc) == (m, false, acc),
{
    law_enum_value_round_trip::<TripScheduleRelationship>(
        env,
        acc,
        FieldView { number: 4, wire_type: 0, value: ValueView::Varint(e_schedule_relationship.spec_value() as i64 as u64), offset },
        e_schedule_relationship,
    );
}

/// The field numbers of `ModifiedTripSelector`: 1 `modifications_id`, 2 `affected_trip_id`, 3 `start_time`, 4 `start_date`.
/// Each number sets its own field, read as protobuf reads its type, and
/// leaves the other fields as they were; a nested message comes from the
/// body decoded under the field's own name. A number the schema does not
/// define sets nothing and reports nothing here.
pub proof fn law_modified_trip_selector_field_numbers(
    m: ModifiedTripSelectorView,
    s: Seq<u8>,
    offset: usize,
    env: Env,
    acc: Seq<AnomalyView>,
    g: FieldView,
)
    ensures
        ({
            let f = FieldView { number: 1, wire_type: 2, value: ValueView::Len(s), offset };
            valid_utf8(s) ==> <ModifiedTripSelector as Message>::spec_merge(m, f, env, acc) == (ModifiedTripSelectorView { modifications_id: Some(decode_utf8(s)), ..m }, true, acc)
        }),
        ({
            let f = FieldView { number: 2, wire_type: 2, value: ValueView::Len(s), offset };
            valid_utf8(s) ==> <ModifiedTripSelector as Message>::spec_merge(m, f, env, acc) == (ModifiedTripSelectorView { affected_trip_id: Some(decode_utf8(s)), ..m }, true, acc)
        }),
        ({
            let f = FieldView { number: 3, wire_type: 2, value: ValueView::Len(s), offset };
            valid_utf8(s) ==> <ModifiedTripSelector as Message>::spec_merge(m, f, env, acc) == (ModifiedTripSelectorView { start_time: Some(decode_utf8(s)), ..m }, true, acc)
        }),
        ({
            let f = FieldView { number: 4, wire_type: 2, value: ValueView::Len(s), offset };
            valid_utf8(s) ==> <ModifiedTripSelector as Message>::spec_merge(m, f, env, acc) == (ModifiedTripSelectorView { start_date: Some(decode_utf8(s)), ..m }, true, acc)
        }),
        !(g.number == 1 || g.number == 2 || g.number == 3 || g.number == 4) ==> <ModifiedTripSelector as Message>::spec_merge(m, g, env, acc) == (m, false, acc),
{
}

/// The field numbers of `VehicleDescriptor`: 1 `id`, 2 `label`, 3 `license_plate`, 4 `wheelchair_accessible`.
/// Each number sets its own field, read as protobuf reads its type, and
/// leaves the other fields as they were; a nested message comes from the
/// body decoded under the field's own name. A number the schema does not
/// define sets nothing and reports nothing here.
pub proof fn law_vehicle_descriptor_field_numbers(
    m: VehicleDescriptorView,
    s: Seq<u8>,
    e_wheelchair_accessible: WheelchairAccessible,
    offset: usize,
    env: Env,
    acc: Seq<AnomalyView>,
    g: FieldView,
)
    ensures
        ({
            let f = FieldView { number: 1, wire_type: 2, value: ValueView::Len(s), offset };
            valid_utf8(s) ==> <VehicleDescriptor as Message>::spec_merge(m, f, env, acc) == (VehicleDescriptorView { id: Some(decode_utf8(s)), ..m }, true, acc)
        }),
        ({
            let f = FieldView { number: 2, wire_type: 2, value: ValueView::Len(s), offset };
            valid_utf8(s) ==> <VehicleDescriptor as Message>::spec_merge(m, f, env, acc) == (VehicleDescriptorView { label: Some(decode_utf8(s)), ..m }, true, acc)
        }),
        ({
            let f = FieldView { number: 3, wire_type: 2, value: ValueView::Len(s), offset };
            valid_utf8(s) ==> <VehicleDescriptor as Message>::spec_merge(m, f, env, acc) == (VehicleDescriptorView { license_plate: Some(decode_utf8(s)), ..m }, true, acc)
        }),
        ({
            let f = FieldView { number: 4, wire_type: 0, value: ValueView::Varint(e_wheelchair_accessible.spec_value() as i64 as u64), offset };
            <VehicleDescriptor as Message>::spec_merge(m, f, env, acc) == (VehicleDescriptorView { wheelchair_accessible: Some(e_wheelchair_accessible), ..m }, true, acc)
        }),
        !(g.number == 1 || g.number == 2 || g.number == 3 || g.number == 4) ==> <VehicleDescriptor as Message>::spec_merge(m, g, env, acc) == (m, false, acc),
{
    law_enum_value_round_trip::<WheelchairAccessible>(
        env,
        acc,
        FieldView { number: 4, wire_type: 0, value: ValueView::Varint(e_wheelchair_accessible.spec_value() as i64 as u64), offset },
        e_wheelchair_accessible,
    );
}

/// The field numbers of `Position`: 1 `latitude`, 2 `longitude`, 3 `bearing`, 4 `odometer`, 5 `speed`.
/// Each number sets its own field, read as protobuf reads its type, and
/// leaves the other fields as they were; a nested message comes from the
/// body decoded under the field's own name. A number the schema does not
/// define sets nothing and reports nothing here.
pub proof fn law_position_field_numbers(
    m: PositionView,
    w32: u32,
    w64: u64,
    offset: usize,
    env: Env,
    acc: Seq<AnomalyView>,
    g: FieldView,
)
    ensures
        ({
            let f = FieldView { number: 1, wire_type: 5, value: ValueView::Fixed32(w32), offset };
            <Position as Message>::spec_merge(m, f, env, acc) == (PositionView { latitude: Some(w32), ..m }, true, acc)
        }),
        ({
            let f = FieldView { number: 2, wire_type: 5, value: ValueView::Fixed32(w32), offset };
            <Position as Message>::spec_merge(m, f, env, acc) == (PositionView { longitude: Some(w32), ..m }, true, acc)
        }),
        ({
            let f = FieldView { number: 3, wire_type: 5, value: ValueView::Fixed32(w32), offset };
            <Position as Message>::spec_merge(m, f, env, acc) == (PositionView { bearing: Some(w32), ..m }, true, acc)
        }),
        ({
            let f = FieldView { number: 4, wire_type: 1, value: ValueView::Fixed64(w64), offset };
            <Position as Message>::spec_merge(m, f, env, acc) == (PositionView { odometer: Some(w64), ..m }, true, acc)
        }),
        ({
            let f = FieldView { number: 5, wire_type: 5, value: ValueView::Fixed32(w32), offset };
            <Position as Message>::spec_merge(m, f, env, acc) == (PositionView { speed: Some(w32), ..m }, true, acc)
        }),
        !(g.number == 1 || g.number == 2 || g.number == 3 || g.number == 4 || g.number == 5) ==> <Position as Message>::spec_merge(m, g, env, acc) == (m, false, acc),
{
}

/// The field numbers of `TimeRange`: 1 `start`, 2 `end`.
/// Each number sets its own field, read as protobuf reads its type, and
/// leaves the other fields as they were; a nested message comes from the
/// body decoded under the field's own name. A number the schema does not
/// define sets nothing and reports nothing here.
pub proof fn law_time_range_field_numbers(
    m: TimeRangeView,
    v: u64,
    offset: usize,
    env: Env,
    acc: Seq<AnomalyView>,
    g: FieldView,
)
    ensures
        ({
            let f = FieldView { number: 1, wire_type: 0, value: ValueView::Varint(v), offset };
            <TimeRange as Message>::spec_merge(m, f, env, acc) == (TimeRangeView { start: Some(v), ..m }, true, acc)
        }),
        ({
            let f = FieldView { number: 2, wire_type: 0, value: ValueView::Varint(v), offset };
            <TimeRange as Message>::spec_merge(m, f, env, acc) == (TimeRangeView { end: Some(v), ..m }, true, acc)
        }),
        !(g.number == 1 || g.number == 2) ==> <TimeRange as Message>::spec_merge(m, g, env, acc) == (m, false, acc),
{
}

/// The field numbers of `EntitySelector`: 1 `agency_id`, 2 `route_id`, 3 `route_type`, 4 `trip`, 5 `stop_id`, 6 `direction_id`.
/// Each number sets its own field, read as protobuf reads its type, and
/// leaves the other fields as they were; a nested message comes from the
/// body decoded under the field's own name. A number the schema does not
/// define sets nothing and reports nothing here.
pub proof fn law_entity_selector_field_numbers(
    m: EntitySelectorView,
    v: u64,
    s: Seq<u8>,
    offset: usize,
    env: Env,
    acc: Seq<AnomalyView>,
    g: FieldView,
)
    ensures
        ({
            let f = FieldView { number: 1, wire_type: 2, value: ValueView::Len(s), offset };
            valid_utf8(s) ==> <EntitySelector as Message>::spec_merge(m, f, env, acc) == (EntitySelectorView { agency_id: Some(decode_utf8(s)), ..m }, true, acc)
        }),
        ({
            let f = FieldView { number: 2, wire_type: 2, value: ValueView::Len(s), offset };
            valid_utf8(s) ==> <EntitySelector as Message>::spec_merge(m, f, env, acc) == (EntitySelectorView { route_id: Some(decode_utf8(s)), ..m }, true, acc)
        }),
        ({
            let f = FieldView { number: 3, wire_type: 0, value: ValueView::Varint(v), offset };
            <EntitySelector as Message>::spec_merge(m, f, env, acc) == (EntitySelectorView { route_type: Some((v as u32) as i32), ..m }, true, acc)
        }),
        ({
            let f = FieldView { number: 4, wire_type: 2, value: ValueView::Len(s), offset };
            let (r, a) = spec_nested_at::<TripDescriptor>(f, "trip"@, env, acc);
            &&& r matches Some(n) ==> <EntitySelector as Message>::spec_merge(m, f, env, acc) == (EntitySelectorView { trip: Some(n), ..m }, true, a)
            &&& r is None ==> <EntitySelector as Message>::spec_merge(m, f, env, acc) == (m, true, a)
        }),
        ({
            let f = FieldView { number: 5, wire_type: 2, value: ValueView::Len(s), offset };
            valid_utf8(s) ==> <EntitySelector as Message>::spec_merge(m, f, env, acc) == (EntitySelectorView { stop_id: Some(decode_utf8(s)), ..m }, true, acc)
        }),
        ({
            let f = FieldView { number: 6, wire_type: 0, value: ValueView::Varint(v), offset };
            <EntitySelector as Message>::spec_merge(m, f, env, acc) == (EntitySelectorView { direction_id: Some(v as u32), ..m }, true, acc)
        }),
        !(g.number == 1 || g.number == 2 || g.number == 3 || g.number == 4 || g.number == 5 || g.number == 6) ==> <EntitySelector as Message>::spec_merge(m, g, env, acc) == (m, false, acc),
{
}

/// The field numbers of `TranslatedString`: 1 `translation`.
/// Each number sets its own field, read as protobuf reads its type, and
/// leaves the other fields as they were; a nested message comes from the
/// body decoded under the field's own name. A number the schema does not
/// define sets nothing and reports nothing here.
pub proof fn law_translated_string_field_numbers(
    m: TranslatedStringView,
    s: Seq<u8>,
    offset: usize,
    env: Env,
    acc: Seq<AnomalyView>,
    g: FieldView,
)
    ensures
        ({
            let f = FieldView { number: 1, wire_type: 2, value: ValueView::Len(s), offset };
            let (r, a) = spec_nested_at::<Translation>(f, indexed_segment("translation"@, m.translation.len()), env, acc);
            &&& r matches Some(n) ==> <TranslatedString as Message>::spec_merge(m, f, env, acc) == (TranslatedStringView { translation: m.translation.push(n), ..m }, true, a)
            &&& r is None ==> <TranslatedString as Message>::spec_merge(m, f, env, acc) == (m, true, a)
        }),
        !(g.number == 1) ==> <TranslatedString as Message>::spec_merge(m, g, env, acc) == (m, false, acc),
{
}

/// The field numbers of `Translation`: 1 `text`, 2 `language`.
/// Each number sets its own field, read as protobuf reads its type, and
/// leaves the other fields as they were; a nested message comes from the
/// body decoded under the field's own name. A number the schema does not
/// define sets nothing and reports nothing here.
pub proof fn law_translation_field_numbers(
    m: TranslationView,
    s: Seq<u8>,
    offset: usize,
    env: Env,
    acc: Seq<AnomalyView>,
    g: FieldView,
)
    ensures
        ({
            let f = FieldView { number: 1, wire_type: 2, value: ValueView::Len(s), offset };
            valid_utf8(s) ==> <Translation as Message>::spec_merge(m, f, env, acc) == (TranslationView { text: Some(decode_utf8(s)), ..m }, true, acc)
        }),
        ({
            let f = FieldView { number: 2, wire_type: 2, value: ValueView::Len(s), offset };
            valid_utf8(s) ==> <Translation as Message>::spec_merge(m, f, env, acc) == (TranslationView { language: Some(decode_utf8(s)), ..m }, true, acc)
        }),
        !(g.number == 1 || g.number == 2) ==> <Translation as Message>::spec_merge(m, g, env, acc) == (m, false, acc),
{
}

/// The field numbers of `TranslatedImage`: 1 `localized_image`.
/// Each number sets its own field, read as protobuf reads its type, and
/// leaves the other fields as they were; a nested message comes from the
/// body decoded under the field's own name. A number the schema does not
/// define sets nothing and reports nothing here.
pub proof fn law_translated_image_field_numbers(
    m: TranslatedImageView,
    s: Seq<u8>,
    offset: usize,
    env: Env,
    acc: Seq<AnomalyView>,
    g: FieldView,
)
    ensures
        ({
            let f = FieldView { number: 1, wire_type: 2, value: ValueView::Len(s), offset };
            let (r, a) = spec_nested_at::<LocalizedImage>(f, indexed_segment("localized_image"@, m.localized_image.len()), env, acc);
            &&& r matches Some(n) ==> <TranslatedImage as Message>::spec_merge(m, f, env, acc) == (TranslatedImageView { localized_image: m.localized_image.push(n), ..m }, true, a)
            &&& r is None ==> <TranslatedImage as Message>::spec_merge(m, f, env, acc) == (m, true, a)
        }),
        !(g.number == 1) ==> <TranslatedImage as Message>::spec_merge(m, g, env, acc) == (m, false, acc),
{
}

/// The field numbers of `LocalizedImage`: 1 `url`, 2 `media_type`, 3 `language`.
/// Each number sets its own field, read as protobuf reads its type, and
/// leaves the other fields as they were; a nested message comes from the
/// body decoded under the field's own name. A number the schema does not
/// define sets nothing and reports nothing here.
pub proof fn law_localized_image_field_numbers(
    m: LocalizedImageView,
    s: Seq<u8>,
    offset: usize,
    env: Env,
    acc: Seq<AnomalyView>,
    g: FieldView,
)
    ensures
        ({
            let f = FieldView { number: 1, wire_type: 2, value: ValueView::Len(s), offset };
            valid_utf8(s) ==> <LocalizedImage as Message>::spec_merge(m, f, env, acc) == (LocalizedImageView { url: Some(decode_utf8(s)), ..m }, true, acc)
        }),
        ({
            let f = FieldView { number: 2, wire_type: 2, value: ValueView::Len(s), offset };
            valid_utf8(s) ==> <LocalizedImage as Message>::spec_merge(m, f, env, acc) == (LocalizedImageView { media_type: Some(decode_utf8(s)), ..m }, true, acc)
        }),
        ({
            let f = FieldView { number: 3, wire_type: 2, value: ValueView::Len(s), offset };
            valid_utf8(s) ==> <LocalizedImage as Message>::spec_merge(m, f, env, acc) == (LocalizedImageView { language: Some(decode_utf8(s)), ..m }, true, acc)
        }),
        !(g.number == 1 || g.number == 2 || g.number == 3) ==> <LocalizedImage as Message>::spec_merge(m, g, env, acc) == (m, false, acc),
{
}

/// The field numbers of `TripUpdate`: 1 `trip`, 2 `stop_time_update`, 3 `vehicle`, 4 `timestamp`, 5 `delay`, 6 `trip_properties`.
/// Each number sets its own field, read as protobuf reads its type, and
/// leaves the other fields as they were; a nested message comes from the
/// body decoded under the field's own name. A number the schema does not
/// define sets nothing and reports nothing here.
pub proof fn law_trip_update_field_numbers(
    m: TripUpdateView,
    v: u64,
    s: Seq<u8>,
    offset: usize,
    env: Env,
    acc: Seq<AnomalyView>,
    g: FieldView,
)
    ensures
        ({
            let f = FieldView { number: 1, wire_type: 2, value: ValueView::Len(s), offset };
            let (r, a) = spec_nested_at::<TripDescriptor>(f, "trip"@, env, acc);
            &&& r matches Some(n) ==> <TripUpdate as Message>::spec_merge(m, f, env, acc) == (TripUpdateView { trip: Some(n), ..m }, true, a)
            &&& r is None ==> <TripUpdate as Message>::spec_merge(m, f, env, acc) == (m, true, a)
        }),
        ({
            let f = FieldView { number: 3, wire_type: 2, value: ValueView::Len(s), offset };
            let (r, a) = spec_nested_at::<VehicleDescriptor>(f, "vehicle"@, env, acc);
            &&& r matches Some(n) ==> <TripUpdate as Message>::spec_merge(m, f, env, acc) == (TripUpdateView { vehicle: Some(n), ..m }, true, a)
            &&& r is None ==> <TripUpdate as Message>::spec_merge(m, f, env, acc) == (m, true, a)
        }),
        ({
            let f = FieldView { number: 2, wire_type: 2, value: ValueView::Len(s), offset };
            let (r, a) = spec_nested_at::<StopTimeUpdate>(f, indexed_segment("stop_time_update"@, m.stop_time_update.len()), env, acc);
            &&& r matches Some(n) ==> <TripUpdate as Message>::spec_merge(m, f, env, acc) == (TripUpdateView { stop_time_update: m.stop_time_update.push(n), ..m }, true, a)
            &&& r is None ==> <TripUpdate as Message>::spec_merge(m, f, env, acc) == (m, true, a)
        }),
        ({
            let f = FieldView { number: 4, wire_type: 0, value: ValueView::Varint(v), offset };
            <TripUpdate as Message>::spec_merge(m, f, env, acc) == (TripUpdateView { timestamp: Some(v), ..m }, true, acc)
        }),
        ({
            let f = FieldView { number: 5, wire_type: 0, value: ValueView::Varint(v), offset };
            <TripUpdate as Message>::spec_merge(m, f, env, acc) == (TripUpdateView { delay: Some((v as u32) as i32), ..m }, true, acc)
        }),
        ({
            let f = FieldView { number: 6, wire_type: 2, value: ValueView::Len(s), offset };
            let (r, a) = spec_nested_at::<TripProperties>(f, "trip_properties"@, env, acc);
            &&& r matches Some(n) ==> <TripUpdate as Message>::spec_merge(m, f, env, acc) == (TripUpdateView { trip_properties: Some(n), ..m }, true, a)
            &&& r is None ==> <TripUpdate as Message>::spec_merge(m, f, env, acc) == (m, true, a)
        }),
        !(g.number == 1 || g.number == 2 || g.number == 3 || g.number == 4 || g.number == 5 || g.number == 6) ==> <TripUpdate as Message>::spec_merge(m, g, env, acc) == (m, false, acc),
{
}

/// The field numbers of `StopTimeUpdate`: 1 `stop_sequence`, 2 `arrival`, 3 `departure`, 4 `stop_id`, 5 `schedule_relationship`, 6 `stop_time_properties`, 7 `departure_occupancy_status`.
/// Each number sets its own field, read as protobuf reads its type, and
/// leaves the other fields as they were; a nested message comes from the
/// body decoded under the field's own name. A number the schema does not
/// define sets nothing and reports nothing here.
pub proof fn law_stop_time_update_field_numbers(
    m: StopTimeUpdateView,
    v: u64,
    s: Seq<u8>,
    e_departure_occupancy_status: OccupancyStatus,
    e_schedule_relationship: StopTimeScheduleRelationship,
    offset: usize,
    env: Env,
    acc: Seq<AnomalyView>,
    g: FieldView,
)
    ensures
        ({
            let f = FieldView { number: 1, wire_type: 0, value: ValueView::Varint(v), offset };
            <StopTimeUpdate as Message>::spec_merge(m, f, env, acc) == (StopTimeUpdateView { stop_sequence: Some(v as u32), ..m }, true, acc)
        }),
        ({
            let f = FieldView { number: 4, wire_type: 2, value: ValueView::Len(s), offset };
            valid_utf8(s) ==> <StopTimeUpdate as Message>::spec_merge(m, f, env, acc) == (StopTimeUpdateView { stop_id: Some(decode_utf8(s)), ..m }, true, acc)
        }),
        ({
            let f = FieldView { number: 2, wire_type: 2, value: ValueView::Len(s), offset };
            let (r, a) = spec_nested_at::<StopTimeEvent>(f, "arrival"@, env, acc);
            &&& r matches Some(n) ==> <StopTimeUpdate as Message>::spec_merge(m, f, env, acc) == (StopTimeUpdateView { arrival: Some(n), ..m }, true, a)
            &&& r is None ==> <StopTimeUpdate as Message>::spec_merge(m, f, env, acc) == (m, true, a)
        }),
        ({
            let f = FieldView { number: 3, wire_type: 2, value: ValueView::Len(s), offset };
            let (r, a) = spec_nested_at::<StopTimeEvent>(f, "departure"@, env, acc);
            &&& r matches Some(n) ==> <StopTimeUpdate as Message>::spec_merge(m, f, env, acc) == (StopTimeUpdateView { departure: Some(n), ..m }, true, a)
            &&& r is None ==> <StopTimeUpdate as Message>::spec_merge(m, f, env, acc) == (m, true, a)
        }),
        ({
            let f = FieldView { number: 7, wire_type: 0, value: ValueView::Varint(e_departure_occupancy_status.spec_value() as i64 as u64), offset };
            <StopTimeUpdate as Message>::spec_merge(m, f, env, acc) == (StopTimeUpdateView { departure_occupancy_status: Some(e_departure_occupancy_status), ..m }, true, acc)
        }),
        ({
            let f = FieldView { number: 5, wire_type: 0, value: ValueView::Varint(e_schedule_relationship.spec_value() as i64 as u64), offset };
            <StopTimeUpdate as Message>::spec_merge(m, f, env, acc) == (StopTimeUpdateView { schedule_relationship: Some(e_schedule_relationship), ..m }, true, acc)
        }),
        ({
            let f = FieldView { number: 6, wire_type: 2, value: ValueView::Len(s), offset };
            let (r, a) = spec_nested_at::<StopTimeProperties>(f, "stop_time_properties"@, env, acc);
            &&& r matches Some(n) ==> <StopTimeUpdate as Message>::spec_merge(m, f, env, acc) == (StopTimeUpdateView { stop_time_properties: Some(n), ..m }, true, a)
            &&& r is None ==> <StopTimeUpdate as Message>::spec_merge(m, f, env, acc) == (m, true, a)
        }),
        !(g.number == 1 || g.number == 2 || g.number == 3 || g.number == 4 || g.number == 5 || g.number == 6 || g.number == 7) ==> <StopTimeUpdate as Message>::spec_merge(m, g, env, acc) == (m, false, acc),
{
    law_enum_value_round_trip::<OccupancyStatus>(
        env,
        acc,
        FieldView { number: 7, wire_type: 0, value: ValueView::Varint(e_departure_occupancy_status.spec_value() as i64 as u64), offset },
        e_departure_occupancy_status,
    );
    law_enum_value_round_trip::<StopTimeScheduleRelationship>(
        env,
        acc,
        FieldView { number: 5, wire_type: 0, value: ValueView::Varint(e_schedule_relationship.spec_value() as i64 as u64), offset },
        e_schedule_relationship,
    );
}

/// The field numbers of `StopTimeEvent`: 1 `delay`, 2 `time`, 3 `uncertainty`, 4 `scheduled_time`.
/// Each number sets its own field, read as protobuf reads its type, and
/// leaves the other fields as they were; a nested message comes from the
/// body decoded under the field's own name. A number the schema does not
/// define sets nothing and reports nothing here.
pub proof fn law_stop_time_event_field_numbers(
    m: StopTimeEventView,
    v: u64,
    offset: usize,
    env: Env,
    acc: Seq<AnomalyView>,
    g: FieldView,
)
    ensures
        ({
            let f = FieldView { number: 1, wire_type: 0, value: ValueView::Varint(v), offset };
            <StopTimeEvent as Message>::spec_merge(m, f, env, acc) == (StopTimeEventView { delay: Some((v as u32) as i32), ..m }, true, acc)
        }),
        ({
            let f = FieldView { number: 2, wire_type: 0, value: ValueView::Varint(v), offset };
            <StopTimeEvent as Message>::spec_merge(m, f, env, acc) == (StopTimeEventView { time: Some(v as i64), ..m }, true, acc)
        }),
        ({
            let f = FieldView { number: 3, wire_type: 0, value: ValueView::Varint(v), offset };
            <StopTimeEvent as Message>::spec_merge(m, f, env, acc) == (StopTimeEventView { uncertainty: Some((v as u32) as i32), ..m }, true, acc)
        }),
        ({
            let f = FieldView { number: 4, wire_type: 0, value: ValueView::Varint(v), offset };
            <StopTimeEvent as Message>::spec_merge(m, f, env, acc) == (StopTimeEventView { scheduled_time: Some(v as i64), ..m }, true, acc)
        }),
        !(g.number == 1 || g.number == 2 || g.number == 3 || g.number == 4) ==> <StopTimeEvent as Message>::spec_merge(m, g, env, acc) == (m, false, acc),
{
}

/// The field numbers of `StopTimeProperties`: 1 `assigned_stop_id`, 2 `stop_headsign`, 3 `pickup_type`, 4 `drop_off_type`.
/// Each number sets its own field, read as protobuf reads its type, and
/// leaves the other fields as they were; a nested message comes from the
/// body decoded under the field's own name. A number the schema does not
/// define sets nothing and reports nothing here.
pub proof fn law_stop_time_properties_field_numbers(
    m: StopTimePropertiesView,
    s: Seq<u8>,
    e_pickup_type: DropOffPickupType,
    e_drop_off_type: DropOffPickupType,
    offset: usize,
    env: Env,
    acc: Seq<AnomalyView>,
    g: FieldView,
)
    ensures
        ({
            let f = FieldView { number: 1, wire_type: 2, value: ValueView::Len(s), offset };
            valid_utf8(s) ==> <StopTimeProperties as Message>::spec_merge(m, f, env, acc) == (StopTimePropertiesView { assigned_stop_id: Some(decode_utf8(s)), ..m }, true, acc)
        }),
        ({
            let f = FieldView { number: 2, wire_type: 2, value: ValueView::Len(s), offset };
            valid_utf8(s) ==> <StopTimeProperties as Message>::spec_merge(m, f, env, acc) == (StopTimePropertiesView { stop_headsign: Some(decode_utf8(s)), ..m }, true, acc)
        }),
        ({
            let f = FieldView { number: 3, wire_type: 0, value: ValueView::Varint(e_pickup_type.spec_value() as i64 as u64), offset };
            <StopTimeProperties as Message>::spec_merge(m, f, env, acc) == (StopTimePropertiesView { pickup_type: Some(e_pickup_type), ..m }, true, acc)
        }),
        ({
            let f = FieldView { number: 4, wire_type: 0, value: ValueView::Varint(e_drop_off_type.spec_value() as i64 as u64), offset };
            <StopTimeProperties as Message>::spec_merge(m, f, env, acc) == (StopTimePropertiesView { drop_off_type: Some(e_drop_off_type), ..m }, true, acc)
        }),
        !(g.number == 1 || g.number == 2 || g.number == 3 || g.number == 4) ==> <StopTimeProperties as Message>::spec_merge(m, g, env, acc) == (m, false, acc),
{
    law_enum_value_round_trip::<DropOffPickupType>(
        env,
        acc,
        FieldView { number: 3, wire_type: 0, value: ValueView::Varint(e_pickup_type.spec_value() as i64 as u64), offset },
        e_pickup_type,
    );
    law_enum_value_round_trip::<DropOffPickupType>(
        env,
        acc,
        FieldView { number: 4, wire_type: 0, value: ValueView::Varint(e_drop_off_type.spec_value() as i64 as u64), offset },
        e_drop_off_type,
    );
}

/// The field numbers of `TripProperties`: 1 `trip_id`, 2 `start_date`, 3 `start_time`, 4 `shape_id`, 5 `trip_headsign`, 6 `trip_short_name`.
/// Each number sets its own field, read as protobuf reads its type, and
/// leaves the other fields as they were; a nested message comes from the
/// body decoded under the field's own name. A number the schema does not
/// define sets nothing and reports nothing here.
pub proof fn law_trip_properties_field_numbers(
    m: TripPropertiesView,
    s: Seq<u8>,
    offset: usize,
    env: Env,
    acc: Seq<AnomalyView>,
    g: FieldView,
)
    ensures
        ({
            let f = FieldView { number: 1, wire_type: 2, value: ValueView::Len(s), offset };
            valid_utf8(s) ==> <TripProperties as Message>::spec_merge(m, f, env, acc) == (TripPropertiesView { trip_id: Some(decode_utf8(s)), ..m }, true, acc)
        }),
        ({
            let f = FieldView { number: 2, wire_type: 2, value: ValueView::Len(s), offset };
            valid_utf8(s) ==> <TripProperties as Message>::spec_merge(m, f, env, acc) == (TripPropertiesView { start_date: Some(decode_utf8(s)), ..m }, true, acc)
        }),
        ({
            let f = FieldView { number: 3, wire_type: 2, value: ValueView::Len(s), offset };
            valid_utf8(s) ==> <TripProperties as Message>::spec_merge(m, f, env, acc) == (TripPropertiesView { start_time: Some(decode_utf8(s)), ..m }, true, acc)
        }),
        ({
            let f = FieldView { number: 4, wire_type: 2, value: ValueView::Len(s), offset };
            valid_utf8(s) ==> <TripProperties as Message>::spec_merge(m, f, env, acc) == (TripPropertiesView { shape_id: Some(decode_utf8(s)), ..m }, true, acc)
        }),
        ({
            let f = FieldView { number: 5, wire_type: 2, value: ValueView::Len(s), offset };
            valid_utf8(s) ==> <TripProperties as Message>::spec_merge(m, f, env, acc) == (TripPropertiesView { trip_headsign: Some(decode_utf8(s)), ..m }, true, acc)
        }),
        ({
            let f = FieldView { number: 6, wire_type: 2, value: ValueView::Len(s), offset };
            valid_utf8(s) ==> <TripProperties as Message>::spec_merge(m, f, env, acc) == (TripPropertiesView { trip_short_name: Some(decode_utf8(s)), ..m }, true, acc)
        }),
        !(g.number == 1 || g.number == 2 || g.number == 3 || g.number == 4 || g.number == 5 || g.number == 6) ==> <TripProperties as Message>::spec_merge(m, g, env, acc) == (m, false, acc),
{
}

/// The field numbers of `VehiclePosition`: 1 `trip`, 2 `position`, 3 `current_stop_sequence`, 4 `current_status`, 5 `timestamp`, 6 `congestion_level`, 7 `stop_id`, 8 `vehicle`, 9 `occupancy_status`, 10 `occupancy_percentage`, 11 `multi_carriage_details`.
/// Each number sets its own field, read as protobuf reads its type, and
/// leaves the other fields as they were; a nested message comes from the
/// body decoded under the field's own name. A number the schema does not
/// define sets nothing and reports nothing here.
pub proof fn law_vehicle_position_field_numbers(
    m: VehiclePositionView,
    v: u64,
    s: Seq<u8>,
    e_current_status: VehicleStopStatus,
    e_congestion_level: CongestionLevel,
    e_occupancy_status: OccupancyStatus,
    offset: usize,
    env: Env,
    acc: Seq<AnomalyView>,
    g: FieldView,
)
    ensures
        ({
            let f = FieldView { number: 1, wire_type: 2, value: ValueView::Len(s), offset };
            let (r, a) = spec_nested_at::<TripDescriptor>(f, "trip"@, env, acc);
            &&& r matches Some(n) ==> <VehiclePosition as Message>::spec_merge(m, f, env, acc) == (VehiclePositionView { trip: Some(n), ..m }, true, a)
            &&& r is None ==> <VehiclePosition as Message>::spec_merge(m, f, env, acc) == (m, true, a)
        }),
        ({
            let f = FieldView { number: 8, wire_type: 2, value: ValueView::Len(s), offset };
            let (r, a) = spec_nested_at::<VehicleDescriptor>(f, "vehicle"@, env, acc);
            &&& r matches Some(n) ==> <VehiclePosition as Message>::spec_merge(m, f, env, acc) == (VehiclePositionView { vehicle: Some(n), ..m }, true, a)
            &&& r is None ==> <VehiclePosition as Message>::spec_merge(m, f, env, acc) == (m, true, a)
        }),
        ({
            let f = FieldView { number: 2, wire_type: 2, value: ValueView::Len(s), offset };
            let (r, a) = spec_nested_at::<Position>(f, "position"@, env, acc);
            &&& r matches Some(n) ==> <VehiclePosition as Message>::spec_merge(m, f, env, acc) == (VehiclePositionView { position: Some(n), ..m }, true, a)
            &&& r is None ==> <VehiclePosition as Message>::spec_merge(m, f, env, acc) == (m, true, a)
        }),
        ({
            let f = FieldView { number: 3, wire_type: 0, value: ValueView::Varint(v), offset };
            <VehiclePosition as Message>::spec_merge(m, f, env, acc) == (VehiclePositionView { current_stop_sequence: Some(v as u32), ..m }, true, acc)
        }),
        ({
            let f = FieldView { number: 7, wire_type: 2, value: ValueView::Len(s), offset };
            valid_utf8(s) ==> <VehiclePosition as Message>::spec_merge(m, f, env, acc) == (VehiclePositionView { stop_id: Some(decode_utf8(s)), ..m }, true, acc)
        }),
        ({
            let f = FieldView { number: 4, wire_type: 0, value: ValueView::Varint(e_current_status.spec_value() as i64 as u64), offset };
            <VehiclePosition as Message>::spec_merge(m, f, env, acc) == (VehiclePositionView { current_status: Some(e_current_status), ..m }, true, acc)
        }),
        ({
            let f = FieldView { number: 5, wire_type: 0, value: ValueView::Varint(v), offset };
            <VehiclePosition as Message>::spec_merge(m, f, env, acc) == (VehiclePositionView { timestamp: Some(v), ..m }, true, acc)
        }),
        ({
            let f = FieldView { number: 6, wire_type: 0, value: ValueView::Varint(e_congestion_level.spec_value() as i64 as u64), offset };
            <VehiclePosition as Message>::spec_merge(m, f, env, acc) == (VehiclePositionView { congestion_level: Some(e_congestion_level), ..m }, true, acc)
        }),
        ({
            let f = FieldView { number: 9, wire_type: 0, value: ValueView::Varint(e_occupancy_status.spec_value() as i64 as u64), offset };
            <VehiclePosition as Message>::spec_merge(m, f, env, acc) == (VehiclePositionView { occupancy_status: Some(e_occupancy_status), ..m }, true, acc)
        }),
        ({
            let f = FieldView { number: 10, wire_type: 0, value: ValueView::Varint(v), offset };
            <VehiclePosition as Message>::spec_merge(m, f, env, acc) == (VehiclePositionView { occupancy_percentage: Some(v as u32), ..m }, true, acc)
        }),
        ({
            let f = FieldView { number: 11, wire_type: 2, value: ValueView::Len(s), offset };
            let (r, a) = spec_nested_at::<CarriageDetails>(f, indexed_segment("multi_carriage_details"@, m.multi_carriage_details.len()), env, acc);
            &&& r matches Some(n) ==> <VehiclePosition as Message>::spec_merge(m, f, env, acc) == (VehiclePositionView { multi_carriage_details: m.multi_carriage_details.push(n), ..m }, true, a)
            &&& r is None ==> <VehiclePosition as Message>::spec_merge(m, f, env, acc) == (m, true, a)
        }),
        !(g.number == 1 || g.number == 2 || g.number == 3 || g.number == 4 || g.number == 5 || g.number == 6 || g.number == 7 || g.number == 8 || g.number == 9 || g.number == 10 || g.number == 11) ==> <VehiclePosition as Message>::spec_merge(m, g, env, acc) == (m, false, acc),
{
    law_enum_value_round_trip::<VehicleStopStatus>(
        env,
        acc,
        FieldView { number: 4, wire_type: 0, value: ValueView::Varint(e_current_status.spec_value() as i64 as u64), offset },
        e_current_status,
    );
    law_enum_value_round_trip::<CongestionLevel>(
        env,
        acc,
        FieldView { number: 6, wire_type: 0, value: ValueView::Varint(e_congestion_level.spec_value() as i64 as u64), offset },
        e_congestion_level,
    );
    law_enum_value_round_trip::<OccupancyStatus>(
        env,
        acc,
        FieldView { number: 9, wire_type: 0, value: ValueView::Varint(e_occupancy_status.spec_value() as i64 as u64), offset },
        e_occupancy_status,
    );
}

/// The field numbers of `CarriageDetails`: 1 `id`, 2 `label`, 3 `occupancy_status`, 4 `occupancy_percentage`, 5 `carriage_sequence`.
/// Each number sets its own field, read as protobuf reads its type, and
/// leaves the other fields as they were; a nested message comes from the
/// body decoded under the field's own name. A number the schema does not
/// define sets nothing and reports nothing here.
pub proof fn law_carriage_details_field_numbers(
    m: CarriageDetailsView,
    v: u64,
    s: Seq<u8>,
    e_occupancy_status: OccupancyStatus,
    offset: usize,
    env: Env,
    acc: Seq<AnomalyView>,
    g: FieldView,
)
    ensures
        ({
            let f = FieldView { number: 1, wire_type: 2, value: ValueView::Len(s), offset };
            valid_utf8(s) ==> <CarriageDetails as Message>::spec_merge(m, f, env, acc) == (CarriageDetailsView { id: Some(decode_utf8(s)), ..m }, true, acc)
        }),
        ({
            let f = FieldView { number: 2, wire_type: 2, value: ValueView::Len(s), offset };
            valid_utf8(s) ==> <CarriageDetails as Message>::spec_merge(m, f, env, acc) == (CarriageDetailsView { label: Some(decode_utf8(s)), ..m }, true, acc)
        }),
        ({
            let f = FieldView { number: 3, wire_type: 0, value: ValueView::Varint(e_occupancy_status.spec_value() as i64 as u64), offset };
            <CarriageDetails as Message>::spec_merge(m, f, env, acc) == (CarriageDetailsView { occupancy_status: Some(e_occupancy_status), ..m }, true, acc)
        }),
        ({
            let f = FieldView { number: 4, wire_type: 0, value: ValueView::Varint(v), offset };
            <CarriageDetails as Message>::spec_merge(m, f, env, acc) == (CarriageDetailsView { occupancy_percentage: Some((v as u32) as i32), ..m }, true, acc)
        }),
        ({
            let f = FieldView { number: 5, wire_type: 0, value: ValueView::Varint(v), offset };
            <CarriageDetails as Message>::spec_merge(m, f, env, acc) == (CarriageDetailsView { carriage_sequence: Some(v as u32), ..m }, true, acc)
        }),
        !(g.number == 1 || g.number == 2 || g.number == 3 || g.number == 4 || g.number == 5) ==> <CarriageDetails as Message>::spec_merge(m, g, env, acc) == (m, false, acc),
{
    law_enum_value_round_trip::<OccupancyStatus>(
        env,
        acc,
        FieldView { number: 3, wire_type: 0, value: ValueView::Varint(e_occupancy_status.spec_value() as i64 as u64), offset },
        e_occupancy_status,
    );
}

/// The field numbers of `Alert`: 1 `active_period`, 2 `communication_period`, 3 `impact_period`, 5 `informed_entity`, 6 `cause`, 7 `effect`, 8 `url`, 10 `header_text`, 11 `description_text`, 12 `tts_header_text`, 13 `tts_description_text`, 14 `severity_level`, 15 `image`, 16 `image_alternative_text`, 17 `cause_detail`, 18 `effect_detail`.
/// Each number sets its own field, read as protobuf reads its type, and
/// leaves the other fields as they were; a nested message comes from the
/// body decoded under the field's own name. A number the schema does not
/// define sets nothing and reports nothing here.
pub proof fn law_alert_field_numbers(
    m: AlertView,
    s: Seq<u8>,
    e_cause: AlertCause,
    e_effect: AlertEffect,
    e_severity_level: AlertSeverityLevel,
    offset: usize,
    env: Env,
    acc: Seq<AnomalyView>,
    g: FieldView,
)
    ensures
        ({
            let f = FieldView { number: 1, wire_type: 2, value: ValueView::Len(s), offset };
            let (r, a) = spec_nested_at::<TimeRange>(f, indexed_segment("active_period"@, m.active_period.len()), env, acc);
            &&& r matches Some(n) ==> <Alert as Message>::spec_merge(m, f, env, acc) == (AlertView { active_period: m.active_period.push(n), ..m }, true, a)
            &&& r is None ==> <Alert as Message>::spec_merge(m, f, env, acc) == (m, true, a)
        }),
        ({
            let f = FieldView { number: 2, wire_type: 2, value: ValueView::Len(s), offset };
            let (r, a) = spec_nested_at::<TimeRange>(f, indexed_segment("communication_period"@, m.communication_period.len()), env, acc);
            &&& r matches Some(n) ==> <Alert as Message>::spec_merge(m, f, env, acc) == (AlertView { communication_period: m.communication_period.push(n), ..m }, true, a)
            &&& r is None ==> <Alert as Message>::spec_merge(m, f, env, acc) == (m, true, a)
        }),
        ({
            let f = FieldView { number: 3, wire_type: 2, value: ValueView::Len(s), offset };
            let (r, a) = spec_nested_at::<TimeRange>(f, indexed_segment("impact_period"@, m.impact_period.len()), env, acc);
            &&& r matches Some(n) ==> <Alert as Message>::spec_merge(m, f, env, acc) == (AlertView { impact_period: m.impact_period.push(n), ..m }, true, a)
            &&& r is None ==> <Alert as Message>::spec_merge(m, f, env, acc) == (m, true, a)
        }),
        ({
            let f = FieldView { number: 5, wire_type: 2, value: ValueView::Len(s), offset };
            let (r, a) = spec_nested_at::<EntitySelector>(f, indexed_segment("informed_entity"@, m.informed_entity.len()), env, acc);
            &&& r matches Some(n) ==> <Alert as Message>::spec_merge(m, f, env, acc) == (AlertView { informed_entity: m.informed_entity.push(n), ..m }, true, a)
            &&& r is None ==> <Alert as Message>::spec_merge(m, f, env, acc) == (m, true, a)
        }),
        ({
            let f = FieldView { number: 6, wire_type: 0, value: ValueView::Varint(e_cause.spec_value() as i64 as u64), offset };
            <Alert as Message>::spec_merge(m, f, env, acc) == (AlertView { cause: Some(e_cause), ..m }, true, acc)
        }),
        ({
            let f = FieldView { number: 7, wire_type: 0, value: ValueView::Varint(e_effect.spec_value() as i64 as u64), offset };
            <Alert as Message>::spec_merge(m, f, env, acc) == (AlertView { effect: Some(e_effect), ..m }, true, acc)
        }),
        ({
            let f = FieldView { number: 8, wire_type: 2, value: ValueView::Len(s), offset };
            let (r, a) = spec_nested_at::<TranslatedString>(f, "url"@, env, acc);
            &&& r matches Some(n) ==> <Alert as Message>::spec_merge(m, f, env, acc) == (AlertView { url: Some(n), ..m }, true, a)
            &&& r is None ==> <Alert as Message>::spec_merge(m, f, env, acc) == (m, true, a)
        }),
        ({
            let f = FieldView { number: 10, wire_type: 2, value: ValueView::Len(s), offset };
            let (r, a) = spec_nested_at::<TranslatedString>(f, "header_text"@, env, acc);
            &&& r matches Some(n) ==> <Alert as Message>::spec_merge(m, f, env, acc) == (AlertView { header_text: Some(n), ..m }, true, a)
            &&& r is None ==> <Alert as Message>::spec_merge(m, f, env, acc) == (m, true, a)
        }),
        ({
            let f = FieldView { number: 11, wire_type: 2, value: ValueView::Len(s), offset };
            let (r, a) = spec_nested_at::<TranslatedString>(f, "description_text"@, env, acc);
            &&& r matches Some(n) ==> <Alert as Message>::spec_merge(m, f, env, acc) == (AlertView { description_text: Some(n), ..m }, true, a)
            &&& r is None ==> <Alert as Message>::spec_merge(m, f, env, acc) == (m, true, a)
        }),
        ({
            let f = FieldView { number: 12, wire_type: 2, value: ValueView::Len(s), offset };
            let (r, a) = spec_nested_at::<TranslatedString>(f, "tts_header_text"@, env, acc);
            &&& r matches Some(n) ==> <Alert as Message>::spec_merge(m, f, env, acc) == (AlertView { tts_header_text: Some(n), ..m }, true, a)
            &&& r is None ==> <Alert as Message>::spec_merge(m, f, env, acc) == (m, true, a)
        }),
        ({
            let f = FieldView { number: 13, wire_type: 2, value: ValueView::Len(s), offset };
            let (r, a) = spec_nested_at::<TranslatedString>(f, "tts_description_text"@, env, acc);
            &&& r matches Some(n) ==> <Alert as Message>::spec_merge(m, f, env, acc) == (AlertView { tts_description_text: Some(n), ..m }, true, a)
            &&& r is None ==> <Alert as Message>::spec_merge(m, f, env, acc) == (m, true, a)
        }),
        ({
            let f = FieldView { number: 14, wire_type: 0, value: ValueView::Varint(e_severity_level.spec_value() as i64 as u64), offset };
            <Alert as Message>::spec_merge(m, f, env, acc) == (AlertView { severity_level: Some(e_severity_level), ..m }, true, acc)
        }),
        ({
            let f = FieldView { number: 15, wire_type: 2, value: ValueView::Len(s), offset };
            let (r, a) = spec_nested_at::<TranslatedImage>(f, "image"@, env, acc);
            &&& r matches Some(n) ==> <Alert as Message>::spec_merge(m, f, env, acc) == (AlertView { image: Some(n), ..m }, true, a)
            &&& r is None ==> <Alert as Message>::spec_merge(m, f, env, acc) == (m, true, a)
        }),
        ({
            let f = FieldView { number: 16, wire_type: 2, value: ValueView::Len(s), offset };
            let (r, a) = spec_nested_at::<TranslatedString>(f, "image_alternative_text"@, env, acc);
            &&& r matches Some(n) ==> <Alert as Message>::spec_merge(m, f, env, acc) == (AlertView { image_alternative_text: Some(n), ..m }, true, a)
            &&& r is None ==> <Alert as Message>::spec_merge(m, f, env, acc) == (m, true, a)
        }),
        ({
            let f = FieldView { number: 17, wire_type: 2, value: ValueView::Len(s), offset };
            let (r, a) = spec_nested_at::<TranslatedString>(f, "cause_detail"@, env, acc);
            &&& r matches Some(n) ==> <Alert as Message>::spec_merge(m, f, env, acc) == (AlertView { cause_detail: Some(n), ..m }, true, a)
            &&& r is None ==> <Alert as Message>::spec_merge(m, f, env, acc) == (m, true, a)
        }),
        ({
            let f = FieldView { number: 18, wire_type: 2, value: ValueView::Len(s), offset };
            let (r, a) = spec_nested_at::<TranslatedString>(f, "effect_detail"@, env, acc);
            &&& r matches Some(n) ==> <Alert as Message>::spec_merge(m, f, env, acc) == (AlertView { effect_detail: Some(n), ..m }, true, a)
            &&& r is None ==> <Alert as Message>::spec_merge(m, f, env, acc) == (m, true, a)
        }),
        !(g.number == 1 || g.number == 2 || g.number == 3 || g.number == 5 || g.number == 6 || g.number == 7 || g.number == 8 || g.number == 10 || g.number == 11 || g.number == 12 || g.number == 13 || g.number == 14 || g.number == 15 || g.number == 16 || g.number == 17 || g.number == 18) ==> <Alert as Message>::spec_merge(m, g, env, acc) == (m, false, acc),
{
    law_enum_value_round_trip::<AlertCause>(
        env,
        acc,
        FieldView { number: 6, wire_type: 0, value: ValueView::Varint(e_cause.spec_value() as i64 as u64), offset },
        e_cause,
    );
    law_enum_value_round_trip::<AlertEffect>(
        env,
        acc,
        FieldView { number: 7, wire_type: 0, value: ValueView::Varint(e_effect.spec_value() as i64 as u64), offset },
        e_effect,
    );
    law_enum_value_round_trip::<AlertSeverityLevel>(
        env,
        acc,
        FieldView { number: 14, wire_type: 0, value: ValueView::Varint(e_severity_level.spec_value() as i64 as u64), offset },
        e_severity_level,
    );
}

/// The field numbers of `TripModifications`: 1 `selected_trips`, 2 `start_times`, 3 `service_dates`, 4 `modifications`.
/// Each number sets its own field, read as protobuf reads its type, and
/// leaves the other fields as they were; a nested message comes from the
/// body decoded under the field's own name. A number the schema does not
/// define sets nothing and reports nothing here.
pub proof fn law_trip_modifications_field_numbers(
    m: TripModificationsView,
    s: Seq<u8>,
    offset: usize,
    env: Env,
    acc: Seq<AnomalyView>,
    g: FieldView,
)
    ensures
        ({
            let f = FieldView { number: 1, wire_type: 2, value: ValueView::Len(s), offset };
            let (r, a) = spec_nested_at::<SelectedTrips>(f, indexed_segment("selected_trips"@, m.selected_trips.len()), env, acc);
            &&& r matches Some(n) ==> <TripModifications as Message>::spec_merge(m, f, env, acc) == (TripModificationsView { selected_trips: m.selected_trips.push(n), ..m }, true, a)
            &&& r is None ==> <TripModifications as Message>::spec_merge(m, f, env, acc) == (m, true, a)
        }),
        ({
            let f = FieldView { number: 2, wire_type: 2, value: ValueView::Len(s), offset };
            valid_utf8(s) ==> <TripModifications as Message>::spec_merge(m, f, env, acc) == (TripModificationsView { start_times: m.start_times.push(decode_utf8(s)), ..m }, true, acc)
        }),
        ({
            let f = FieldView { number: 3, wire_type: 2, value: ValueView::Len(s), offset };
            valid_utf8(s) ==> <TripModifications as Message>::spec_merge(m, f, env, acc) == (TripModificationsView { service_dates: m.service_dates.push(decode_utf8(s)), ..m }, true, acc)
        }),
        ({
            let f = FieldView { number: 4, wire_type: 2, value: ValueView::Len(s), offset };
            let (r, a) = spec_nested_at::<Modification>(f, indexed_segment("modifications"@, m.modifications.len()), env, acc);
            &&& r matches Some(n) ==> <TripModifications as Message>::spec_merge(m, f, env, acc) == (TripModificationsView { modifications: m.modifications.push(n), ..m }, true, a)
            &&& r is None ==> <TripModifications as Message>::spec_merge(m, f, env, acc) == (m, true, a)
        }),
        !(g.number == 1 || g.number == 2 || g.number == 3 || g.number == 4) ==> <TripModifications as Message>::spec_merge(m, g, env, acc) == (m, false, acc),
{
}

/// The field numbers of `Modification`: 1 `start_stop_selector`, 2 `end_stop_selector`, 3 `propagated_modification_delay`, 4 `replacement_stops`, 5 `service_alert_id`, 6 `last_modified_time`.
/// Each number sets its own field, read as protobuf reads its type, and
/// leaves the other fields as they were; a nested message comes from the
/// body decoded under the field's own name. A number the schema does not
/// define sets nothing and reports nothing here.
pub proof fn law_modification_field_numbers(
    m: ModificationView,
    v: u64,
    s: Seq<u8>,
    offset: usize,
    env: Env,
    acc: Seq<AnomalyView>,
    g: FieldView,
)
    ensures
        ({
            let f = FieldView { number: 1, wire_type: 2, value: ValueView::Len(s), offset };
            let (r, a) = spec_nested_at::<StopSelector>(f, "start_stop_selector"@, env, acc);
            &&& r matches Some(n) ==> <Modification as Message>::spec_merge(m, f, env, acc) == (ModificationView { start_stop_selector: Some(n), ..m }, true, a)
            &&& r is None ==> <Modification as Message>::spec_merge(m, f, env, acc) == (m, true, a)
        }),
        ({
            let f = FieldView { number: 2, wire_type: 2, value: ValueView::Len(s), offset };
            let (r, a) = spec_nested_at::<StopSelector>(f, "end_stop_selector"@, env, acc);
            &&& r matches Some(n) ==> <Modification as Message>::spec_merge(m, f, env, acc) == (ModificationView { end_stop_selector: Some(n), ..m }, true, a)
            &&& r is None ==> <Modification as Message>::spec_merge(m, f, env, acc) == (m, true, a)
        }),
        ({
            let f = FieldView { number: 3, wire_type: 0, value: ValueView::Varint(v), offset };
            <Modification as Message>::spec_merge(m, f, env, acc) == (ModificationView { propagated_modification_delay: Some((v as u32) as i32), ..m }, true, acc)
        }),
        ({
            let f = FieldView { number: 4, wire_type: 2, value: ValueView::Len(s), offset };
            let (r, a) = spec_nested_at::<ReplacementStop>(f, indexed_segment("replacement_stops"@, m.replacement_stops.len()), env, acc);
            &&& r matches Some(n) ==> <Modification as Message>::spec_merge(m, f, env, acc) == (ModificationView { replacement_stops: m.replacement_stops.push(n), ..m }, true, a)
            &&& r is None ==> <Modification as Message>::spec_merge(m, f, env, acc) == (m, true, a)
        }),
        ({
            let f = FieldView { number: 5, wire_type: 2, value: ValueView::Len(s), offset };
            valid_utf8(s) ==> <Modification as Message>::spec_merge(m, f, env, acc) == (ModificationView { service_alert_id: Some(decode_utf8(s)), ..m }, true, acc)
        }),
        ({
            let f = FieldView { number: 6, wire_type: 0, value: ValueView::Varint(v), offset };
            <Modification as Message>::spec_merge(m, f, env, acc) == (ModificationView { last_modified_time: Some(v), ..m }, true, acc)
        }),
        !(g.number == 1 || g.number == 2 || g.number == 3 || g.number == 4 || g.number == 5 || g.number == 6) ==> <Modification as Message>::spec_merge(m, g, env, acc) == (m, false, acc),
{
}

/// The field numbers of `SelectedTrips`: 1 `trip_ids`, 2 `shape_id`.
/// Each number sets its own field, read as protobuf reads its type, and
/// leaves the other fields as they were; a nested message comes from the
/// body decoded under the field's own name. A number the schema does not
/// define sets nothing and reports nothing here.
pub proof fn law_selected_trips_field_numbers(
    m: SelectedTripsView,
    s: Seq<u8>,
    offset: usize,
    env: Env,
    acc: Seq<AnomalyView>,
    g: FieldView,
)
    ensures
        ({
            let f = FieldView { number: 1, wire_type: 2, value: ValueView::Len(s), offset };
            valid_utf8(s) ==> <SelectedTrips as Message>::spec_merge(m, f, env, acc) == (SelectedTripsView { trip_ids: m.trip_ids.push(decode_utf8(s)), ..m }, true, acc)
        }),
        ({
            let f = FieldView { number: 2, wire_type: 2, value: ValueView::Len(s), offset };
            valid_utf8(s) ==> <SelectedTrips as Message>::spec_merge(m, f, env, acc) == (SelectedTripsView { shape_id: Some(decode_utf8(s)), ..m }, true, acc)
        }),
        !(g.number == 1 || g.number == 2) ==> <SelectedTrips as Message>::spec_merge(m, g, env, acc) == (m, false, acc),
{
}

/// The field numbers of `StopSelector`: 1 `stop_sequence`, 2 `stop_id`.
/// Each number sets its own field, read as protobuf reads its type, and
/// leaves the other fields as they were; a nested message comes from the
/// body decoded under the field's own name. A number the schema does not
/// define sets nothing and reports nothing here.
pub proof fn law_stop_selector_field_numbers(
    m: StopSelectorView,
    v: u64,
    s: Seq<u8>,
    offset: usize,
    env: Env,
    acc: Seq<AnomalyView>,
    g: FieldView,
)
    ensures
        ({
            let f = FieldView { number: 1, wire_type: 0, value: ValueView::Varint(v), offset };
            <StopSelector as Message>::spec_merge(m, f, env, acc) == (StopSelectorView { stop_sequence: Some(v as u32), ..m }, true, acc)
        }),
        ({
            let f = FieldView { number: 2, wire_type: 2, value: ValueView::Len(s), offset };
            valid_utf8(s) ==> <StopSelector as Message>::spec_merge(m, f, env, acc) == (StopSelectorView { stop_id: Some(decode_utf8(s)), ..m }, true, acc)
        }),
        !(g.number == 1 || g.number == 2) ==> <StopSelector as Message>::spec_merge(m, g, env, acc) == (m, false, acc),
{
}

/// The field numbers of `ReplacementStop`: 1 `travel_time_to_stop`, 2 `stop_id`.
/// Each number sets its own field, read as protobuf reads its type, and
/// leaves the other fields as they were; a nested message comes from the
/// body decoded under the field's own name. A number the schema does not
/// define sets nothing and reports nothing here.
pub proof fn law_replacement_stop_field_numbers(
    m: ReplacementStopView,
    v: u64,
    s: Seq<u8>,
    offset: usize,
    env: Env,
    acc: Seq<AnomalyView>,
    g: FieldView,
)
    ensures
        ({
            let f = FieldView { number: 1, wire_type: 0, value: ValueView::Varint(v), offset };
            <ReplacementStop as Message>::spec_merge(m, f, env, acc) == (ReplacementStopView { travel_time_to_stop: Some((v as u32) as i32), ..m }, true, acc)
        }),
        ({
            let f = FieldView { number: 2, wire_type: 2, value: ValueView::Len(s), offset };
            valid_utf8(s) ==> <ReplacementStop as Message>::spec_merge(m, f, env, acc) == (ReplacementStopView { stop_id: Some(decode_utf8(s)), ..m }, true, acc)
        }),
        !(g.number == 1 || g.number == 2) ==> <ReplacementStop as Message>::spec_merge(m, g, env, acc) == (m, false, acc),
{
}

/// The field numbers of `Shape`: 1 `shape_id`, 2 `encoded_polyline`.
/// Each number sets its own field, read as protobuf reads its type, and
/// leaves the other fields as they were; a nested message comes from the
/// body decoded under the field's own name. A number the schema does not
/// define sets nothing and reports nothing here.
pub proof fn law_shape_field_numbers(
    m: ShapeView,
    s: Seq<u8>,
    offset: usize,
    env: Env,
    acc: Seq<AnomalyView>,
    g: FieldView,
)
    ensures
        ({
            let f = FieldView { number: 1, wire_type: 2, value: ValueView::Len(s), offset };
            valid_utf8(s) ==> <Shape as Message>::spec_merge(m, f, env, acc) == (ShapeView { shape_id: Some(decode_utf8(s)), ..m }, true, acc)
        }),
        ({
            let f = FieldView { number: 2, wire_type: 2, value: ValueView::Len(s), offset };
            valid_utf8(s) ==> <Shape as Message>::spec_merge(m, f, env, acc) == (ShapeView { encoded_polyline: Some(decode_utf8(s)), ..m }, true, acc)
        }),
        !(g.number == 1 || g.number == 2) ==> <Shape as Message>::spec_merge(m, g, env, acc) == (m, false, acc),
{
}

/// The field numbers of `Stop`: 1 `stop_id`, 2 `stop_code`, 3 `stop_name`, 4 `tts_stop_name`, 5 `stop_desc`, 6 `stop_lat`, 7 `stop_lon`, 8 `zone_id`, 9 `stop_url`, 11 `parent_station`, 12 `stop_timezone`, 13 `wheelchair_boarding`, 14 `level_id`, 15 `platform_code`.
/// Each number sets its own field, read as protobuf reads its type, and
/// leaves the other fields as they were; a nested message comes from the
/// body decoded under the field's own name. A number the schema does not
/// define sets nothing and reports nothing here.
pub proof fn law_stop_field_numbers(
    m: StopView,
    w32: u32,
    s: Seq<u8>,
    e_wheelchair_boarding: WheelchairBoarding,
    offset: usize,
    env: Env,
    acc: Seq<AnomalyView>,
    g: FieldView,
)
    ensures
        ({
            let f = FieldView { number: 1, wire_type: 2, value: ValueView::Len(s), offset };
            valid_utf8(s) ==> <Stop as Message>::spec_merge(m, f, env, acc) == (StopView { stop_id: Some(decode_utf8(s)), ..m }, true, acc)
        }),
        ({
            let f = FieldView { number: 2, wire_type: 2, value: ValueView::Len(s), offset };
            let (r, a) = spec_nested_at::<TranslatedString>(f, "stop_code"@, env, acc);
            &&& r matches Some(n) ==> <Stop as Message>::spec_merge(m, f, env, acc) == (StopView { stop_code: Some(n), ..m }, true, a)
            &&& r is None ==> <Stop as Message>::spec_merge(m, f, env, acc) == (m, true, a)
        }),
        ({
            let f = FieldView { number: 3, wire_type: 2, value: ValueView::Len(s), offset };
            let (r, a) = spec_nested_at::<TranslatedString>(f, "stop_name"@, env, acc);
            &&& r matches Some(n) ==> <Stop as Message>::spec_merge(m, f, env, acc) == (StopView { stop_name: Some(n), ..m }, true, a)
            &&& r is None ==> <Stop as Message>::spec_merge(m, f, env, acc) == (m, true, a)
        }),
        ({
            let f = FieldView { number: 4, wire_type: 2, value: ValueView::Len(s), offset };
            let (r, a) = spec_nested_at::<TranslatedString>(f, "tts_stop_name"@, env, acc);
            &&& r matches Some(n) ==> <Stop as Message>::spec_merge(m, f, env, acc) == (StopView { tts_stop_name: Some(n), ..m }, true, a)
            &&& r is None ==> <Stop as Message>::spec_merge(m, f, env, acc) == (m, true, a)
        }),
        ({
            let f = FieldView { number: 5, wire_type: 2, value: ValueView::Len(s), offset };
            let (r, a) = spec_nested_at::<TranslatedString>(f, "stop_desc"@, env, acc);
            &&& r matches Some(n) ==> <Stop as Message>::spec_merge(m, f, env, acc) == (StopView { stop_desc: Some(n), ..m }, true, a)
            &&& r is None ==> <Stop as Message>::spec_merge(m, f, env, acc) == (m, true, a)
        }),
        ({
            let f = FieldView { number: 6, wire_type: 5, value: ValueView::Fixed32(w32), offset };
            <Stop as Message>::spec_merge(m, f, env, acc) == (StopView { stop_lat: Some(w32), ..m }, true, acc)
        }),
        ({
            let f = FieldView { number: 7, wire_type: 5, value: ValueView::Fixed32(w32), offset };
            <Stop as Message>::spec_merge(m, f, env, acc) == (StopView { stop_lon: Some(w32), ..m }, true, acc)
        }),
        ({
            let f = FieldView { number: 8, wire_type: 2, value: ValueView::Len(s), offset };
            valid_utf8(s) ==> <Stop as Message>::spec_merge(m, f, env, acc) == (StopView { zone_id: Some(decode_utf8(s)), ..m }, true, acc)
        }),
        ({
            let f = FieldView { number: 9, wire_type: 2, value: ValueView::Len(s), offset };
            let (r, a) = spec_nested_at::<TranslatedString>(f, "stop_url"@, env, acc);
            &&& r matches Some(n) ==> <Stop as Message>::spec_merge(m, f, env, acc) == (StopView { stop_url: Some(n), ..m }, true, a)
            &&& r is None ==> <Stop as Message>::spec_merge(m, f, env, acc) == (m, true, a)
        }),
        ({
            let f = FieldView { number: 11, wire_type: 2, value: ValueView::Len(s), offset };
            valid_utf8(s) ==> <Stop as Message>::spec_merge(m, f, env, acc) == (StopView { parent_station: Some(decode_utf8(s)), ..m }, true, acc)
        }),
        ({
            let f = FieldView { number: 12, wire_type: 2, value: ValueView::Len(s), offset };
            valid_utf8(s) ==> <Stop as Message>::spec_merge(m, f, env, acc) == (StopView { stop_timezone: Some(decode_utf8(s)), ..m }, true, acc)
        }),
        ({
            let f = FieldView { number: 13, wire_type: 0, value: ValueView::Varint(e_wheelchair_boarding.spec_value() as i64 as u64), offset };
            <Stop as Message>::spec_merge(m, f, env, acc) == (StopView { wheelchair_boarding: Some(e_wheelchair_boarding), ..m }, true, acc)
        }),
        ({
            let f = FieldView { number: 14, wire_type: 2, value: ValueView::Len(s), offset };
            valid_utf8(s) ==> <Stop as Message>::spec_merge(m, f, env, acc) == (StopView { level_id: Some(decode_utf8(s)), ..m }, true, acc)
        }),
        ({
            let f = FieldView { number: 15, wire_type: 2, value: ValueView::Len(s), offset };
            let (r, a) = spec_nested_at::<TranslatedString>(f, "platform_code"@, env, acc);
            &&& r matches Some(n) ==> <Stop as Message>::spec_merge(m, f, env, acc) == (StopView { platform_code: Some(n), ..m }, true, a)
            &&& r is None ==> <Stop as Message>::spec_merge(m, f, env, acc) == (m, true, a)
        }),
        !(g.number == 1 || g.number == 2 || g.number == 3 || g.number == 4 || g.number == 5 || g.number == 6 || g.number == 7 || g.number == 8 || g.number == 9 || g.number == 11 || g.number == 12 || g.number == 13 || g.number == 14 || g.number == 15) ==> <Stop as Message>::spec_merge(m, g, env, acc) == (m, false, acc),
{
    law_enum_value_round_trip::<WheelchairBoarding>(
        env,
        acc,
        FieldView { number: 13, wire_type: 0, value: ValueView::Varint(e_wheelchair_boarding.spec_value() as i64 as u64), offset },
        e_wheelchair_boarding,
    );
}

/// The values of `FeedHeader.Incrementality`: 0 `FullDataset`, 1 `Differential`. Each name
/// stands for one value only.
pub proof fn law_incrementality_values(a: Incrementality, b: Incrementality)
    ensures
        spec_incrementality_name(Incrementality::FullDataset)@ == "FullDataset"@ && Incrementality::spec_from_i32(0) == Some(Incrementality::FullDataset) && Incrementality::FullDataset.spec_value() == 0,
        spec_incrementality_name(Incrementality::Differential)@ == "Differential"@ && Incrementality::spec_from_i32(1) == Some(Incrementality::Differential) && Incrementality::Differential.spec_value() == 1,
        (spec_incrementality_name(a)@ == spec_incrementality_name(b)@) == (a == b),
{
    reveal_strlit("FullDataset");
    reveal_strlit("Differential");
    assert("FullDataset"@.len() != "Differential"@.len());
}

/// The values of `TripDescriptor.ScheduleRelationship`: 0 `Scheduled`, 1 `Added`, 2 `Unscheduled`, 3 `Canceled`, 5 `Replacement`, 6 `Duplicated`, 7 `Deleted`, 8 `New`. Each name
/// stands for one value only.
pub proof fn law_trip_schedule_relationship_values(a: TripScheduleRelationship, b: TripScheduleRelationship)
    ensures
        spec_trip_schedule_relationship_name(TripScheduleRelationship::Scheduled)@ == "Scheduled"@ && TripScheduleRelationship::spec_from_i32(0) == Some(TripScheduleRelationship::Scheduled) && TripScheduleRelationship::Scheduled.spec_value() == 0,
        spec_trip_schedule_relationship_name(TripScheduleRelationship::Added)@ == "Added"@ && TripScheduleRelationship::spec_from_i32(1) == Some(TripScheduleRelationship::Added) && TripScheduleRelationship::Added.spec_value() == 1,
        spec_trip_schedule_relationship_name(TripScheduleRelationship::Unscheduled)@ == "Unscheduled"@ && TripScheduleRelationship::spec_from_i32(2) == Some(TripScheduleRelationship::Unscheduled) && TripScheduleRelationship::Unscheduled.spec_value() == 2,
        spec_trip_schedule_relationship_name(TripScheduleRelationship::Canceled)@ == "Canceled"@ && TripScheduleRelationship::spec_from_i32(3) == Some(TripScheduleRelationship::Canceled) && TripScheduleRelationship::Canceled.spec_value() == 3,
        spec_trip_schedule_relationship_name(TripScheduleRelationship::Replacement)@ == "Replacement"@ && TripScheduleRelationship::spec_from_i32(5) == Some(TripScheduleRelationship::Replacement) && TripScheduleRelationship::Replacement.spec_value() == 5,
        spec_trip_schedule_relationship_name(TripScheduleRelationship::Duplicated)@ == "Duplicated"@ && TripScheduleRelationship::spec_from_i32(6) == Some(TripScheduleRelationship::Duplicated) && TripScheduleRelationship::Duplicated.spec_value() == 6,
        spec_trip_schedule_relationship_name(TripScheduleRelationship::Deleted)@ == "Deleted"@ && TripScheduleRelationship::spec_from_i32(7) == Some(TripScheduleRelationship::Deleted) && TripScheduleRelationship::Deleted.spec_value() == 7,
        spec_trip_schedule_relationship_name(TripScheduleRelationship::New)@ == "New"@ && TripScheduleRelationship::spec_from_i32(8) == Some(TripScheduleRelationship::New) && TripScheduleRelationship::New.spec_value() == 8,
        (spec_trip_schedule_relationship_name(a)@ == spec_trip_schedule_relationship_name(b)@) == (a == b),
{
    reveal_strlit("Scheduled");
    reveal_strlit("Added");
    reveal_strlit("Unscheduled");
    reveal_strlit("Canceled");
    reveal_strlit("Replacement");
    reveal_strlit("Duplicated");
    reveal_strlit("Deleted");
    reveal_strlit("New");
    assert("Scheduled"@.len() != "Added"@.len());
    assert("Scheduled"@.len() != "Unscheduled"@.len());
    assert("Scheduled"@.len() != "Canceled"@.len());
    assert("Scheduled"@.len() != "Replacement"@.len());
    assert("Scheduled"@.len() != "Duplicated"@.len());
    assert("Scheduled"@.len() != "Deleted"@.len());
    assert("Scheduled"@.len() != "New"@.len());
    assert("Added"@.len() != "Unscheduled"@.len());
    assert("Added"@.len() != "Canceled"@.len());
    assert("Added"@.len() != "Replacement"@.len());
    assert("Added"@.len() != "Duplicated"@.len());
    assert("Added"@.len() != "Deleted"@.len());
    assert("Added"@.len() != "New"@.len());
    assert("Unscheduled"@.len() != "Canceled"@.len());
    assert("Unscheduled"@[0] != "Replacement"@[0]);
    assert("Unscheduled"@.len() != "Duplicated"@.len());
    assert("Unscheduled"@.len() != "Deleted"@.len());
    assert("Unscheduled"@.len() != "New"@.len());
    assert("Canceled"@.len() != "Replacement"@.len());
    assert("Canceled"@.len() != "Duplicated"@.len());
    assert("Canceled"@.len() != "Deleted"@.len());
    assert("Canceled"@.len() != "New"@.len());
    assert("Replacement"@.len() != "Duplicated"@.len());
    assert("Replacement"@.len() != "Deleted"@.len());
    assert("Replacement"@.len() != "New"@.len());
    assert("Duplicated"@.len() != "Deleted"@.len());
    assert("Duplicated"@.len() != "New"@.len());
    assert("Deleted"@.len() != "New"@.len());
}

/// The values of `StopTimeUpdate.ScheduleRelationship`: 0 `Scheduled`, 1 `Skipped`, 2 `NoData`, 3 `Unscheduled`. Each name
/// stands for one value only.
pub proof fn law_stop_time_schedule_relationship_values(a: StopTimeScheduleRelationship, b: StopTimeScheduleRelationship)
    ensures
        spec_stop_time_schedule_relationship_name(StopTimeScheduleRelationship::Scheduled)@ == "Scheduled"@ && StopTimeScheduleRelationship::spec_from_i32(0) == Some(StopTimeScheduleRelationship::Scheduled) && StopTimeScheduleRelationship::Scheduled.spec_value() == 0,
        spec_stop_time_schedule_relationship_name(StopTimeScheduleRelationship::Skipped)@ == "Skipped"@ && StopTimeScheduleRelationship::spec_from_i32(1) == Some(StopTimeScheduleRelationship::Skipped) && StopTimeScheduleRelationship::Skipped.spec_value() == 1,
        spec_stop_time_schedule_relationship_name(StopTimeScheduleRelationship::NoData)@ == "NoData"@ && StopTimeScheduleRelationship::spec_from_i32(2) == Some(StopTimeScheduleRelationship::NoData) && StopTimeScheduleRelationship::NoData.spec_value() == 2,
        spec_stop_time_schedule_relationship_name(StopTimeScheduleRelationship::Unscheduled)@ == "Unscheduled"@ && StopTimeScheduleRelationship::spec_from_i32(3) == Some(StopTimeScheduleRelationship::Unscheduled) && StopTimeScheduleRelationship::Unscheduled.spec_value() == 3,
        (spec_stop_time_schedule_relationship_name(a)@ == spec_stop_time_schedule_relationship_name(b)@) == (a == b),
{
    reveal_strlit("Scheduled");
    reveal_strlit("Skipped");
    reveal_strlit("NoData");
    reveal_strlit("Unscheduled");
    assert("Scheduled"@.len() != "Skipped"@.len());
    assert("Scheduled"@.len() != "NoData"@.len());
    assert("Scheduled"@.len() != "Unscheduled"@.len());
    assert("Skipped"@.len() != "NoData"@.len());
    assert("Skipped"@.len() != "Unscheduled"@.len());
    assert("NoData"@.len() != "Unscheduled"@.len());
}

/// The values of `StopTimeProperties.DropOffPickupType`: 0 `Regular`, 1 `None`, 2 `PhoneAgency`, 3 `CoordinateWithDriver`. Each name
/// stands for one value only.
pub proof fn law_drop_off_pickup_type_values(a: DropOffPickupType, b: DropOffPickupType)
    ensures
        spec_drop_off_pickup_type_name(DropOffPickupType::Regular)@ == "Regular"@ && DropOffPickupType::spec_from_i32(0) == Some(DropOffPickupType::Regular) && DropOffPickupType::Regular.spec_value() == 0,
        spec_drop_off_pickup_type_name(DropOffPickupType::NotAvailable)@ == "None"@ && DropOffPickupType::spec_from_i32(1) == Some(DropOffPickupType::NotAvailable) && DropOffPickupType::NotAvailable.spec_value() == 1,
        spec_drop_off_pickup_type_name(DropOffPickupType::PhoneAgency)@ == "PhoneAgency"@ && DropOffPickupType::spec_from_i32(2) == Some(DropOffPickupType::PhoneAgency) && DropOffPickupType::PhoneAgency.spec_value() == 2,
        spec_drop_off_pickup_type_name(DropOffPickupType::CoordinateWithDriver)@ == "CoordinateWithDriver"@ && DropOffPickupType::spec_from_i32(3) == Some(DropOffPickupType::CoordinateWithDriver) && DropOffPickupType::CoordinateWithDriver.spec_value() == 3,
        (spec_drop_off_pickup_type_name(a)@ == spec_drop_off_pickup_type_name(b)@) == (a == b),
{
    reveal_strlit("Regular");
    reveal_strlit("None");
    reveal_strlit("PhoneAgency");
    reveal_strlit("CoordinateWithDriver");
    assert("Regular"@.len() != "None"@.len());
    assert("Regular"@.len() != "PhoneAgency"@.len());
    assert("Regular"@.len() != "CoordinateWithDriver"@.len());
    assert("None"@.len() != "PhoneAgency"@.len());
    assert("None"@.len() != "CoordinateWithDriver"@.len());
    assert("PhoneAgency"@.len() != "CoordinateWithDriver"@.len());
}

/// The values of `VehiclePosition.VehicleStopStatus`: 0 `IncomingAt`, 1 `StoppedAt`, 2 `InTransitTo`. Each name
/// stands for one value only.
pub proof fn law_vehicle_stop_status_values(a: VehicleStopStatus, b: VehicleStopStatus)
    ensures
        spec_vehicle_stop_status_name(VehicleStopStatus::IncomingAt)@ == "IncomingAt"@ && VehicleStopStatus::spec_from_i32(0) == Some(VehicleStopStatus::IncomingAt) && VehicleStopStatus::IncomingAt.spec_value() == 0,
        spec_vehicle_stop_status_name(VehicleStopStatus::StoppedAt)@ == "StoppedAt"@ && VehicleStopStatus::spec_from_i32(1) == Some(VehicleStopStatus::StoppedAt) && VehicleStopStatus::StoppedAt.spec_value() == 1,
        spec_vehicle_stop_status_name(VehicleStopStatus::InTransitTo)@ == "InTransitTo"@ && VehicleStopStatus::spec_from_i32(2) == Some(VehicleStopStatus::InTransitTo) && VehicleStopStatus::InTransitTo.spec_value() == 2,
        (spec_vehicle_stop_status_name(a)@ == spec_vehicle_stop_status_name(b)@) == (a == b),
{
    reveal_strlit("IncomingAt");
    reveal_strlit("StoppedAt");
    reveal_strlit("InTransitTo");
    assert("IncomingAt"@.len() != "StoppedAt"@.len());
    assert("IncomingAt"@.len() != "InTransitTo"@.len());
    assert("StoppedAt"@.len() != "InTransitTo"@.len());
}

/// The values of `VehiclePosition.CongestionLevel`: 0 `UnknownCongestionLevel`, 1 `RunningSmoothly`, 2 `StopAndGo`, 3 `Congestion`, 4 `SevereCongestion`. Each name
/// stands for one value only.
pub proof fn law_congestion_level_values(a: CongestionLevel, b: CongestionLevel)
    ensures
        spec_congestion_level_name(CongestionLevel::UnknownCongestionLevel)@ == "UnknownCongestionLevel"@ && CongestionLevel::spec_from_i32(0) == Some(CongestionLevel::UnknownCongestionLevel) && CongestionLevel::UnknownCongestionLevel.spec_value() == 0,
        spec_congestion_level_name(CongestionLevel::RunningSmoothly)@ == "RunningSmoothly"@ && CongestionLevel::spec_from_i32(1) == Some(CongestionLevel::RunningSmoothly) && CongestionLevel::RunningSmoothly.spec_value() == 1,
        spec_congestion_level_name(CongestionLevel::StopAndGo)@ == "StopAndGo"@ && CongestionLevel::spec_from_i32(2) == Some(CongestionLevel::StopAndGo) && CongestionLevel::StopAndGo.spec_value() == 2,
        spec_congestion_level_name(CongestionLevel::Congestion)@ == "Congestion"@ && CongestionLevel::spec_from_i32(3) == Some(CongestionLevel::Congestion) && CongestionLevel::Congestion.spec_value() == 3,
        spec_congestion_level_name(CongestionLevel::SevereCongestion)@ == "SevereCongestion"@ && CongestionLevel::spec_from_i32(4) == Some(CongestionLevel::SevereCongestion) && CongestionLevel::SevereCongestion.spec_value() == 4,
        (spec_congestion_level_name(a)@ == spec_congestion_level_name(b)@) == (a == b),
{
    reveal_strlit("UnknownCongestionLevel");
    reveal_strlit("RunningSmoothly");
    reveal_strlit("StopAndGo");
    reveal_strlit("Congestion");
    reveal_strlit("SevereCongestion");
    assert("UnknownCongestionLevel"@.len() != "RunningSmoothly"@.len());
    assert("UnknownCongestionLevel"@.len() != "StopAndGo"@.len());
    assert("UnknownCongestionLevel"@.len() != "Congestion"@.len());
    assert("UnknownCongestionLevel"@.len() != "SevereCongestion"@.len());
    assert("RunningSmoothly"@.len() != "StopAndGo"@.len());
    assert("RunningSmoothly"@.len() != "Congestion"@.len());
    assert("RunningSmoothly"@.len() != "SevereCongestion"@.len());
    assert("StopAndGo"@.len() != "Congestion"@.len());
    assert("StopAndGo"@.len() != "SevereCongestion"@.len());
    assert("Congestion"@.len() != "SevereCongestion"@.len());
}

/// The values of `VehiclePosition.OccupancyStatus`: 0 `Empty`, 1 `ManySeatsAvailable`, 2 `FewSeatsAvailable`, 3 `StandingRoomOnly`, 4 `CrushedStandingRoomOnly`, 5 `Full`, 6 `NotAcceptingPassengers`, 7 `NoDataAvailable`, 8 `NotBoardable`. Each name
/// stands for one value only.
pub proof fn law_occupancy_status_values(a: OccupancyStatus, b: OccupancyStatus)
    ensures
        spec_occupancy_status_name(OccupancyStatus::Empty)@ == "Empty"@ && OccupancyStatus::spec_from_i32(0) == Some(OccupancyStatus::Empty) && OccupancyStatus::Empty.spec_value() == 0,
        spec_occupancy_status_name(OccupancyStatus::ManySeatsAvailable)@ == "ManySeatsAvailable"@ && OccupancyStatus::spec_from_i32(1) == Some(OccupancyStatus::ManySeatsAvailable) && OccupancyStatus::ManySeatsAvailable.spec_value() == 1,
        spec_occupancy_status_name(OccupancyStatus::FewSeatsAvailable)@ == "FewSeatsAvailable"@ && OccupancyStatus::spec_from_i32(2) == Some(OccupancyStatus::FewSeatsAvailable) && OccupancyStatus::FewSeatsAvailable.spec_value() == 2,
        spec_occupancy_status_name(OccupancyStatus::StandingRoomOnly)@ == "StandingRoomOnly"@ && OccupancyStatus::spec_from_i32(3) == Some(OccupancyStatus::StandingRoomOnly) && OccupancyStatus::StandingRoomOnly.spec_value() == 3,
        spec_occupancy_status_name(OccupancyStatus::CrushedStandingRoomOnly)@ == "CrushedStandingRoomOnly"@ && OccupancyStatus::spec_from_i32(4) == Some(OccupancyStatus::CrushedStandingRoomOnly) && OccupancyStatus::CrushedStandingRoomOnly.spec_value() == 4,
        spec_occupancy_status_name(OccupancyStatus::Full)@ == "Full"@ && OccupancyStatus::spec_from_i32(5) == Some(OccupancyStatus::Full) && OccupancyStatus::Full.spec_value() == 5,
        spec_occupancy_status_name(OccupancyStatus::NotAcceptingPassengers)@ == "NotAcceptingPassengers"@ && OccupancyStatus::spec_from_i32(6) == Some(OccupancyStatus::NotAcceptingPassengers) && OccupancyStatus::NotAcceptingPassengers.spec_value() == 6,
        spec_occupancy_status_name(OccupancyStatus::NoDataAvailable)@ == "NoDataAvailable"@ && OccupancyStatus::spec_from_i32(7) == Some(OccupancyStatus::NoDataAvailable) && OccupancyStatus::NoDataAvailable.spec_value() == 7,
        spec_occupancy_status_name(OccupancyStatus::NotBoardable)@ == "NotBoardable"@ && OccupancyStatus::spec_from_i32(8) == Some(OccupancyStatus::NotBoardable) && OccupancyStatus::NotBoardable.spec_value() == 8,
        (spec_occupancy_status_name(a)@ == spec_occupancy_status_name(b)@) == (a == b),
{
    reveal_strlit("Empty");
    reveal_strlit("ManySeatsAvailable");
    reveal_strlit("FewSeatsAvailable");
    reveal_strlit("StandingRoomOnly");
    reveal_strlit("CrushedStandingRoomOnly");
    reveal_strlit("Full");
    reveal_strlit("NotAcceptingPassengers");
    reveal_strlit("NoDataAvailable");
    reveal_strlit("NotBoardable");
    assert("Empty"@.len() != "ManySeatsAvailable"@.len());
    assert("Empty"@.len() != "FewSeatsAvailable"@.len());
    assert("Empty"@.len() != "StandingRoomOnly"@.len());
    assert("Empty"@.len() != "CrushedStandingRoomOnly"@.len());
    assert("Empty"@.len() != "Full"@.len());
    assert("Empty"@.len() != "NotAcceptingPassengers"@.len());
    assert("Empty"@.len() != "NoDataAvailable"@.len());
    assert("Empty"@.len() != "NotBoardable"@.len());
    assert("ManySeatsAvailable"@.len() != "FewSeatsAvailable"@.len());
    assert("ManySeatsAvailable"@.len() != "StandingRoomOnly"@.len());
    assert("ManySeatsAvailable"@.len() != "CrushedStandingRoomOnly"@.len());
    assert("ManySeatsAvailable"@.len() != "Full"@.len());
    assert("ManySeatsAvailable"@.len() != "NotAcceptingPassengers"@.len());
    assert("ManySeatsAvailable"@.len() != "NoDataAvailable"@.len());
    assert("ManySeatsAvailable"@.len() != "NotBoardable"@.len());
    assert("FewSeatsAvailable"@.len() != "StandingRoomOnly"@.len());
    assert("FewSeatsAvailable"@.len() != "CrushedStandingRoomOnly"@.len());
    assert("FewSeatsAvailable"@.len() != "Full"@.len());
    assert("FewSeatsAvailable"@.len() != "NotAcceptingPassengers"@.len());
    assert("FewSeatsAvailable"@.len() != "NoDataAvailable"@.len());
    assert("FewSeatsAvailable"@.len() != "NotBoardable"@.len());
    assert("StandingRoomOnly"@.len() != "CrushedStandingRoomOnly"@.len());
    assert("StandingRoomOnly"@.len() != "Full"@.len());
    assert("StandingRoomOnly"@.len() != "NotAcceptingPassengers"@.len());
    assert("StandingRoomOnly"@.len() != "NoDataAvailable"@.len());
    assert("StandingRoomOnly"@.len() != "NotBoardable"@.len());
    assert("CrushedStandingRoomOnly"@.len() != "Full"@.len());
    assert("CrushedStandingRoomOnly"@.len() != "NotAcceptingPassengers"@.len());
    assert("CrushedStandingRoomOnly"@.len() != "NoDataAvailable"@.len());
    assert("CrushedStandingRoomOnly"@.len() != "NotBoardable"@.len());
    assert("Full"@.len() != "NotAcceptingPassengers"@.len());
    assert("Full"@.len() != "NoDataAvailable"@.len());
    assert("Full"@.len() != "NotBoardable"@.len());
    assert("NotAcceptingPassengers"@.len() != "NoDataAvailable"@.len());
    assert("NotAcceptingPassengers"@.len() != "NotBoardable"@.len());
    assert("NoDataAvailable"@.len() != "NotBoardable"@.len());
}

/// The values of `Alert.Cause`: 1 `UnknownCause`, 2 `OtherCause`, 3 `TechnicalProblem`, 4 `Strike`, 5 `Demonstration`, 6 `Accident`, 7 `Holiday`, 8 `Weather`, 9 `Maintenance`, 10 `Construction`, 11 `PoliceActivity`, 12 `MedicalEmergency`, 13 `SpecialEvent`. Each name
/// stands for one value only.
pub proof fn law_alert_cause_values(a: AlertCause, b: AlertCause)
    ensures
        spec_alert_cause_name(AlertCause::UnknownCause)@ == "UnknownCause"@ && AlertCause::spec_from_i32(1) == Some(AlertCause::UnknownCause) && AlertCause::UnknownCause.spec_value() == 1,
        spec_alert_cause_name(AlertCause::OtherCause)@ == "OtherCause"@ && AlertCause::spec_from_i32(2) == Some(AlertCause::OtherCause) && AlertCause::OtherCause.spec_value() == 2,
        spec_alert_cause_name(AlertCause::TechnicalProblem)@ == "TechnicalProblem"@ && AlertCause::spec_from_i32(3) == Some(AlertCause::TechnicalProblem) && AlertCause::TechnicalProblem.spec_value() == 3,
        spec_alert_cause_name(AlertCause::Strike)@ == "Strike"@ && AlertCause::spec_from_i32(4) == Some(AlertCause::Strike) && AlertCause::Strike.spec_value() == 4,
        spec_alert_cause_name(AlertCause::Demonstration)@ == "Demonstration"@ && AlertCause::spec_from_i32(5) == Some(AlertCause::Demonstration) && AlertCause::Demonstration.spec_value() == 5,
        spec_alert_cause_name(AlertCause::Accident)@ == "Accident"@ && AlertCause::spec_from_i32(6) == Some(AlertCause::Accident) && AlertCause::Accident.spec_value() == 6,
        spec_alert_cause_name(AlertCause::Holiday)@ == "Holiday"@ && AlertCause::spec_from_i32(7) == Some(AlertCause::Holiday) && AlertCause::Holiday.spec_value() == 7,
        spec_alert_cause_name(AlertCause::Weather)@ == "Weather"@ && AlertCause::spec_from_i32(8) == Some(AlertCause::Weather) && AlertCause::Weather.spec_value() == 8,
        spec_alert_cause_name(AlertCause::Maintenance)@ == "Maintenance"@ && AlertCause::spec_from_i32(9) == Some(AlertCause::Maintenance) && AlertCause::Maintenance.spec_value() == 9,
        spec_alert_cause_name(AlertCause::Construction)@ == "Construction"@ && AlertCause::spec_from_i32(10) == Some(AlertCause::Construction) && AlertCause::Construction.spec_value() == 10,
        spec_alert_cause_name(AlertCause::PoliceActivity)@ == "PoliceActivity"@ && AlertCause::spec_from_i32(11) == Some(AlertCause::PoliceActivity) && AlertCause::PoliceActivity.spec_value() == 11,
        spec_alert_cause_name(AlertCause::MedicalEmergency)@ == "MedicalEmergency"@ && AlertCause::spec_from_i32(12) == Some(AlertCause::MedicalEmergency) && AlertCause::MedicalEmergency.spec_value() == 12,
        spec_alert_cause_name(AlertCause::SpecialEvent)@ == "SpecialEvent"@ && AlertCause::spec_from_i32(13) == Some(AlertCause::SpecialEvent) && AlertCause::SpecialEvent.spec_value() == 13,
        (spec_alert_cause_name(a)@ == spec_alert_cause_name(b)@) == (a == b),
{
    reveal_strlit("UnknownCause");
    reveal_strlit("OtherCause");
    reveal_strlit("TechnicalProblem");
    reveal_strlit("Strike");
    reveal_strlit("Demonstration");
    reveal_strlit("Accident");
    reveal_strlit("Holiday");
    reveal_strlit("Weather");
    reveal_strlit("Maintenance");
    reveal_strlit("Construction");
    reveal_strlit("PoliceActivity");
    reveal_strlit("MedicalEmergency");
    reveal_strlit("SpecialEvent");
    assert("UnknownCause"@.len() != "OtherCause"@.len());
    assert("UnknownCause"@.len() != "TechnicalProblem"@.len());
    assert("UnknownCause"@.len() != "Strike"@.len());
    assert("UnknownCause"@.len() != "Demonstration"@.len());
    assert("UnknownCause"@.len() != "Accident"@.len());
    assert("UnknownCause"@.len() != "Holiday"@.len());
    assert("UnknownCause"@.len() != "Weather"@.len());
    assert("UnknownCause"@.len() != "Maintenance"@.len());
    assert("UnknownCause"@[0] != "Construction"@[0]);
    assert("UnknownCause"@.len() != "PoliceActivity"@.len());
    assert("UnknownCause"@.len() != "MedicalEmergency"@.len());
    assert("UnknownCause"@[0] != "SpecialEvent"@[0]);
    assert("OtherCause"@.len() != "TechnicalProblem"@.len());
    assert("OtherCause"@.len() != "Strike"@.len());
    assert("OtherCause"@.len() != "Demonstration"@.len());
    assert("OtherCause"@.len() != "Accident"@.len());
    assert("OtherCause"@.len() != "Holiday"@.len());
    assert("OtherCause"@.len() != "Weather"@.len());
    assert("OtherCause"@.len() != "Maintenance"@.len());
    assert("OtherCause"@.len() != "Construction"@.len());
    assert("OtherCause"@.len() != "PoliceActivity"@.len());
    assert("OtherCause"@.len() != "MedicalEmergency"@.len());
    assert("OtherCause"@.len() != "SpecialEvent"@.len());
    assert("TechnicalProblem"@.len() != "Strike"@.len());
    assert("TechnicalProblem"@.len() != "Demonstration"@.len());
    assert("TechnicalProblem"@.len() != "Accident"@.len());
    assert("TechnicalProblem"@.len() != "Holiday"@.len());
    assert("TechnicalProblem"@.len() != "Weather"@.len());
    assert("TechnicalProblem"@.len() != "Maintenance"@.len());
    assert("TechnicalProblem"@.len() != "Construction"@.len());
    assert("TechnicalProblem"@.len() != "PoliceActivity"@.len());
    assert("TechnicalProblem"@[0] != "MedicalEmergency"@[0]);
    assert("TechnicalProblem"@.len() != "SpecialEvent"@.len());
    assert("Strike"@.len() != "Demonstration"@.len());
    assert("Strike"@.len() != "Accident"@.len());
    assert("Strike"@.len() != "Holiday"@.len());
    assert("Strike"@.len() != "Weather"@.len());
    assert("Strike"@.len() != "Maintenance"@.len());
    assert("Strike"@.len() != "Construction"@.len());
    assert("Strike"@.len() != "PoliceActivity"@.len());
    assert("Strike"@.len() != "MedicalEmergency"@.len());
    assert("Strike"@.len() != "SpecialEvent"@.len());
    assert("Demonstration"@.len() != "Accident"@.len());
    assert("Demonstration"@.len() != "Holiday"@.len());
    assert("Demonstration"@.len() != "Weather"@.len());
    assert("Demonstration"@.len() != "Maintenance"@.len());
    assert("Demonstration"@.len() != "Construction"@.len());
    assert("Demonstration"@.len() != "PoliceActivity"@.len());
    assert("Demonstration"@.len() != "MedicalEmergency"@.len());
    assert("Demonstration"@.len() != "SpecialEvent"@.len());
    assert("Accident"@.len() != "Holiday"@.len());
    assert("Accident"@.len() != "Weather"@.len());
    assert("Accident"@.len() != "Maintenance"@.len());
    assert("Accident"@.len() != "Construction"@.len());
    assert("Accident"@.len() != "PoliceActivity"@.len());
    assert("Accident"@.len() != "MedicalEmergency"@.len());
    assert("Accident"@.len() != "SpecialEvent"@.len());
    assert("Holiday"@[0] != "Weather"@[0]);
    assert("Holiday"@.len() != "Maintenance"@.len());
    assert("Holiday"@.len() != "Construction"@.len());
    assert("Holiday"@.len() != "PoliceActivity"@.len());
    assert("Holiday"@.len() != "MedicalEmergency"@.len());
    assert("Holiday"@.len() != "SpecialEvent"@.len());
    assert("Weather"@.len() != "Maintenance"@.len());
    assert("Weather"@.len() != "Construction"@.len());
    assert("Weather"@.len() != "PoliceActivity"@.len());
    assert("Weather"@.len() != "MedicalEmergency"@.len());
    assert("Weather"@.len() != "SpecialEvent"@.len());
    assert("Maintenance"@.len() != "Construction"@.len());
    assert("Maintenance"@.len() != "PoliceActivity"@.len());
    assert("Maintenance"@.len() != "MedicalEmergency"@.len());
    assert("Maintenance"@.len() != "SpecialEvent"@.len());
    assert("Construction"@.len() != "PoliceActivity"@.len());
    assert("Construction"@.len() != "MedicalEmergency"@.len());
    assert("Construction"@[0] != "SpecialEvent"@[0]);
    assert("PoliceActivity"@.len() != "MedicalEmergency"@.len());
    assert("PoliceActivity"@.len() != "SpecialEvent"@.len());
    assert("MedicalEmergency"@.len() != "SpecialEvent"@.len());
}

/// The values of `Alert.Effect`: 1 `NoService`, 2 `ReducedService`, 3 `SignificantDelays`, 4 `Detour`, 5 `AdditionalService`, 6 `ModifiedService`, 7 `OtherEffect`, 8 `UnknownEffect`, 9 `StopMoved`, 10 `NoEffect`, 11 `AccessibilityIssue`. Each name
/// stands for one value only.
pub proof fn law_alert_effect_values(a: AlertEffect, b: AlertEffect)
    ensures
        spec_alert_effect_name(AlertEffect::NoService)@ == "NoService"@ && AlertEffect::spec_from_i32(1) == Some(AlertEffect::NoService) && AlertEffect::NoService.spec_value() == 1,
        spec_alert_effect_name(AlertEffect::ReducedService)@ == "ReducedService"@ && AlertEffect::spec_from_i32(2) == Some(AlertEffect::ReducedService) && AlertEffect::ReducedService.spec_value() == 2,
        spec_alert_effect_name(AlertEffect::SignificantDelays)@ == "SignificantDelays"@ && AlertEffect::spec_from_i32(3) == Some(AlertEffect::SignificantDelays) && AlertEffect::SignificantDelays.spec_value() == 3,
        spec_alert_effect_name(AlertEffect::Detour)@ == "Detour"@ && AlertEffect::spec_from_i32(4) == Some(AlertEffect::Detour) && AlertEffect::Detour.spec_value() == 4,
        spec_alert_effect_name(AlertEffect::AdditionalService)@ == "AdditionalService"@ && AlertEffect::spec_from_i32(5) == Some(AlertEffect::AdditionalService) && AlertEffect::AdditionalService.spec_value() == 5,
        spec_alert_effect_name(AlertEffect::ModifiedService)@ == "ModifiedService"@ && AlertEffect::spec_from_i32(6) == Some(AlertEffect::ModifiedService) && AlertEffect::ModifiedService.spec_value() == 6,
        spec_alert_effect_name(AlertEffect::OtherEffect)@ == "OtherEffect"@ && AlertEffect::spec_from_i32(7) == Some(AlertEffect::OtherEffect) && AlertEffect::OtherEffect.spec_value() == 7,
        spec_alert_effect_name(AlertEffect::UnknownEffect)@ == "UnknownEffect"@ && AlertEffect::spec_from_i32(8) == Some(AlertEffect::UnknownEffect) && AlertEffect::UnknownEffect.spec_value() == 8,
        spec_alert_effect_name(AlertEffect::StopMoved)@ == "StopMoved"@ && AlertEffect::spec_from_i32(9) == Some(AlertEffect::StopMoved) && AlertEffect::StopMoved.spec_value() == 9,
        spec_alert_effect_name(AlertEffect::NoEffect)@ == "NoEffect"@ && AlertEffect::spec_from_i32(10) == Some(AlertEffect::NoEffect) && AlertEffect::NoEffect.spec_value() == 10,
        spec_alert_effect_name(AlertEffect::AccessibilityIssue)@ == "AccessibilityIssue"@ && AlertEffect::spec_from_i32(11) == Some(AlertEffect::AccessibilityIssue) && AlertEffect::AccessibilityIssue.spec_value() == 11,
        (spec_alert_effect_name(a)@ == spec_alert_effect_name(b)@) == (a == b),
{
    reveal_strlit("NoService");
    reveal_strlit("ReducedService");
    reveal_strlit("SignificantDelays");
    reveal_strlit("Detour");
    reveal_strlit("AdditionalService");
    reveal_strlit("ModifiedService");
    reveal_strlit("OtherEffect");
    reveal_strlit("UnknownEffect");
    reveal_strlit("StopMoved");
    reveal_strlit("NoEffect");
    reveal_strlit("AccessibilityIssue");
    assert("NoService"@.len() != "ReducedService"@.len());
    assert("NoService"@.len() != "SignificantDelays"@.len());
    assert("NoService"@.len() != "Detour"@.len());
    assert("NoService"@.len() != "AdditionalService"@.len());
    assert("NoService"@.len() != "ModifiedService"@.len());
    assert("NoService"@.len() != "OtherEffect"@.len());
    assert("NoService"@.len() != "UnknownEffect"@.len());
    assert("NoService"@[0] != "StopMoved"@[0]);
    assert("NoService"@.len() != "NoEffect"@.len());
    assert("NoService"@.len() != "AccessibilityIssue"@.len());
    assert("ReducedService"@.len() != "SignificantDelays"@.len());
    assert("ReducedService"@.len() != "Detour"@.len());
    assert("ReducedService"@.len() != "AdditionalService"@.len());
    assert("ReducedService"@.len() != "ModifiedService"@.len());
    assert("ReducedService"@.len() != "OtherEffect"@.len());
    assert("ReducedService"@.len() != "UnknownEffect"@.len());
    assert("ReducedService"@.len() != "StopMoved"@.len());
    assert("ReducedService"@.len() != "NoEffect"@.len());
    assert("ReducedService"@.len() != "AccessibilityIssue"@.len());
    assert("SignificantDelays"@.len() != "Detour"@.len());
    assert("SignificantDelays"@[0] != "AdditionalService"@[0]);
    assert("SignificantDelays"@.len() != "ModifiedService"@.len());
    assert("SignificantDelays"@.len() != "OtherEffect"@.len());
    assert("SignificantDelays"@.len() != "UnknownEffect"@.len());
    assert("SignificantDelays"@.len() != "StopMoved"@.len());
    assert("SignificantDelays"@.len() != "NoEffect"@.len());
    assert("SignificantDelays"@.len() != "AccessibilityIssue"@.len());
    assert("Detour"@.len() != "AdditionalService"@.len());
    assert("Detour"@.len() != "ModifiedService"@.len());
    assert("Detour"@.len() != "OtherEffect"@.len());
    assert("Detour"@.len() != "UnknownEffect"@.len());
    assert("Detour"@.len() != "StopMoved"@.len());
    assert("Detour"@.len() != "NoEffect"@.len());
    assert("Detour"@.len() != "AccessibilityIssue"@.len());
    assert("AdditionalService"@.len() != "ModifiedService"@.len());
    assert("AdditionalService"@.len() != "OtherEffect"@.len());
    assert("AdditionalService"@.len() != "UnknownEffect"@.len());
    assert("AdditionalService"@.len() != "StopMoved"@.len());
    assert("AdditionalService"@.len() != "NoEffect"@.len());
    assert("AdditionalService"@.len() != "AccessibilityIssue"@.len());
    assert("ModifiedService"@.len() != "OtherEffect"@.len());
    assert("ModifiedService"@.len() != "UnknownEffect"@.len());
    assert("ModifiedService"@.len() != "StopMoved"@.len());
    assert("ModifiedService"@.len() != "NoEffect"@.len());
    assert("ModifiedService"@.len() != "AccessibilityIssue"@.len());
    assert("OtherEffect"@.len() != "UnknownEffect"@.len());
    assert("OtherEffect"@.len() != "StopMoved"@.len());
    assert("OtherEffect"@.len() != "NoEffect"@.len());
    assert("OtherEffect"@.len() != "AccessibilityIssue"@.len());
    assert("UnknownEffect"@.len() != "StopMoved"@.len());
    assert("UnknownEffect"@.len() != "NoEffect"@.len());
    assert("UnknownEffect"@.len() != "AccessibilityIssue"@.len());
    assert("StopMoved"@.len() != "NoEffect"@.len());
    assert("StopMoved"@.len() != "AccessibilityIssue"@.len());
    assert("NoEffect"@.len() != "AccessibilityIssue"@.len());
}

/// The values of `Alert.SeverityLevel`: 1 `UnknownSeverity`, 2 `Info`, 3 `Warning`, 4 `Severe`. Each name
/// stands for one value only.
pub proof fn law_alert_severity_level_values(a: AlertSeverityLevel, b: AlertSeverityLevel)
    ensures
        spec_alert_severity_level_name(AlertSeverityLevel::UnknownSeverity)@ == "UnknownSeverity"@ && AlertSeverityLevel::spec_from_i32(1) == Some(AlertSeverityLevel::UnknownSeverity) && AlertSeverityLevel::UnknownSeverity.spec_value() == 1,
        spec_alert_severity_level_name(AlertSeverityLevel::Info)@ == "Info"@ && AlertSeverityLevel::spec_from_i32(2) == Some(AlertSeverityLevel::Info) && AlertSeverityLevel::Info.spec_value() == 2,
        spec_alert_severity_level_name(AlertSeverityLevel::Warning)@ == "Warning"@ && AlertSeverityLevel::spec_from_i32(3) == Some(AlertSeverityLevel::Warning) && AlertSeverityLevel::Warning.spec_value() == 3,
        spec_alert_severity_level_name(AlertSeverityLevel::Severe)@ == "Severe"@ && AlertSeverityLevel::spec_from_i32(4) == Some(AlertSeverityLevel::Severe) && AlertSeverityLevel::Severe.spec_value() == 4,
        (spec_alert_severity_level_name(a)@ == spec_alert_severity_level_name(b)@) == (a == b),
{
    reveal_strlit("UnknownSeverity");
    reveal_strlit("Info");
    reveal_strlit("Warning");
    reveal_strlit("Severe");
    assert("UnknownSeverity"@.len() != "Info"@.len());
    assert("UnknownSeverity"@.len() != "Warning"@.len());
    assert("UnknownSeverity"@.len() != "Severe"@.len());
    assert("Info"@.len() != "Warning"@.len());
    assert("Info"@.len() != "Severe"@.len());
    assert("Warning"@.len() != "Severe"@.len());
}

/// The values of `VehicleDescriptor.WheelchairAccessible`: 0 `NoValue`, 1 `Unknown`, 2 `WheelchairAccessible`, 3 `WheelchairInaccessible`. Each name
/// stands for one value only.
pub proof fn law_wheelchair_accessible_values(a: WheelchairAccessible, b: WheelchairAccessible)
    ensures
        spec_wheelchair_accessible_name(WheelchairAccessible::NoValue)@ == "NoValue"@ && WheelchairAccessible::spec_from_i32(0) == Some(WheelchairAccessible::NoValue) && WheelchairAccessible::NoValue.spec_value() == 0,
        spec_wheelchair_accessible_name(WheelchairAccessible::Unknown)@ == "Unknown"@ && WheelchairAccessible::spec_from_i32(1) == Some(WheelchairAccessible::Unknown) && WheelchairAccessible::Unknown.spec_value() == 1,
        spec_wheelchair_accessible_name(WheelchairAccessible::WheelchairAccessible)@ == "WheelchairAccessible"@ && WheelchairAccessible::spec_from_i32(2) == Some(WheelchairAccessible::WheelchairAccessible) && WheelchairAccessible::WheelchairAccessible.spec_value() == 2,
        spec_wheelchair_accessible_name(WheelchairAccessible::WheelchairInaccessible)@ == "WheelchairInaccessible"@ && WheelchairAccessible::spec_from_i32(3) == Some(WheelchairAccessible::WheelchairInaccessible) && WheelchairAccessible::WheelchairInaccessible.spec_value() == 3,
        (spec_wheelchair_accessible_name(a)@ == spec_wheelchair_accessible_name(b)@) == (a == b),
{
    reveal_strlit("NoValue");
    reveal_strlit("Unknown");
    reveal_strlit("WheelchairAccessible");
    reveal_strlit("WheelchairInaccessible");
    assert("NoValue"@[0] != "Unknown"@[0]);
    assert("NoValue"@.len() != "WheelchairAccessible"@.len());
    assert("NoValue"@.len() != "WheelchairInaccessible"@.len());
    assert("Unknown"@.len() != "WheelchairAccessible"@.len());
    assert("Unknown"@.len() != "WheelchairInaccessible"@.len());
    assert("WheelchairAccessible"@.len() != "WheelchairInaccessible"@.len());
}

/// The values of `Stop.WheelchairBoarding`: 0 `Unknown`, 1 `Available`, 2 `NotAvailable`. Each name
/// stands for one value only.
pub proof fn law_wheelchair_boarding_values(a: WheelchairBoarding, b: WheelchairBoarding)
    ensures
        spec_wheelchair_boarding_name(WheelchairBoarding::Unknown)@ == "Unknown"@ && WheelchairBoarding::spec_from_i32(0) == Some(WheelchairBoarding::Unknown) && WheelchairBoarding::Unknown.spec_value() == 0,
        spec_wheelchair_boarding_name(WheelchairBoarding::Available)@ == "Available"@ && WheelchairBoarding::spec_from_i32(1) == Some(WheelchairBoarding::Available) && WheelchairBoarding::Available.spec_value() == 1,
        spec_wheelchair_boarding_name(WheelchairBoarding::NotAvailable)@ == "NotAvailable"@ && WheelchairBoarding::spec_from_i32(2) == Some(WheelchairBoarding::NotAvailable) && WheelchairBoarding::NotAvailable.spec_value() == 2,
        (spec_wheelchair_boarding_name(a)@ == spec_wheelchair_boarding_name(b)@) == (a == b),
{
    reveal_strlit("Unknown");
    reveal_strlit("Available");
    reveal_strlit("NotAvailable");
    assert("Unknown"@.len() != "Available"@.len());
    assert("Unknown"@.len() != "NotAvailable"@.len());
    assert("Available"@.len() != "NotAvailable"@.len());
}

/// `FeedMessage` reports a missing `required` field exactly for `header`, at
/// the start of the message and under its path.
pub proof fn law_feed_message_required(m: FeedMessageView, env: Env)
    ensures
        ({
            let r = <FeedMessage as Message>::spec_check_required(m, env, Seq::empty());
            &&& (exists|i: int| 0 <= i < r.len() && (#[trigger] r[i]).kind == AnomalyKind::MissingRequiredField { field: "FeedMessage.header" }) == (m.header is None)
            &&& forall|i: int| 0 <= i < r.len() ==> (#[trigger] r[i]).offset == env.offset_base && r[i].path == join_dot(env.path)
        }),
{
    reveal_strlit("FeedMessage.header");
    let r = <FeedMessage as Message>::spec_check_required(m, env, Seq::empty());
    if r.len() > 0 {
        assert(r[0].offset == env.offset_base);
    }
}

/// `FeedHeader` reports a missing `required` field exactly for `gtfs_realtime_version`, at
/// the start of the message and under its path.
pub proof fn law_feed_header_required(m: FeedHeaderView, env: Env)
    ensures
        ({
            let r = <FeedHeader as Message>::spec_check_required(m, env, Seq::empty());
            &&& (exists|i: int| 0 <= i < r.len() && (#[trigger] r[i]).kind == AnomalyKind::MissingRequiredField { field: "FeedHeader.gtfs_realtime_version" }) == (m.gtfs_realtime_version is None)
            &&& forall|i: int| 0 <= i < r.len() ==> (#[trigger] r[i]).offset == env.offset_base && r[i].path == join_dot(env.path)
        }),
{
    reveal_strlit("FeedHeader.gtfs_realtime_version");
    let r = <FeedHeader as Message>::spec_check_required(m, env, Seq::empty());
    if r.len() > 0 {
        assert(r[0].offset == env.offset_base);
    }
}

/// `FeedEntity` reports a missing `id` exactly when it has none, no payload
/// exactly when none of the six is set, and several exactly when more than
/// one is, at the start of the entity and under its path.
pub proof fn law_feed_entity_required(m: FeedEntityView, env: Env)
    ensures
        ({
            let r = <FeedEntity as Message>::spec_check_required(m, env, Seq::empty());
            &&& (exists|i: int| 0 <= i < r.len() && (#[trigger] r[i]).kind == AnomalyKind::MissingRequiredField { field: "FeedEntity.id" }) == (m.id is None)
            &&& (exists|i: int| 0 <= i < r.len() && (#[trigger] r[i]).kind == AnomalyKind::NoPayload) == (m.trip_update is None && m.vehicle is None && m.alert is None && m.shape is None && m.stop is None && m.trip_modifications is None)
            &&& (exists|i: int| 0 <= i < r.len() && (#[trigger] r[i]).kind is MultiplePayloads) == (spec_payload_count(m) > 1)
            &&& forall|i: int| 0 <= i < r.len() ==> (#[trigger] r[i]).offset == env.offset_base && r[i].path == join_dot(env.path)
        }),
{
    reveal_strlit("FeedEntity.id");
    let r = <FeedEntity as Message>::spec_check_required(m, env, Seq::empty());
    if r.len() > 0 {
        assert(r[0].offset == env.offset_base);
    }
    if r.len() > 1 {
        assert(r[1].offset == env.offset_base);
    }
}

/// `TripDescriptor` has no `required` field: its check reports nothing.
pub proof fn law_trip_descriptor_required(m: TripDescriptorView, env: Env)
    ensures
        ({
            let r = <TripDescriptor as Message>::spec_check_required(m, env, Seq::empty());
            r.len() == 0
        }),
{
}

/// `ModifiedTripSelector` has no `required` field: its check reports nothing.
pub proof fn law_modified_trip_selector_required(m: ModifiedTripSelectorView, env: Env)
    ensures
        ({
            let r = <ModifiedTripSelector as Message>::spec_check_required(m, env, Seq::empty());
            r.len() == 0
        }),
{
}

/// `VehicleDescriptor` has no `required` field: its check reports nothing.
pub proof fn law_vehicle_descriptor_required(m: VehicleDescriptorView, env: Env)
    ensures
        ({
            let r = <VehicleDescriptor as Message>::spec_check_required(m, env, Seq::empty());
            r.len() == 0
        }),
{
}

/// `Position` reports a missing `required` field exactly for `latitude`, `longitude`, at
/// the start of the message and under its path.
pub proof fn law_position_required(m: PositionView, env: Env)
    ensures
        ({
            let r = <Position as Message>::spec_check_required(m, env, Seq::empty());
            &&& (exists|i: int| 0 <= i < r.len() && (#[trigger] r[i]).kind == AnomalyKind::MissingRequiredField { field: "Position.latitude" }) == (m.latitude is None)
            &&& (exists|i: int| 0 <= i < r.len() && (#[trigger] r[i]).kind == AnomalyKind::MissingRequiredField { field: "Position.longitude" }) == (m.longitude is None)
            &&& forall|i: int| 0 <= i < r.len() ==> (#[trigger] r[i]).offset == env.offset_base && r[i].path == join_dot(env.path)
        }),
{
    reveal_strlit("Position.latitude");
    reveal_strlit("Position.longitude");
    assert("Position.latitude"@.len() != "Position.longitude"@.len());
    let r = <Position as Message>::spec_check_required(m, env, Seq::empty());
    if r.len() > 0 {
        assert(r[0].offset == env.offset_base);
    }
    if r.len() > 1 {
        assert(r[1].offset == env.offset_base);
    }
}

/// `TimeRange` has no `required` field: its check reports nothing.
pub proof fn law_time_range_required(m: TimeRangeView, env: Env)
    ensures
        ({
            let r = <TimeRange as Message>::spec_check_required(m, env, Seq::empty());
            r.len() == 0
        }),
{
}

/// `EntitySelector` has no `required` field: its check reports nothing.
pub proof fn law_entity_selector_required(m: EntitySelectorView, env: Env)
    ensures
        ({
            let r = <EntitySelector as Message>::spec_check_required(m, env, Seq::empty());
            r.len() == 0
        }),
{
}

/// `TranslatedString` has no `required` field: its check reports nothing.
pub proof fn law_translated_string_required(m: TranslatedStringView, env: Env)
    ensures
        ({
            let r = <TranslatedString as Message>::spec_check_required(m, env, Seq::empty());
            r.len() == 0
        }),
{
}

/// `Translation` reports a missing `required` field exactly for `text`, at
/// the start of the message and under its path.
pub proof fn law_translation_required(m: TranslationView, env: Env)
    ensures
        ({
            let r = <Translation as Message>::spec_check_required(m, env, Seq::empty());
            &&& (exists|i: int| 0 <= i < r.len() && (#[trigger] r[i]).kind == AnomalyKind::MissingRequiredField { field: "Translation.text" }) == (m.text is None)
            &&& forall|i: int| 0 <= i < r.len() ==> (#[trigger] r[i]).offset == env.offset_base && r[i].path == join_dot(env.path)
        }),
{
    reveal_strlit("Translation.text");
    let r = <Translation as Message>::spec_check_required(m, env, Seq::empty());
    if r.len() > 0 {
        assert(r[0].offset == env.offset_base);
    }
}

/// `TranslatedImage` has no `required` field: its check reports nothing.
pub proof fn law_translated_image_required(m: TranslatedImageView, env: Env)
    ensures
        ({
            let r = <TranslatedImage as Message>::spec_check_required(m, env, Seq::empty());
            r.len() == 0
        }),
{
}

/// `LocalizedImage` reports a missing `required` field exactly for `url`, `media_type`, at
/// the start of the message and under its path.
pub proof fn law_localized_image_required(m: LocalizedImageView, env: Env)
    ensures
        ({
            let r = <LocalizedImage as Message>::spec_check_required(m, env, Seq::empty());
            &&& (exists|i: int| 0 <= i < r.len() && (#[trigger] r[i]).kind == AnomalyKind::MissingRequiredField { field: "LocalizedImage.url" }) == (m.url is None)
            &&& (exists|i: int| 0 <= i < r.len() && (#[trigger] r[i]).kind == AnomalyKind::MissingRequiredField { field: "LocalizedImage.media_type" }) == (m.media_type is None)
            &&& forall|i: int| 0 <= i < r.len() ==> (#[trigger] r[i]).offset == env.offset_base && r[i].path == join_dot(env.path)
        }),
{
    reveal_strlit("LocalizedImage.url");
    reveal_strlit("LocalizedImage.media_type");
    assert("LocalizedImage.url"@.len() != "LocalizedImage.media_type"@.len());
    let r = <LocalizedImage as Message>::spec_check_required(m, env, Seq::empty());
    if r.len() > 0 {
        assert(r[0].offset == env.offset_base);
    }
    if r.len() > 1 {
        assert(r[1].offset == env.offset_base);
    }
}

/// `TripUpdate` reports a missing `required` field exactly for `trip`, at
/// the start of the message and under its path.
pub proof fn law_trip_update_required(m: TripUpdateView, env: Env)
    ensures
        ({
            let r = <TripUpdate as Message>::spec_check_required(m, env, Seq::empty());
            &&& (exists|i: int| 0 <= i < r.len() && (#[trigger] r[i]).kind == AnomalyKind::MissingRequiredField { field: "TripUpdate.trip" }) == (m.trip is None)
            &&& forall|i: int| 0 <= i < r.len() ==> (#[trigger] r[i]).offset == env.offset_base && r[i].path == join_dot(env.path)
        }),
{
    reveal_strlit("TripUpdate.trip");
    let r = <TripUpdate as Message>::spec_check_required(m, env, Seq::empty());
    if r.len() > 0 {
        assert(r[0].offset == env.offset_base);
    }
}

/// `StopTimeUpdate` has no `required` field: its check reports nothing.
pub proof fn law_stop_time_update_required(m: StopTimeUpdateView, env: Env)
    ensures
        ({
            let r = <StopTimeUpdate as Message>::spec_check_required(m, env, Seq::empty());
            r.len() == 0
        }),
{
}

/// `StopTimeEvent` has no `required` field: its check reports nothing.
pub proof fn law_stop_time_event_required(m: StopTimeEventView, env: Env)
    ensures
        ({
            let r = <StopTimeEvent as Message>::spec_check_required(m, env, Seq::empty());
            r.len() == 0
        }),
{
}

/// `StopTimeProperties` has no `required` field: its check reports nothing.
pub proof fn law_stop_time_properties_required(m: StopTimePropertiesView, env: Env)
    ensures
        ({
            let r = <StopTimeProperties as Message>::spec_check_required(m, env, Seq::empty());
            r.len() == 0
        }),
{
}

/// `TripProperties` has no `required` field: its check reports nothing.
pub proof fn law_trip_properties_required(m: TripPropertiesView, env: Env)
    ensures
        ({
            let r = <TripProperties as Message>::spec_check_required(m, env, Seq::empty());
            r.len() == 0
        }),
{
}

/// `VehiclePosition` has no `required` field: its check reports nothing.
pub proof fn law_vehicle_position_required(m: VehiclePositionView, env: Env)
    ensures
        ({
            let r = <VehiclePosition as Message>::spec_check_required(m, env, Seq::empty());
            r.len() == 0
        }),
{
}

/// `CarriageDetails` has no `required` field: its check reports nothing.
pub proof fn law_carriage_details_required(m: CarriageDetailsView, env: Env)
    ensures
        ({
            let r = <CarriageDetails as Message>::spec_check_required(m, env, Seq::empty());
            r.len() == 0
        }),
{
}

/// `Alert` has no `required` field: its check reports nothing.
pub proof fn law_alert_required(m: AlertView, env: Env)
    ensures
        ({
            let r = <Alert as Message>::spec_check_required(m, env, Seq::empty());
            r.len() == 0
        }),
{
}

/// `TripModifications` has no `required` field: its check reports nothing.
pub proof fn law_trip_modifications_required(m: TripModificationsView, env: Env)
    ensures
        ({
            let r = <TripModifications as Message>::spec_check_required(m, env, Seq::empty());
            r.len() == 0
        }),
{
}

/// `Modification` has no `required` field: its check reports nothing.
pub proof fn law_modification_required(m: ModificationView, env: Env)
    ensures
        ({
            let r = <Modification as Message>::spec_check_required(m, env, Seq::empty());
            r.len() == 0
        }),
{
}

/// `SelectedTrips` has no `required` field: its check reports nothing.
pub proof fn law_selected_trips_required(m: SelectedTripsView, env: Env)
    ensures
        ({
            let r = <SelectedTrips as Message>::spec_check_required(m, env, Seq::empty());
            r.len() == 0
        }),
{
}

/// `StopSelector` has no `required` field: its check reports nothing.
pub proof fn law_stop_selector_required(m: StopSelectorView, env: Env)
    ensures
        ({
            let r = <StopSelector as Message>::spec_check_required(m, env, Seq::empty());
            r.len() == 0
        }),
{
}

/// `ReplacementStop` has no `required` field: its check reports nothing.
pub proof fn law_replacement_stop_required(m: ReplacementStopView, env: Env)
    ensures
        ({
            let r = <ReplacementStop as Message>::spec_check_required(m, env, Seq::empty());
            r.len() == 0
        }),
{
}

/// `Shape` has no `required` field: its check reports nothing.
pub proof fn law_shape_required(m: ShapeView, env: Env)
    ensures
        ({
            let r = <Shape as Message>::spec_check_required(m, env, Seq::empty());
            r.len() == 0
        }),
{
}

/// `Stop` has no `required` field: its check reports nothing.
pub proof fn law_stop_required(m: StopView, env: Env)
    ensures
        ({
            let r = <Stop as Message>::spec_check_required(m, env, Seq::empty());
            r.len() == 0
        }),
{
}

} // verus!
