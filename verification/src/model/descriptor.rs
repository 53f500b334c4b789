//! Trip, vehicle and position descriptors: building blocks shared by several messages.
use vstd::prelude::*;
use crate::anomaly::{AnomalyKind, AnomalyView};
use crate::decode::{indexed_segment, keep, opt_view, push_some, spec_enum, spec_fixed32, spec_fixed64, spec_i32, spec_nested_at, spec_report, spec_string, spec_u32, spec_u64, DecodeCtx, Env, Message};
use crate::model::enums::{TripScheduleRelationship, WheelchairAccessible};
use crate::wire::{Field, FieldView};

verus! {

/// Identifies a trip. `trip_id` is optional: `ADDED`/`NEW` trips have no static
/// counterpart, and those given by `modified_trip` derive from another trip.
#[derive(Debug, Clone, PartialEq, Eq)]
pub struct TripDescriptor {
    pub trip_id: Option<String>,
    pub route_id: Option<String>,
    pub direction_id: Option<u32>,
    pub start_time: Option<String>,
    pub start_date: Option<String>,
    pub schedule_relationship: Option<TripScheduleRelationship>,
    pub modified_trip: Option<ModifiedTripSelector>,
}

/// `TripDescriptor` as a plain value.
pub struct TripDescriptorView {
    pub trip_id: Option<Seq<char>>,
    pub route_id: Option<Seq<char>>,
    pub direction_id: Option<u32>,
    pub start_time: Option<Seq<char>>,
    pub start_date: Option<Seq<char>>,
    pub schedule_relationship: Option<TripScheduleRelationship>,
    pub modified_trip: Option<ModifiedTripSelectorView>,
}

impl View for TripDescriptor {
    type V = TripDescriptorView;

    open spec fn view(&self) -> TripDescriptorView {
        TripDescriptorView {
            trip_id: opt_view(self.trip_id),
            route_id: opt_view(self.route_id),
            direction_id: self.direction_id,
            start_time: opt_view(self.start_time),
            start_date: opt_view(self.start_date),
            schedule_relationship: self.schedule_relationship,
            modified_trip: opt_view(self.modified_trip),
        }
    }
}

impl Default for TripDescriptor {
    fn default() -> (r: Self)
        ensures
            r@ == <TripDescriptor as Message>::spec_empty(),
    {
        <TripDescriptor as Message>::empty()
    }
}

impl Message for TripDescriptor {
    open spec fn spec_empty() -> TripDescriptorView {
        TripDescriptorView {
            trip_id: None,
            route_id: None,
            direction_id: None,
            start_time: None,
            start_date: None,
            schedule_relationship: None,
            modified_trip: None,
        }
    }

    open spec fn spec_merge(m: TripDescriptorView, f: FieldView, env: Env, acc: Seq<AnomalyView>) -> (
        TripDescriptorView,
        bool,
        Seq<AnomalyView>,
    ) {
        if f.number == 1 {
            let (r, a) = spec_string(env, acc, f);
            (TripDescriptorView { trip_id: keep(r, m.trip_id), ..m }, true, a)
        } else if f.number == 2 {
            let (r, a) = spec_string(env, acc, f);
            (TripDescriptorView { start_time: keep(r, m.start_time), ..m }, true, a)
        } else if f.number == 3 {
            let (r, a) = spec_string(env, acc, f);
            (TripDescriptorView { start_date: keep(r, m.start_date), ..m }, true, a)
        } else if f.number == 4 {
            let (r, a) = spec_enum::<TripScheduleRelationship>(env, acc, f);
            (TripDescriptorView { schedule_relationship: keep(r, m.schedule_relationship), ..m }, true, a)
        } else if f.number == 5 {
            let (r, a) = spec_string(env, acc, f);
            (TripDescriptorView { route_id: keep(r, m.route_id), ..m }, true, a)
        } else if f.number == 6 {
            let (r, a) = spec_u32(env, acc, f);
            (TripDescriptorView { direction_id: keep(r, m.direction_id), ..m }, true, a)
        } else if f.number == 7 {
            let (r, a) = spec_nested_at::<ModifiedTripSelector>(f, "modified_trip"@, env, acc);
            (TripDescriptorView { modified_trip: keep(r, m.modified_trip), ..m }, true, a)
        } else {
            (m, false, acc)
        }
    }

    open spec fn spec_check_required(m: TripDescriptorView, env: Env, acc: Seq<AnomalyView>) -> Seq<AnomalyView> {
        acc
    }

    fn empty() -> (r: Self) {
        let r = TripDescriptor {
            trip_id: None,
            route_id: None,
            direction_id: None,
            start_time: None,
            start_date: None,
            schedule_relationship: None,
            modified_trip: None,
        };
        r
    }

    fn merge_field(&mut self, field: &Field<'_>, ctx: &mut DecodeCtx) -> (known: bool) {
        match field.number {
            1 => {
                if let Some(v) = ctx.string(field) {
                    self.trip_id = Some(v);
                }
                true
            },
            2 => {
                if let Some(v) = ctx.string(field) {
                    self.start_time = Some(v);
                }
                true
            },
            3 => {
                if let Some(v) = ctx.string(field) {
                    self.start_date = Some(v);
                }
                true
            },
            4 => {
                if let Some(v) = ctx.enum_value::<TripScheduleRelationship>(field) {
                    self.schedule_relationship = Some(v);
                }
                true
            },
            5 => {
                if let Some(v) = ctx.string(field) {
                    self.route_id = Some(v);
                }
                true
            },
            6 => {
                if let Some(v) = ctx.u32(field) {
                    self.direction_id = Some(v);
                }
                true
            },
            7 => {
                if let Some(v) = ctx.nested::<ModifiedTripSelector>(field, "modified_trip") {
                    self.modified_trip = Some(v);
                }
                true
            },
            _ => false,
        }
    }

    fn check_required(&self, ctx: &mut DecodeCtx) {
    }
}

/// `TripDescriptor.modified_trip`: a selector tied to a `TripModifications` record.
#[derive(Debug, Clone, PartialEq, Eq)]
pub struct ModifiedTripSelector {
    pub modifications_id: Option<String>,
    pub affected_trip_id: Option<String>,
    pub start_time: Option<String>,
    pub start_date: Option<String>,
}

/// `ModifiedTripSelector` as a plain value.
pub struct ModifiedTripSelectorView {
    pub modifications_id: Option<Seq<char>>,
    pub affected_trip_id: Option<Seq<char>>,
    pub start_time: Option<Seq<char>>,
    pub start_date: Option<Seq<char>>,
}

impl View for ModifiedTripSelector {
    type V = ModifiedTripSelectorView;

    open spec fn view(&self) -> ModifiedTripSelectorView {
        ModifiedTripSelectorView {
            modifications_id: opt_view(self.modifications_id),
            affected_trip_id: opt_view(self.affected_trip_id),
            start_time: opt_view(self.start_time),
            start_date: opt_view(self.start_date),
        }
    }
}

impl Default for ModifiedTripSelector {
    fn default() -> (r: Self)
        ensures
            r@ == <ModifiedTripSelector as Message>::spec_empty(),
    {
        <ModifiedTripSelector as Message>::empty()
    }
}

impl Message for ModifiedTripSelector {
    open spec fn spec_empty() -> ModifiedTripSelectorView {
        ModifiedTripSelectorView {
            modifications_id: None,
            affected_trip_id: None,
            start_time: None,
            start_date: None,
        }
    }

    open spec fn spec_merge(m: ModifiedTripSelectorView, f: FieldView, env: Env, acc: Seq<AnomalyView>) -> (
        ModifiedTripSelectorView,
        bool,
        Seq<AnomalyView>,
    ) {
        if f.number == 1 {
            let (r, a) = spec_string(env, acc, f);
            (ModifiedTripSelectorView { modifications_id: keep(r, m.modifications_id), ..m }, true, a)
        } else if f.number == 2 {
            let (r, a) = spec_string(env, acc, f);
            (ModifiedTripSelectorView { affected_trip_id: keep(r, m.affected_trip_id), ..m }, true, a)
        } else if f.number == 3 {
            let (r, a) = spec_string(env, acc, f);
            (ModifiedTripSelectorView { start_time: keep(r, m.start_time), ..m }, true, a)
        } else if f.number == 4 {
            let (r, a) = spec_string(env, acc, f);
            (ModifiedTripSelectorView { start_date: keep(r, m.start_date), ..m }, true, a)
        } else {
            (m, false, acc)
        }
    }

    open spec fn spec_check_required(m: ModifiedTripSelectorView, env: Env, acc: Seq<AnomalyView>) -> Seq<AnomalyView> {
        acc
    }

    fn empty() -> (r: Self) {
        let r = ModifiedTripSelector {
            modifications_id: None,
            affected_trip_id: None,
            start_time: None,
            start_date: None,
        };
        r
    }

    fn merge_field(&mut self, field: &Field<'_>, ctx: &mut DecodeCtx) -> (known: bool) {
        match field.number {
            1 => {
                if let Some(v) = ctx.string(field) {
                    self.modifications_id = Some(v);
                }
                true
            },
            2 => {
                if let Some(v) = ctx.string(field) {
                    self.affected_trip_id = Some(v);
                }
                true
            },
            3 => {
                if let Some(v) = ctx.string(field) {
                    self.start_time = Some(v);
                }
                true
            },
            4 => {
                if let Some(v) = ctx.string(field) {
                    self.start_date = Some(v);
                }
                true
            },
            _ => false,
        }
    }

    fn check_required(&self, ctx: &mut DecodeCtx) {
    }
}

/// Identifies a vehicle.
#[derive(Debug, Clone, PartialEq, Eq)]
pub struct VehicleDescriptor {
    pub id: Option<String>,
    pub label: Option<String>,
    pub license_plate: Option<String>,
    pub wheelchair_accessible: Option<WheelchairAccessible>,
}

/// `VehicleDescriptor` as a plain value.
pub struct VehicleDescriptorView {
    pub id: Option<Seq<char>>,
    pub label: Option<Seq<char>>,
    pub license_plate: Option<Seq<char>>,
    pub wheelchair_accessible: Option<WheelchairAccessible>,
}

impl View for VehicleDescriptor {
    type V = VehicleDescriptorView;

    open spec fn view(&self) -> VehicleDescriptorView {
        VehicleDescriptorView {
            id: opt_view(self.id),
            label: opt_view(self.label),
            license_plate: opt_view(self.license_plate),
            wheelchair_accessible: self.wheelchair_accessible,
        }
    }
}

impl Default for VehicleDescriptor {
    fn default() -> (r: Self)
        ensures
            r@ == <VehicleDescriptor as Message>::spec_empty(),
    {
        <VehicleDescriptor as Message>::empty()
    }
}

impl Message for VehicleDescriptor {
    open spec fn spec_empty() -> VehicleDescriptorView {
        VehicleDescriptorView {
            id: None,
            label: None,
            license_plate: None,
            wheelchair_accessible: None,
        }
    }

    open spec fn spec_merge(m: VehicleDescriptorView, f: FieldView, env: Env, acc: Seq<AnomalyView>) -> (
        VehicleDescriptorView,
        bool,
        Seq<AnomalyView>,
    ) {
        if f.number == 1 {
            let (r, a) = spec_string(env, acc, f);
            (VehicleDescriptorView { id: keep(r, m.id), ..m }, true, a)
        } else if f.number == 2 {
            let (r, a) = spec_string(env, acc, f);
            (VehicleDescriptorView { label: keep(r, m.label), ..m }, true, a)
        } else if f.number == 3 {
            let (r, a) = spec_string(env, acc, f);
            (VehicleDescriptorView { license_plate: keep(r, m.license_plate), ..m }, true, a)
        } else if f.number == 4 {
            let (r, a) = spec_enum::<WheelchairAccessible>(env, acc, f);
            (VehicleDescriptorView { wheelchair_accessible: keep(r, m.wheelchair_accessible), ..m }, true, a)
        } else {
            (m, false, acc)
        }
    }

    open spec fn spec_check_required(m: VehicleDescriptorView, env: Env, acc: Seq<AnomalyView>) -> Seq<AnomalyView> {
        acc
    }

    fn empty() -> (r: Self) {
        let r = VehicleDescriptor {
            id: None,
            label: None,
            license_plate: None,
            wheelchair_accessible: None,
        };
        r
    }

    fn merge_field(&mut self, field: &Field<'_>, ctx: &mut DecodeCtx) -> (known: bool) {
        match field.number {
            1 => {
                if let Some(v) = ctx.string(field) {
                    self.id = Some(v);
                }
                true
            },
            2 => {
                if let Some(v) = ctx.string(field) {
                    self.label = Some(v);
                }
                true
            },
            3 => {
                if let Some(v) = ctx.string(field) {
                    self.license_plate = Some(v);
                }
                true
            },
            4 => {
                if let Some(v) = ctx.enum_value::<WheelchairAccessible>(field) {
                    self.wheelchair_accessible = Some(v);
                }
                true
            },
            _ => false,
        }
    }

    fn check_required(&self, ctx: &mut DecodeCtx) {
    }
}

/// A geographic position. `latitude` and `longitude` are proto2 `required`.
///
/// The `float`/`double` fields hold their IEEE-754 bit patterns exactly as sent
/// (`f32::from_bits` / `f64::from_bits` give the numbers).
#[derive(Debug, Clone, PartialEq, Eq)]
pub struct Position {
    pub latitude: Option<u32>,
    pub longitude: Option<u32>,
    pub bearing: Option<u32>,
    pub odometer: Option<u64>,
    pub speed: Option<u32>,
}

/// `Position` as a plain value.
pub struct PositionView {
    pub latitude: Option<u32>,
    pub longitude: Option<u32>,
    pub bearing: Option<u32>,
    pub odometer: Option<u64>,
    pub speed: Option<u32>,
}

impl View for Position {
    type V = PositionView;

    open spec fn view(&self) -> PositionView {
        PositionView {
            latitude: self.latitude,
            longitude: self.longitude,
            bearing: self.bearing,
            odometer: self.odometer,
            speed: self.speed,
        }
    }
}

impl Default for Position {
    fn default() -> (r: Self)
        ensures
            r@ == <Position as Message>::spec_empty(),
    {
        <Position as Message>::empty()
    }
}

impl Message for Position {
    open spec fn spec_empty() -> PositionView {
        PositionView {
            latitude: None,
            longitude: None,
            bearing: None,
            odometer: None,
            speed: None,
        }
    }

    open spec fn spec_merge(m: PositionView, f: FieldView, env: Env, acc: Seq<AnomalyView>) -> (
        PositionView,
        bool,
        Seq<AnomalyView>,
    ) {
        if f.number == 1 {
            let (r, a) = spec_fixed32(env, acc, f);
            (PositionView { latitude: keep(r, m.latitude), ..m }, true, a)
        } else if f.number == 2 {
            let (r, a) = spec_fixed32(env, acc, f);
            (PositionView { longitude: keep(r, m.longitude), ..m }, true, a)
        } else if f.number == 3 {
            let (r, a) = spec_fixed32(env, acc, f);
            (PositionView { bearing: keep(r, m.bearing), ..m }, true, a)
        } else if f.number == 4 {
            let (r, a) = spec_fixed64(env, acc, f);
            (PositionView { odometer: keep(r, m.odometer), ..m }, true, a)
        } else if f.number == 5 {
            let (r, a) = spec_fixed32(env, acc, f);
            (PositionView { speed: keep(r, m.speed), ..m }, true, a)
        } else {
            (m, false, acc)
        }
    }

    open spec fn spec_check_required(m: PositionView, env: Env, acc: Seq<AnomalyView>) -> Seq<AnomalyView> {
        let a0 = if m.latitude is None {
            spec_report(env, acc, AnomalyKind::MissingRequiredField { field: "Position.latitude" }, 0)
        } else {
            acc
        };
        let a1 = if m.longitude is None {
            spec_report(env, a0, AnomalyKind::MissingRequiredField { field: "Position.longitude" }, 0)
        } else {
            a0
        };
        a1
    }

    fn empty() -> (r: Self) {
        let r = Position {
            latitude: None,
            longitude: None,
            bearing: None,
            odometer: None,
            speed: None,
        };
        r
    }

    fn merge_field(&mut self, field: &Field<'_>, ctx: &mut DecodeCtx) -> (known: bool) {
        match field.number {
            1 => {
                if let Some(v) = ctx.fixed32(field) {
                    self.latitude = Some(v);
                }
                true
            },
            2 => {
                if let Some(v) = ctx.fixed32(field) {
                    self.longitude = Some(v);
                }
                true
            },
            3 => {
                if let Some(v) = ctx.fixed32(field) {
                    self.bearing = Some(v);
                }
                true
            },
            4 => {
                if let Some(v) = ctx.fixed64(field) {
                    self.odometer = Some(v);
                }
                true
            },
            5 => {
                if let Some(v) = ctx.fixed32(field) {
                    self.speed = Some(v);
                }
                true
            },
            _ => false,
        }
    }

    fn check_required(&self, ctx: &mut DecodeCtx) {
        if self.latitude.is_none() {
            ctx.missing_required("Position.latitude");
        }
        if self.longitude.is_none() {
            ctx.missing_required("Position.longitude");
        }
    }
}

/// A possibly open time range: no `start` means "since always", no `end` means
/// "for ever".
#[derive(Debug, Clone, PartialEq, Eq)]
pub struct TimeRange {
    pub start: Option<u64>,
    pub end: Option<u64>,
}

/// `TimeRange` as a plain value.
pub struct TimeRangeView {
    pub start: Option<u64>,
    pub end: Option<u64>,
}

impl View for TimeRange {
    type V = TimeRangeView;

    open spec fn view(&self) -> TimeRangeView {
        TimeRangeView {
            start: self.start,
            end: self.end,
        }
    }
}

impl Default for TimeRange {
    fn default() -> (r: Self)
        ensures
            r@ == <TimeRange as Message>::spec_empty(),
    {
        <TimeRange as Message>::empty()
    }
}

impl Message for TimeRange {
    open spec fn spec_empty() -> TimeRangeView {
        TimeRangeView {
            start: None,
            end: None,
        }
    }

    open spec fn spec_merge(m: TimeRangeView, f: FieldView, env: Env, acc: Seq<AnomalyView>) -> (
        TimeRangeView,
        bool,
        Seq<AnomalyView>,
    ) {
        if f.number == 1 {
            let (r, a) = spec_u64(env, acc, f);
            (TimeRangeView { start: keep(r, m.start), ..m }, true, a)
        } else if f.number == 2 {
            let (r, a) = spec_u64(env, acc, f);
            (TimeRangeView { end: keep(r, m.end), ..m }, true, a)
        } else {
            (m, false, acc)
        }
    }

    open spec fn spec_check_required(m: TimeRangeView, env: Env, acc: Seq<AnomalyView>) -> Seq<AnomalyView> {
        acc
    }

    fn empty() -> (r: Self) {
        let r = TimeRange {
            start: None,
            end: None,
        };
        r
    }

    fn merge_field(&mut self, field: &Field<'_>, ctx: &mut DecodeCtx) -> (known: bool) {
        match field.number {
            1 => {
                if let Some(v) = ctx.u64(field) {
                    self.start = Some(v);
                }
                true
            },
            2 => {
                if let Some(v) = ctx.u64(field) {
                    self.end = Some(v);
                }
                true
            },
            _ => false,
        }
    }

    fn check_required(&self, ctx: &mut DecodeCtx) {
    }
}

/// `Alert.informed_entity`: selects the entities an alert affects.
#[derive(Debug, Clone, PartialEq, Eq)]
pub struct EntitySelector {
    pub agency_id: Option<String>,
    pub route_id: Option<String>,
    pub route_type: Option<i32>,
    pub trip: Option<TripDescriptor>,
    pub stop_id: Option<String>,
    pub direction_id: Option<u32>,
}

/// `EntitySelector` as a plain value.
pub struct EntitySelectorView {
    pub agency_id: Option<Seq<char>>,
    pub route_id: Option<Seq<char>>,
    pub route_type: Option<i32>,
    pub trip: Option<TripDescriptorView>,
    pub stop_id: Option<Seq<char>>,
    pub direction_id: Option<u32>,
}

impl View for EntitySelector {
    type V = EntitySelectorView;

    open spec fn view(&self) -> EntitySelectorView {
        EntitySelectorView {
            agency_id: opt_view(self.agency_id),
            route_id: opt_view(self.route_id),
            route_type: self.route_type,
            trip: opt_view(self.trip),
            stop_id: opt_view(self.stop_id),
            direction_id: self.direction_id,
        }
    }
}

impl Default for EntitySelector {
    fn default() -> (r: Self)
        ensures
            r@ == <EntitySelector as Message>::spec_empty(),
    {
        <EntitySelector as Message>::empty()
    }
}

impl Message for EntitySelector {
    open spec fn spec_empty() -> EntitySelectorView {
        EntitySelectorView {
            agency_id: None,
            route_id: None,
            route_type: None,
            trip: None,
            stop_id: None,
            direction_id: None,
        }
    }

    open spec fn spec_merge(m: EntitySelectorView, f: FieldView, env: Env, acc: Seq<AnomalyView>) -> (
        EntitySelectorView,
        bool,
        Seq<AnomalyView>,
    ) {
        if f.number == 1 {
            let (r, a) = spec_string(env, acc, f);
            (EntitySelectorView { agency_id: keep(r, m.agency_id), ..m }, true, a)
        } else if f.number == 2 {
            let (r, a) = spec_string(env, acc, f);
            (EntitySelectorView { route_id: keep(r, m.route_id), ..m }, true, a)
        } else if f.number == 3 {
            let (r, a) = spec_i32(env, acc, f);
            (EntitySelectorView { route_type: keep(r, m.route_type), ..m }, true, a)
        } else if f.number == 4 {
            let (r, a) = spec_nested_at::<TripDescriptor>(f, "trip"@, env, acc);
            (EntitySelectorView { trip: keep(r, m.trip), ..m }, true, a)
        } else if f.number == 5 {
            let (r, a) = spec_string(env, acc, f);
            (EntitySelectorView { stop_id: keep(r, m.stop_id), ..m }, true, a)
        } else if f.number == 6 {
            let (r, a) = spec_u32(env, acc, f);
            (EntitySelectorView { direction_id: keep(r, m.direction_id), ..m }, true, a)
        } else {
            (m, false, acc)
        }
    }

    open spec fn spec_check_required(m: EntitySelectorView, env: Env, acc: Seq<AnomalyView>) -> Seq<AnomalyView> {
        acc
    }

    fn empty() -> (r: Self) {
        let r = EntitySelector {
            agency_id: None,
            route_id: None,
            route_type: None,
            trip: None,
            stop_id: None,
            direction_id: None,
        };
        r
    }

    fn merge_field(&mut self, field: &Field<'_>, ctx: &mut DecodeCtx) -> (known: bool) {
        match field.number {
            1 => {
                if let Some(v) = ctx.string(field) {
                    self.agency_id = Some(v);
                }
                true
            },
            2 => {
                if let Some(v) = ctx.string(field) {
                    self.route_id = Some(v);
                }
                true
            },
            3 => {
                if let Some(v) = ctx.i32(field) {
                    self.route_type = Some(v);
                }
                true
            },
            4 => {
                if let Some(v) = ctx.nested::<TripDescriptor>(field, "trip") {
                    self.trip = Some(v);
                }
                true
            },
            5 => {
                if let Some(v) = ctx.string(field) {
                    self.stop_id = Some(v);
                }
                true
            },
            6 => {
                if let Some(v) = ctx.u32(field) {
                    self.direction_id = Some(v);
                }
                true
            },
            _ => false,
        }
    }

    fn check_required(&self, ctx: &mut DecodeCtx) {
    }
}

/// A set of language-tagged texts.
#[derive(Debug, Clone, PartialEq, Eq)]
pub struct TranslatedString {
    pub translation: Vec<Translation>,
}

/// `TranslatedString` as a plain value.
pub struct TranslatedStringView {
    pub translation: Seq<TranslationView>,
}

impl View for TranslatedString {
    type V = TranslatedStringView;

    open spec fn view(&self) -> TranslatedStringView {
        TranslatedStringView {
            translation: self.translation@.map_values(|v: Translation| v@),
        }
    }
}

impl Default for TranslatedString {
    fn default() -> (r: Self)
        ensures
            r@ == <TranslatedString as Message>::spec_empty(),
    {
        <TranslatedString as Message>::empty()
    }
}

impl Message for TranslatedString {
    open spec fn spec_empty() -> TranslatedStringView {
        TranslatedStringView {
            translation: Seq::empty(),
        }
    }

    open spec fn spec_merge(m: TranslatedStringView, f: FieldView, env: Env, acc: Seq<AnomalyView>) -> (
        TranslatedStringView,
        bool,
        Seq<AnomalyView>,
    ) {
        if f.number == 1 {
            let (r, a) = spec_nested_at::<Translation>(f, indexed_segment("translation"@, m.translation.len()), env, acc);
            (TranslatedStringView { translation: push_some(m.translation, r), ..m }, true, a)
        } else {
            (m, false, acc)
        }
    }

    open spec fn spec_check_required(m: TranslatedStringView, env: Env, acc: Seq<AnomalyView>) -> Seq<AnomalyView> {
        acc
    }

    fn empty() -> (r: Self) {
        let r = TranslatedString {
            translation: Vec::new(),
        };
        proof {
            assert(r@.translation =~= Seq::empty());
        }
        r
    }

    fn merge_field(&mut self, field: &Field<'_>, ctx: &mut DecodeCtx) -> (known: bool) {
        match field.number {
            1 => {
                let ghost before = self.translation@.map_values(|v: Translation| v@);
                if let Some(v) = ctx.nested_repeated::<Translation>(field, "translation", self.translation.len()) {
                    let ghost item = v@;
                    self.translation.push(v);
                    proof {
                        assert(self.translation@.map_values(|v: Translation| v@) =~= before.push(item));
                    }
                }
                true
            },
            _ => false,
        }
    }

    fn check_required(&self, ctx: &mut DecodeCtx) {
    }
}

/// Text in one language. `text` is proto2 `required`.
#[derive(Debug, Clone, PartialEq, Eq)]
pub struct Translation {
    pub text: Option<String>,
    pub language: Option<String>,
}

/// `Translation` as a plain value.
pub struct TranslationView {
    pub text: Option<Seq<char>>,
    pub language: Option<Seq<char>>,
}

impl View for Translation {
    type V = TranslationView;

    open spec fn view(&self) -> TranslationView {
        TranslationView {
            text: opt_view(self.text),
            language: opt_view(self.language),
        }
    }
}

impl Default for Translation {
    fn default() -> (r: Self)
        ensures
            r@ == <Translation as Message>::spec_empty(),
    {
        <Translation as Message>::empty()
    }
}

impl Message for Translation {
    open spec fn spec_empty() -> TranslationView {
        TranslationView {
            text: None,
            language: None,
        }
    }

    open spec fn spec_merge(m: TranslationView, f: FieldView, env: Env, acc: Seq<AnomalyView>) -> (
        TranslationView,
        bool,
        Seq<AnomalyView>,
    ) {
        if f.number == 1 {
            let (r, a) = spec_string(env, acc, f);
            (TranslationView { text: keep(r, m.text), ..m }, true, a)
        } else if f.number == 2 {
            let (r, a) = spec_string(env, acc, f);
            (TranslationView { language: keep(r, m.language), ..m }, true, a)
        } else {
            (m, false, acc)
        }
    }

    open spec fn spec_check_required(m: TranslationView, env: Env, acc: Seq<AnomalyView>) -> Seq<AnomalyView> {
        let a0 = if m.text is None {
            spec_report(env, acc, AnomalyKind::MissingRequiredField { field: "Translation.text" }, 0)
        } else {
            acc
        };
        a0
    }

    fn empty() -> (r: Self) {
        let r = Translation {
            text: None,
            language: None,
        };
        r
    }

    fn merge_field(&mut self, field: &Field<'_>, ctx: &mut DecodeCtx) -> (known: bool) {
        match field.number {
            1 => {
                if let Some(v) = ctx.string(field) {
                    self.text = Some(v);
                }
                true
            },
            2 => {
                if let Some(v) = ctx.string(field) {
                    self.language = Some(v);
                }
                true
            },
            _ => false,
        }
    }

    fn check_required(&self, ctx: &mut DecodeCtx) {
        if self.text.is_none() {
            ctx.missing_required("Translation.text");
        }
    }
}

/// A set of language-tagged images.
#[derive(Debug, Clone, PartialEq, Eq)]
pub struct TranslatedImage {
    pub localized_image: Vec<LocalizedImage>,
}

/// `TranslatedImage` as a plain value.
pub struct TranslatedImageView {
    pub localized_image: Seq<LocalizedImageView>,
}

impl View for TranslatedImage {
    type V = TranslatedImageView;

    open spec fn view(&self) -> TranslatedImageView {
        TranslatedImageView {
            localized_image: self.localized_image@.map_values(|v: LocalizedImage| v@),
        }
    }
}

impl Default for TranslatedImage {
    fn default() -> (r: Self)
        ensures
            r@ == <TranslatedImage as Message>::spec_empty(),
    {
        <TranslatedImage as Message>::empty()
    }
}

impl Message for TranslatedImage {
    open spec fn spec_empty() -> TranslatedImageView {
        TranslatedImageView {
            localized_image: Seq::empty(),
        }
    }

    open spec fn spec_merge(m: TranslatedImageView, f: FieldView, env: Env, acc: Seq<AnomalyView>) -> (
        TranslatedImageView,
        bool,
        Seq<AnomalyView>,
    ) {
        if f.number == 1 {
            let (r, a) = spec_nested_at::<LocalizedImage>(f, indexed_segment("localized_image"@, m.localized_image.len()), env, acc);
            (TranslatedImageView { localized_image: push_some(m.localized_image, r), ..m }, true, a)
        } else {
            (m, false, acc)
        }
    }

    open spec fn spec_check_required(m: TranslatedImageView, env: Env, acc: Seq<AnomalyView>) -> Seq<AnomalyView> {
        acc
    }

    fn empty() -> (r: Self) {
        let r = TranslatedImage {
            localized_image: Vec::new(),
        };
        proof {
            assert(r@.localized_image =~= Seq::empty());
        }
        r
    }

    fn merge_field(&mut self, field: &Field<'_>, ctx: &mut DecodeCtx) -> (known: bool) {
        match field.number {
            1 => {
                let ghost before = self.localized_image@.map_values(|v: LocalizedImage| v@);
                if let Some(v) = ctx.nested_repeated::<LocalizedImage>(field, "localized_image", self.localized_image.len()) {
                    let ghost item = v@;
                    self.localized_image.push(v);
                    proof {
                        assert(self.localized_image@.map_values(|v: LocalizedImage| v@) =~= before.push(item));
                    }
                }
                true
            },
            _ => false,
        }
    }

    fn check_required(&self, ctx: &mut DecodeCtx) {
    }
}

/// An image in one language. `url` and `media_type` are proto2 `required`.
#[derive(Debug, Clone, PartialEq, Eq)]
pub struct LocalizedImage {
    pub url: Option<String>,
    pub media_type: Option<String>,
    pub language: Option<String>,
}

/// `LocalizedImage` as a plain value.
pub struct LocalizedImageView {
    pub url: Option<Seq<char>>,
    pub media_type: Option<Seq<char>>,
    pub language: Option<Seq<char>>,
}

impl View for LocalizedImage {
    type V = LocalizedImageView;

    open spec fn view(&self) -> LocalizedImageView {
        LocalizedImageView {
            url: opt_view(self.url),
            media_type: opt_view(self.media_type),
            language: opt_view(self.language),
        }
    }
}

impl Default for LocalizedImage {
    fn default() -> (r: Self)
        ensures
            r@ == <LocalizedImage as Message>::spec_empty(),
    {
        <LocalizedImage as Message>::empty()
    }
}

impl Message for LocalizedImage {
    open spec fn spec_empty() -> LocalizedImageView {
        LocalizedImageView {
            url: None,
            media_type: None,
            language: None,
        }
    }

    open spec fn spec_merge(m: LocalizedImageView, f: FieldView, env: Env, acc: Seq<AnomalyView>) -> (
        LocalizedImageView,
        bool,
        Seq<AnomalyView>,
    ) {
        if f.number == 1 {
            let (r, a) = spec_string(env, acc, f);
            (LocalizedImageView { url: keep(r, m.url), ..m }, true, a)
        } else if f.number == 2 {
            let (r, a) = spec_string(env, acc, f);
            (LocalizedImageView { media_type: keep(r, m.media_type), ..m }, true, a)
        } else if f.number == 3 {
            let (r, a) = spec_string(env, acc, f);
            (LocalizedImageView { language: keep(r, m.language), ..m }, true, a)
        } else {
            (m, false, acc)
        }
    }

    open spec fn spec_check_required(m: LocalizedImageView, env: Env, acc: Seq<AnomalyView>) -> Seq<AnomalyView> {
        let a0 = if m.url is None {
            spec_report(env, acc, AnomalyKind::MissingRequiredField { field: "LocalizedImage.url" }, 0)
        } else {
            acc
        };
        let a1 = if m.media_type is None {
            spec_report(env, a0, AnomalyKind::MissingRequiredField { field: "LocalizedImage.media_type" }, 0)
        } else {
            a0
        };
        a1
    }

    fn empty() -> (r: Self) {
        let r = LocalizedImage {
            url: None,
            media_type: None,
            language: None,
        };
        r
    }

    fn merge_field(&mut self, field: &Field<'_>, ctx: &mut DecodeCtx) -> (known: bool) {
        match field.number {
            1 => {
                if let Some(v) = ctx.string(field) {
                    self.url = Some(v);
                }
                true
            },
            2 => {
                if let Some(v) = ctx.string(field) {
                    self.media_type = Some(v);
                }
                true
            },
            3 => {
                if let Some(v) = ctx.string(field) {
                    self.language = Some(v);
                }
                true
            },
            _ => false,
        }
    }

    fn check_required(&self, ctx: &mut DecodeCtx) {
        if self.url.is_none() {
            ctx.missing_required("LocalizedImage.url");
        }
        if self.media_type.is_none() {
            ctx.missing_required("LocalizedImage.media_type");
        }
    }
}

} // verus!
