//! `TripUpdate` and its inner messages: realised and predicted timing of a trip.
use vstd::prelude::*;
use crate::anomaly::{AnomalyKind, AnomalyView};
use crate::decode::{indexed_segment, keep, opt_view, push_some, spec_enum, spec_i32, spec_i64, spec_nested_at, spec_report, spec_string, spec_u32, spec_u64, DecodeCtx, Env, Message};
use crate::model::descriptor::{TripDescriptor, TripDescriptorView, VehicleDescriptor, VehicleDescriptorView};
use crate::model::enums::{DropOffPickupType, OccupancyStatus, StopTimeScheduleRelationship};
use crate::wire::{Field, FieldView};

verus! {

/// Timing update for a trip. `trip` is proto2 `required`.
#[derive(Debug, Clone, PartialEq, Eq)]
pub struct TripUpdate {
    pub trip: Option<TripDescriptor>,
    pub vehicle: Option<VehicleDescriptor>,
    pub stop_time_update: Vec<StopTimeUpdate>,
    pub timestamp: Option<u64>,
    pub delay: Option<i32>,
    pub trip_properties: Option<TripProperties>,
}

/// `TripUpdate` as a plain value.
pub struct TripUpdateView {
    pub trip: Option<TripDescriptorView>,
    pub vehicle: Option<VehicleDescriptorView>,
    pub stop_time_update: Seq<StopTimeUpdateView>,
    pub timestamp: Option<u64>,
    pub delay: Option<i32>,
    pub trip_properties: Option<TripPropertiesView>,
}

impl View for TripUpdate {
    type V = TripUpdateView;

    open spec fn view(&self) -> TripUpdateView {
        TripUpdateView {
            trip: opt_view(self.trip),
            vehicle: opt_view(self.vehicle),
            stop_time_update: self.stop_time_update@.map_values(|v: StopTimeUpdate| v@),
            timestamp: self.timestamp,
            delay: self.delay,
            trip_properties: opt_view(self.trip_properties),
        }
    }
}

impl Default for TripUpdate {
    fn default() -> (r: Self)
        ensures
            r@ == <TripUpdate as Message>::spec_empty(),
    {
        <TripUpdate as Message>::empty()
    }
}

impl Message for TripUpdate {
    open spec fn spec_empty() -> TripUpdateView {
        TripUpdateView {
            trip: None,
            vehicle: None,
            stop_time_update: Seq::empty(),
            timestamp: None,
            delay: None,
            trip_properties: None,
        }
    }

    open spec fn spec_merge(m: TripUpdateView, f: FieldView, env: Env, acc: Seq<AnomalyView>) -> (
        TripUpdateView,
        bool,
        Seq<AnomalyView>,
    ) {
        if f.number == 1 {
            let (r, a) = spec_nested_at::<TripDescriptor>(f, "trip"@, env, acc);
            (TripUpdateView { trip: keep(r, m.trip), ..m }, true, a)
        } else if f.number == 2 {
            let (r, a) = spec_nested_at::<StopTimeUpdate>(f, indexed_segment("stop_time_update"@, m.stop_time_update.len()), env, acc);
            (TripUpdateView { stop_time_update: push_some(m.stop_time_update, r), ..m }, true, a)
        } else if f.number == 3 {
            let (r, a) = spec_nested_at::<VehicleDescriptor>(f, "vehicle"@, env, acc);
            (TripUpdateView { vehicle: keep(r, m.vehicle), ..m }, true, a)
        } else if f.number == 4 {
            let (r, a) = spec_u64(env, acc, f);
            (TripUpdateView { timestamp: keep(r, m.timestamp), ..m }, true, a)
        } else if f.number == 5 {
            let (r, a) = spec_i32(env, acc, f);
            (TripUpdateView { delay: keep(r, m.delay), ..m }, true, a)
        } else if f.number == 6 {
            let (r, a) = spec_nested_at::<TripProperties>(f, "trip_properties"@, env, acc);
            (TripUpdateView { trip_properties: keep(r, m.trip_properties), ..m }, true, a)
        } else {
            (m, false, acc)
        }
    }

    open spec fn spec_check_required(m: TripUpdateView, env: Env, acc: Seq<AnomalyView>) -> Seq<AnomalyView> {
        let a0 = if m.trip is None {
            spec_report(env, acc, AnomalyKind::MissingRequiredField { field: "TripUpdate.trip" }, 0)
        } else {
            acc
        };
        a0
    }

    fn empty() -> (r: Self) {
        let r = TripUpdate {
            trip: None,
            vehicle: None,
            stop_time_update: Vec::new(),
            timestamp: None,
            delay: None,
            trip_properties: None,
        };
        proof {
            assert(r@.stop_time_update =~= Seq::empty());
        }
        r
    }

    fn merge_field(&mut self, field: &Field<'_>, ctx: &mut DecodeCtx) -> (known: bool) {
        match field.number {
            1 => {
                if let Some(v) = ctx.nested::<TripDescriptor>(field, "trip") {
                    self.trip = Some(v);
                }
                true
            },
            2 => {
                let ghost before = self.stop_time_update@.map_values(|v: StopTimeUpdate| v@);
                if let Some(v) = ctx.nested_repeated::<StopTimeUpdate>(field, "stop_time_update", self.stop_time_update.len()) {
                    let ghost item = v@;
                    self.stop_time_update.push(v);
                    proof {
                        assert(self.stop_time_update@.map_values(|v: StopTimeUpdate| v@) =~= before.push(item));
                    }
                }
                true
            },
            3 => {
                if let Some(v) = ctx.nested::<VehicleDescriptor>(field, "vehicle") {
                    self.vehicle = Some(v);
                }
                true
            },
            4 => {
                if let Some(v) = ctx.u64(field) {
                    self.timestamp = Some(v);
                }
                true
            },
            5 => {
                if let Some(v) = ctx.i32(field) {
                    self.delay = Some(v);
                }
                true
            },
            6 => {
                if let Some(v) = ctx.nested::<TripProperties>(field, "trip_properties") {
                    self.trip_properties = Some(v);
                }
                true
            },
            _ => false,
        }
    }

    fn check_required(&self, ctx: &mut DecodeCtx) {
        if self.trip.is_none() {
            ctx.missing_required("TripUpdate.trip");
        }
    }
}

/// Arrival/departure update for one stop.
///
/// `stop_id` and `stop_sequence` are both optional, but one of them is needed;
/// that constraint is in the prose of the specification, not in its field
/// table, so it is left to the rule layer.
#[derive(Debug, Clone, PartialEq, Eq)]
pub struct StopTimeUpdate {
    pub stop_sequence: Option<u32>,
    pub stop_id: Option<String>,
    pub arrival: Option<StopTimeEvent>,
    pub departure: Option<StopTimeEvent>,
    pub departure_occupancy_status: Option<OccupancyStatus>,
    pub schedule_relationship: Option<StopTimeScheduleRelationship>,
    pub stop_time_properties: Option<StopTimeProperties>,
}

/// `StopTimeUpdate` as a plain value.
pub struct StopTimeUpdateView {
    pub stop_sequence: Option<u32>,
    pub stop_id: Option<Seq<char>>,
    pub arrival: Option<StopTimeEventView>,
    pub departure: Option<StopTimeEventView>,
    pub departure_occupancy_status: Option<OccupancyStatus>,
    pub schedule_relationship: Option<StopTimeScheduleRelationship>,
    pub stop_time_properties: Option<StopTimePropertiesView>,
}

impl View for StopTimeUpdate {
    type V = StopTimeUpdateView;

    open spec fn view(&self) -> StopTimeUpdateView {
        StopTimeUpdateView {
            stop_sequence: self.stop_sequence,
            stop_id: opt_view(self.stop_id),
            arrival: opt_view(self.arrival),
            departure: opt_view(self.departure),
            departure_occupancy_status: self.departure_occupancy_status,
            schedule_relationship: self.schedule_relationship,
            stop_time_properties: opt_view(self.stop_time_properties),
        }
    }
}

impl Default for StopTimeUpdate {
    fn default() -> (r: Self)
        ensures
            r@ == <StopTimeUpdate as Message>::spec_empty(),
    {
        <StopTimeUpdate as Message>::empty()
    }
}

impl Message for StopTimeUpdate {
    open spec fn spec_empty() -> StopTimeUpdateView {
        StopTimeUpdateView {
            stop_sequence: None,
            stop_id: None,
            arrival: None,
            departure: None,
            departure_occupancy_status: None,
            schedule_relationship: None,
            stop_time_properties: None,
        }
    }

    open spec fn spec_merge(m: StopTimeUpdateView, f: FieldView, env: Env, acc: Seq<AnomalyView>) -> (
        StopTimeUpdateView,
        bool,
        Seq<AnomalyView>,
    ) {
        if f.number == 1 {
            let (r, a) = spec_u32(env, acc, f);
            (StopTimeUpdateView { stop_sequence: keep(r, m.stop_sequence), ..m }, true, a)
        } else if f.number == 2 {
            let (r, a) = spec_nested_at::<StopTimeEvent>(f, "arrival"@, env, acc);
            (StopTimeUpdateView { arrival: keep(r, m.arrival), ..m }, true, a)
        } else if f.number == 3 {
            let (r, a) = spec_nested_at::<StopTimeEvent>(f, "departure"@, env, acc);
            (StopTimeUpdateView { departure: keep(r, m.departure), ..m }, true, a)
        } else if f.number == 4 {
            let (r, a) = spec_string(env, acc, f);
            (StopTimeUpdateView { stop_id: keep(r, m.stop_id), ..m }, true, a)
        } else if f.number == 5 {
            let (r, a) = spec_enum::<StopTimeScheduleRelationship>(env, acc, f);
            (StopTimeUpdateView { schedule_relationship: keep(r, m.schedule_relationship), ..m }, true, a)
        } else if f.number == 6 {
            let (r, a) = spec_nested_at::<StopTimeProperties>(f, "stop_time_properties"@, env, acc);
            (StopTimeUpdateView { stop_time_properties: keep(r, m.stop_time_properties), ..m }, true, a)
        } else if f.number == 7 {
            let (r, a) = spec_enum::<OccupancyStatus>(env, acc, f);
            (StopTimeUpdateView { departure_occupancy_status: keep(r, m.departure_occupancy_status), ..m }, true, a)
        } else {
            (m, false, acc)
        }
    }

    open spec fn spec_check_required(m: StopTimeUpdateView, env: Env, acc: Seq<AnomalyView>) -> Seq<AnomalyView> {
        acc
    }

    fn empty() -> (r: Self) {
        let r = StopTimeUpdate {
            stop_sequence: None,
            stop_id: None,
            arrival: None,
            departure: None,
            departure_occupancy_status: None,
            schedule_relationship: None,
            stop_time_properties: None,
        };
        r
    }

    fn merge_field(&mut self, field: &Field<'_>, ctx: &mut DecodeCtx) -> (known: bool) {
        match field.number {
            1 => {
                if let Some(v) = ctx.u32(field) {
                    self.stop_sequence = Some(v);
                }
                true
            },
            2 => {
                if let Some(v) = ctx.nested::<StopTimeEvent>(field, "arrival") {
                    self.arrival = Some(v);
                }
                true
            },
            3 => {
                if let Some(v) = ctx.nested::<StopTimeEvent>(field, "departure") {
                    self.departure = Some(v);
                }
                true
            },
            4 => {
                if let Some(v) = ctx.string(field) {
                    self.stop_id = Some(v);
                }
                true
            },
            5 => {
                if let Some(v) = ctx.enum_value::<StopTimeScheduleRelationship>(field) {
                    self.schedule_relationship = Some(v);
                }
                true
            },
            6 => {
                if let Some(v) = ctx.nested::<StopTimeProperties>(field, "stop_time_properties") {
                    self.stop_time_properties = Some(v);
                }
                true
            },
            7 => {
                if let Some(v) = ctx.enum_value::<OccupancyStatus>(field) {
                    self.departure_occupancy_status = Some(v);
                }
                true
            },
            _ => false,
        }
    }

    fn check_required(&self, ctx: &mut DecodeCtx) {
    }
}

/// An arrival or departure. One of `delay` and `time` is needed (specification prose).
#[derive(Debug, Clone, PartialEq, Eq)]
pub struct StopTimeEvent {
    pub delay: Option<i32>,
    pub time: Option<i64>,
    pub uncertainty: Option<i32>,
    pub scheduled_time: Option<i64>,
}

/// `StopTimeEvent` as a plain value.
pub struct StopTimeEventView {
    pub delay: Option<i32>,
    pub time: Option<i64>,
    pub uncertainty: Option<i32>,
    pub scheduled_time: Option<i64>,
}

impl View for StopTimeEvent {
    type V = StopTimeEventView;

    open spec fn view(&self) -> StopTimeEventView {
        StopTimeEventView {
            delay: self.delay,
            time: self.time,
            uncertainty: self.uncertainty,
            scheduled_time: self.scheduled_time,
        }
    }
}

impl Default for StopTimeEvent {
    fn default() -> (r: Self)
        ensures
            r@ == <StopTimeEvent as Message>::spec_empty(),
    {
        <StopTimeEvent as Message>::empty()
    }
}

impl Message for StopTimeEvent {
    open spec fn spec_empty() -> StopTimeEventView {
        StopTimeEventView {
            delay: None,
            time: None,
            uncertainty: None,
            scheduled_time: None,
        }
    }

    open spec fn spec_merge(m: StopTimeEventView, f: FieldView, env: Env, acc: Seq<AnomalyView>) -> (
        StopTimeEventView,
        bool,
        Seq<AnomalyView>,
    ) {
        if f.number == 1 {
            let (r, a) = spec_i32(env, acc, f);
            (StopTimeEventView { delay: keep(r, m.delay), ..m }, true, a)
        } else if f.number == 2 {
            let (r, a) = spec_i64(env, acc, f);
            (StopTimeEventView { time: keep(r, m.time), ..m }, true, a)
        } else if f.number == 3 {
            let (r, a) = spec_i32(env, acc, f);
            (StopTimeEventView { uncertainty: keep(r, m.uncertainty), ..m }, true, a)
        } else if f.number == 4 {
            let (r, a) = spec_i64(env, acc, f);
            (StopTimeEventView { scheduled_time: keep(r, m.scheduled_time), ..m }, true, a)
        } else {
            (m, false, acc)
        }
    }

    open spec fn spec_check_required(m: StopTimeEventView, env: Env, acc: Seq<AnomalyView>) -> Seq<AnomalyView> {
        acc
    }

    fn empty() -> (r: Self) {
        let r = StopTimeEvent {
            delay: None,
            time: None,
            uncertainty: None,
            scheduled_time: None,
        };
        r
    }

    fn merge_field(&mut self, field: &Field<'_>, ctx: &mut DecodeCtx) -> (known: bool) {
        match field.number {
            1 => {
                if let Some(v) = ctx.i32(field) {
                    self.delay = Some(v);
                }
                true
            },
            2 => {
                if let Some(v) = ctx.i64(field) {
                    self.time = Some(v);
                }
                true
            },
            3 => {
                if let Some(v) = ctx.i32(field) {
                    self.uncertainty = Some(v);
                }
                true
            },
            4 => {
                if let Some(v) = ctx.i64(field) {
                    self.scheduled_time = Some(v);
                }
                true
            },
            _ => false,
        }
    }

    fn check_required(&self, ctx: &mut DecodeCtx) {
    }
}

/// Per-stop properties that override the static feed.
#[derive(Debug, Clone, PartialEq, Eq)]
pub struct StopTimeProperties {
    pub assigned_stop_id: Option<String>,
    pub stop_headsign: Option<String>,
    pub pickup_type: Option<DropOffPickupType>,
    pub drop_off_type: Option<DropOffPickupType>,
}

/// `StopTimeProperties` as a plain value.
pub struct StopTimePropertiesView {
    pub assigned_stop_id: Option<Seq<char>>,
    pub stop_headsign: Option<Seq<char>>,
    pub pickup_type: Option<DropOffPickupType>,
    pub drop_off_type: Option<DropOffPickupType>,
}

impl View for StopTimeProperties {
    type V = StopTimePropertiesView;

    open spec fn view(&self) -> StopTimePropertiesView {
        StopTimePropertiesView {
            assigned_stop_id: opt_view(self.assigned_stop_id),
            stop_headsign: opt_view(self.stop_headsign),
            pickup_type: self.pickup_type,
            drop_off_type: self.drop_off_type,
        }
    }
}

impl Default for StopTimeProperties {
    fn default() -> (r: Self)
        ensures
            r@ == <StopTimeProperties as Message>::spec_empty(),
    {
        <StopTimeProperties as Message>::empty()
    }
}

impl Message for StopTimeProperties {
    open spec fn spec_empty() -> StopTimePropertiesView {
        StopTimePropertiesView {
            assigned_stop_id: None,
            stop_headsign: None,
            pickup_type: None,
            drop_off_type: None,
        }
    }

    open spec fn spec_merge(m: StopTimePropertiesView, f: FieldView, env: Env, acc: Seq<AnomalyView>) -> (
        StopTimePropertiesView,
        bool,
        Seq<AnomalyView>,
    ) {
        if f.number == 1 {
            let (r, a) = spec_string(env, acc, f);
            (StopTimePropertiesView { assigned_stop_id: keep(r, m.assigned_stop_id), ..m }, true, a)
        } else if f.number == 2 {
            let (r, a) = spec_string(env, acc, f);
            (StopTimePropertiesView { stop_headsign: keep(r, m.stop_headsign), ..m }, true, a)
        } else if f.number == 3 {
            let (r, a) = spec_enum::<DropOffPickupType>(env, acc, f);
            (StopTimePropertiesView { pickup_type: keep(r, m.pickup_type), ..m }, true, a)
        } else if f.number == 4 {
            let (r, a) = spec_enum::<DropOffPickupType>(env, acc, f);
            (StopTimePropertiesView { drop_off_type: keep(r, m.drop_off_type), ..m }, true, a)
        } else {
            (m, false, acc)
        }
    }

    open spec fn spec_check_required(m: StopTimePropertiesView, env: Env, acc: Seq<AnomalyView>) -> Seq<AnomalyView> {
        acc
    }

    fn empty() -> (r: Self) {
        let r = StopTimeProperties {
            assigned_stop_id: None,
            stop_headsign: None,
            pickup_type: None,
            drop_off_type: None,
        };
        r
    }

    fn merge_field(&mut self, field: &Field<'_>, ctx: &mut DecodeCtx) -> (known: bool) {
        match field.number {
            1 => {
                if let Some(v) = ctx.string(field) {
                    self.assigned_stop_id = Some(v);
                }
                true
            },
            2 => {
                if let Some(v) = ctx.string(field) {
                    self.stop_headsign = Some(v);
                }
                true
            },
            3 => {
                if let Some(v) = ctx.enum_value::<DropOffPickupType>(field) {
                    self.pickup_type = Some(v);
                }
                true
            },
            4 => {
                if let Some(v) = ctx.enum_value::<DropOffPickupType>(field) {
                    self.drop_off_type = Some(v);
                }
                true
            },
            _ => false,
        }
    }

    fn check_required(&self, ctx: &mut DecodeCtx) {
    }
}

/// Per-trip properties that override the static feed (for `ADDED`/`NEW` trips).
#[derive(Debug, Clone, PartialEq, Eq)]
pub struct TripProperties {
    pub trip_id: Option<String>,
    pub start_date: Option<String>,
    pub start_time: Option<String>,
    pub shape_id: Option<String>,
    pub trip_headsign: Option<String>,
    pub trip_short_name: Option<String>,
}

/// `TripProperties` as a plain value.
pub struct TripPropertiesView {
    pub trip_id: Option<Seq<char>>,
    pub start_date: Option<Seq<char>>,
    pub start_time: Option<Seq<char>>,
    pub shape_id: Option<Seq<char>>,
    pub trip_headsign: Option<Seq<char>>,
    pub trip_short_name: Option<Seq<char>>,
}

impl View for TripProperties {
    type V = TripPropertiesView;

    open spec fn view(&self) -> TripPropertiesView {
        TripPropertiesView {
            trip_id: opt_view(self.trip_id),
            start_date: opt_view(self.start_date),
            start_time: opt_view(self.start_time),
            shape_id: opt_view(self.shape_id),
            trip_headsign: opt_view(self.trip_headsign),
            trip_short_name: opt_view(self.trip_short_name),
        }
    }
}

impl Default for TripProperties {
    fn default() -> (r: Self)
        ensures
            r@ == <TripProperties as Message>::spec_empty(),
    {
        <TripProperties as Message>::empty()
    }
}

impl Message for TripProperties {
    open spec fn spec_empty() -> TripPropertiesView {
        TripPropertiesView {
            trip_id: None,
            start_date: None,
            start_time: None,
            shape_id: None,
            trip_headsign: None,
            trip_short_name: None,
        }
    }

    open spec fn spec_merge(m: TripPropertiesView, f: FieldView, env: Env, acc: Seq<AnomalyView>) -> (
        TripPropertiesView,
        bool,
        Seq<AnomalyView>,
    ) {
        if f.number == 1 {
            let (r, a) = spec_string(env, acc, f);
            (TripPropertiesView { trip_id: keep(r, m.trip_id), ..m }, true, a)
        } else if f.number == 2 {
            let (r, a) = spec_string(env, acc, f);
            (TripPropertiesView { start_date: keep(r, m.start_date), ..m }, true, a)
        } else if f.number == 3 {
            let (r, a) = spec_string(env, acc, f);
            (TripPropertiesView { start_time: keep(r, m.start_time), ..m }, true, a)
        } else if f.number == 4 {
            let (r, a) = spec_string(env, acc, f);
            (TripPropertiesView { shape_id: keep(r, m.shape_id), ..m }, true, a)
        } else if f.number == 5 {
            let (r, a) = spec_string(env, acc, f);
            (TripPropertiesView { trip_headsign: keep(r, m.trip_headsign), ..m }, true, a)
        } else if f.number == 6 {
            let (r, a) = spec_string(env, acc, f);
            (TripPropertiesView { trip_short_name: keep(r, m.trip_short_name), ..m }, true, a)
        } else {
            (m, false, acc)
        }
    }

    open spec fn spec_check_required(m: TripPropertiesView, env: Env, acc: Seq<AnomalyView>) -> Seq<AnomalyView> {
        acc
    }

    fn empty() -> (r: Self) {
        let r = TripProperties {
            trip_id: None,
            start_date: None,
            start_time: None,
            shape_id: None,
            trip_headsign: None,
            trip_short_name: None,
        };
        r
    }

    fn merge_field(&mut self, field: &Field<'_>, ctx: &mut DecodeCtx) -> (known: bool) {
        match field.number {
            1 => {
                if let Some(v) = ctx.string(field) {
                    self.trip_id = Some(v);
                }
                true
            },
            2 => {
                if let Some(v) = ctx.string(field) {
                    self.start_date = Some(v);
                }
                true
            },
            3 => {
                if let Some(v) = ctx.string(field) {
                    self.start_time = Some(v);
                }
                true
            },
            4 => {
                if let Some(v) = ctx.string(field) {
                    self.shape_id = Some(v);
                }
                true
            },
            5 => {
                if let Some(v) = ctx.string(field) {
                    self.trip_headsign = Some(v);
                }
                true
            },
            6 => {
                if let Some(v) = ctx.string(field) {
                    self.trip_short_name = Some(v);
                }
                true
            },
            _ => false,
        }
    }

    fn check_required(&self, ctx: &mut DecodeCtx) {
    }
}

} // verus!
