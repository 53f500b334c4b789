//! `VehiclePosition` and carriage details.
use vstd::prelude::*;
use crate::anomaly::{AnomalyView};
use crate::decode::{indexed_segment, keep, opt_view, push_some, spec_enum, spec_i32, spec_nested_at, spec_string, spec_u32, spec_u64, DecodeCtx, Env, Message};
use crate::model::descriptor::{Position, PositionView, TripDescriptor, TripDescriptorView, VehicleDescriptor, VehicleDescriptorView};
use crate::model::enums::{CongestionLevel, OccupancyStatus, VehicleStopStatus};
use crate::wire::{Field, FieldView};

verus! {

/// Position and status of a vehicle.
#[derive(Debug, Clone, PartialEq, Eq)]
pub struct VehiclePosition {
    pub trip: Option<TripDescriptor>,
    pub vehicle: Option<VehicleDescriptor>,
    pub position: Option<Position>,
    pub current_stop_sequence: Option<u32>,
    pub stop_id: Option<String>,
    pub current_status: Option<VehicleStopStatus>,
    pub timestamp: Option<u64>,
    pub congestion_level: Option<CongestionLevel>,
    pub occupancy_status: Option<OccupancyStatus>,
    pub occupancy_percentage: Option<u32>,
    pub multi_carriage_details: Vec<CarriageDetails>,
}

/// `VehiclePosition` as a plain value.
pub struct VehiclePositionView {
    pub trip: Option<TripDescriptorView>,
    pub vehicle: Option<VehicleDescriptorView>,
    pub position: Option<PositionView>,
    pub current_stop_sequence: Option<u32>,
    pub stop_id: Option<Seq<char>>,
    pub current_status: Option<VehicleStopStatus>,
    pub timestamp: Option<u64>,
    pub congestion_level: Option<CongestionLevel>,
    pub occupancy_status: Option<OccupancyStatus>,
    pub occupancy_percentage: Option<u32>,
    pub multi_carriage_details: Seq<CarriageDetailsView>,
}

impl View for VehiclePosition {
    type V = VehiclePositionView;

    open spec fn view(&self) -> VehiclePositionView {
        VehiclePositionView {
            trip: opt_view(self.trip),
            vehicle: opt_view(self.vehicle),
            position: opt_view(self.position),
            current_stop_sequence: self.current_stop_sequence,
            stop_id: opt_view(self.stop_id),
            current_status: self.current_status,
            timestamp: self.timestamp,
            congestion_level: self.congestion_level,
            occupancy_status: self.occupancy_status,
            occupancy_percentage: self.occupancy_percentage,
            multi_carriage_details: self.multi_carriage_details@.map_values(|v: CarriageDetails| v@),
        }
    }
}

impl Default for VehiclePosition {
    fn default() -> (r: Self)
        ensures
            r@ == <VehiclePosition as Message>::spec_empty(),
    {
        <VehiclePosition as Message>::empty()
    }
}

impl Message for VehiclePosition {
    open spec fn spec_empty() -> VehiclePositionView {
        VehiclePositionView {
            trip: None,
            vehicle: None,
            position: None,
            current_stop_sequence: None,
            stop_id: None,
            current_status: None,
            timestamp: None,
            congestion_level: None,
            occupancy_status: None,
            occupancy_percentage: None,
            multi_carriage_details: Seq::empty(),
        }
    }

    open spec fn spec_merge(m: VehiclePositionView, f: FieldView, env: Env, acc: Seq<AnomalyView>) -> (
        VehiclePositionView,
        bool,
        Seq<AnomalyView>,
    ) {
        if f.number == 1 {
            let (r, a) = spec_nested_at::<TripDescriptor>(f, "trip"@, env, acc);
            (VehiclePositionView { trip: keep(r, m.trip), ..m }, true, a)
        } else if f.number == 2 {
            let (r, a) = spec_nested_at::<Position>(f, "position"@, env, acc);
            (VehiclePositionView { position: keep(r, m.position), ..m }, true, a)
        } else if f.number == 3 {
            let (r, a) = spec_u32(env, acc, f);
            (VehiclePositionView { current_stop_sequence: keep(r, m.current_stop_sequence), ..m }, true, a)
        } else if f.number == 4 {
            let (r, a) = spec_enum::<VehicleStopStatus>(env, acc, f);
            (VehiclePositionView { current_status: keep(r, m.current_status), ..m }, true, a)
        } else if f.number == 5 {
            let (r, a) = spec_u64(env, acc, f);
            (VehiclePositionView { timestamp: keep(r, m.timestamp), ..m }, true, a)
        } else if f.number == 6 {
            let (r, a) = spec_enum::<CongestionLevel>(env, acc, f);
            (VehiclePositionView { congestion_level: keep(r, m.congestion_level), ..m }, true, a)
        } else if f.number == 7 {
            let (r, a) = spec_string(env, acc, f);
            (VehiclePositionView { stop_id: keep(r, m.stop_id), ..m }, true, a)
        } else if f.number == 8 {
            let (r, a) = spec_nested_at::<VehicleDescriptor>(f, "vehicle"@, env, acc);
            (VehiclePositionView { vehicle: keep(r, m.vehicle), ..m }, true, a)
        } else if f.number == 9 {
            let (r, a) = spec_enum::<OccupancyStatus>(env, acc, f);
            (VehiclePositionView { occupancy_status: keep(r, m.occupancy_status), ..m }, true, a)
        } else if f.number == 10 {
            let (r, a) = spec_u32(env, acc, f);
            (VehiclePositionView { occupancy_percentage: keep(r, m.occupancy_percentage), ..m }, true, a)
        } else if f.number == 11 {
            let (r, a) = spec_nested_at::<CarriageDetails>(f, indexed_segment("multi_carriage_details"@, m.multi_carriage_details.len()), env, acc);
            (VehiclePositionView { multi_carriage_details: push_some(m.multi_carriage_details, r), ..m }, true, a)
        } else {
            (m, false, acc)
        }
    }

    open spec fn spec_check_required(m: VehiclePositionView, env: Env, acc: Seq<AnomalyView>) -> Seq<AnomalyView> {
        acc
    }

    fn empty() -> (r: Self) {
        let r = VehiclePosition {
            trip: None,
            vehicle: None,
            position: None,
            current_stop_sequence: None,
            stop_id: None,
            current_status: None,
            timestamp: None,
            congestion_level: None,
            occupancy_status: None,
            occupancy_percentage: None,
            multi_carriage_details: Vec::new(),
        };
        proof {
            assert(r@.multi_carriage_details =~= Seq::empty());
        }
        r
    }

    fn merge_field(&mut self, field: &Field<'_>, ctx: &mut DecodeCtx) -> (known: bool) {
        match field.number {
            1 => {
                if let Some(v) = ctx.nested::<TripDescriptor>(field, "trip") {
                    self.trip = Some(v);
                }
                true
            },
            2 => {
                if let Some(v) = ctx.nested::<Position>(field, "position") {
                    self.position = Some(v);
                }
                true
            },
            3 => {
                if let Some(v) = ctx.u32(field) {
                    self.current_stop_sequence = Some(v);
                }
                true
            },
            4 => {
                if let Some(v) = ctx.enum_value::<VehicleStopStatus>(field) {
                    self.current_status = Some(v);
                }
                true
            },
            5 => {
                if let Some(v) = ctx.u64(field) {
                    self.timestamp = Some(v);
                }
                true
            },
            6 => {
                if let Some(v) = ctx.enum_value::<CongestionLevel>(field) {
                    self.congestion_level = Some(v);
                }
                true
            },
            7 => {
                if let Some(v) = ctx.string(field) {
                    self.stop_id = Some(v);
                }
                true
            },
            8 => {
                if let Some(v) = ctx.nested::<VehicleDescriptor>(field, "vehicle") {
                    self.vehicle = Some(v);
                }
                true
            },
            9 => {
                if let Some(v) = ctx.enum_value::<OccupancyStatus>(field) {
                    self.occupancy_status = Some(v);
                }
                true
            },
            10 => {
                if let Some(v) = ctx.u32(field) {
                    self.occupancy_percentage = Some(v);
                }
                true
            },
            11 => {
                let ghost before = self.multi_carriage_details@.map_values(|v: CarriageDetails| v@);
                if let Some(v) = ctx.nested_repeated::<CarriageDetails>(field, "multi_carriage_details", self.multi_carriage_details.len()) {
                    let ghost item = v@;
                    self.multi_carriage_details.push(v);
                    proof {
                        assert(self.multi_carriage_details@.map_values(|v: CarriageDetails| v@) =~= before.push(item));
                    }
                }
                true
            },
            _ => false,
        }
    }

    fn check_required(&self, ctx: &mut DecodeCtx) {
    }
}

/// Occupancy details of one carriage of a multi-carriage vehicle.
#[derive(Debug, Clone, PartialEq, Eq)]
pub struct CarriageDetails {
    pub id: Option<String>,
    pub label: Option<String>,
    pub occupancy_status: Option<OccupancyStatus>,
    pub occupancy_percentage: Option<i32>,
    pub carriage_sequence: Option<u32>,
}

/// `CarriageDetails` as a plain value.
pub struct CarriageDetailsView {
    pub id: Option<Seq<char>>,
    pub label: Option<Seq<char>>,
    pub occupancy_status: Option<OccupancyStatus>,
    pub occupancy_percentage: Option<i32>,
    pub carriage_sequence: Option<u32>,
}

impl View for CarriageDetails {
    type V = CarriageDetailsView;

    open spec fn view(&self) -> CarriageDetailsView {
        CarriageDetailsView {
            id: opt_view(self.id),
            label: opt_view(self.label),
            occupancy_status: self.occupancy_status,
            occupancy_percentage: self.occupancy_percentage,
            carriage_sequence: self.carriage_sequence,
        }
    }
}

impl Default for CarriageDetails {
    fn default() -> (r: Self)
        ensures
            r@ == <CarriageDetails as Message>::spec_empty(),
    {
        <CarriageDetails as Message>::empty()
    }
}

impl Message for CarriageDetails {
    open spec fn spec_empty() -> CarriageDetailsView {
        CarriageDetailsView {
            id: None,
            label: None,
            occupancy_status: None,
            occupancy_percentage: None,
            carriage_sequence: None,
        }
    }

    open spec fn spec_merge(m: CarriageDetailsView, f: FieldView, env: Env, acc: Seq<AnomalyView>) -> (
        CarriageDetailsView,
        bool,
        Seq<AnomalyView>,
    ) {
        if f.number == 1 {
            let (r, a) = spec_string(env, acc, f);
            (CarriageDetailsView { id: keep(r, m.id), ..m }, true, a)
        } else if f.number == 2 {
            let (r, a) = spec_string(env, acc, f);
            (CarriageDetailsView { label: keep(r, m.label), ..m }, true, a)
        } else if f.number == 3 {
            let (r, a) = spec_enum::<OccupancyStatus>(env, acc, f);
            (CarriageDetailsView { occupancy_status: keep(r, m.occupancy_status), ..m }, true, a)
        } else if f.number == 4 {
            let (r, a) = spec_i32(env, acc, f);
            (CarriageDetailsView { occupancy_percentage: keep(r, m.occupancy_percentage), ..m }, true, a)
        } else if f.number == 5 {
            let (r, a) = spec_u32(env, acc, f);
            (CarriageDetailsView { carriage_sequence: keep(r, m.carriage_sequence), ..m }, true, a)
        } else {
            (m, false, acc)
        }
    }

    open spec fn spec_check_required(m: CarriageDetailsView, env: Env, acc: Seq<AnomalyView>) -> Seq<AnomalyView> {
        acc
    }

    fn empty() -> (r: Self) {
        let r = CarriageDetails {
            id: None,
            label: None,
            occupancy_status: None,
            occupancy_percentage: None,
            carriage_sequence: None,
        };
        r
    }

    fn merge_field(&mut self, field: &Field<'_>, ctx: &mut DecodeCtx) -> (known: bool) {
        match field.number {
            1 => {
                if let Some(v) = ctx.string(field) {
                    self.id = Some(v);
                }
                true
            },
            2 => {
                if let Some(v) = ctx.string(field) {
                    self.label = Some(v);
                }
                true
            },
            3 => {
                if let Some(v) = ctx.enum_value::<OccupancyStatus>(field) {
                    self.occupancy_status = Some(v);
                }
                true
            },
            4 => {
                if let Some(v) = ctx.i32(field) {
                    self.occupancy_percentage = Some(v);
                }
                true
            },
            5 => {
                if let Some(v) = ctx.u32(field) {
                    self.carriage_sequence = Some(v);
                }
                true
            },
            _ => false,
        }
    }

    fn check_required(&self, ctx: &mut DecodeCtx) {
    }
}

} // verus!
