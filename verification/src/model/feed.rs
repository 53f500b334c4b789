//! `FeedMessage`, `FeedHeader`, `FeedEntity`: the root structure of a payload.
use vstd::prelude::*;
use crate::anomaly::{AnomalyKind, AnomalyView};
use crate::decode::{indexed_segment, keep, opt_view, push_some, spec_bool, spec_enum, spec_nested_at, spec_report, spec_string, spec_u64, DecodeCtx, Env, Message};
use crate::model::alert::{Alert, AlertView};
use crate::model::enums::{Incrementality};
use crate::model::modifications::{TripModifications, TripModificationsView};
use crate::model::shape_stop::{Shape, ShapeView, Stop, StopView};
use crate::model::trip_update::{TripUpdate, TripUpdateView};
use crate::model::vehicle::{VehiclePosition, VehiclePositionView};
use crate::wire::{Field, FieldView};

verus! {

/// The root of a payload. `header` is proto2 `required`.
#[derive(Debug, Clone, PartialEq, Eq)]
pub struct FeedMessage {
    pub header: Option<FeedHeader>,
    pub entity: Vec<FeedEntity>,
}

/// `FeedMessage` as a plain value.
pub struct FeedMessageView {
    pub header: Option<FeedHeaderView>,
    pub entity: Seq<FeedEntityView>,
}

impl View for FeedMessage {
    type V = FeedMessageView;

    open spec fn view(&self) -> FeedMessageView {
        FeedMessageView {
            header: opt_view(self.header),
            entity: self.entity@.map_values(|v: FeedEntity| v@),
        }
    }
}

impl Default for FeedMessage {
    fn default() -> (r: Self)
        ensures
            r@ == <FeedMessage as Message>::spec_empty(),
    {
        <FeedMessage as Message>::empty()
    }
}

impl Message for FeedMessage {
    open spec fn spec_empty() -> FeedMessageView {
        FeedMessageView {
            header: None,
            entity: Seq::empty(),
        }
    }

    open spec fn spec_merge(m: FeedMessageView, f: FieldView, env: Env, acc: Seq<AnomalyView>) -> (
        FeedMessageView,
        bool,
        Seq<AnomalyView>,
    ) {
        if f.number == 1 {
            let (r, a) = spec_nested_at::<FeedHeader>(f, "header"@, env, acc);
            (FeedMessageView { header: keep(r, m.header), ..m }, true, a)
        } else if f.number == 2 {
            let (r, a) = spec_nested_at::<FeedEntity>(f, indexed_segment("entity"@, m.entity.len()), env, acc);
            (FeedMessageView { entity: push_some(m.entity, r), ..m }, true, a)
        } else {
            (m, false, acc)
        }
    }

    open spec fn spec_check_required(m: FeedMessageView, env: Env, acc: Seq<AnomalyView>) -> Seq<AnomalyView> {
        let a0 = if m.header is None {
            spec_report(env, acc, AnomalyKind::MissingRequiredField { field: "FeedMessage.header" }, 0)
        } else {
            acc
        };
        a0
    }

    fn empty() -> (r: Self) {
        let r = FeedMessage {
            header: None,
            entity: Vec::new(),
        };
        proof {
            assert(r@.entity =~= Seq::empty());
        }
        r
    }

    fn merge_field(&mut self, field: &Field<'_>, ctx: &mut DecodeCtx) -> (known: bool) {
        match field.number {
            1 => {
                if let Some(v) = ctx.nested::<FeedHeader>(field, "header") {
                    self.header = Some(v);
                }
                true
            },
            2 => {
                let ghost before = self.entity@.map_values(|v: FeedEntity| v@);
                if let Some(v) = ctx.nested_repeated::<FeedEntity>(field, "entity", self.entity.len()) {
                    let ghost item = v@;
                    self.entity.push(v);
                    proof {
                        assert(self.entity@.map_values(|v: FeedEntity| v@) =~= before.push(item));
                    }
                }
                true
            },
            _ => false,
        }
    }

    fn check_required(&self, ctx: &mut DecodeCtx) {
        if self.header.is_none() {
            ctx.missing_required("FeedMessage.header");
        }
    }
}

/// Feed metadata. `gtfs_realtime_version` is proto2 `required`.
#[derive(Debug, Clone, PartialEq, Eq)]
pub struct FeedHeader {
    pub gtfs_realtime_version: Option<String>,
    pub incrementality: Option<Incrementality>,
    /// When the feed was produced (POSIX seconds); freshness is measured against it.
    pub timestamp: Option<u64>,
    pub feed_version: Option<String>,
}

/// `FeedHeader` as a plain value.
pub struct FeedHeaderView {
    pub gtfs_realtime_version: Option<Seq<char>>,
    pub incrementality: Option<Incrementality>,
    pub timestamp: Option<u64>,
    pub feed_version: Option<Seq<char>>,
}

impl View for FeedHeader {
    type V = FeedHeaderView;

    open spec fn view(&self) -> FeedHeaderView {
        FeedHeaderView {
            gtfs_realtime_version: opt_view(self.gtfs_realtime_version),
            incrementality: self.incrementality,
            timestamp: self.timestamp,
            feed_version: opt_view(self.feed_version),
        }
    }
}

impl Default for FeedHeader {
    fn default() -> (r: Self)
        ensures
            r@ == <FeedHeader as Message>::spec_empty(),
    {
        <FeedHeader as Message>::empty()
    }
}

impl Message for FeedHeader {
    open spec fn spec_empty() -> FeedHeaderView {
        FeedHeaderView {
            gtfs_realtime_version: None,
            incrementality: None,
            timestamp: None,
            feed_version: None,
        }
    }

    open spec fn spec_merge(m: FeedHeaderView, f: FieldView, env: Env, acc: Seq<AnomalyView>) -> (
        FeedHeaderView,
        bool,
        Seq<AnomalyView>,
    ) {
        if f.number == 1 {
            let (r, a) = spec_string(env, acc, f);
            (FeedHeaderView { gtfs_realtime_version: keep(r, m.gtfs_realtime_version), ..m }, true, a)
        } else if f.number == 2 {
            let (r, a) = spec_enum::<Incrementality>(env, acc, f);
            (FeedHeaderView { incrementality: keep(r, m.incrementality), ..m }, true, a)
        } else if f.number == 3 {
            let (r, a) = spec_u64(env, acc, f);
            (FeedHeaderView { timestamp: keep(r, m.timestamp), ..m }, true, a)
        } else if f.number == 4 {
            let (r, a) = spec_string(env, acc, f);
            (FeedHeaderView { feed_version: keep(r, m.feed_version), ..m }, true, a)
        } else {
            (m, false, acc)
        }
    }

    open spec fn spec_check_required(m: FeedHeaderView, env: Env, acc: Seq<AnomalyView>) -> Seq<AnomalyView> {
        let a0 = if m.gtfs_realtime_version is None {
            spec_report(env, acc, AnomalyKind::MissingRequiredField { field: "FeedHeader.gtfs_realtime_version" }, 0)
        } else {
            acc
        };
        a0
    }

    fn empty() -> (r: Self) {
        let r = FeedHeader {
            gtfs_realtime_version: None,
            incrementality: None,
            timestamp: None,
            feed_version: None,
        };
        r
    }

    fn merge_field(&mut self, field: &Field<'_>, ctx: &mut DecodeCtx) -> (known: bool) {
        match field.number {
            1 => {
                if let Some(v) = ctx.string(field) {
                    self.gtfs_realtime_version = Some(v);
                }
                true
            },
            2 => {
                if let Some(v) = ctx.enum_value::<Incrementality>(field) {
                    self.incrementality = Some(v);
                }
                true
            },
            3 => {
                if let Some(v) = ctx.u64(field) {
                    self.timestamp = Some(v);
                }
                true
            },
            4 => {
                if let Some(v) = ctx.string(field) {
                    self.feed_version = Some(v);
                }
                true
            },
            _ => false,
        }
    }

    fn check_required(&self, ctx: &mut DecodeCtx) {
        if self.gtfs_realtime_version.is_none() {
            ctx.missing_required("FeedHeader.gtfs_realtime_version");
        }
    }
}

/// A single entity. `id` is proto2 `required`, and at most one of the payload fields should be set.
#[derive(Debug, Clone, PartialEq, Eq)]
pub struct FeedEntity {
    pub id: Option<String>,
    pub is_deleted: Option<bool>,
    pub trip_update: Option<TripUpdate>,
    pub vehicle: Option<VehiclePosition>,
    pub alert: Option<Alert>,
    pub shape: Option<Shape>,
    pub stop: Option<Stop>,
    pub trip_modifications: Option<TripModifications>,
}

/// `FeedEntity` as a plain value.
pub struct FeedEntityView {
    pub id: Option<Seq<char>>,
    pub is_deleted: Option<bool>,
    pub trip_update: Option<TripUpdateView>,
    pub vehicle: Option<VehiclePositionView>,
    pub alert: Option<AlertView>,
    pub shape: Option<ShapeView>,
    pub stop: Option<StopView>,
    pub trip_modifications: Option<TripModificationsView>,
}

impl View for FeedEntity {
    type V = FeedEntityView;

    open spec fn view(&self) -> FeedEntityView {
        FeedEntityView {
            id: opt_view(self.id),
            is_deleted: self.is_deleted,
            trip_update: opt_view(self.trip_update),
            vehicle: opt_view(self.vehicle),
            alert: opt_view(self.alert),
            shape: opt_view(self.shape),
            stop: opt_view(self.stop),
            trip_modifications: opt_view(self.trip_modifications),
        }
    }
}

impl Default for FeedEntity {
    fn default() -> (r: Self)
        ensures
            r@ == <FeedEntity as Message>::spec_empty(),
    {
        <FeedEntity as Message>::empty()
    }
}

impl Message for FeedEntity {
    open spec fn spec_empty() -> FeedEntityView {
        FeedEntityView {
            id: None,
            is_deleted: None,
            trip_update: None,
            vehicle: None,
            alert: None,
            shape: None,
            stop: None,
            trip_modifications: None,
        }
    }

    open spec fn spec_merge(m: FeedEntityView, f: FieldView, env: Env, acc: Seq<AnomalyView>) -> (
        FeedEntityView,
        bool,
        Seq<AnomalyView>,
    ) {
        if f.number == 1 {
            let (r, a) = spec_string(env, acc, f);
            (FeedEntityView { id: keep(r, m.id), ..m }, true, a)
        } else if f.number == 2 {
            let (r, a) = spec_bool(env, acc, f);
            (FeedEntityView { is_deleted: keep(r, m.is_deleted), ..m }, true, a)
        } else if f.number == 3 {
            let (r, a) = spec_nested_at::<TripUpdate>(f, "trip_update"@, env, acc);
            (FeedEntityView { trip_update: keep(r, m.trip_update), ..m }, true, a)
        } else if f.number == 4 {
            let (r, a) = spec_nested_at::<VehiclePosition>(f, "vehicle"@, env, acc);
            (FeedEntityView { vehicle: keep(r, m.vehicle), ..m }, true, a)
        } else if f.number == 5 {
            let (r, a) = spec_nested_at::<Alert>(f, "alert"@, env, acc);
            (FeedEntityView { alert: keep(r, m.alert), ..m }, true, a)
        } else if f.number == 6 {
            let (r, a) = spec_nested_at::<Shape>(f, "shape"@, env, acc);
            (FeedEntityView { shape: keep(r, m.shape), ..m }, true, a)
        } else if f.number == 7 {
            let (r, a) = spec_nested_at::<Stop>(f, "stop"@, env, acc);
            (FeedEntityView { stop: keep(r, m.stop), ..m }, true, a)
        } else if f.number == 8 {
            let (r, a) = spec_nested_at::<TripModifications>(f, "trip_modifications"@, env, acc);
            (FeedEntityView { trip_modifications: keep(r, m.trip_modifications), ..m }, true, a)
        } else {
            (m, false, acc)
        }
    }

    open spec fn spec_check_required(m: FeedEntityView, env: Env, acc: Seq<AnomalyView>) -> Seq<AnomalyView> {
        let a0 = if m.id is None {
            spec_report(env, acc, AnomalyKind::MissingRequiredField { field: "FeedEntity.id" }, 0)
        } else {
            acc
        };
        let n = spec_payload_count(m);
        if n == 0 {
            spec_report(env, a0, AnomalyKind::NoPayload, 0)
        } else if n == 1 {
            a0
        } else {
            spec_report(env, a0, AnomalyKind::MultiplePayloads { count: n as usize }, 0)
        }
    }

    fn empty() -> (r: Self) {
        let r = FeedEntity {
            id: None,
            is_deleted: None,
            trip_update: None,
            vehicle: None,
            alert: None,
            shape: None,
            stop: None,
            trip_modifications: None,
        };
        r
    }

    fn merge_field(&mut self, field: &Field<'_>, ctx: &mut DecodeCtx) -> (known: bool) {
        match field.number {
            1 => {
                if let Some(v) = ctx.string(field) {
                    self.id = Some(v);
                }
                true
            },
            2 => {
                if let Some(v) = ctx.bool(field) {
                    self.is_deleted = Some(v);
                }
                true
            },
            3 => {
                if let Some(v) = ctx.nested::<TripUpdate>(field, "trip_update") {
                    self.trip_update = Some(v);
                }
                true
            },
            4 => {
                if let Some(v) = ctx.nested::<VehiclePosition>(field, "vehicle") {
                    self.vehicle = Some(v);
                }
                true
            },
            5 => {
                if let Some(v) = ctx.nested::<Alert>(field, "alert") {
                    self.alert = Some(v);
                }
                true
            },
            6 => {
                if let Some(v) = ctx.nested::<Shape>(field, "shape") {
                    self.shape = Some(v);
                }
                true
            },
            7 => {
                if let Some(v) = ctx.nested::<Stop>(field, "stop") {
                    self.stop = Some(v);
                }
                true
            },
            8 => {
                if let Some(v) = ctx.nested::<TripModifications>(field, "trip_modifications") {
                    self.trip_modifications = Some(v);
                }
                true
            },
            _ => false,
        }
    }

    fn check_required(&self, ctx: &mut DecodeCtx) {
        if self.id.is_none() {
            ctx.missing_required("FeedEntity.id");
        }
        // The specification expects exactly one payload. `is_deleted` can be a
        // payload-less deletion in DIFFERENTIAL feeds, so "none" and "several" are
        // reported apart; whether "none" is wrong is for the rule layer.
        let n = self.payload_count();
        if n == 0 {
            ctx.report(AnomalyKind::NoPayload, 0);
        } else if n > 1 {
            ctx.report(AnomalyKind::MultiplePayloads { count: n }, 0);
        }
    }
}

/// Number of payload fields that are set.
pub open spec fn spec_payload_count(e: FeedEntityView) -> nat {
    (if e.trip_update is Some { 1nat } else { 0nat }) + (if e.vehicle is Some { 1nat } else { 0nat }) + (if e.alert is Some { 1nat } else { 0nat }) + (if e.shape is Some { 1nat } else { 0nat }) + (if e.stop is Some { 1nat } else { 0nat }) + (if e.trip_modifications is Some { 1nat } else { 0nat })
}

impl FeedEntity {
    /// Number of payload fields that are set.
    pub fn payload_count(&self) -> (n: usize)
        ensures
            n == spec_payload_count(self@),
    {
        let mut n: usize = 0;
        if self.trip_update.is_some() {
            n = n + 1;
        }
        if self.vehicle.is_some() {
            n = n + 1;
        }
        if self.alert.is_some() {
            n = n + 1;
        }
        if self.shape.is_some() {
            n = n + 1;
        }
        if self.stop.is_some() {
            n = n + 1;
        }
        if self.trip_modifications.is_some() {
            n = n + 1;
        }
        n
    }
}

} // verus!
