//! `TripModifications`: definitions that change the route of existing trips.
use vstd::prelude::*;
use crate::anomaly::{AnomalyView};
use crate::decode::{indexed_segment, keep, opt_view, push_some, spec_i32, spec_nested_at, spec_string, spec_u32, spec_u64, DecodeCtx, Env, Message};
use crate::wire::{Field, FieldView};

verus! {

/// Route changes applied to a group of trips.
#[derive(Debug, Clone, PartialEq, Eq)]
pub struct TripModifications {
    pub selected_trips: Vec<SelectedTrips>,
    pub start_times: Vec<String>,
    pub service_dates: Vec<String>,
    pub modifications: Vec<Modification>,
}

/// `TripModifications` as a plain value.
pub struct TripModificationsView {
    pub selected_trips: Seq<SelectedTripsView>,
    pub start_times: Seq<Seq<char>>,
    pub service_dates: Seq<Seq<char>>,
    pub modifications: Seq<ModificationView>,
}

impl View for TripModifications {
    type V = TripModificationsView;

    open spec fn view(&self) -> TripModificationsView {
        TripModificationsView {
            selected_trips: self.selected_trips@.map_values(|v: SelectedTrips| v@),
            start_times: self.start_times@.map_values(|v: String| v@),
            service_dates: self.service_dates@.map_values(|v: String| v@),
            modifications: self.modifications@.map_values(|v: Modification| v@),
        }
    }
}

impl Default for TripModifications {
    fn default() -> (r: Self)
        ensures
            r@ == <TripModifications as Message>::spec_empty(),
    {
        <TripModifications as Message>::empty()
    }
}

impl Message for TripModifications {
    open spec fn spec_empty() -> TripModificationsView {
        TripModificationsView {
            selected_trips: Seq::empty(),
            start_times: Seq::empty(),
            service_dates: Seq::empty(),
            modifications: Seq::empty(),
        }
    }

    open spec fn spec_merge(m: TripModificationsView, f: FieldView, env: Env, acc: Seq<AnomalyView>) -> (
        TripModificationsView,
        bool,
        Seq<AnomalyView>,
    ) {
        if f.number == 1 {
            let (r, a) = spec_nested_at::<SelectedTrips>(f, indexed_segment("selected_trips"@, m.selected_trips.len()), env, acc);
            (TripModificationsView { selected_trips: push_some(m.selected_trips, r), ..m }, true, a)
        } else if f.number == 2 {
            let (r, a) = spec_string(env, acc, f);
            (TripModificationsView { start_times: push_some(m.start_times, r), ..m }, true, a)
        } else if f.number == 3 {
            let (r, a) = spec_string(env, acc, f);
            (TripModificationsView { service_dates: push_some(m.service_dates, r), ..m }, true, a)
        } else if f.number == 4 {
            let (r, a) = spec_nested_at::<Modification>(f, indexed_segment("modifications"@, m.modifications.len()), env, acc);
            (TripModificationsView { modifications: push_some(m.modifications, r), ..m }, true, a)
        } else {
            (m, false, acc)
        }
    }

    open spec fn spec_check_required(m: TripModificationsView, env: Env, acc: Seq<AnomalyView>) -> Seq<AnomalyView> {
        acc
    }

    fn empty() -> (r: Self) {
        let r = TripModifications {
            selected_trips: Vec::new(),
            start_times: Vec::new(),
            service_dates: Vec::new(),
            modifications: Vec::new(),
        };
        proof {
            assert(r@.selected_trips =~= Seq::empty());
            assert(r@.start_times =~= Seq::empty());
            assert(r@.service_dates =~= Seq::empty());
            assert(r@.modifications =~= Seq::empty());
        }
        r
    }

    fn merge_field(&mut self, field: &Field<'_>, ctx: &mut DecodeCtx) -> (known: bool) {
        match field.number {
            1 => {
                let ghost before = self.selected_trips@.map_values(|v: SelectedTrips| v@);
                if let Some(v) = ctx.nested_repeated::<SelectedTrips>(field, "selected_trips", self.selected_trips.len()) {
                    let ghost item = v@;
                    self.selected_trips.push(v);
                    proof {
                        assert(self.selected_trips@.map_values(|v: SelectedTrips| v@) =~= before.push(item));
                    }
                }
                true
            },
            2 => {
                let ghost before = self.start_times@.map_values(|v: String| v@);
                if let Some(v) = ctx.string(field) {
                    let ghost item = v@;
                    self.start_times.push(v);
                    proof {
                        assert(self.start_times@.map_values(|v: String| v@) =~= before.push(item));
                    }
                }
                true
            },
            3 => {
                let ghost before = self.service_dates@.map_values(|v: String| v@);
                if let Some(v) = ctx.string(field) {
                    let ghost item = v@;
                    self.service_dates.push(v);
                    proof {
                        assert(self.service_dates@.map_values(|v: String| v@) =~= before.push(item));
                    }
                }
                true
            },
            4 => {
                let ghost before = self.modifications@.map_values(|v: Modification| v@);
                if let Some(v) = ctx.nested_repeated::<Modification>(field, "modifications", self.modifications.len()) {
                    let ghost item = v@;
                    self.modifications.push(v);
                    proof {
                        assert(self.modifications@.map_values(|v: Modification| v@) =~= before.push(item));
                    }
                }
                true
            },
            _ => false,
        }
    }

    fn check_required(&self, ctx: &mut DecodeCtx) {
    }
}

/// A single route change.
#[derive(Debug, Clone, PartialEq, Eq)]
pub struct Modification {
    pub start_stop_selector: Option<StopSelector>,
    pub end_stop_selector: Option<StopSelector>,
    pub propagated_modification_delay: Option<i32>,
    pub replacement_stops: Vec<ReplacementStop>,
    pub service_alert_id: Option<String>,
    pub last_modified_time: Option<u64>,
}

/// `Modification` as a plain value.
pub struct ModificationView {
    pub start_stop_selector: Option<StopSelectorView>,
    pub end_stop_selector: Option<StopSelectorView>,
    pub propagated_modification_delay: Option<i32>,
    pub replacement_stops: Seq<ReplacementStopView>,
    pub service_alert_id: Option<Seq<char>>,
    pub last_modified_time: Option<u64>,
}

impl View for Modification {
    type V = ModificationView;

    open spec fn view(&self) -> ModificationView {
        ModificationView {
            start_stop_selector: opt_view(self.start_stop_selector),
            end_stop_selector: opt_view(self.end_stop_selector),
            propagated_modification_delay: self.propagated_modification_delay,
            replacement_stops: self.replacement_stops@.map_values(|v: ReplacementStop| v@),
            service_alert_id: opt_view(self.service_alert_id),
            last_modified_time: self.last_modified_time,
        }
    }
}

impl Default for Modification {
    fn default() -> (r: Self)
        ensures
            r@ == <Modification as Message>::spec_empty(),
    {
        <Modification as Message>::empty()
    }
}

impl Message for Modification {
    open spec fn spec_empty() -> ModificationView {
        ModificationView {
            start_stop_selector: None,
            end_stop_selector: None,
            propagated_modification_delay: None,
            replacement_stops: Seq::empty(),
            service_alert_id: None,
            last_modified_time: None,
        }
    }

    open spec fn spec_merge(m: ModificationView, f: FieldView, env: Env, acc: Seq<AnomalyView>) -> (
        ModificationView,
        bool,
        Seq<AnomalyView>,
    ) {
        if f.number == 1 {
            let (r, a) = spec_nested_at::<StopSelector>(f, "start_stop_selector"@, env, acc);
            (ModificationView { start_stop_selector: keep(r, m.start_stop_selector), ..m }, true, a)
        } else if f.number == 2 {
            let (r, a) = spec_nested_at::<StopSelector>(f, "end_stop_selector"@, env, acc);
            (ModificationView { end_stop_selector: keep(r, m.end_stop_selector), ..m }, true, a)
        } else if f.number == 3 {
            let (r, a) = spec_i32(env, acc, f);
            (ModificationView { propagated_modification_delay: keep(r, m.propagated_modification_delay), ..m }, true, a)
        } else if f.number == 4 {
            let (r, a) = spec_nested_at::<ReplacementStop>(f, indexed_segment("replacement_stops"@, m.replacement_stops.len()), env, acc);
            (ModificationView { replacement_stops: push_some(m.replacement_stops, r), ..m }, true, a)
        } else if f.number == 5 {
            let (r, a) = spec_string(env, acc, f);
            (ModificationView { service_alert_id: keep(r, m.service_alert_id), ..m }, true, a)
        } else if f.number == 6 {
            let (r, a) = spec_u64(env, acc, f);
            (ModificationView { last_modified_time: keep(r, m.last_modified_time), ..m }, true, a)
        } else {
            (m, false, acc)
        }
    }

    open spec fn spec_check_required(m: ModificationView, env: Env, acc: Seq<AnomalyView>) -> Seq<AnomalyView> {
        acc
    }

    fn empty() -> (r: Self) {
        let r = Modification {
            start_stop_selector: None,
            end_stop_selector: None,
            propagated_modification_delay: None,
            replacement_stops: Vec::new(),
            service_alert_id: None,
            last_modified_time: None,
        };
        proof {
            assert(r@.replacement_stops =~= Seq::empty());
        }
        r
    }

    fn merge_field(&mut self, field: &Field<'_>, ctx: &mut DecodeCtx) -> (known: bool) {
        match field.number {
            1 => {
                if let Some(v) = ctx.nested::<StopSelector>(field, "start_stop_selector") {
                    self.start_stop_selector = Some(v);
                }
                true
            },
            2 => {
                if let Some(v) = ctx.nested::<StopSelector>(field, "end_stop_selector") {
                    self.end_stop_selector = Some(v);
                }
                true
            },
            3 => {
                if let Some(v) = ctx.i32(field) {
                    self.propagated_modification_delay = Some(v);
                }
                true
            },
            4 => {
                let ghost before = self.replacement_stops@.map_values(|v: ReplacementStop| v@);
                if let Some(v) = ctx.nested_repeated::<ReplacementStop>(field, "replacement_stops", self.replacement_stops.len()) {
                    let ghost item = v@;
                    self.replacement_stops.push(v);
                    proof {
                        assert(self.replacement_stops@.map_values(|v: ReplacementStop| v@) =~= before.push(item));
                    }
                }
                true
            },
            5 => {
                if let Some(v) = ctx.string(field) {
                    self.service_alert_id = Some(v);
                }
                true
            },
            6 => {
                if let Some(v) = ctx.u64(field) {
                    self.last_modified_time = Some(v);
                }
                true
            },
            _ => false,
        }
    }

    fn check_required(&self, ctx: &mut DecodeCtx) {
    }
}

/// The trips a modification applies to.
#[derive(Debug, Clone, PartialEq, Eq)]
pub struct SelectedTrips {
    pub trip_ids: Vec<String>,
    pub shape_id: Option<String>,
}

/// `SelectedTrips` as a plain value.
pub struct SelectedTripsView {
    pub trip_ids: Seq<Seq<char>>,
    pub shape_id: Option<Seq<char>>,
}

impl View for SelectedTrips {
    type V = SelectedTripsView;

    open spec fn view(&self) -> SelectedTripsView {
        SelectedTripsView {
            trip_ids: self.trip_ids@.map_values(|v: String| v@),
            shape_id: opt_view(self.shape_id),
        }
    }
}

impl Default for SelectedTrips {
    fn default() -> (r: Self)
        ensures
            r@ == <SelectedTrips as Message>::spec_empty(),
    {
        <SelectedTrips as Message>::empty()
    }
}

impl Message for SelectedTrips {
    open spec fn spec_empty() -> SelectedTripsView {
        SelectedTripsView {
            trip_ids: Seq::empty(),
            shape_id: None,
        }
    }

    open spec fn spec_merge(m: SelectedTripsView, f: FieldView, env: Env, acc: Seq<AnomalyView>) -> (
        SelectedTripsView,
        bool,
        Seq<AnomalyView>,
    ) {
        if f.number == 1 {
            let (r, a) = spec_string(env, acc, f);
            (SelectedTripsView { trip_ids: push_some(m.trip_ids, r), ..m }, true, a)
        } else if f.number == 2 {
            let (r, a) = spec_string(env, acc, f);
            (SelectedTripsView { shape_id: keep(r, m.shape_id), ..m }, true, a)
        } else {
            (m, false, acc)
        }
    }

    open spec fn spec_check_required(m: SelectedTripsView, env: Env, acc: Seq<AnomalyView>) -> Seq<AnomalyView> {
        acc
    }

    fn empty() -> (r: Self) {
        let r = SelectedTrips {
            trip_ids: Vec::new(),
            shape_id: None,
        };
        proof {
            assert(r@.trip_ids =~= Seq::empty());
        }
        r
    }

    fn merge_field(&mut self, field: &Field<'_>, ctx: &mut DecodeCtx) -> (known: bool) {
        match field.number {
            1 => {
                let ghost before = self.trip_ids@.map_values(|v: String| v@);
                if let Some(v) = ctx.string(field) {
                    let ghost item = v@;
                    self.trip_ids.push(v);
                    proof {
                        assert(self.trip_ids@.map_values(|v: String| v@) =~= before.push(item));
                    }
                }
                true
            },
            2 => {
                if let Some(v) = ctx.string(field) {
                    self.shape_id = Some(v);
                }
                true
            },
            _ => false,
        }
    }

    fn check_required(&self, ctx: &mut DecodeCtx) {
    }
}

/// Selects a stop by sequence or by id.
#[derive(Debug, Clone, PartialEq, Eq)]
pub struct StopSelector {
    pub stop_sequence: Option<u32>,
    pub stop_id: Option<String>,
}

/// `StopSelector` as a plain value.
pub struct StopSelectorView {
    pub stop_sequence: Option<u32>,
    pub stop_id: Option<Seq<char>>,
}

impl View for StopSelector {
    type V = StopSelectorView;

    open spec fn view(&self) -> StopSelectorView {
        StopSelectorView {
            stop_sequence: self.stop_sequence,
            stop_id: opt_view(self.stop_id),
        }
    }
}

impl Default for StopSelector {
    fn default() -> (r: Self)
        ensures
            r@ == <StopSelector as Message>::spec_empty(),
    {
        <StopSelector as Message>::empty()
    }
}

impl Message for StopSelector {
    open spec fn spec_empty() -> StopSelectorView {
        StopSelectorView {
            stop_sequence: None,
            stop_id: None,
        }
    }

    open spec fn spec_merge(m: StopSelectorView, f: FieldView, env: Env, acc: Seq<AnomalyView>) -> (
        StopSelectorView,
        bool,
        Seq<AnomalyView>,
    ) {
        if f.number == 1 {
            let (r, a) = spec_u32(env, acc, f);
            (StopSelectorView { stop_sequence: keep(r, m.stop_sequence), ..m }, true, a)
        } else if f.number == 2 {
            let (r, a) = spec_string(env, acc, f);
            (StopSelectorView { stop_id: keep(r, m.stop_id), ..m }, true, a)
        } else {
            (m, false, acc)
        }
    }

    open spec fn spec_check_required(m: StopSelectorView, env: Env, acc: Seq<AnomalyView>) -> Seq<AnomalyView> {
        acc
    }

    fn empty() -> (r: Self) {
        let r = StopSelector {
            stop_sequence: None,
            stop_id: None,
        };
        r
    }

    fn merge_field(&mut self, field: &Field<'_>, ctx: &mut DecodeCtx) -> (known: bool) {
        match field.number {
            1 => {
                if let Some(v) = ctx.u32(field) {
                    self.stop_sequence = Some(v);
                }
                true
            },
            2 => {
                if let Some(v) = ctx.string(field) {
                    self.stop_id = Some(v);
                }
                true
            },
            _ => false,
        }
    }

    fn check_required(&self, ctx: &mut DecodeCtx) {
    }
}

/// A stop added to the route.
#[derive(Debug, Clone, PartialEq, Eq)]
pub struct ReplacementStop {
    pub travel_time_to_stop: Option<i32>,
    pub stop_id: Option<String>,
}

/// `ReplacementStop` as a plain value.
pub struct ReplacementStopView {
    pub travel_time_to_stop: Option<i32>,
    pub stop_id: Option<Seq<char>>,
}

impl View for ReplacementStop {
    type V = ReplacementStopView;

    open spec fn view(&self) -> ReplacementStopView {
        ReplacementStopView {
            travel_time_to_stop: self.travel_time_to_stop,
            stop_id: opt_view(self.stop_id),
        }
    }
}

impl Default for ReplacementStop {
    fn default() -> (r: Self)
        ensures
            r@ == <ReplacementStop as Message>::spec_empty(),
    {
        <ReplacementStop as Message>::empty()
    }
}

impl Message for ReplacementStop {
    open spec fn spec_empty() -> ReplacementStopView {
        ReplacementStopView {
            travel_time_to_stop: None,
            stop_id: None,
        }
    }

    open spec fn spec_merge(m: ReplacementStopView, f: FieldView, env: Env, acc: Seq<AnomalyView>) -> (
        ReplacementStopView,
        bool,
        Seq<AnomalyView>,
    ) {
        if f.number == 1 {
            let (r, a) = spec_i32(env, acc, f);
            (ReplacementStopView { travel_time_to_stop: keep(r, m.travel_time_to_stop), ..m }, true, a)
        } else if f.number == 2 {
            let (r, a) = spec_string(env, acc, f);
            (ReplacementStopView { stop_id: keep(r, m.stop_id), ..m }, true, a)
        } else {
            (m, false, acc)
        }
    }

    open spec fn spec_check_required(m: ReplacementStopView, env: Env, acc: Seq<AnomalyView>) -> Seq<AnomalyView> {
        acc
    }

    fn empty() -> (r: Self) {
        let r = ReplacementStop {
            travel_time_to_stop: None,
            stop_id: None,
        };
        r
    }

    fn merge_field(&mut self, field: &Field<'_>, ctx: &mut DecodeCtx) -> (known: bool) {
        match field.number {
            1 => {
                if let Some(v) = ctx.i32(field) {
                    self.travel_time_to_stop = Some(v);
                }
                true
            },
            2 => {
                if let Some(v) = ctx.string(field) {
                    self.stop_id = Some(v);
                }
                true
            },
            _ => false,
        }
    }

    fn check_required(&self, ctx: &mut DecodeCtx) {
    }
}

} // verus!
