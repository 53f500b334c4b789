//! `Shape` and `Stop`: entities defined in the realtime feed and absent from the
//! static feed (GTFS-Realtime v2.1, used together with `TripModifications`).
use vstd::prelude::*;
use crate::anomaly::{AnomalyView};
use crate::decode::{keep, opt_view, spec_enum, spec_fixed32, spec_nested_at, spec_string, DecodeCtx, Env, Message};
use crate::model::descriptor::{TranslatedString, TranslatedStringView};
use crate::model::enums::{WheelchairBoarding};
use crate::wire::{Field, FieldView};

verus! {

/// A route geometry defined in the realtime feed.
#[derive(Debug, Clone, PartialEq, Eq)]
pub struct Shape {
    pub shape_id: Option<String>,
    pub encoded_polyline: Option<String>,
}

/// `Shape` as a plain value.
pub struct ShapeView {
    pub shape_id: Option<Seq<char>>,
    pub encoded_polyline: Option<Seq<char>>,
}

impl View for Shape {
    type V = ShapeView;

    open spec fn view(&self) -> ShapeView {
        ShapeView {
            shape_id: opt_view(self.shape_id),
            encoded_polyline: opt_view(self.encoded_polyline),
        }
    }
}

impl Default for Shape {
    fn default() -> (r: Self)
        ensures
            r@ == <Shape as Message>::spec_empty(),
    {
        <Shape as Message>::empty()
    }
}

impl Message for Shape {
    open spec fn spec_empty() -> ShapeView {
        ShapeView {
            shape_id: None,
            encoded_polyline: None,
        }
    }

    open spec fn spec_merge(m: ShapeView, f: FieldView, env: Env, acc: Seq<AnomalyView>) -> (
        ShapeView,
        bool,
        Seq<AnomalyView>,
    ) {
        if f.number == 1 {
            let (r, a) = spec_string(env, acc, f);
            (ShapeView { shape_id: keep(r, m.shape_id), ..m }, true, a)
        } else if f.number == 2 {
            let (r, a) = spec_string(env, acc, f);
            (ShapeView { encoded_polyline: keep(r, m.encoded_polyline), ..m }, true, a)
        } else {
            (m, false, acc)
        }
    }

    open spec fn spec_check_required(m: ShapeView, env: Env, acc: Seq<AnomalyView>) -> Seq<AnomalyView> {
        acc
    }

    fn empty() -> (r: Self) {
        let r = Shape {
            shape_id: None,
            encoded_polyline: None,
        };
        r
    }

    fn merge_field(&mut self, field: &Field<'_>, ctx: &mut DecodeCtx) -> (known: bool) {
        match field.number {
            1 => {
                if let Some(v) = ctx.string(field) {
                    self.shape_id = Some(v);
                }
                true
            },
            2 => {
                if let Some(v) = ctx.string(field) {
                    self.encoded_polyline = Some(v);
                }
                true
            },
            _ => false,
        }
    }

    fn check_required(&self, ctx: &mut DecodeCtx) {
    }
}

/// A stop defined in the realtime feed.
///
/// Field number 10 is unused (skipped in the specification); 11 is
/// `parent_station`. `stop_lat` and `stop_lon` hold IEEE-754 `float` bits.
#[derive(Debug, Clone, PartialEq, Eq)]
pub struct Stop {
    pub stop_id: Option<String>,
    pub stop_code: Option<TranslatedString>,
    pub stop_name: Option<TranslatedString>,
    pub tts_stop_name: Option<TranslatedString>,
    pub stop_desc: Option<TranslatedString>,
    pub stop_lat: Option<u32>,
    pub stop_lon: Option<u32>,
    pub zone_id: Option<String>,
    pub stop_url: Option<TranslatedString>,
    pub parent_station: Option<String>,
    pub stop_timezone: Option<String>,
    pub wheelchair_boarding: Option<WheelchairBoarding>,
    pub level_id: Option<String>,
    pub platform_code: Option<TranslatedString>,
}

/// `Stop` as a plain value.
pub struct StopView {
    pub stop_id: Option<Seq<char>>,
    pub stop_code: Option<TranslatedStringView>,
    pub stop_name: Option<TranslatedStringView>,
    pub tts_stop_name: Option<TranslatedStringView>,
    pub stop_desc: Option<TranslatedStringView>,
    pub stop_lat: Option<u32>,
    pub stop_lon: Option<u32>,
    pub zone_id: Option<Seq<char>>,
    pub stop_url: Option<TranslatedStringView>,
    pub parent_station: Option<Seq<char>>,
    pub stop_timezone: Option<Seq<char>>,
    pub wheelchair_boarding: Option<WheelchairBoarding>,
    pub level_id: Option<Seq<char>>,
    pub platform_code: Option<TranslatedStringView>,
}

impl View for Stop {
    type V = StopView;

    open spec fn view(&self) -> StopView {
        StopView {
            stop_id: opt_view(self.stop_id),
            stop_code: opt_view(self.stop_code),
            stop_name: opt_view(self.stop_name),
            tts_stop_name: opt_view(self.tts_stop_name),
            stop_desc: opt_view(self.stop_desc),
            stop_lat: self.stop_lat,
            stop_lon: self.stop_lon,
            zone_id: opt_view(self.zone_id),
            stop_url: opt_view(self.stop_url),
            parent_station: opt_view(self.parent_station),
            stop_timezone: opt_view(self.stop_timezone),
            wheelchair_boarding: self.wheelchair_boarding,
            level_id: opt_view(self.level_id),
            platform_code: opt_view(self.platform_code),
        }
    }
}

impl Default for Stop {
    fn default() -> (r: Self)
        ensures
            r@ == <Stop as Message>::spec_empty(),
    {
        <Stop as Message>::empty()
    }
}

impl Message for Stop {
    open spec fn spec_empty() -> StopView {
        StopView {
            stop_id: None,
            stop_code: None,
            stop_name: None,
            tts_stop_name: None,
            stop_desc: None,
            stop_lat: None,
            stop_lon: None,
            zone_id: None,
            stop_url: None,
            parent_station: None,
            stop_timezone: None,
            wheelchair_boarding: None,
            level_id: None,
            platform_code: None,
        }
    }

    open spec fn spec_merge(m: StopView, f: FieldView, env: Env, acc: Seq<AnomalyView>) -> (
        StopView,
        bool,
        Seq<AnomalyView>,
    ) {
        if f.number == 1 {
            let (r, a) = spec_string(env, acc, f);
            (StopView { stop_id: keep(r, m.stop_id), ..m }, true, a)
        } else if f.number == 2 {
            let (r, a) = spec_nested_at::<TranslatedString>(f, "stop_code"@, env, acc);
            (StopView { stop_code: keep(r, m.stop_code), ..m }, true, a)
        } else if f.number == 3 {
            let (r, a) = spec_nested_at::<TranslatedString>(f, "stop_name"@, env, acc);
            (StopView { stop_name: keep(r, m.stop_name), ..m }, true, a)
        } else if f.number == 4 {
            let (r, a) = spec_nested_at::<TranslatedString>(f, "tts_stop_name"@, env, acc);
            (StopView { tts_stop_name: keep(r, m.tts_stop_name), ..m }, true, a)
        } else if f.number == 5 {
            let (r, a) = spec_nested_at::<TranslatedString>(f, "stop_desc"@, env, acc);
            (StopView { stop_desc: keep(r, m.stop_desc), ..m }, true, a)
        } else if f.number == 6 {
            let (r, a) = spec_fixed32(env, acc, f);
            (StopView { stop_lat: keep(r, m.stop_lat), ..m }, true, a)
        } else if f.number == 7 {
            let (r, a) = spec_fixed32(env, acc, f);
            (StopView { stop_lon: keep(r, m.stop_lon), ..m }, true, a)
        } else if f.number == 8 {
            let (r, a) = spec_string(env, acc, f);
            (StopView { zone_id: keep(r, m.zone_id), ..m }, true, a)
        } else if f.number == 9 {
            let (r, a) = spec_nested_at::<TranslatedString>(f, "stop_url"@, env, acc);
            (StopView { stop_url: keep(r, m.stop_url), ..m }, true, a)
        } else if f.number == 11 {
            let (r, a) = spec_string(env, acc, f);
            (StopView { parent_station: keep(r, m.parent_station), ..m }, true, a)
        } else if f.number == 12 {
            let (r, a) = spec_string(env, acc, f);
            (StopView { stop_timezone: keep(r, m.stop_timezone), ..m }, true, a)
        } else if f.number == 13 {
            let (r, a) = spec_enum::<WheelchairBoarding>(env, acc, f);
            (StopView { wheelchair_boarding: keep(r, m.wheelchair_boarding), ..m }, true, a)
        } else if f.number == 14 {
            let (r, a) = spec_string(env, acc, f);
            (StopView { level_id: keep(r, m.level_id), ..m }, true, a)
        } else if f.number == 15 {
            let (r, a) = spec_nested_at::<TranslatedString>(f, "platform_code"@, env, acc);
            (StopView { platform_code: keep(r, m.platform_code), ..m }, true, a)
        } else {
            (m, false, acc)
        }
    }

    open spec fn spec_check_required(m: StopView, env: Env, acc: Seq<AnomalyView>) -> Seq<AnomalyView> {
        acc
    }

    fn empty() -> (r: Self) {
        let r = Stop {
            stop_id: None,
            stop_code: None,
            stop_name: None,
            tts_stop_name: None,
            stop_desc: None,
            stop_lat: None,
            stop_lon: None,
            zone_id: None,
            stop_url: None,
            parent_station: None,
            stop_timezone: None,
            wheelchair_boarding: None,
            level_id: None,
            platform_code: None,
        };
        r
    }

    fn merge_field(&mut self, field: &Field<'_>, ctx: &mut DecodeCtx) -> (known: bool) {
        match field.number {
            1 => {
                if let Some(v) = ctx.string(field) {
                    self.stop_id = Some(v);
                }
                true
            },
            2 => {
                if let Some(v) = ctx.nested::<TranslatedString>(field, "stop_code") {
                    self.stop_code = Some(v);
                }
                true
            },
            3 => {
                if let Some(v) = ctx.nested::<TranslatedString>(field, "stop_name") {
                    self.stop_name = Some(v);
                }
                true
            },
            4 => {
                if let Some(v) = ctx.nested::<TranslatedString>(field, "tts_stop_name") {
                    self.tts_stop_name = Some(v);
                }
                true
            },
            5 => {
                if let Some(v) = ctx.nested::<TranslatedString>(field, "stop_desc") {
                    self.stop_desc = Some(v);
                }
                true
            },
            6 => {
                if let Some(v) = ctx.fixed32(field) {
                    self.stop_lat = Some(v);
                }
                true
            },
            7 => {
                if let Some(v) = ctx.fixed32(field) {
                    self.stop_lon = Some(v);
                }
                true
            },
            8 => {
                if let Some(v) = ctx.string(field) {
                    self.zone_id = Some(v);
                }
                true
            },
            9 => {
                if let Some(v) = ctx.nested::<TranslatedString>(field, "stop_url") {
                    self.stop_url = Some(v);
                }
                true
            },
            11 => {
                if let Some(v) = ctx.string(field) {
                    self.parent_station = Some(v);
                }
                true
            },
            12 => {
                if let Some(v) = ctx.string(field) {
                    self.stop_timezone = Some(v);
                }
                true
            },
            13 => {
                if let Some(v) = ctx.enum_value::<WheelchairBoarding>(field) {
                    self.wheelchair_boarding = Some(v);
                }
                true
            },
            14 => {
                if let Some(v) = ctx.string(field) {
                    self.level_id = Some(v);
                }
                true
            },
            15 => {
                if let Some(v) = ctx.nested::<TranslatedString>(field, "platform_code") {
                    self.platform_code = Some(v);
                }
                true
            },
            _ => false,
        }
    }

    fn check_required(&self, ctx: &mut DecodeCtx) {
    }
}

} // verus!
