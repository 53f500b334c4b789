//! `Alert`: a service alert.
use vstd::prelude::*;
use crate::anomaly::{AnomalyView};
use crate::decode::{indexed_segment, keep, opt_view, push_some, spec_enum, spec_nested_at, DecodeCtx, Env, Message};
use crate::model::descriptor::{EntitySelector, EntitySelectorView, TimeRange, TimeRangeView, TranslatedImage, TranslatedImageView, TranslatedString, TranslatedStringView};
use crate::model::enums::{AlertCause, AlertEffect, AlertSeverityLevel};
use crate::wire::{Field, FieldView};

verus! {

/// A service alert affecting part of the network.
#[derive(Debug, Clone, PartialEq, Eq)]
pub struct Alert {
    /// Deprecated in the specification in favour of `communication_period` /
    /// `impact_period`; still decoded because it is widely used.
    pub active_period: Vec<TimeRange>,
    pub communication_period: Vec<TimeRange>,
    pub impact_period: Vec<TimeRange>,
    pub informed_entity: Vec<EntitySelector>,
    pub cause: Option<AlertCause>,
    pub effect: Option<AlertEffect>,
    pub url: Option<TranslatedString>,
    pub header_text: Option<TranslatedString>,
    pub description_text: Option<TranslatedString>,
    pub tts_header_text: Option<TranslatedString>,
    pub tts_description_text: Option<TranslatedString>,
    pub severity_level: Option<AlertSeverityLevel>,
    pub image: Option<TranslatedImage>,
    pub image_alternative_text: Option<TranslatedString>,
    pub cause_detail: Option<TranslatedString>,
    pub effect_detail: Option<TranslatedString>,
}

/// `Alert` as a plain value.
pub struct AlertView {
    pub active_period: Seq<TimeRangeView>,
    pub communication_period: Seq<TimeRangeView>,
    pub impact_period: Seq<TimeRangeView>,
    pub informed_entity: Seq<EntitySelectorView>,
    pub cause: Option<AlertCause>,
    pub effect: Option<AlertEffect>,
    pub url: Option<TranslatedStringView>,
    pub header_text: Option<TranslatedStringView>,
    pub description_text: Option<TranslatedStringView>,
    pub tts_header_text: Option<TranslatedStringView>,
    pub tts_description_text: Option<TranslatedStringView>,
    pub severity_level: Option<AlertSeverityLevel>,
    pub image: Option<TranslatedImageView>,
    pub image_alternative_text: Option<TranslatedStringView>,
    pub cause_detail: Option<TranslatedStringView>,
    pub effect_detail: Option<TranslatedStringView>,
}

impl View for Alert {
    type V = AlertView;

    open spec fn view(&self) -> AlertView {
        AlertView {
            active_period: self.active_period@.map_values(|v: TimeRange| v@),
            communication_period: self.communication_period@.map_values(|v: TimeRange| v@),
            impact_period: self.impact_period@.map_values(|v: TimeRange| v@),
            informed_entity: self.informed_entity@.map_values(|v: EntitySelector| v@),
            cause: self.cause,
            effect: self.effect,
            url: opt_view(self.url),
            header_text: opt_view(self.header_text),
            description_text: opt_view(self.description_text),
            tts_header_text: opt_view(self.tts_header_text),
            tts_description_text: opt_view(self.tts_description_text),
            severity_level: self.severity_level,
            image: opt_view(self.image),
            image_alternative_text: opt_view(self.image_alternative_text),
            cause_detail: opt_view(self.cause_detail),
            effect_detail: opt_view(self.effect_detail),
        }
    }
}

impl Default for Alert {
    fn default() -> (r: Self)
        ensures
            r@ == <Alert as Message>::spec_empty(),
    {
        <Alert as Message>::empty()
    }
}

impl Message for Alert {
    open spec fn spec_empty() -> AlertView {
        AlertView {
            active_period: Seq::empty(),
            communication_period: Seq::empty(),
            impact_period: Seq::empty(),
            informed_entity: Seq::empty(),
            cause: None,
            effect: None,
            url: None,
            header_text: None,
            description_text: None,
            tts_header_text: None,
            tts_description_text: None,
            severity_level: None,
            image: None,
            image_alternative_text: None,
            cause_detail: None,
            effect_detail: None,
        }
    }

    open spec fn spec_merge(m: AlertView, f: FieldView, env: Env, acc: Seq<AnomalyView>) -> (
        AlertView,
        bool,
        Seq<AnomalyView>,
    ) {
        if f.number == 1 {
            let (r, a) = spec_nested_at::<TimeRange>(f, indexed_segment("active_period"@, m.active_period.len()), env, acc);
            (AlertView { active_period: push_some(m.active_period, r), ..m }, true, a)
        } else if f.number == 2 {
            let (r, a) = spec_nested_at::<TimeRange>(f, indexed_segment("communication_period"@, m.communication_period.len()), env, acc);
            (AlertView { communication_period: push_some(m.communication_period, r), ..m }, true, a)
        } else if f.number == 3 {
            let (r, a) = spec_nested_at::<TimeRange>(f, indexed_segment("impact_period"@, m.impact_period.len()), env, acc);
            (AlertView { impact_period: push_some(m.impact_period, r), ..m }, true, a)
        } else if f.number == 5 {
            let (r, a) = spec_nested_at::<EntitySelector>(f, indexed_segment("informed_entity"@, m.informed_entity.len()), env, acc);
            (AlertView { informed_entity: push_some(m.informed_entity, r), ..m }, true, a)
        } else if f.number == 6 {
            let (r, a) = spec_enum::<AlertCause>(env, acc, f);
            (AlertView { cause: keep(r, m.cause), ..m }, true, a)
        } else if f.number == 7 {
            let (r, a) = spec_enum::<AlertEffect>(env, acc, f);
            (AlertView { effect: keep(r, m.effect), ..m }, true, a)
        } else if f.number == 8 {
            let (r, a) = spec_nested_at::<TranslatedString>(f, "url"@, env, acc);
            (AlertView { url: keep(r, m.url), ..m }, true, a)
        } else if f.number == 10 {
            let (r, a) = spec_nested_at::<TranslatedString>(f, "header_text"@, env, acc);
            (AlertView { header_text: keep(r, m.header_text), ..m }, true, a)
        } else if f.number == 11 {
            let (r, a) = spec_nested_at::<TranslatedString>(f, "description_text"@, env, acc);
            (AlertView { description_text: keep(r, m.description_text), ..m }, true, a)
        } else if f.number == 12 {
            let (r, a) = spec_nested_at::<TranslatedString>(f, "tts_header_text"@, env, acc);
            (AlertView { tts_header_text: keep(r, m.tts_header_text), ..m }, true, a)
        } else if f.number == 13 {
            let (r, a) = spec_nested_at::<TranslatedString>(f, "tts_description_text"@, env, acc);
            (AlertView { tts_description_text: keep(r, m.tts_description_text), ..m }, true, a)
        } else if f.number == 14 {
            let (r, a) = spec_enum::<AlertSeverityLevel>(env, acc, f);
            (AlertView { severity_level: keep(r, m.severity_level), ..m }, true, a)
        } else if f.number == 15 {
            let (r, a) = spec_nested_at::<TranslatedImage>(f, "image"@, env, acc);
            (AlertView { image: keep(r, m.image), ..m }, true, a)
        } else if f.number == 16 {
            let (r, a) = spec_nested_at::<TranslatedString>(f, "image_alternative_text"@, env, acc);
            (AlertView { image_alternative_text: keep(r, m.image_alternative_text), ..m }, true, a)
        } else if f.number == 17 {
            let (r, a) = spec_nested_at::<TranslatedString>(f, "cause_detail"@, env, acc);
            (AlertView { cause_detail: keep(r, m.cause_detail), ..m }, true, a)
        } else if f.number == 18 {
            let (r, a) = spec_nested_at::<TranslatedString>(f, "effect_detail"@, env, acc);
            (AlertView { effect_detail: keep(r, m.effect_detail), ..m }, true, a)
        } else {
            (m, false, acc)
        }
    }

    open spec fn spec_check_required(m: AlertView, env: Env, acc: Seq<AnomalyView>) -> Seq<AnomalyView> {
        acc
    }

    fn empty() -> (r: Self) {
        let r = Alert {
            active_period: Vec::new(),
            communication_period: Vec::new(),
            impact_period: Vec::new(),
            informed_entity: Vec::new(),
            cause: None,
            effect: None,
            url: None,
            header_text: None,
            description_text: None,
            tts_header_text: None,
            tts_description_text: None,
            severity_level: None,
            image: None,
            image_alternative_text: None,
            cause_detail: None,
            effect_detail: None,
        };
        proof {
            assert(r@.active_period =~= Seq::empty());
            assert(r@.communication_period =~= Seq::empty());
            assert(r@.impact_period =~= Seq::empty());
            assert(r@.informed_entity =~= Seq::empty());
        }
        r
    }

    fn merge_field(&mut self, field: &Field<'_>, ctx: &mut DecodeCtx) -> (known: bool) {
        match field.number {
            1 => {
                let ghost before = self.active_period@.map_values(|v: TimeRange| v@);
                if let Some(v) = ctx.nested_repeated::<TimeRange>(field, "active_period", self.active_period.len()) {
                    let ghost item = v@;
                    self.active_period.push(v);
                    proof {
                        assert(self.active_period@.map_values(|v: TimeRange| v@) =~= before.push(item));
                    }
                }
                true
            },
            2 => {
                let ghost before = self.communication_period@.map_values(|v: TimeRange| v@);
                if let Some(v) = ctx.nested_repeated::<TimeRange>(field, "communication_period", self.communication_period.len()) {
                    let ghost item = v@;
                    self.communication_period.push(v);
                    proof {
                        assert(self.communication_period@.map_values(|v: TimeRange| v@) =~= before.push(item));
                    }
                }
                true
            },
            3 => {
                let ghost before = self.impact_period@.map_values(|v: TimeRange| v@);
                if let Some(v) = ctx.nested_repeated::<TimeRange>(field, "impact_period", self.impact_period.len()) {
                    let ghost item = v@;
                    self.impact_period.push(v);
                    proof {
                        assert(self.impact_period@.map_values(|v: TimeRange| v@) =~= before.push(item));
                    }
                }
                true
            },
            5 => {
                let ghost before = self.informed_entity@.map_values(|v: EntitySelector| v@);
                if let Some(v) = ctx.nested_repeated::<EntitySelector>(field, "informed_entity", self.informed_entity.len()) {
                    let ghost item = v@;
                    self.informed_entity.push(v);
                    proof {
                        assert(self.informed_entity@.map_values(|v: EntitySelector| v@) =~= before.push(item));
                    }
                }
                true
            },
            6 => {
                if let Some(v) = ctx.enum_value::<AlertCause>(field) {
                    self.cause = Some(v);
                }
                true
            },
            7 => {
                if let Some(v) = ctx.enum_value::<AlertEffect>(field) {
                    self.effect = Some(v);
                }
                true
            },
            8 => {
                if let Some(v) = ctx.nested::<TranslatedString>(field, "url") {
                    self.url = Some(v);
                }
                true
            },
            10 => {
                if let Some(v) = ctx.nested::<TranslatedString>(field, "header_text") {
                    self.header_text = Some(v);
                }
                true
            },
            11 => {
                if let Some(v) = ctx.nested::<TranslatedString>(field, "description_text") {
                    self.description_text = Some(v);
                }
                true
            },
            12 => {
                if let Some(v) = ctx.nested::<TranslatedString>(field, "tts_header_text") {
                    self.tts_header_text = Some(v);
                }
                true
            },
            13 => {
                if let Some(v) = ctx.nested::<TranslatedString>(field, "tts_description_text") {
                    self.tts_description_text = Some(v);
                }
                true
            },
            14 => {
                if let Some(v) = ctx.enum_value::<AlertSeverityLevel>(field) {
                    self.severity_level = Some(v);
                }
                true
            },
            15 => {
                if let Some(v) = ctx.nested::<TranslatedImage>(field, "image") {
                    self.image = Some(v);
                }
                true
            },
            16 => {
                if let Some(v) = ctx.nested::<TranslatedString>(field, "image_alternative_text") {
                    self.image_alternative_text = Some(v);
                }
                true
            },
            17 => {
                if let Some(v) = ctx.nested::<TranslatedString>(field, "cause_detail") {
                    self.cause_detail = Some(v);
                }
                true
            },
            18 => {
                if let Some(v) = ctx.nested::<TranslatedString>(field, "effect_detail") {
                    self.effect_detail = Some(v);
                }
                true
            },
            _ => false,
        }
    }

    fn check_required(&self, ctx: &mut DecodeCtx) {
    }
}

} // verus!
