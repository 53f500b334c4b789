//! The analysis report: what a payload decoded to, what was found in it and,
//! with a schedule, how it matches that schedule.
//!
//! Building the report is decided here; turning it into JSON is left to the
//! caller.
use vstd::prelude::*;
use crate::anomaly::{spec_anomaly_text, spec_is_payload_level, spec_is_wire_level, spec_stable_name, Anomaly, AnomalyKind, AnomalyView};
use crate::decode::opt_view;
use crate::wire::{field_at, law_wire_faults_are_wire_level, FieldOutcome};
use crate::index::{set_insert, set_new, str_set_contents, StrSet};
use crate::schedule::StaticFeedErrorView;
use crate::model::descriptor::TripDescriptor;
use crate::model::enums::spec_incrementality_name;
use crate::model::feed::{spec_payload_count, FeedEntity, FeedEntityView, FeedHeader, FeedHeaderView, FeedMessage, FeedMessageView};
use crate::reader::law_filtered_groups;
use crate::rules::{
    check_snapshot, lemma_report_of_rows, law_filtered_schedule_gives_the_same_report, named_trip,
    refers_to, spec_check_snapshot, spec_referenced_trips, spec_severity_str, ConsistencyReport,
    NoticeView,
};
use crate::schedule::{
    capped, law_filter_changes_only_the_kept_stop_times, rows_view, spec_read_feed, standard_limits,
    total_rows, describes, StaticFeed, StaticFeedError, StaticRows, TripFilter,
};
use crate::text::owned;
use crate::{decode_feed_message, spec_decode_feed, DecodedFeed, DecodedFeedView};

verus! {

// ── Entity counts ───────────────────────────────────────────────────────────

/// How many entities there are, of each payload, and how many carry none or
/// several.
#[derive(Debug, Clone, PartialEq, Eq)]
pub struct EntityCounts {
    pub total: usize,
    pub trip_updates: usize,
    pub vehicles: usize,
    pub alerts: usize,
    pub shapes: usize,
    pub stops: usize,
    pub trip_modifications: usize,
    pub without_payload: usize,
    pub multiple_payloads: usize,
}

/// How many of `es` satisfy `p`.
pub open spec fn count_where(es: Seq<FeedEntityView>, p: spec_fn(FeedEntityView) -> bool) -> nat
    decreases es.len(),
{
    if es.len() == 0 {
        0
    } else {
        count_where(es.drop_last(), p) + if p(es.last()) {
            1nat
        } else {
            0nat
        }
    }
}

proof fn lemma_count_where_bound(es: Seq<FeedEntityView>, p: spec_fn(FeedEntityView) -> bool)
    ensures
        count_where(es, p) <= es.len(),
    decreases es.len(),
{
    if es.len() > 0 {
        lemma_count_where_bound(es.drop_last(), p);
    }
}

/// The counts of `es`, field by field.
pub open spec fn counts_match(c: EntityCounts, es: Seq<FeedEntityView>) -> bool {
    &&& c.trip_updates == count_where(es, |e: FeedEntityView| e.trip_update is Some)
    &&& c.vehicles == count_where(es, |e: FeedEntityView| e.vehicle is Some)
    &&& c.alerts == count_where(es, |e: FeedEntityView| e.alert is Some)
    &&& c.shapes == count_where(es, |e: FeedEntityView| e.shape is Some)
    &&& c.stops == count_where(es, |e: FeedEntityView| e.stop is Some)
    &&& c.trip_modifications == count_where(es, |e: FeedEntityView| e.trip_modifications is Some)
    &&& c.without_payload == count_where(es, |e: FeedEntityView| spec_payload_count(e) == 0)
    &&& c.multiple_payloads == count_where(es, |e: FeedEntityView| spec_payload_count(e) > 1)
}

fn bump(n: usize, yes: bool) -> (r: usize)
    requires
        n < usize::MAX,
    ensures
        r == n + if yes {
            1nat
        } else {
            0nat
        },
{
    if yes {
        n + 1
    } else {
        n
    }
}

/// Counts one more entity into `counts` (not into `total`).
pub fn add_entity(counts: &mut EntityCounts, entity: &FeedEntity)
    requires
        old(counts).trip_updates < usize::MAX,
        old(counts).vehicles < usize::MAX,
        old(counts).alerts < usize::MAX,
        old(counts).shapes < usize::MAX,
        old(counts).stops < usize::MAX,
        old(counts).trip_modifications < usize::MAX,
        old(counts).without_payload < usize::MAX,
        old(counts).multiple_payloads < usize::MAX,
    ensures
        final(counts).total == old(counts).total,
        final(counts).trip_updates == old(counts).trip_updates + if entity@.trip_update is Some {
            1nat
        } else {
            0nat
        },
        final(counts).vehicles == old(counts).vehicles + if entity@.vehicle is Some {
            1nat
        } else {
            0nat
        },
        final(counts).alerts == old(counts).alerts + if entity@.alert is Some {
            1nat
        } else {
            0nat
        },
        final(counts).shapes == old(counts).shapes + if entity@.shape is Some {
            1nat
        } else {
            0nat
        },
        final(counts).stops == old(counts).stops + if entity@.stop is Some {
            1nat
        } else {
            0nat
        },
        final(counts).trip_modifications == old(counts).trip_modifications
            + if entity@.trip_modifications is Some {
            1nat
        } else {
            0nat
        },
        final(counts).without_payload == old(counts).without_payload + if spec_payload_count(
            entity@,
        ) == 0 {
            1nat
        } else {
            0nat
        },
        final(counts).multiple_payloads == old(counts).multiple_payloads + if spec_payload_count(
            entity@,
        ) > 1 {
            1nat
        } else {
            0nat
        },
{
    let payloads = entity.payload_count();
    counts.without_payload = bump(counts.without_payload, payloads == 0);
    counts.multiple_payloads = bump(counts.multiple_payloads, payloads > 1);
    counts.trip_updates = bump(counts.trip_updates, entity.trip_update.is_some());
    counts.vehicles = bump(counts.vehicles, entity.vehicle.is_some());
    counts.alerts = bump(counts.alerts, entity.alert.is_some());
    counts.shapes = bump(counts.shapes, entity.shape.is_some());
    counts.stops = bump(counts.stops, entity.stop.is_some());
    counts.trip_modifications = bump(counts.trip_modifications, entity.trip_modifications.is_some());
}

/// The entity counts of a message.
pub fn entity_counts(message: &FeedMessage) -> (r: EntityCounts)
    ensures
        r.total == message@.entity.len(),
        counts_match(r, message@.entity),
{
    let ghost es = message@.entity;
    let mut counts = EntityCounts {
        total: message.entity.len(),
        trip_updates: 0,
        vehicles: 0,
        alerts: 0,
        shapes: 0,
        stops: 0,
        trip_modifications: 0,
        without_payload: 0,
        multiple_payloads: 0,
    };
    let mut i: usize = 0;
    proof {
        assert(es.take(0) =~= Seq::<FeedEntityView>::empty());
    }
    while i < message.entity.len()
        invariant
            es == message@.entity,
            es.len() == message.entity.len(),
            i <= message.entity.len(),
            counts.total == es.len(),
            counts_match(counts, es.take(i as int)),
        decreases message.entity.len() - i,
    {
        let ghost t = es.take(i as int);
        proof {
            assert(es.take(i as int + 1).drop_last() =~= t);
            assert(es.take(i as int + 1).last() == message.entity@[i as int]@);
            lemma_count_where_bound(t, |e: FeedEntityView| e.trip_update is Some);
            lemma_count_where_bound(t, |e: FeedEntityView| e.vehicle is Some);
            lemma_count_where_bound(t, |e: FeedEntityView| e.alert is Some);
            lemma_count_where_bound(t, |e: FeedEntityView| e.shape is Some);
            lemma_count_where_bound(t, |e: FeedEntityView| e.stop is Some);
            lemma_count_where_bound(t, |e: FeedEntityView| e.trip_modifications is Some);
            lemma_count_where_bound(t, |e: FeedEntityView| spec_payload_count(e) == 0);
            lemma_count_where_bound(t, |e: FeedEntityView| spec_payload_count(e) > 1);
        }
        add_entity(&mut counts, &message.entity[i]);
        i = i + 1;
    }
    proof {
        assert(es.take(message.entity.len() as int) =~= es);
    }
    counts
}

// ── Referenced trips ────────────────────────────────────────────────────────

/// Adds the trip id a descriptor names, if any.
fn add_trip(ids: &mut StrSet, trip: &Option<TripDescriptor>)
    ensures
        str_set_contents(*final(ids)) == match named_trip(opt_view(*trip)) {
            Some(id) => str_set_contents(*old(ids)).insert(id),
            None => str_set_contents(*old(ids)),
        },
{
    if let Some(t) = trip {
        if let Some(id) = &t.trip_id {
            set_insert(ids, id.clone());
        }
    }
}

/// Every trip id the snapshot refers to: through trip updates, vehicle
/// positions and alerts' informed entities, whatever the trips' schedule
/// relationship.
pub fn referenced_trip_ids(message: &FeedMessage) -> (r: StrSet)
    ensures
        str_set_contents(r) == spec_referenced_trips(message@),
{
    let ghost es = message@.entity;
    let mut ids = set_new();
    let mut i: usize = 0;
    while i < message.entity.len()
        invariant
            es == message@.entity,
            es.len() == message.entity.len(),
            i <= message.entity.len(),
            str_set_contents(ids) == Set::new(
                |id: Seq<char>| exists|k: int| 0 <= k < i && #[trigger] refers_to(es[k], id),
            ),
        decreases message.entity.len() - i,
    {
        let entity = &message.entity[i];
        let ghost before = str_set_contents(ids);
        let ghost e = es[i as int];
        proof {
            assert(entity@ == e);
        }
        if let Some(update) = &entity.trip_update {
            add_trip(&mut ids, &update.trip);
        }
        if let Some(vehicle) = &entity.vehicle {
            add_trip(&mut ids, &vehicle.trip);
        }
        let ghost mid = str_set_contents(ids);
        if let Some(alert) = &entity.alert {
            let mut j: usize = 0;
            while j < alert.informed_entity.len()
                invariant
                    j <= alert.informed_entity.len(),
                    str_set_contents(ids) == mid.union(
                        Set::new(
                            |id: Seq<char>| exists|q: int|
                                0 <= q < j && named_trip(#[trigger] alert@.informed_entity[q].trip)
                                    == Some(id),
                        ),
                    ),
                decreases alert.informed_entity.len() - j,
            {
                let ghost b = str_set_contents(ids);
                let ghost sel = alert@.informed_entity[j as int];
                proof {
                    assert(sel == alert.informed_entity@[j as int]@);
                }
                add_trip(&mut ids, &alert.informed_entity[j].trip);
                proof {
                    let next = Set::new(
                        |id: Seq<char>| exists|q: int|
                            0 <= q < j + 1 && named_trip(#[trigger] alert@.informed_entity[q].trip)
                                == Some(id),
                    );
                    let prev = Set::new(
                        |id: Seq<char>| exists|q: int|
                            0 <= q < j && named_trip(#[trigger] alert@.informed_entity[q].trip)
                                == Some(id),
                    );
                    assert forall|id: Seq<char>| #[trigger] str_set_contents(ids).contains(id) == mid.union(
                        next,
                    ).contains(id) by {
                        if next.contains(id) {
                            let q = choose|q: int|
                                0 <= q < j + 1 && named_trip(#[trigger] alert@.informed_entity[q].trip)
                                    == Some(id);
                            if q < j {
                                assert(prev.contains(id));
                            }
                        }
                        if prev.contains(id) {
                            let q = choose|q: int|
                                0 <= q < j && named_trip(#[trigger] alert@.informed_entity[q].trip)
                                    == Some(id);
                            assert(next.contains(id));
                        }
                        if named_trip(sel.trip) == Some(id) {
                            assert(next.contains(id));
                        }
                    }
                    assert(str_set_contents(ids) =~= mid.union(next));
                }
                j = j + 1;
            }
        }
        proof {
            assert(str_set_contents(ids) =~= Set::new(
                |id: Seq<char>| exists|k: int| 0 <= k < i + 1 && #[trigger] refers_to(es[k], id),
            )) by {
                assert forall|id: Seq<char>| str_set_contents(ids).contains(id) implies exists|k: int|
                    0 <= k < i + 1 && #[trigger] refers_to(es[k], id) by {
                    if !before.contains(id) {
                        assert(refers_to(es[i as int], id));
                    }
                }
                assert forall|id: Seq<char>| (exists|k: int| 0 <= k < i + 1 && #[trigger] refers_to(es[k], id))
                    implies str_set_contents(ids).contains(id) by {
                    let k = choose|k: int| 0 <= k < i + 1 && #[trigger] refers_to(es[k], id);
                    if k == i {
                        if let Some(a) = e.alert {
                            if exists|q: int|
                                0 <= q < a.informed_entity.len() && named_trip(
                                    #[trigger] a.informed_entity[q].trip,
                                ) == Some(id) {
                                let q = choose|q: int|
                                    0 <= q < a.informed_entity.len() && named_trip(
                                        #[trigger] a.informed_entity[q].trip,
                                    ) == Some(id);
                                assert(named_trip(a.informed_entity[q].trip) == Some(id));
                            }
                        }
                    }
                }
            }
        }
        i = i + 1;
    }
    proof {
        assert(str_set_contents(ids) =~= spec_referenced_trips(message@));
    }
    ids
}

// ── Anomalies and header ────────────────────────────────────────────────────

/// The level an anomaly is reported at: `payload`, `wire` or `schema`.
pub open spec fn spec_level(kind: AnomalyKind) -> &'static str {
    if spec_is_payload_level(kind) {
        "payload"
    } else if spec_is_wire_level(kind) {
        "wire"
    } else {
        "schema"
    }
}

/// An anomaly as the report lists it.
#[derive(Debug, Clone, PartialEq, Eq)]
pub struct AnomalyReport {
    pub level: &'static str,
    pub kind: &'static str,
    pub message: String,
    pub path: String,
    pub offset: usize,
}

/// The report entry of an anomaly.
pub fn anomaly_report(anomaly: &Anomaly) -> (r: AnomalyReport)
    ensures
        r.level == spec_level(anomaly.kind),
        r.kind == spec_stable_name(anomaly.kind),
        r.message@ == spec_anomaly_text(anomaly@),
        r.path@ == anomaly.path@,
        r.offset == anomaly.offset,
{
    let level = if anomaly.kind.is_payload_level() {
        "payload"
    } else if anomaly.kind.is_wire_level() {
        "wire"
    } else {
        "schema"
    };
    AnomalyReport {
        level,
        kind: anomaly.kind.stable_name(),
        message: anomaly.describe(),
        path: anomaly.path.clone(),
        offset: anomaly.offset,
    }
}

/// The payload reads as protobuf: no anomaly at the payload or wire level.
pub open spec fn spec_valid_protobuf(anomalies: Seq<AnomalyView>) -> bool {
    forall|i: int|
        0 <= i < anomalies.len() ==> !spec_is_payload_level(#[trigger] anomalies[i].kind)
            && !spec_is_wire_level(anomalies[i].kind)
}

/// Whether no anomaly is at the payload or wire level.
pub fn valid_protobuf(anomalies: &Vec<Anomaly>) -> (r: bool)
    ensures
        r == spec_valid_protobuf(anomalies@.map_values(|a: Anomaly| a@)),
{
    let ghost v = anomalies@.map_values(|a: Anomaly| a@);
    let mut i: usize = 0;
    while i < anomalies.len()
        invariant
            v == anomalies@.map_values(|a: Anomaly| a@),
            i <= anomalies.len(),
            forall|j: int|
                0 <= j < i ==> !spec_is_payload_level(#[trigger] v[j].kind) && !spec_is_wire_level(
                    v[j].kind,
                ),
        decreases anomalies.len() - i,
    {
        proof {
            assert(v[i as int] == anomalies@[i as int]@);
        }
        if anomalies[i].kind.is_payload_level() || anomalies[i].kind.is_wire_level() {
            proof {
                assert(v[i as int].kind == anomalies@[i as int].kind);
            }
            return false;
        }
        i = i + 1;
    }
    true
}

/// The feed header as the report shows it.
#[derive(Debug, Clone, PartialEq, Eq)]
pub struct HeaderReport {
    pub gtfs_realtime_version: Option<String>,
    pub incrementality: Option<String>,
    pub timestamp: Option<u64>,
    pub feed_version: Option<String>,
}

fn copy_text(s: &Option<String>) -> (r: Option<String>)
    ensures
        opt_view(r) == opt_view(*s),
{
    match s {
        Some(t) => Some(owned(t.as_str())),
        None => None,
    }
}

/// The report's summary of a feed header.
pub fn header_report(header: &FeedHeader) -> (r: HeaderReport)
    ensures
        opt_view(r.gtfs_realtime_version) == header@.gtfs_realtime_version,
        opt_view(r.incrementality) == match header@.incrementality {
            Some(i) => Some(spec_incrementality_name(i)@),
            None => None,
        },
        r.timestamp == header@.timestamp,
        opt_view(r.feed_version) == header@.feed_version,
{
    HeaderReport {
        gtfs_realtime_version: copy_text(&header.gtfs_realtime_version),
        incrementality: match header.incrementality {
            Some(i) => Some(owned(i.proto_name())),
            None => None,
        },
        timestamp: header.timestamp,
        feed_version: copy_text(&header.feed_version),
    }
}

// ── Consistency ─────────────────────────────────────────────────────────────

/// How much of the schedule was read.
#[derive(Debug, Clone, PartialEq, Eq)]
pub struct ScheduleSummary {
    pub routes: usize,
    pub trips: usize,
    pub stops: usize,
}

/// A consistency notice as the report lists it.
#[derive(Debug, Clone, PartialEq, Eq)]
pub struct NoticeReport {
    pub code: &'static str,
    pub severity: &'static str,
    pub entity_id: Option<String>,
    pub path: String,
    pub message: String,
}

pub struct NoticeReportView {
    pub code: &'static str,
    pub severity: &'static str,
    pub entity_id: Option<Seq<char>>,
    pub path: Seq<char>,
    pub message: Seq<char>,
}

impl View for NoticeReport {
    type V = NoticeReportView;

    open spec fn view(&self) -> NoticeReportView {
        NoticeReportView {
            code: self.code,
            severity: self.severity,
            entity_id: opt_view(self.entity_id),
            path: self.path@,
            message: self.message@,
        }
    }
}

/// The report entry of a notice.
pub open spec fn notice_report_view(n: NoticeView) -> NoticeReportView {
    NoticeReportView {
        code: n.code,
        severity: spec_severity_str(n.severity),
        entity_id: n.entity_id,
        path: n.path,
        message: n.message,
    }
}

/// The consistency part of the report.
#[derive(Debug, Clone, PartialEq, Eq)]
pub struct ConsistencySection {
    pub schedule: ScheduleSummary,
    pub checked_entities: usize,
    pub checked_trip_references: usize,
    pub checked_stop_time_updates: usize,
    /// `ADDED`/`NEW`/`DUPLICATED` trips: not looked up in the schedule, counted.
    pub skipped_dynamic_trips: usize,
    /// How many `stop_times` rows of the schedule are held.
    pub indexed_stop_times: usize,
    pub vehicle_trips: usize,
    pub notices: Vec<NoticeReport>,
}

pub struct SectionView {
    pub routes: nat,
    pub trips: nat,
    pub stops: nat,
    pub checked_entities: usize,
    pub checked_trip_references: usize,
    pub checked_stop_time_updates: usize,
    pub skipped_dynamic_trips: usize,
    pub indexed_stop_times: usize,
    pub vehicle_trips: usize,
    pub notices: Seq<NoticeReportView>,
}

impl View for ConsistencySection {
    type V = SectionView;

    open spec fn view(&self) -> SectionView {
        SectionView {
            routes: self.schedule.routes as nat,
            trips: self.schedule.trips as nat,
            stops: self.schedule.stops as nat,
            checked_entities: self.checked_entities,
            checked_trip_references: self.checked_trip_references,
            checked_stop_time_updates: self.checked_stop_time_updates,
            skipped_dynamic_trips: self.skipped_dynamic_trips,
            indexed_stop_times: self.indexed_stop_times,
            vehicle_trips: self.vehicle_trips,
            notices: self.notices@.map_values(|n: NoticeReport| n@),
        }
    }
}

/// The consistency section for a schedule holding the rows `m` and the
/// snapshot `rt`.
pub open spec fn spec_section(m: StaticRows, rt: FeedMessageView) -> SectionView {
    let rep = spec_check_snapshot(rows_view(m), rt);
    SectionView {
        routes: m.routes.len(),
        trips: m.trips.len(),
        stops: m.stops.len(),
        checked_entities: rep.checked_entities,
        checked_trip_references: rep.checked_trip_references,
        checked_stop_time_updates: rep.checked_stop_time_updates,
        skipped_dynamic_trips: rep.skipped_dynamic_trips,
        indexed_stop_times: capped(m.stop_rows.len()),
        vehicle_trips: rep.vehicle_trips,
        notices: rep.notices.map_values(|n: NoticeView| notice_report_view(n)),
    }
}

/// The consistency section of a rules report on a schedule holding the rows `m`.
fn consistency_section(feed: &StaticFeed, report: ConsistencyReport, Ghost(m): Ghost<StaticRows>) -> (c:
    ConsistencySection)
    requires
        describes(feed@, m),
        total_rows(feed.group_rows()) == m.stop_rows.len(),
    ensures
        c@.routes == m.routes.len(),
        c@.trips == m.trips.len(),
        c@.stops == m.stops.len(),
        c@.indexed_stop_times == capped(m.stop_rows.len()),
        c@.checked_entities == report@.checked_entities,
        c@.checked_trip_references == report@.checked_trip_references,
        c@.checked_stop_time_updates == report@.checked_stop_time_updates,
        c@.skipped_dynamic_trips == report@.skipped_dynamic_trips,
        c@.vehicle_trips == report@.vehicle_trips,
        c@.notices == report@.notices.map_values(|n: NoticeView| notice_report_view(n)),
{
    let mut notices: Vec<NoticeReport> = Vec::new();
    let ghost want = report@.notices.map_values(|n: NoticeView| notice_report_view(n));
    let mut i: usize = 0;
    while i < report.notices.len()
        invariant
            i <= report.notices.len(),
            want == report@.notices.map_values(|n: NoticeView| notice_report_view(n)),
            report@.notices.len() == report.notices.len(),
            notices@.map_values(|n: NoticeReport| n@) == want.take(i as int),
        decreases report.notices.len() - i,
    {
        let n = &report.notices[i];
        let entry = NoticeReport {
            code: n.code,
            severity: n.severity.as_str(),
            entity_id: copy_text(&n.entity_id),
            path: n.path.clone(),
            message: n.message.clone(),
        };
        proof {
            assert(report@.notices[i as int] == n@);
            assert(entry@ == want[i as int]);
        }
        let ghost before = notices@.map_values(|n: NoticeReport| n@);
        notices.push(entry);
        proof {
            assert(notices@.map_values(|n: NoticeReport| n@) =~= before.push(entry@));
            assert(want.take(i as int + 1) =~= want.take(i as int).push(want[i as int]));
        }
        i = i + 1;
    }
    proof {
        assert(want.take(report.notices.len() as int) =~= want);
    }
    let counts = feed.summary();
    let routes = counts.routes;
    let trips = counts.trips;
    let stops = counts.stops;
    ConsistencySection {
        schedule: ScheduleSummary { routes, trips, stops },
        checked_entities: report.checked_entities,
        checked_trip_references: report.checked_trip_references,
        checked_stop_time_updates: report.checked_stop_time_updates,
        skipped_dynamic_trips: report.skipped_dynamic_trips,
        indexed_stop_times: feed.stop_time_count(),
        vehicle_trips: report.vehicle_trips,
        notices,
    }
}

// ── The report ──────────────────────────────────────────────────────────────

/// The analysis report.
#[derive(Debug, Clone, PartialEq, Eq)]
pub struct Report {
    pub schema_version: u8,
    pub bytes: usize,
    pub valid_protobuf: bool,
    pub header: Option<HeaderReport>,
    pub entities: EntityCounts,
    pub anomalies: Vec<AnomalyReport>,
    /// `None` without a schedule: consistency means something only against one.
    pub consistency: Option<ConsistencySection>,
    /// Why the schedule could not be read. The realtime part is reported
    /// anyway: a broken schedule does not void what can be said of the snapshot.
    pub schedule_error: Option<StaticFeedError>,
}

/// `r` lists the anomaly `a`.
pub open spec fn reports_anomaly(r: AnomalyReport, a: AnomalyView) -> bool {
    &&& r.level == spec_level(a.kind)
    &&& r.kind == spec_stable_name(a.kind)
    &&& r.message@ == spec_anomaly_text(a)
    &&& r.path@ == a.path
    &&& r.offset == a.offset
}

/// `r` summarises the header `h`.
pub open spec fn reports_header(r: HeaderReport, h: FeedHeaderView) -> bool {
    &&& opt_view(r.gtfs_realtime_version) == h.gtfs_realtime_version
    &&& opt_view(r.incrementality) == match h.incrementality {
        Some(i) => Some(spec_incrementality_name(i)@),
        None => None,
    }
    &&& r.timestamp == h.timestamp
    &&& opt_view(r.feed_version) == h.feed_version
}

/// The realtime part of the report describes the payload `bytes` decoded to `d`.
pub open spec fn reports_payload(r: Report, bytes: Seq<u8>, d: DecodedFeedView) -> bool {
    &&& r.schema_version == 1
    &&& r.bytes == bytes.len()
    &&& r.valid_protobuf == spec_valid_protobuf(d.anomalies)
    &&& match d.message.header {
        Some(h) => r.header matches Some(hr) && reports_header(hr, h),
        None => r.header is None,
    }
    &&& r.entities.total == d.message.entity.len()
    &&& counts_match(r.entities, d.message.entity)
    &&& r.anomalies@.len() == d.anomalies.len()
    &&& forall|i: int| 0 <= i < d.anomalies.len() ==> reports_anomaly(#[trigger] r.anomalies@[i], d.anomalies[i])
}

/// The report body shared by the one-shot and the cached paths.
fn base_report(
    bytes: &[u8],
    decoded: &DecodedFeed,
    consistency: Option<ConsistencySection>,
    schedule_error: Option<StaticFeedError>,
) -> (r: Report)
    ensures
        reports_payload(r, bytes@, decoded@),
        r.consistency == consistency,
        r.schedule_error == schedule_error,
{
    let ghost d = decoded@;
    let mut anomalies: Vec<AnomalyReport> = Vec::new();
    let mut i: usize = 0;
    while i < decoded.anomalies.len()
        invariant
            d == decoded@,
            d.anomalies.len() == decoded.anomalies.len(),
            i <= decoded.anomalies.len(),
            anomalies@.len() == i,
            forall|j: int| 0 <= j < i ==> reports_anomaly(#[trigger] anomalies@[j], d.anomalies[j]),
        decreases decoded.anomalies.len() - i,
    {
        proof {
            assert(d.anomalies[i as int] == decoded.anomalies@[i as int]@);
        }
        anomalies.push(anomaly_report(&decoded.anomalies[i]));
        i = i + 1;
    }
    let header = match &decoded.message.header {
        Some(h) => Some(header_report(h)),
        None => None,
    };
    Report {
        schema_version: 1,
        bytes: bytes.len(),
        valid_protobuf: valid_protobuf(&decoded.anomalies),
        header,
        entities: entity_counts(&decoded.message),
        anomalies,
        consistency,
        schedule_error,
    }
}

/// Analyses a payload, and with a schedule its consistency with it.
///
/// The realtime payload is decoded first; the schedule is then read keeping
/// only the stop times of the trips the snapshot refers to.
pub fn build_report(bytes: &[u8], schedule_zip: Option<&[u8]>) -> (r: Report)
    ensures
        reports_payload(r, bytes@, spec_decode_feed(bytes@)),
        match schedule_zip {
            None => r.consistency is None && r.schedule_error is None,
            Some(zip) => match spec_read_feed(
                zip@,
                Some(spec_referenced_trips(spec_decode_feed(bytes@).message)),
            ) {
                Err(e) => r.consistency is None && (r.schedule_error matches Some(x) && x@ == e),
                Ok(m) => r.schedule_error is None && (r.consistency matches Some(c) && c@ == spec_section(
                    m,
                    spec_decode_feed(bytes@).message,
                )),
            },
        },
{
    let decoded = decode_feed_message(bytes);
    let (consistency, schedule_error) = match schedule_zip {
        None => (None, None),
        Some(zip) => {
            let wanted = referenced_trip_ids(&decoded.message);
            match StaticFeed::from_zip_bytes_filtered(zip, TripFilter::Only(&wanted)) {
                Ok(feed) => {
                    let ghost m = spec_read_feed(zip@, Some(str_set_contents(wanted)))->Ok_0;
                    let report = check_snapshot(&feed, &decoded.message);
                    proof {
                        lemma_report_of_rows(feed@, m, decoded@.message);
                    }
                    let section = consistency_section(&feed, report, Ghost(m));
                    proof {
                        assert(section@ =~= spec_section(m, decoded@.message));
                    }
                    (Some(section), None)
                },
                Err(error) => (None, Some(error)),
            }
        },
    };
    base_report(bytes, &decoded, consistency, schedule_error)
}

/// A schedule read once and used for many snapshots. It is read whole: which
/// trips will be asked about is known only when a snapshot comes.
pub struct LoadedSchedule {
    feed: StaticFeed,
    rows: Ghost<StaticRows>,
}

impl LoadedSchedule {
    /// The rows the schedule holds.
    pub closed spec fn rows(&self) -> StaticRows {
        self.rows@
    }

    #[verifier::type_invariant]
    spec fn wf(&self) -> bool {
        &&& describes(self.feed@, self.rows@)
        &&& total_rows(self.feed.group_rows()) == self.rows@.stop_rows.len()
    }

    /// Reads the archive whole.
    pub fn load(schedule_zip: &[u8]) -> (r: Result<Self, StaticFeedError>)
        ensures
            match r {
                Ok(s) => spec_read_feed(schedule_zip@, None) == Ok::<
                    StaticRows,
                    StaticFeedErrorView,
                >(s.rows()),
                Err(e) => spec_read_feed(schedule_zip@, None) == Err::<StaticRows, StaticFeedErrorView>(
                    e@,
                ),
            },
    {
        match StaticFeed::from_zip_bytes(schedule_zip) {
            Ok(feed) => {
                let ghost m = spec_read_feed(schedule_zip@, None)->Ok_0;
                Ok(LoadedSchedule { feed, rows: Ghost(m) })
            },
            Err(e) => Err(e),
        }
    }

    /// Analyses a snapshot against this schedule.
    pub fn analyze(&self, bytes: &[u8]) -> (r: Report)
        ensures
            reports_payload(r, bytes@, spec_decode_feed(bytes@)),
            r.schedule_error is None,
            r.consistency matches Some(c) && c@ == spec_section(self.rows(), spec_decode_feed(bytes@).message),
    {
        proof {
            use_type_invariant(self);
        }
        let decoded = decode_feed_message(bytes);
        let consistency = check_snapshot(&self.feed, &decoded.message);
        proof {
            lemma_report_of_rows(self.feed@, self.rows@, decoded@.message);
        }
        let section = consistency_section(&self.feed, consistency, self.rows);
        proof {
            assert(section@ =~= spec_section(self.rows@, decoded@.message));
        }
        base_report(bytes, &decoded, Some(section), None)
    }

    /// How many trips the schedule has.
    pub fn trips(&self) -> (n: usize)
        ensures
            n == self.rows().trips.len(),
    {
        proof {
            use_type_invariant(self);
        }
        self.feed.summary().trips
    }

    /// How many `stop_times` rows it holds.
    pub fn stop_times(&self) -> (n: usize)
        ensures
            n == capped(self.rows().stop_rows.len()),
    {
        proof {
            use_type_invariant(self);
        }
        self.feed.stop_time_count()
    }
}

/// The cached path (schedule read whole) and the one-shot path (schedule
/// read for the snapshot's trips only) succeed or fail together on the same
/// archive, and then give the same consistency section but for how many
/// stop-time rows are held.
pub proof fn law_cached_and_one_shot_sections_agree(zip: Seq<u8>, rt: FeedMessageView)
    ensures
        (spec_read_feed(zip, None) is Ok) == (spec_read_feed(zip, Some(spec_referenced_trips(rt))) is Ok),
        spec_read_feed(zip, None) matches Ok(full) ==> (spec_read_feed(
            zip,
            Some(spec_referenced_trips(rt)),
        ) matches Ok(part) && spec_section(part, rt) == SectionView {
            indexed_stop_times: spec_section(part, rt).indexed_stop_times,
            ..spec_section(full, rt)
        }),
{
    let wanted = spec_referenced_trips(rt);
    law_filter_changes_only_the_kept_stop_times(zip, wanted, standard_limits());
    if let Ok(full) = spec_read_feed(zip, None) {
        let part = spec_read_feed(zip, Some(wanted))->Ok_0;
        law_filtered_groups(full.stop_rows, wanted);
        let fv = rows_view(full);
        let pv = rows_view(part);
        assert forall|id: Seq<char>| #[trigger] wanted.contains(id) implies (fv.stop_times.map.dom().contains(
            id,
        ) == pv.stop_times.map.dom().contains(id) && (fv.stop_times.map.dom().contains(id)
            ==> fv.stop_times.map[id] == pv.stop_times.map[id])) by {}
        law_filtered_schedule_gives_the_same_report(fv, pv, rt);
    }
}


/// The levels of the report: a payload that looks textual is at the payload
/// level, every framing fault of the wire reader at the wire level, and the
/// payload reads as protobuf exactly when every anomaly is at the schema
/// level.
pub proof fn law_report_levels(
    s: Seq<AnomalyView>,
    buf: Seq<u8>,
    start: int,
    looks_like: &'static str,
)
    ensures
        spec_valid_protobuf(s) == (forall|i: int|
            0 <= i < s.len() ==> spec_level(#[trigger] s[i].kind)@ == "schema"@),
        spec_level(AnomalyKind::NotProtobuf { looks_like })@ == "payload"@,
        field_at(buf, start) matches FieldOutcome::Fault { kind, .. } ==> spec_level(kind)@ == "wire"@,
{
    reveal_strlit("payload");
    reveal_strlit("wire");
    reveal_strlit("schema");
    assert("payload"@.len() != "schema"@.len());
    assert("wire"@.len() != "schema"@.len());
    law_wire_faults_are_wire_level(buf, start);
    assert forall|i: int| 0 <= i < s.len() implies (spec_level(#[trigger] s[i].kind)@ == "schema"@) == (
    !spec_is_payload_level(s[i].kind) && !spec_is_wire_level(s[i].kind)) by {}
}

} // verus!
