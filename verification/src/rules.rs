//! Narrow static GTFS ↔ realtime consistency rules.
//!
//! This layer does not repeat the decoder's structural anomalies: it takes the
//! decoder's and the static reader's output and reports only measurable
//! relations between the two data sets. `ADDED`, `NEW` and `DUPLICATED` trips
//! are not required to appear in the static `trips.txt`.
use vstd::prelude::*;
use vstd::utf8::encode_utf8;
use crate::decode::opt_view;
use crate::index::StrIndex;
use crate::model::descriptor::{TripDescriptor, TripDescriptorView};
use crate::model::enums::{StopTimeScheduleRelationship, TripScheduleRelationship};
use crate::model::feed::{FeedEntityView, FeedMessage, FeedMessageView};
use crate::model::trip_update::{StopTimeUpdate, StopTimeUpdateView};
use crate::reader::law_filtered_groups;
use crate::schedule::{
    describes, law_filter_changes_only_the_kept_stop_times, rows_view, spec_read_feed, standard_limits, views,
    StaticFeed, StaticFeedView, StaticRows, StopTime, StopTimeView,
};
use crate::text::{decimal, owned, push_decimal, push_lit, str_eq, string_views};

verus! {

#[derive(Debug, Clone, Copy, PartialEq, Eq, Structural)]
pub enum Severity {
    Error,
    Warning,
}

pub open spec fn spec_severity_str(s: Severity) -> &'static str {
    match s {
        Severity::Error => "error",
        Severity::Warning => "warning",
    }
}

impl Severity {
    pub fn as_str(self) -> (r: &'static str)
        ensures
            r == spec_severity_str(self),
    {
        match self {
            Severity::Error => "error",
            Severity::Warning => "warning",
        }
    }
}

#[derive(Debug, Clone, PartialEq, Eq)]
pub struct Notice {
    pub code: &'static str,
    pub severity: Severity,
    pub entity_id: Option<String>,
    pub path: String,
    pub message: String,
}

pub struct NoticeView {
    pub code: &'static str,
    pub severity: Severity,
    pub entity_id: Option<Seq<char>>,
    pub path: Seq<char>,
    pub message: Seq<char>,
}

impl View for Notice {
    type V = NoticeView;

    open spec fn view(&self) -> NoticeView {
        NoticeView {
            code: self.code,
            severity: self.severity,
            entity_id: match self.entity_id {
                Some(s) => Some(s@),
                None => None,
            },
            path: self.path@,
            message: self.message@,
        }
    }
}

#[derive(Debug, Clone, PartialEq, Eq)]
pub struct ConsistencyReport {
    pub notices: Vec<Notice>,
    pub checked_entities: usize,
    pub checked_trip_references: usize,
    pub skipped_dynamic_trips: usize,
    pub checked_stop_time_updates: usize,
    pub vehicle_trips: usize,
}

pub struct ReportView {
    pub notices: Seq<NoticeView>,
    pub checked_entities: usize,
    pub checked_trip_references: usize,
    pub skipped_dynamic_trips: usize,
    pub checked_stop_time_updates: usize,
    pub vehicle_trips: usize,
}

impl View for ConsistencyReport {
    type V = ReportView;

    open spec fn view(&self) -> ReportView {
        ReportView {
            notices: views(self.notices@),
            checked_entities: self.checked_entities,
            checked_trip_references: self.checked_trip_references,
            skipped_dynamic_trips: self.skipped_dynamic_trips,
            checked_stop_time_updates: self.checked_stop_time_updates,
            vehicle_trips: self.vehicle_trips,
        }
    }
}

impl Default for ConsistencyReport {
    fn default() -> (r: Self)
        ensures
            r@.notices.len() == 0,
            r.checked_entities == 0,
            r.checked_trip_references == 0,
            r.skipped_dynamic_trips == 0,
            r.checked_stop_time_updates == 0,
            r.vehicle_trips == 0,
    {
        ConsistencyReport {
            notices: Vec::new(),
            checked_entities: 0,
            checked_trip_references: 0,
            skipped_dynamic_trips: 0,
            checked_stop_time_updates: 0,
            vehicle_trips: 0,
        }
    }
}

impl ConsistencyReport {
    pub fn is_clean(&self) -> (r: bool)
        ensures
            r == (self@.notices.len() == 0),
    {
        self.notices.len() == 0
    }
}

// ── What the rules say ───────────────────────────────────────────────────────

/// `ADDED`, `NEW` and `DUPLICATED` trips have no static counterpart to look for.
pub open spec fn spec_is_dynamic(t: TripDescriptorView) -> bool {
    t.schedule_relationship == Some(TripScheduleRelationship::Added) || t.schedule_relationship
        == Some(TripScheduleRelationship::New) || t.schedule_relationship == Some(
        TripScheduleRelationship::Duplicated,
    )
}

/// `SKIPPED` and `NO_DATA` stops are not served as timed stops.
pub open spec fn spec_is_non_stopping(u: StopTimeUpdateView) -> bool {
    u.schedule_relationship == Some(StopTimeScheduleRelationship::Skipped)
        || u.schedule_relationship == Some(StopTimeScheduleRelationship::NoData)
}

/// `n + 1`, saturating.
pub open spec fn bump(n: usize) -> usize {
    if n < usize::MAX {
        (n + 1) as usize
    } else {
        n
    }
}

pub open spec fn trip_path(index: nat, payload: Seq<char>) -> Seq<char> {
    "entity["@ + decimal(index) + "]."@ + payload + ".trip"@
}

pub open spec fn update_path(index: nat, stop_index: nat) -> Seq<char> {
    "entity["@ + decimal(index) + "].trip_update.stop_time_update["@ + decimal(stop_index) + "]"@
}

/// Notices for one trip reference.
pub open spec fn trip_reference_notices(
    f: StaticFeedView,
    t: TripDescriptorView,
    entity_id: Option<Seq<char>>,
    path: Seq<char>,
) -> Seq<NoticeView> {
    match t.trip_id {
        None => Seq::empty(),
        Some(id) => if spec_is_dynamic(t) {
            Seq::empty()
        } else if !f.trips.map.dom().contains(id) {
            seq![
                NoticeView {
                    code: "RT_TRIP_NOT_IN_STATIC",
                    severity: Severity::Error,
                    entity_id,
                    path: path + ".trip_id"@,
                    message: "trip_id '"@ + id
                        + "' realtime snapshot'ında var, static trips.txt içinde yok"@,
                },
            ]
        } else {
            match t.route_id {
                Some(route) => if route != f.trips.map[id].route_id {
                    seq![
                        NoticeView {
                            code: "RT_ROUTE_MISMATCH",
                            severity: Severity::Error,
                            entity_id,
                            path: path + ".route_id"@,
                            message: "realtime route_id '"@ + route + "' ile static route_id '"@
                                + f.trips.map[id].route_id + "' eşleşmiyor"@,
                        },
                    ]
                } else {
                    Seq::empty()
                },
                None => Seq::empty(),
            }
        },
    }
}

/// The first static stop time with the given sequence number.
pub open spec fn first_with_sequence(times: Seq<StopTimeView>, sequence: u32) -> Option<
    StopTimeView,
>
    decreases times.len(),
{
    if times.len() == 0 {
        None
    } else if times[0].stop_sequence == sequence {
        Some(times[0])
    } else {
        first_with_sequence(times.drop_first(), sequence)
    }
}

/// The notice for an update whose stop id `stops.txt` lacks, if it is one.
pub open spec fn unknown_stop_notices(
    f: StaticFeedView,
    trip_id: Seq<char>,
    u: StopTimeUpdateView,
    entity_id: Option<Seq<char>>,
    path: Seq<char>,
) -> Seq<NoticeView> {
    match u.stop_id {
        Some(stop_id) => if !f.stops.map.dom().contains(stop_id) {
            seq![
                NoticeView {
                    code: "RT_STOP_NOT_IN_STATIC",
                    severity: Severity::Error,
                    entity_id,
                    path: path + ".stop_id"@,
                    message: "stop_id '"@ + stop_id
                        + "' realtime snapshot'ında var, static stops.txt içinde yok"@,
                },
            ]
        } else {
            Seq::empty()
        },
        None => Seq::empty(),
    }
}

/// The notice for a `SKIPPED` or `NO_DATA` stop that carries a time, if it is one.
pub open spec fn timed_stop_notices(
    f: StaticFeedView,
    trip_id: Seq<char>,
    u: StopTimeUpdateView,
    entity_id: Option<Seq<char>>,
    path: Seq<char>,
) -> Seq<NoticeView> {
    if spec_is_non_stopping(u) && (u.arrival is Some || u.departure is Some) {
        seq![
            NoticeView {
                code: "RT_TIME_ON_NON_STOPPING_UPDATE",
                severity: Severity::Warning,
                entity_id,
                path: path + ".schedule_relationship"@,
                message: "SKIPPED ya da NO_DATA olarak işaretli durak varış/kalkış tahmini taşıyor"@,
            },
        ]
    } else {
        Seq::empty()
    }
}

/// The notices comparing the update's sequence number with the trip's stop times.
pub open spec fn sequence_notices(
    f: StaticFeedView,
    trip_id: Seq<char>,
    u: StopTimeUpdateView,
    entity_id: Option<Seq<char>>,
    path: Seq<char>,
) -> Seq<NoticeView> {
    if f.stop_times.map.dom().contains(trip_id) {
        match u.stop_sequence {
            None => Seq::empty(),
            Some(sequence) => match first_with_sequence(f.stop_times.map[trip_id], sequence) {
                None => seq![
                    NoticeView {
                        code: "RT_STOP_SEQUENCE_NOT_IN_STATIC",
                        severity: Severity::Error,
                        entity_id,
                        path: path + ".stop_sequence"@,
                        message: "stop_sequence "@ + decimal(sequence as nat) + " trip '"@ + trip_id
                            + "' static stop_times.txt içinde yok"@,
                    },
                ],
                Some(matching) => match u.stop_id {
                    Some(stop_id) => if stop_id != matching.stop_id {
                        seq![
                            NoticeView {
                                code: "RT_STOP_SEQUENCE_MISMATCH",
                                severity: Severity::Error,
                                entity_id,
                                path: path + ".stop_id"@,
                                message: "stop_sequence "@ + decimal(sequence as nat)
                                    + " static olarak '"@ + matching.stop_id
                                    + "' gösteriyor, realtime '"@ + stop_id + "' gönderiyor"@,
                            },
                        ]
                    } else {
                        Seq::empty()
                    },
                    None => Seq::empty(),
                },
            },
        }
    } else {
        Seq::empty()
    }
}

/// Notices for one stop-time update of a non-dynamic trip that `trips.txt` holds.
pub open spec fn update_notices(
    f: StaticFeedView,
    trip_id: Seq<char>,
    u: StopTimeUpdateView,
    entity_id: Option<Seq<char>>,
    path: Seq<char>,
) -> Seq<NoticeView> {
    unknown_stop_notices(f, trip_id, u, entity_id, path) + timed_stop_notices(
        f,
        trip_id,
        u,
        entity_id,
        path,
    ) + sequence_notices(f, trip_id, u, entity_id, path)
}

/// Running totals of a check.
pub struct Tally {
    pub notices: Seq<NoticeView>,
    pub checked_entities: usize,
    pub skipped_dynamic_trips: usize,
    pub checked_stop_time_updates: usize,
    pub vehicle_trips: usize,
    /// Trip ids of non-dynamic vehicle positions, in order.
    pub vehicles: Seq<Seq<char>>,
}

/// Checks the stop-time updates from position `j` on.
pub open spec fn updates_from(
    f: StaticFeedView,
    trip_id: Seq<char>,
    updates: Seq<StopTimeUpdateView>,
    j: int,
    entity_id: Option<Seq<char>>,
    index: nat,
    t: Tally,
) -> Tally
    decreases updates.len() - j,
{
    if j < 0 || j >= updates.len() {
        t
    } else {
        updates_from(
            f,
            trip_id,
            updates,
            j + 1,
            entity_id,
            index,
            Tally {
                checked_stop_time_updates: bump(t.checked_stop_time_updates),
                notices: t.notices + update_notices(
                    f,
                    trip_id,
                    updates[j],
                    entity_id,
                    update_path(index, j as nat),
                ),
                ..t
            },
        )
    }
}

/// The trip-update half of checking one entity.
pub open spec fn trip_update_step(f: StaticFeedView, e: FeedEntityView, index: nat, t: Tally) -> Tally {
    match e.trip_update {
        Some(tu) => match tu.trip {
            Some(trip) => {
                let ta = Tally {
                    notices: t.notices + trip_reference_notices(
                        f,
                        trip,
                        e.id,
                        trip_path(index, "trip_update"@),
                    ),
                    ..t
                };
                if spec_is_dynamic(trip) {
                    Tally { skipped_dynamic_trips: bump(ta.skipped_dynamic_trips), ..ta }
                } else {
                    match trip.trip_id {
                        Some(id) => if f.trips.map.dom().contains(id) {
                            updates_from(f, id, tu.stop_time_update, 0, e.id, index, ta)
                        } else {
                            ta
                        },
                        None => ta,
                    }
                }
            },
            None => t,
        },
        None => t,
    }
}

/// The vehicle-position half of checking one entity.
pub open spec fn vehicle_step(f: StaticFeedView, e: FeedEntityView, index: nat, t: Tally) -> Tally {
    match e.vehicle {
        Some(vp) => match vp.trip {
            Some(trip) => {
                let ta = Tally {
                    notices: t.notices + trip_reference_notices(
                        f,
                        trip,
                        e.id,
                        trip_path(index, "vehicle"@),
                    ),
                    ..t
                };
                if spec_is_dynamic(trip) {
                    Tally { skipped_dynamic_trips: bump(ta.skipped_dynamic_trips), ..ta }
                } else {
                    match trip.trip_id {
                        Some(id) => Tally {
                            vehicle_trips: bump(ta.vehicle_trips),
                            vehicles: ta.vehicles.push(id),
                            ..ta
                        },
                        None => ta,
                    }
                }
            },
            None => t,
        },
        None => t,
    }
}

/// Checks the entities from position `i` on.
pub open spec fn entities_from(f: StaticFeedView, es: Seq<FeedEntityView>, i: int, t: Tally) -> Tally
    decreases es.len() - i,
{
    if i < 0 || i >= es.len() {
        t
    } else {
        let t1 = Tally { checked_entities: bump(t.checked_entities), ..t };
        entities_from(
            f,
            es,
            i + 1,
            vehicle_step(f, es[i], i as nat, trip_update_step(f, es[i], i as nat, t1)),
        )
    }
}

/// Number of trip references (trip updates and vehicle positions that name a trip).
pub open spec fn trip_references(es: Seq<FeedEntityView>) -> nat
    decreases es.len(),
{
    if es.len() == 0 {
        0
    } else {
        trip_references(es.drop_last()) + (if es.last().trip_update matches Some(tu) && tu.trip
            is Some {
            1nat
        } else {
            0nat
        }) + (if es.last().vehicle matches Some(vp) && vp.trip is Some {
            1nat
        } else {
            0nat
        })
    }
}

// ── Several vehicles on one trip ─────────────────────────────────────────────

/// Lexicographic order of byte strings.
pub open spec fn bytes_lt(a: Seq<u8>, b: Seq<u8>) -> bool
    decreases a.len(),
{
    if a.len() == 0 {
        b.len() > 0
    } else if b.len() == 0 {
        false
    } else if a[0] != b[0] {
        a[0] < b[0]
    } else {
        bytes_lt(a.drop_first(), b.drop_first())
    }
}

/// The order of `String` keys: by their UTF-8 bytes.
pub open spec fn id_lt(a: Seq<char>, b: Seq<char>) -> bool {
    bytes_lt(encode_utf8(a), encode_utf8(b))
}

/// How often `id` occurs in `vs`.
pub open spec fn count_of(vs: Seq<Seq<char>>, id: Seq<char>) -> nat
    decreases vs.len(),
{
    if vs.len() == 0 {
        0
    } else {
        count_of(vs.drop_last(), id) + (if vs.last() == id {
            1nat
        } else {
            0nat
        })
    }
}

/// The distinct ids of `vs`, in the order they first occur.
pub open spec fn first_seen(vs: Seq<Seq<char>>) -> Seq<Seq<char>>
    decreases vs.len(),
{
    if vs.len() == 0 {
        Seq::empty()
    } else if first_seen(vs.drop_last()).contains(vs.last()) {
        first_seen(vs.drop_last())
    } else {
        first_seen(vs.drop_last()).push(vs.last())
    }
}

/// The ids of `ids` that occur more than once in `vs`.
pub open spec fn repeated(ids: Seq<Seq<char>>, vs: Seq<Seq<char>>) -> Seq<Seq<char>>
    decreases ids.len(),
{
    if ids.len() == 0 {
        Seq::empty()
    } else if count_of(vs, ids.last()) > 1 {
        repeated(ids.drop_last(), vs).push(ids.last())
    } else {
        repeated(ids.drop_last(), vs)
    }
}

/// Position of the first id in `sorted` that `x` precedes.
pub open spec fn insertion_point(sorted: Seq<Seq<char>>, x: Seq<char>) -> int
    decreases sorted.len(),
{
    if sorted.len() == 0 {
        0
    } else if id_lt(x, sorted[0]) {
        0
    } else {
        1 + insertion_point(sorted.drop_first(), x)
    }
}

/// Sorts ids by inserting them one by one, in order.
pub open spec fn sort_ids(ids: Seq<Seq<char>>) -> Seq<Seq<char>>
    decreases ids.len(),
{
    if ids.len() == 0 {
        Seq::empty()
    } else {
        let s = sort_ids(ids.drop_last());
        s.insert(insertion_point(s, ids.last()), ids.last())
    }
}

/// The warning for a trip that several vehicles report.
pub open spec fn vehicle_notice(id: Seq<char>, count: nat) -> NoticeView {
    NoticeView {
        code: "RT_MULTIPLE_VEHICLES_FOR_TRIP",
        severity: Severity::Warning,
        entity_id: None,
        path: "vehicle.trip.trip_id"@,
        message: "trip_id '"@ + id + "' için aynı snapshot'ta "@ + decimal(count) + " araç bildiriyor"@,
    }
}

/// One warning per trip that more than one vehicle reports, in key order.
pub open spec fn vehicle_notices(vs: Seq<Seq<char>>) -> Seq<NoticeView> {
    sort_ids(repeated(first_seen(vs), vs)).map_values(|id: Seq<char>| vehicle_notice(id, count_of(vs, id)))
}

/// `n`, capped at `usize::MAX`.
pub open spec fn cap(n: nat) -> usize {
    if n <= usize::MAX {
        n as usize
    } else {
        usize::MAX
    }
}

pub open spec fn empty_tally() -> Tally {
    Tally {
        notices: Seq::empty(),
        checked_entities: 0,
        skipped_dynamic_trips: 0,
        checked_stop_time_updates: 0,
        vehicle_trips: 0,
        vehicles: Seq::empty(),
    }
}

/// The report for a realtime snapshot against a static feed.
pub open spec fn spec_check_snapshot(f: StaticFeedView, rt: FeedMessageView) -> ReportView {
    let t = entities_from(f, rt.entity, 0, empty_tally());
    ReportView {
        notices: t.notices + vehicle_notices(t.vehicles),
        checked_entities: t.checked_entities,
        checked_trip_references: cap(trip_references(rt.entity)),
        skipped_dynamic_trips: t.skipped_dynamic_trips,
        checked_stop_time_updates: t.checked_stop_time_updates,
        vehicle_trips: t.vehicle_trips,
    }
}

// ── The checks ───────────────────────────────────────────────────────────────

fn copy_opt(o: &Option<String>) -> (r: Option<String>)
    ensures
        opt_view(r) == opt_view(*o),
{
    match o {
        Some(s) => Some(owned(s.as_str())),
        None => None,
    }
}

fn trip_path_string(index: usize, payload: &str) -> (r: String)
    ensures
        r@ == trip_path(index as nat, payload@),
{
    let mut s = String::new();
    push_lit(&mut s, "entity[");
    push_decimal(&mut s, index as u64);
    push_lit(&mut s, "].");
    push_lit(&mut s, payload);
    push_lit(&mut s, ".trip");
    proof {
        assert(s@ =~= trip_path(index as nat, payload@));
    }
    s
}

fn update_path_string(index: usize, stop_index: usize) -> (r: String)
    ensures
        r@ == update_path(index as nat, stop_index as nat),
{
    let mut s = String::new();
    push_lit(&mut s, "entity[");
    push_decimal(&mut s, index as u64);
    push_lit(&mut s, "].trip_update.stop_time_update[");
    push_decimal(&mut s, stop_index as u64);
    push_lit(&mut s, "]");
    proof {
        assert(s@ =~= update_path(index as nat, stop_index as nat));
    }
    s
}

fn with_suffix(path: &String, suffix: &str) -> (r: String)
    ensures
        r@ == path@ + suffix@,
{
    let mut s = owned(path.as_str());
    push_lit(&mut s, suffix);
    s
}

fn push_notice(
    notices: &mut Vec<Notice>,
    code: &'static str,
    severity: Severity,
    entity_id: &Option<String>,
    path: String,
    message: String,
)
    ensures
        views(final(notices)@) == views(old(notices)@).push(
            NoticeView { code, severity, entity_id: opt_view(*entity_id), path: path@, message: message@ },
        ),
{
    let n = Notice { code, severity, entity_id: copy_opt(entity_id), path, message };
    let ghost before = views(notices@);
    let ghost v = n@;
    notices.push(n);
    proof {
        assert(views(notices@) =~= before.push(v));
    }
}

/// Whether the trip is `ADDED`, `NEW` or `DUPLICATED`.
fn is_dynamic_trip(trip: &TripDescriptor) -> (r: bool)
    ensures
        r == spec_is_dynamic(trip@),
{
    match trip.schedule_relationship {
        Some(TripScheduleRelationship::Added) => true,
        Some(TripScheduleRelationship::New) => true,
        Some(TripScheduleRelationship::Duplicated) => true,
        _ => false,
    }
}

fn check_trip_reference(
    static_feed: &StaticFeed,
    trip: &TripDescriptor,
    entity_id: &Option<String>,
    path: &String,
    notices: &mut Vec<Notice>,
)
    ensures
        views(final(notices)@) == views(old(notices)@) + trip_reference_notices(
            static_feed@,
            trip@,
            opt_view(*entity_id),
            path@,
        ),
{
    let ghost before = views(notices@);
    let trip_id = match &trip.trip_id {
        Some(id) => id,
        None => {
            proof {
                assert(views(notices@) =~= before + Seq::<NoticeView>::empty());
            }
            return ;
        },
    };
    if is_dynamic_trip(trip) {
        proof {
            assert(views(notices@) =~= before + Seq::<NoticeView>::empty());
        }
        return ;
    }
    let static_trip = match static_feed.trip(trip_id.as_str()) {
        Some(t) => t,
        None => {
            let mut message = String::new();
            push_lit(&mut message, "trip_id '");
            push_lit(&mut message, trip_id.as_str());
            push_lit(&mut message, "' realtime snapshot'ında var, static trips.txt içinde yok");
            push_notice(
                notices,
                "RT_TRIP_NOT_IN_STATIC",
                Severity::Error,
                entity_id,
                with_suffix(path, ".trip_id"),
                message,
            );
            proof {
                assert(message@ =~= "trip_id '"@ + trip_id@
                    + "' realtime snapshot'ında var, static trips.txt içinde yok"@);
                assert(views(notices@) =~= before + trip_reference_notices(
                    static_feed@,
                    trip@,
                    opt_view(*entity_id),
                    path@,
                ));
            }
            return ;
        },
    };
    if let Some(realtime_route) = &trip.route_id {
        if !str_eq(realtime_route.as_str(), static_trip.route_id.as_str()) {
            let mut message = String::new();
            push_lit(&mut message, "realtime route_id '");
            push_lit(&mut message, realtime_route.as_str());
            push_lit(&mut message, "' ile static route_id '");
            push_lit(&mut message, static_trip.route_id.as_str());
            push_lit(&mut message, "' eşleşmiyor");
            push_notice(
                notices,
                "RT_ROUTE_MISMATCH",
                Severity::Error,
                entity_id,
                with_suffix(path, ".route_id"),
                message,
            );
            proof {
                assert(message@ =~= "realtime route_id '"@ + realtime_route@
                    + "' ile static route_id '"@ + static_trip.route_id@ + "' eşleşmiyor"@);
                assert(views(notices@) =~= before + trip_reference_notices(
                    static_feed@,
                    trip@,
                    opt_view(*entity_id),
                    path@,
                ));
            }
            return ;
        }
    }
    proof {
        assert(views(notices@) =~= before + Seq::<NoticeView>::empty());
    }
}

/// The first stop time of `times` with the given sequence number.
fn find_sequence(times: &[StopTime], sequence: u32) -> (r: Option<&StopTime>)
    ensures
        match r {
            Some(t) => first_with_sequence(views(times@), sequence) == Some(t@),
            None => first_with_sequence(views(times@), sequence) is None,
        },
{
    let ghost all = views(times@);
    proof {
        assert(all.skip(0) =~= all);
    }
    let mut k: usize = 0;
    while k < times.len()
        invariant
            k <= times@.len(),
            all == views(times@),
            first_with_sequence(all, sequence) == first_with_sequence(all.skip(k as int), sequence),
        decreases times.len() - k,
    {
        proof {
            assert(all.skip(k as int).drop_first() =~= all.skip(k as int + 1));
            assert(all.skip(k as int)[0] == times@[k as int]@);
        }
        if times[k].stop_sequence == sequence {
            return Some(&times[k]);
        }
        k = k + 1;
    }
    proof {
        assert(all.skip(k as int).len() == 0);
    }
    None
}

fn check_stop_time_update(
    static_feed: &StaticFeed,
    trip_id: &str,
    update: &StopTimeUpdate,
    entity_id: &Option<String>,
    path: &String,
    notices: &mut Vec<Notice>,
)
    ensures
        views(final(notices)@) == views(old(notices)@) + update_notices(
            static_feed@,
            trip_id@,
            update@,
            opt_view(*entity_id),
            path@,
        ),
{
    let ghost before = views(notices@);
    let ghost f = static_feed@;
    let ghost eid = opt_view(*entity_id);
    let ghost u = update@;
    // An unknown stop id is reported whether or not the trip has stop times.
    if let Some(stop_id) = &update.stop_id {
        if !static_feed.has_stop(stop_id.as_str()) {
            let mut message = String::new();
            push_lit(&mut message, "stop_id '");
            push_lit(&mut message, stop_id.as_str());
            push_lit(&mut message, "' realtime snapshot'ında var, static stops.txt içinde yok");
            proof {
                assert(message@ =~= "stop_id '"@ + stop_id@
                    + "' realtime snapshot'ında var, static stops.txt içinde yok"@);
            }
            push_notice(
                notices,
                "RT_STOP_NOT_IN_STATIC",
                Severity::Error,
                entity_id,
                with_suffix(path, ".stop_id"),
                message,
            );
        }
    }
    let ghost after_stop = views(notices@);
    let non_stopping = match update.schedule_relationship {
        Some(StopTimeScheduleRelationship::Skipped) => true,
        Some(StopTimeScheduleRelationship::NoData) => true,
        _ => false,
    };
    if non_stopping && (update.arrival.is_some() || update.departure.is_some()) {
        push_notice(
            notices,
            "RT_TIME_ON_NON_STOPPING_UPDATE",
            Severity::Warning,
            entity_id,
            with_suffix(path, ".schedule_relationship"),
            owned("SKIPPED ya da NO_DATA olarak işaretli durak varış/kalkış tahmini taşıyor"),
        );
    }
    let ghost after_timed = views(notices@);
    let ghost sequence_part: Seq<NoticeView> = Seq::empty();
    if let Some(static_times) = static_feed.stop_times_for_trip(trip_id) {
        if let Some(sequence) = update.stop_sequence {
            match find_sequence(static_times, sequence) {
                None => {
                    let mut message = String::new();
                    push_lit(&mut message, "stop_sequence ");
                    push_decimal(&mut message, sequence as u64);
                    push_lit(&mut message, " trip '");
                    push_lit(&mut message, trip_id);
                    push_lit(&mut message, "' static stop_times.txt içinde yok");
                    proof {
                        assert(message@ =~= "stop_sequence "@ + decimal(sequence as nat) + " trip '"@
                            + trip_id@ + "' static stop_times.txt içinde yok"@);
                    }
                    push_notice(
                        notices,
                        "RT_STOP_SEQUENCE_NOT_IN_STATIC",
                        Severity::Error,
                        entity_id,
                        with_suffix(path, ".stop_sequence"),
                        message,
                    );
                },
                Some(matching) => {
                    if let Some(stop_id) = &update.stop_id {
                        if !str_eq(stop_id.as_str(), matching.stop_id.as_str()) {
                            let mut message = String::new();
                            push_lit(&mut message, "stop_sequence ");
                            push_decimal(&mut message, sequence as u64);
                            push_lit(&mut message, " static olarak '");
                            push_lit(&mut message, matching.stop_id.as_str());
                            push_lit(&mut message, "' gösteriyor, realtime '");
                            push_lit(&mut message, stop_id.as_str());
                            push_lit(&mut message, "' gönderiyor");
                            proof {
                                assert(message@ =~= "stop_sequence "@ + decimal(sequence as nat)
                                    + " static olarak '"@ + matching.stop_id@
                                    + "' gösteriyor, realtime '"@ + stop_id@ + "' gönderiyor"@);
                            }
                            push_notice(
                                notices,
                                "RT_STOP_SEQUENCE_MISMATCH",
                                Severity::Error,
                                entity_id,
                                with_suffix(path, ".stop_id"),
                                message,
                            );
                        }
                    }
                },
            }
        }
    }
    proof {
        let unknown_stop = after_stop.subrange(before.len() as int, after_stop.len() as int);
        let timed = after_timed.subrange(after_stop.len() as int, after_timed.len() as int);
        let rest = views(notices@).subrange(after_timed.len() as int, views(notices@).len() as int);
        assert(after_stop =~= before + unknown_stop);
        assert(after_timed =~= after_stop + timed);
        assert(views(notices@) =~= after_timed + rest);
        assert(views(notices@) =~= before + (unknown_stop + timed + rest));
        assert(unknown_stop + timed + rest =~= update_notices(f, trip_id@, u, eid, path@));
    }
}

/// Lexicographic comparison of byte strings.
fn bytes_less(a: &[u8], b: &[u8]) -> (r: bool)
    ensures
        r == bytes_lt(a@, b@),
{
    proof {
        assert(a@.skip(0) =~= a@);
        assert(b@.skip(0) =~= b@);
    }
    let mut i: usize = 0;
    while i < a.len() && i < b.len()
        invariant
            i <= a@.len(),
            i <= b@.len(),
            bytes_lt(a@, b@) == bytes_lt(a@.skip(i as int), b@.skip(i as int)),
        decreases a.len() - i,
    {
        proof {
            assert(a@.skip(i as int).drop_first() =~= a@.skip(i as int + 1));
            assert(b@.skip(i as int).drop_first() =~= b@.skip(i as int + 1));
        }
        if a[i] != b[i] {
            return a[i] < b[i];
        }
        i = i + 1;
    }
    proof {
        assert(a@.skip(i as int).len() == 0 || b@.skip(i as int).len() == 0);
    }
    i == a.len() && i < b.len()
}

/// Whether `a` sorts before `b` as a `String` key (by its UTF-8 bytes).
fn key_less(a: &str, b: &str) -> (r: bool)
    ensures
        r == id_lt(a@, b@),
{
    bytes_less(a.as_bytes(), b.as_bytes())
}

proof fn lemma_count_bound(vs: Seq<Seq<char>>, id: Seq<char>)
    ensures
        count_of(vs, id) <= vs.len(),
    decreases vs.len(),
{
    if vs.len() > 0 {
        lemma_count_bound(vs.drop_last(), id);
    }
}

/// The warnings for trips that more than one vehicle reports, one per trip, in
/// key order.
fn multiple_vehicle_notices(vehicles: &Vec<String>) -> (r: Vec<Notice>)
    ensures
        views(r@) == vehicle_notices(string_views(vehicles@)),
{
    let ghost vs = string_views(vehicles@);
    // Distinct trip ids in first-seen order, with their counts.
    let mut ids: Vec<String> = Vec::new();
    let mut counts: Vec<usize> = Vec::new();
    let mut index = StrIndex::new();
    let mut k: usize = 0;
    while k < vehicles.len()
        invariant
            k <= vehicles@.len(),
            vs == string_views(vehicles@),
            string_views(ids@) == first_seen(vs.take(k as int)),
            counts@.len() == ids@.len(),
            forall|p: int| 0 <= p < ids@.len() ==> #[trigger] counts@[p] == count_of(
                vs.take(k as int),
                ids@[p]@,
            ),
            forall|x: Seq<char>| #[trigger]
                index@.dom().contains(x) ==> index@[x] < ids@.len() && ids@[index@[x] as int]@ == x,
            forall|p: int| 0 <= p < ids@.len() ==> #[trigger] index@.dom().contains(ids@[p]@)
                && index@[ids@[p]@] == p,
        decreases vehicles.len() - k,
    {
        let ghost prev = vs.take(k as int);
        let ghost next = vs.take(k as int + 1);
        proof {
            assert(next.drop_last() =~= prev);
            assert(next.last() == vehicles@[k as int]@);
            assert forall|p: int| 0 <= p < ids@.len() implies #[trigger] count_of(next, ids@[p]@)
                == count_of(prev, ids@[p]@) + (if vehicles@[k as int]@ == ids@[p]@ {
                1nat
            } else {
                0nat
            }) by {}
            lemma_count_bound(prev, vehicles@[k as int]@);
        }
        let id = &vehicles[k];
        match index.get(id.as_str()) {
            Some(p) => {
                proof {
                    assert(string_views(ids@)[p as int] == ids@[p as int]@);
                    assert(first_seen(prev).contains(id@));
                }
                let c = counts[p];
                counts.set(p, c + 1);
                proof {
                    assert forall|q: int| 0 <= q < ids@.len() implies #[trigger] counts@[q]
                        == count_of(next, ids@[q]@) by {
                        if q != p {
                            if ids@[q]@ == id@ {
                                assert(index@[ids@[q]@] == q);
                            }
                        }
                    }
                }
            },
            None => {
                proof {
                    if first_seen(prev).contains(id@) {
                        let p = choose|p: int| 0 <= p < first_seen(prev).len() && first_seen(prev)[p] == id@;
                        assert(string_views(ids@)[p] == ids@[p]@);
                        assert(index@.dom().contains(ids@[p]@));
                    }
                }
                let ghost old_ids = ids@;
                let pos = ids.len();
                index.insert(owned(id.as_str()), pos);
                ids.push(owned(id.as_str()));
                counts.push(1);
                proof {
                    assert(string_views(ids@) =~= string_views(old_ids).push(id@));
                    assert forall|q: int| 0 <= q < ids@.len() implies #[trigger] counts@[q]
                        == count_of(next, ids@[q]@) by {
                        if q < old_ids.len() {
                            assert(ids@[q] == old_ids[q]);
                            if old_ids[q]@ == id@ {
                                assert(index@.dom().contains(old_ids[q]@));
                            }
                        } else {
                            assert(count_of(prev, id@) == 0) by {
                                lemma_count_zero(prev, id@);
                            }
                        }
                    }
                }
            },
        }
        k = k + 1;
    }
    proof {
        assert(vs.take(vehicles@.len() as int) =~= vs);
    }
    // The ids reported more than once, still in first-seen order.
    let ghost seen = string_views(ids@);
    let mut rep: Vec<String> = Vec::new();
    let mut rep_counts: Vec<usize> = Vec::new();
    let mut p: usize = 0;
    while p < ids.len()
        invariant
            p <= ids@.len(),
            seen == string_views(ids@),
            seen == first_seen(vs),
            counts@.len() == ids@.len(),
            forall|q: int| 0 <= q < ids@.len() ==> #[trigger] counts@[q] == count_of(vs, ids@[q]@),
            string_views(rep@) == repeated(seen.take(p as int), vs),
            rep_counts@.len() == rep@.len(),
            forall|q: int| 0 <= q < rep@.len() ==> #[trigger] rep_counts@[q] == count_of(vs, rep@[q]@),
        decreases ids.len() - p,
    {
        proof {
            assert(seen.take(p as int + 1).drop_last() =~= seen.take(p as int));
            assert(seen.take(p as int + 1).last() == ids@[p as int]@);
        }
        if counts[p] > 1 {
            let ghost old_rep = rep@;
            rep.push(owned(ids[p].as_str()));
            rep_counts.push(counts[p]);
            proof {
                assert(string_views(rep@) =~= string_views(old_rep).push(ids@[p as int]@));
            }
        }
        p = p + 1;
    }
    proof {
        assert(seen.take(ids@.len() as int) =~= seen);
    }
    // Insert each into key order.
    let ghost reps = string_views(rep@);
    let mut sorted: Vec<String> = Vec::new();
    let mut sorted_counts: Vec<usize> = Vec::new();
    let mut m: usize = 0;
    while m < rep.len()
        invariant
            m <= rep@.len(),
            reps == string_views(rep@),
            rep_counts@.len() == rep@.len(),
            forall|q: int| 0 <= q < rep@.len() ==> #[trigger] rep_counts@[q] == count_of(vs, rep@[q]@),
            string_views(sorted@) == sort_ids(reps.take(m as int)),
            sorted_counts@.len() == sorted@.len(),
            forall|q: int| 0 <= q < sorted@.len() ==> #[trigger] sorted_counts@[q] == count_of(
                vs,
                sorted@[q]@,
            ),
        decreases rep.len() - m,
    {
        let x = &rep[m];
        let ghost sv = string_views(sorted@);
        let mut q: usize = 0;
        proof {
            assert(sv.skip(0) =~= sv);
        }
        while q < sorted.len() && !key_less(x.as_str(), sorted[q].as_str())
            invariant
                q <= sorted@.len(),
                sv == string_views(sorted@),
                insertion_point(sv, x@) == q + insertion_point(sv.skip(q as int), x@),
            decreases sorted.len() - q,
        {
            proof {
                assert(sv.skip(q as int).drop_first() =~= sv.skip(q as int + 1));
                assert(sv.skip(q as int)[0] == sorted@[q as int]@);
            }
            q = q + 1;
        }
        proof {
            if q < sorted@.len() {
                assert(sv.skip(q as int)[0] == sorted@[q as int]@);
            }
            assert(insertion_point(sv, x@) == q);
            assert(reps.take(m as int + 1).drop_last() =~= reps.take(m as int));
            assert(reps.take(m as int + 1).last() == x@);
        }
        let ghost old_sorted = sorted@;
        let ghost old_counts = sorted_counts@;
        sorted.insert(q, owned(x.as_str()));
        sorted_counts.insert(q, rep_counts[m]);
        proof {
            assert(string_views(sorted@) =~= sv.insert(q as int, x@));
            assert forall|r: int| 0 <= r < sorted@.len() implies #[trigger] sorted_counts@[r]
                == count_of(vs, sorted@[r]@) by {
                if r < q {
                    assert(sorted@[r] == old_sorted[r]);
                } else if r > q {
                    assert(sorted@[r] == old_sorted[r - 1]);
                }
            }
        }
        m = m + 1;
    }
    proof {
        assert(reps.take(rep@.len() as int) =~= reps);
    }
    // One warning per id.
    let ghost order = string_views(sorted@);
    let mut out: Vec<Notice> = Vec::new();
    let mut n: usize = 0;
    while n < sorted.len()
        invariant
            n <= sorted@.len(),
            order == string_views(sorted@),
            sorted_counts@.len() == sorted@.len(),
            forall|q: int| 0 <= q < sorted@.len() ==> #[trigger] sorted_counts@[q] == count_of(
                vs,
                sorted@[q]@,
            ),
            views(out@) == order.take(n as int).map_values(
                |id: Seq<char>| vehicle_notice(id, count_of(vs, id)),
            ),
        decreases sorted.len() - n,
    {
        let id = &sorted[n];
        let mut message = String::new();
        push_lit(&mut message, "trip_id '");
        push_lit(&mut message, id.as_str());
        push_lit(&mut message, "' için aynı snapshot'ta ");
        push_decimal(&mut message, sorted_counts[n] as u64);
        push_lit(&mut message, " araç bildiriyor");
        let ghost before = views(out@);
        push_notice(
            &mut out,
            "RT_MULTIPLE_VEHICLES_FOR_TRIP",
            Severity::Warning,
            &None,
            owned("vehicle.trip.trip_id"),
            message,
        );
        proof {
            assert(views(out@) =~= order.take(n as int + 1).map_values(
                |id: Seq<char>| vehicle_notice(id, count_of(vs, id)),
            ));
        }
        n = n + 1;
    }
    proof {
        assert(order.take(sorted@.len() as int) =~= order);
    }
    out
}

proof fn lemma_count_zero(vs: Seq<Seq<char>>, id: Seq<char>)
    requires
        !first_seen(vs).contains(id),
    ensures
        count_of(vs, id) == 0,
    decreases vs.len(),
{
    if vs.len() > 0 {
        assert(vs.drop_last().push(vs.last()) =~= vs);
        lemma_first_seen_grows(vs.drop_last(), vs.last());
        lemma_count_zero(vs.drop_last(), id);
        if vs.last() == id {
            assert(first_seen(vs).contains(id)) by {
                if first_seen(vs.drop_last()).contains(vs.last()) {
                } else {
                    assert(first_seen(vs)[first_seen(vs).len() - 1] == id);
                }
            }
        }
    }
}

proof fn lemma_first_seen_grows(vs: Seq<Seq<char>>, x: Seq<char>)
    ensures
        forall|y: Seq<char>| first_seen(vs).contains(y) ==> #[trigger] first_seen(vs.push(x)).contains(y),
{
    assert(vs.push(x).drop_last() =~= vs);
    assert forall|y: Seq<char>| first_seen(vs).contains(y) implies #[trigger] first_seen(
        vs.push(x),
    ).contains(y) by {
        let i = choose|i: int| 0 <= i < first_seen(vs).len() && first_seen(vs)[i] == y;
        if !first_seen(vs).contains(x) {
            assert(first_seen(vs.push(x))[i] == y);
        }
    }
}

fn bump_count(n: usize) -> (r: usize)
    ensures
        r == bump(n),
{
    if n < usize::MAX {
        n + 1
    } else {
        n
    }
}

/// The running totals as a plain value.
pub open spec fn tally_of(
    notices: Seq<Notice>,
    checked_entities: usize,
    skipped: usize,
    checked_updates: usize,
    vehicle_trips: usize,
    vehicles: Seq<String>,
) -> Tally {
    Tally {
        notices: views(notices),
        checked_entities,
        skipped_dynamic_trips: skipped,
        checked_stop_time_updates: checked_updates,
        vehicle_trips,
        vehicles: string_views(vehicles),
    }
}

/// Number of trip references in the snapshot (capped at `usize::MAX`).
fn count_trip_references(realtime: &FeedMessage) -> (n: usize)
    ensures
        n == cap(trip_references(realtime@.entity)),
{
    let ghost es = realtime@.entity;
    let mut n: usize = 0;
    let mut i: usize = 0;
    while i < realtime.entity.len()
        invariant
            i <= realtime.entity@.len(),
            es == realtime@.entity,
            n == cap(trip_references(es.take(i as int))),
        decreases realtime.entity.len() - i,
    {
        proof {
            assert(es.take(i as int + 1).drop_last() =~= es.take(i as int));
            assert(es.take(i as int + 1).last() == realtime.entity@[i as int]@);
        }
        let e = &realtime.entity[i];
        if let Some(tu) = &e.trip_update {
            if tu.trip.is_some() {
                n = bump_count(n);
            }
        }
        if let Some(vp) = &e.vehicle {
            if vp.trip.is_some() {
                n = bump_count(n);
            }
        }
        i = i + 1;
    }
    proof {
        assert(es.take(realtime.entity@.len() as int) =~= es);
    }
    n
}

/// Compares a realtime snapshot with the static GTFS indexes.
pub fn check_snapshot(static_feed: &StaticFeed, realtime: &FeedMessage) -> (r: ConsistencyReport)
    ensures
        r@ == spec_check_snapshot(static_feed@, realtime@),
{
    let ghost f = static_feed@;
    let ghost es = realtime@.entity;
    let ghost goal = entities_from(f, es, 0, empty_tally());
    let mut notices: Vec<Notice> = Vec::new();
    let mut checked_entities: usize = 0;
    let mut skipped: usize = 0;
    let mut checked_updates: usize = 0;
    let mut vehicle_trips: usize = 0;
    let mut vehicles: Vec<String> = Vec::new();
    proof {
        assert(views(notices@) =~= Seq::<NoticeView>::empty());
        assert(string_views(vehicles@) =~= Seq::<Seq<char>>::empty());
        assert(tally_of(notices@, 0, 0, 0, 0, vehicles@) == empty_tally());
    }
    let mut i: usize = 0;
    while i < realtime.entity.len()
        invariant
            f == static_feed@,
            es == realtime@.entity,
            i <= es.len(),
            goal == entities_from(
                f,
                es,
                i as int,
                tally_of(notices@, checked_entities, skipped, checked_updates, vehicle_trips, vehicles@),
            ),
        decreases realtime.entity.len() - i,
    {
        let entity = &realtime.entity[i];
        let ghost e = entity@;
        checked_entities = bump_count(checked_entities);
        let ghost t1 = tally_of(notices@, checked_entities, skipped, checked_updates, vehicle_trips, vehicles@);
        if let Some(trip_update) = &entity.trip_update {
            if let Some(trip) = &trip_update.trip {
                let path = trip_path_string(i, "trip_update");
                check_trip_reference(static_feed, trip, &entity.id, &path, &mut notices);
                let ghost ta = tally_of(notices@, checked_entities, skipped, checked_updates, vehicle_trips, vehicles@);
                if is_dynamic_trip(trip) {
                    skipped = bump_count(skipped);
                } else if let Some(trip_id) = &trip.trip_id {
                    if let Some(static_trip) = static_feed.trip(trip_id.as_str()) {
                        let updates = &trip_update.stop_time_update;
                        let ghost ups = trip_update@.stop_time_update;
                        let ghost inner_goal = updates_from(f, trip_id@, ups, 0, e.id, i as nat, ta);
                        let mut j: usize = 0;
                        while j < updates.len()
                            invariant
                                f == static_feed@,
                                j <= updates@.len(),
                                ups == updates@.map_values(|u: StopTimeUpdate| u@),
                                static_trip.trip_id@ == trip_id@,
                                e.id == opt_view(entity.id),
                                inner_goal == updates_from(
                                    f,
                                    trip_id@,
                                    ups,
                                    j as int,
                                    e.id,
                                    i as nat,
                                    tally_of(
                                        notices@,
                                        checked_entities,
                                        skipped,
                                        checked_updates,
                                        vehicle_trips,
                                        vehicles@,
                                    ),
                                ),
                            decreases updates.len() - j,
                        {
                            checked_updates = bump_count(checked_updates);
                            let path = update_path_string(i, j);
                            check_stop_time_update(
                                static_feed,
                                static_trip.trip_id.as_str(),
                                &updates[j],
                                &entity.id,
                                &path,
                                &mut notices,
                            );
                            j = j + 1;
                        }
                    }
                }
            }
        }
        let ghost t2 = tally_of(notices@, checked_entities, skipped, checked_updates, vehicle_trips, vehicles@);
        assert(t2 == trip_update_step(f, e, i as nat, t1));
        if let Some(vehicle) = &entity.vehicle {
            if let Some(trip) = &vehicle.trip {
                let path = trip_path_string(i, "vehicle");
                check_trip_reference(static_feed, trip, &entity.id, &path, &mut notices);
                if is_dynamic_trip(trip) {
                    skipped = bump_count(skipped);
                } else if let Some(trip_id) = &trip.trip_id {
                    vehicle_trips = bump_count(vehicle_trips);
                    let ghost old_vehicles = vehicles@;
                    vehicles.push(owned(trip_id.as_str()));
                    proof {
                        assert(string_views(vehicles@) =~= string_views(old_vehicles).push(trip_id@));
                    }
                }
            }
        }
        proof {
            assert(tally_of(notices@, checked_entities, skipped, checked_updates, vehicle_trips, vehicles@)
                == vehicle_step(f, e, i as nat, t2));
        }
        i = i + 1;
    }
    let tail = multiple_vehicle_notices(&vehicles);
    let ghost head = views(notices@);
    let mut k: usize = 0;
    while k < tail.len()
        invariant
            k <= tail@.len(),
            views(notices@) == head + views(tail@).take(k as int),
        decreases tail.len() - k,
    {
        let ghost before = views(notices@);
        let n = Notice {
            code: tail[k].code,
            severity: tail[k].severity,
            entity_id: copy_opt(&tail[k].entity_id),
            path: owned(tail[k].path.as_str()),
            message: owned(tail[k].message.as_str()),
        };
        notices.push(n);
        proof {
            assert(views(notices@) =~= before.push(tail@[k as int]@));
            assert(views(tail@).take(k as int + 1) =~= views(tail@).take(k as int).push(tail@[k as int]@));
        }
        k = k + 1;
    }
    proof {
        assert(views(tail@).take(tail@.len() as int) =~= views(tail@));
    }
    ConsistencyReport {
        notices,
        checked_entities,
        checked_trip_references: count_trip_references(realtime),
        skipped_dynamic_trips: skipped,
        checked_stop_time_updates: checked_updates,
        vehicle_trips,
    }
}

// ── Laws ─────────────────────────────────────────────────────────────────────

/// The trip id a trip descriptor names, when it names one.
pub open spec fn named_trip(t: Option<TripDescriptorView>) -> Option<Seq<char>> {
    match t {
        Some(trip) => trip.trip_id,
        None => None,
    }
}

/// Whether the entity refers to the trip `id`: through its trip update, its
/// vehicle position or one of its alert's informed entities.
pub open spec fn refers_to(e: FeedEntityView, id: Seq<char>) -> bool {
    ||| (e.trip_update matches Some(tu) && named_trip(tu.trip) == Some(id))
    ||| (e.vehicle matches Some(vp) && named_trip(vp.trip) == Some(id))
    ||| (e.alert matches Some(a) && exists|j: int|
        0 <= j < a.informed_entity.len() && named_trip(#[trigger] a.informed_entity[j].trip) == Some(
            id,
        ))
}

/// Every trip id the snapshot refers to, whatever its schedule relationship.
pub open spec fn spec_referenced_trips(rt: FeedMessageView) -> Set<Seq<char>> {
    Set::new(|id: Seq<char>| exists|k: int| 0 <= k < rt.entity.len() && refers_to(#[trigger] rt.entity[k], id))
}

/// Two static feeds that hold the same trips and stops, and the same stop
/// times for the trips `ids`.
pub open spec fn agree_on(f1: StaticFeedView, f2: StaticFeedView, ids: Set<Seq<char>>) -> bool {
    &&& f1.trips.map == f2.trips.map
    &&& f1.stops.map == f2.stops.map
    &&& forall|id: Seq<char>| #[trigger]
        ids.contains(id) ==> (f1.stop_times.map.dom().contains(id) == f2.stop_times.map.dom().contains(
            id,
        ) && (f1.stop_times.map.dom().contains(id) ==> f1.stop_times.map[id]
            == f2.stop_times.map[id]))
}

proof fn lemma_updates_agree(
    f1: StaticFeedView,
    f2: StaticFeedView,
    trip_id: Seq<char>,
    updates: Seq<StopTimeUpdateView>,
    j: int,
    entity_id: Option<Seq<char>>,
    index: nat,
    t: Tally,
)
    requires
        agree_on(f1, f2, set![trip_id]),
    ensures
        updates_from(f1, trip_id, updates, j, entity_id, index, t) == updates_from(
            f2,
            trip_id,
            updates,
            j,
            entity_id,
            index,
            t,
        ),
    decreases updates.len() - j,
{
    if 0 <= j < updates.len() {
        assert(set![trip_id].contains(trip_id));
        assert(update_notices(f1, trip_id, updates[j], entity_id, update_path(index, j as nat))
            == update_notices(f2, trip_id, updates[j], entity_id, update_path(index, j as nat)));
        lemma_updates_agree(
            f1,
            f2,
            trip_id,
            updates,
            j + 1,
            entity_id,
            index,
            Tally {
                checked_stop_time_updates: bump(t.checked_stop_time_updates),
                notices: t.notices + update_notices(
                    f1,
                    trip_id,
                    updates[j],
                    entity_id,
                    update_path(index, j as nat),
                ),
                ..t
            },
        );
    }
}

proof fn lemma_entities_agree(
    f1: StaticFeedView,
    f2: StaticFeedView,
    es: Seq<FeedEntityView>,
    i: int,
    t: Tally,
    ids: Set<Seq<char>>,
)
    requires
        agree_on(f1, f2, ids),
        forall|k: int, id: Seq<char>| 0 <= k < es.len() && #[trigger] refers_to(es[k], id) ==> ids.contains(id),
    ensures
        entities_from(f1, es, i, t) == entities_from(f2, es, i, t),
    decreases es.len() - i,
{
    if 0 <= i < es.len() {
        let e = es[i];
        let t1 = Tally { checked_entities: bump(t.checked_entities), ..t };
        assert(trip_update_step(f1, e, i as nat, t1) == trip_update_step(f2, e, i as nat, t1)) by {
            if let Some(tu) = e.trip_update {
                if let Some(trip) = tu.trip {
                    if let Some(id) = trip.trip_id {
                        assert(refers_to(es[i], id));
                        assert(ids.contains(id));
                        assert(agree_on(f1, f2, set![id]));
                        let ta = Tally {
                            notices: t1.notices + trip_reference_notices(
                                f1,
                                trip,
                                e.id,
                                trip_path(i as nat, "trip_update"@),
                            ),
                            ..t1
                        };
                        lemma_updates_agree(f1, f2, id, tu.stop_time_update, 0, e.id, i as nat, ta);
                    }
                }
            }
        }
        let t2 = trip_update_step(f1, e, i as nat, t1);
        assert(vehicle_step(f1, e, i as nat, t2) == vehicle_step(f2, e, i as nat, t2));
        lemma_entities_agree(f1, f2, es, i + 1, vehicle_step(f1, e, i as nat, t2), ids);
    }
}

/// A schedule read only for the trips a snapshot refers to gives the same
/// report as the whole schedule: the rules consult stop times only for trips
/// the snapshot names, and trips and stops in full.
pub proof fn law_filtered_schedule_gives_the_same_report(
    full: StaticFeedView,
    filtered: StaticFeedView,
    rt: FeedMessageView,
)
    requires
        agree_on(full, filtered, spec_referenced_trips(rt)),
    ensures
        spec_check_snapshot(full, rt) == spec_check_snapshot(filtered, rt),
{
    let ids = spec_referenced_trips(rt);
    assert forall|k: int, id: Seq<char>| 0 <= k < rt.entity.len() && #[trigger] refers_to(
        rt.entity[k],
        id,
    ) implies ids.contains(id) by {}
    lemma_entities_agree(full, filtered, rt.entity, 0, empty_tally(), ids);
}

/// Trips marked `ADDED`, `NEW` or `DUPLICATED` never get a trip or route notice.
pub proof fn law_dynamic_trips_are_not_looked_up(
    f: StaticFeedView,
    t: TripDescriptorView,
    entity_id: Option<Seq<char>>,
    path: Seq<char>,
)
    requires
        spec_is_dynamic(t),
    ensures
        trip_reference_notices(f, t, entity_id, path).len() == 0,
{
}

/// A trip that `trips.txt` holds under the same route gets no trip or route notice.
pub proof fn law_known_trip_on_its_route_is_clean(
    f: StaticFeedView,
    t: TripDescriptorView,
    entity_id: Option<Seq<char>>,
    path: Seq<char>,
)
    requires
        t.trip_id matches Some(id) && f.trips.map.dom().contains(id) && (t.route_id matches Some(
            r,
        ) ==> r == f.trips.map[id].route_id),
    ensures
        trip_reference_notices(f, t, entity_id, path).len() == 0,
{
}

/// Reading the schedule keeping only the stop times of the trips a snapshot
/// refers to (or more) gives the same report as reading all of it.
pub proof fn law_filtered_read_gives_the_same_report(
    bytes: Seq<u8>,
    wanted: Set<Seq<char>>,
    rt: FeedMessageView,
    full: StaticFeedView,
    part: StaticFeedView,
)
    requires
        spec_referenced_trips(rt).subset_of(wanted),
        spec_read_feed(bytes, None) matches Ok(m) && describes(full, m),
        spec_read_feed(bytes, Some(wanted)) matches Ok(n) && describes(part, n),
    ensures
        spec_check_snapshot(full, rt) == spec_check_snapshot(part, rt),
{
    law_filter_changes_only_the_kept_stop_times(bytes, wanted, standard_limits());
    let m = spec_read_feed(bytes, None)->Ok_0;
    law_filtered_groups(m.stop_rows, wanted);
    let ids = spec_referenced_trips(rt);
    assert forall|id: Seq<char>| #[trigger] ids.contains(id) implies (full.stop_times.map.dom().contains(
        id,
    ) == part.stop_times.map.dom().contains(id) && (full.stop_times.map.dom().contains(id)
        ==> full.stop_times.map[id] == part.stop_times.map[id])) by {
        assert(wanted.contains(id));
    }
    law_filtered_schedule_gives_the_same_report(full, part, rt);
}

/// The report on a static feed depends only on the rows its tables hold.
pub proof fn lemma_report_of_rows(v: StaticFeedView, m: StaticRows, rt: FeedMessageView)
    requires
        describes(v, m),
    ensures
        spec_check_snapshot(v, rt) == spec_check_snapshot(rows_view(m), rt),
{
    law_filtered_schedule_gives_the_same_report(v, rows_view(m), rt);
}

/// A stop id missing from `stops.txt` is reported whether or not the trip
/// has rows in `stop_times.txt`.
pub proof fn law_unknown_stop_is_reported_whatever_the_stop_times(
    f: StaticFeedView,
    trip_id: Seq<char>,
    u: StopTimeUpdateView,
    entity_id: Option<Seq<char>>,
    path: Seq<char>,
)
    requires
        u.stop_id matches Some(stop_id) && !f.stops.map.dom().contains(stop_id),
    ensures
        update_notices(f, trip_id, u, entity_id, path).len() >= 1,
        update_notices(f, trip_id, u, entity_id, path)[0].code == "RT_STOP_NOT_IN_STATIC",
        update_notices(f, trip_id, u, entity_id, path)[0].path == path + ".stop_id"@,
{
}

/// A stop marked `SKIPPED` or `NO_DATA` that carries an arrival or a
/// departure is reported.
pub proof fn law_timed_non_stopping_update_is_reported(
    f: StaticFeedView,
    trip_id: Seq<char>,
    u: StopTimeUpdateView,
    entity_id: Option<Seq<char>>,
    path: Seq<char>,
)
    requires
        spec_is_non_stopping(u),
        u.arrival is Some || u.departure is Some,
    ensures
        exists|i: int|
            0 <= i < update_notices(f, trip_id, u, entity_id, path).len() && (#[trigger] update_notices(
                f,
                trip_id,
                u,
                entity_id,
                path,
            )[i]).code == "RT_TIME_ON_NON_STOPPING_UPDATE",
{
    let n = update_notices(f, trip_id, u, entity_id, path);
    let k: int = match u.stop_id {
        Some(stop_id) => if !f.stops.map.dom().contains(stop_id) { 1 } else { 0 },
        None => 0,
    };
    assert(n[k].code == "RT_TIME_ON_NON_STOPPING_UPDATE");
}


/// The notice for a timed stop that is not served comes exactly when the
/// update is `SKIPPED` or `NO_DATA` and carries an arrival or a departure;
/// it is a warning on the update's `schedule_relationship`.
pub proof fn law_timed_non_stopping_notice_exactly_when(
    f: StaticFeedView,
    trip_id: Seq<char>,
    u: StopTimeUpdateView,
    entity_id: Option<Seq<char>>,
    path: Seq<char>,
)
    ensures
        ({
            let n = update_notices(f, trip_id, u, entity_id, path);
            &&& (exists|i: int| 0 <= i < n.len() && (#[trigger] n[i]).code@
                == "RT_TIME_ON_NON_STOPPING_UPDATE"@) == ((u.schedule_relationship == Some(
                StopTimeScheduleRelationship::Skipped,
            ) || u.schedule_relationship == Some(StopTimeScheduleRelationship::NoData)) && (
            u.arrival is Some || u.departure is Some))
            &&& forall|i: int|
                0 <= i < n.len() && (#[trigger] n[i]).code@ == "RT_TIME_ON_NON_STOPPING_UPDATE"@
                    ==> n[i].severity == Severity::Warning && n[i].path == path
                    + ".schedule_relationship"@
        }),
{
    reveal_strlit("RT_STOP_NOT_IN_STATIC");
    reveal_strlit("RT_TIME_ON_NON_STOPPING_UPDATE");
    reveal_strlit("RT_STOP_SEQUENCE_NOT_IN_STATIC");
    reveal_strlit("RT_STOP_SEQUENCE_MISMATCH");
    assert("RT_STOP_NOT_IN_STATIC"@.len() != "RT_TIME_ON_NON_STOPPING_UPDATE"@.len());
    assert("RT_STOP_SEQUENCE_NOT_IN_STATIC"@[3] != "RT_TIME_ON_NON_STOPPING_UPDATE"@[3]);
    assert("RT_STOP_SEQUENCE_MISMATCH"@.len() != "RT_TIME_ON_NON_STOPPING_UPDATE"@.len());
    let n = update_notices(f, trip_id, u, entity_id, path);
    let k: int = match u.stop_id {
        Some(stop_id) => if !f.stops.map.dom().contains(stop_id) { 1 } else { 0 },
        None => 0,
    };
    let timed = (u.schedule_relationship == Some(StopTimeScheduleRelationship::Skipped)
        || u.schedule_relationship == Some(StopTimeScheduleRelationship::NoData)) && (u.arrival is Some
        || u.departure is Some);
    assert forall|i: int| 0 <= i < n.len() implies ((#[trigger] n[i]).code@
        == "RT_TIME_ON_NON_STOPPING_UPDATE"@) == (timed && i == k) by {
        if i < k {
        } else if timed && i == k {
        } else {
        }
    }
    if timed {
        assert(n[k].code@ == "RT_TIME_ON_NON_STOPPING_UPDATE"@);
    }
}


/// Whether some notice of `n` has the code `code`.
pub open spec fn has_code(n: Seq<NoticeView>, code: &'static str) -> bool {
    exists|i: int| 0 <= i < n.len() && (#[trigger] n[i]).code@ == code@
}

proof fn lemma_has_code_concat(a: Seq<NoticeView>, b: Seq<NoticeView>, code: &'static str)
    ensures
        has_code(a + b, code) == (has_code(a, code) || has_code(b, code)),
{
    let ab = a + b;
    if has_code(ab, code) {
        let i = choose|i: int| 0 <= i < ab.len() && (#[trigger] ab[i]).code@ == code@;
        if i < a.len() {
            assert(ab[i] == a[i]);
        } else {
            assert(ab[i] == b[i - a.len()]);
        }
    }
    if has_code(a, code) {
        let i = choose|i: int| 0 <= i < a.len() && (#[trigger] a[i]).code@ == code@;
        assert(ab[i] == a[i]);
    }
    if has_code(b, code) {
        let i = choose|i: int| 0 <= i < b.len() && (#[trigger] b[i]).code@ == code@;
        assert(ab[i + a.len()] == b[i]);
    }
}

proof fn lemma_has_code_one(x: NoticeView, code: &'static str)
    ensures
        has_code(seq![x], code) == (x.code@ == code@),
        !has_code(Seq::<NoticeView>::empty(), code),
{
    assert(seq![x][0] == x);
}

/// The first stop time with a sequence number is the earliest one that has it.
proof fn lemma_first_with_sequence(times: Seq<StopTimeView>, q: u32)
    ensures
        match first_with_sequence(times, q) {
            None => forall|j: int| 0 <= j < times.len() ==> (#[trigger] times[j]).stop_sequence != q,
            Some(t) => exists|j: int|
                0 <= j < times.len() && #[trigger] times[j] == t && t.stop_sequence == q && (forall|i: int|
                    0 <= i < j ==> (#[trigger] times[i]).stop_sequence != q),
        },
    decreases times.len(),
{
    if times.len() > 0 && times[0].stop_sequence != q {
        let rest = times.drop_first();
        lemma_first_with_sequence(rest, q);
        match first_with_sequence(rest, q) {
            None => {
                assert forall|j: int| 0 <= j < times.len() implies (#[trigger] times[j]).stop_sequence
                    != q by {
                    if j > 0 {
                        assert(times[j] == rest[j - 1]);
                    }
                }
            },
            Some(t) => {
                let j = choose|j: int|
                    0 <= j < rest.len() && #[trigger] rest[j] == t && t.stop_sequence == q && (forall|i: int|
                        0 <= i < j ==> (#[trigger] rest[i]).stop_sequence != q);
                assert(times[j + 1] == t);
                assert forall|i: int| 0 <= i < j + 1 implies (#[trigger] times[i]).stop_sequence != q by {
                    if i > 0 {
                        assert(times[i] == rest[i - 1]);
                    }
                }
            },
        }
    } else if times.len() > 0 {
        assert(times[0] == times[0]);
    }
}

/// Each notice of a stop-time update comes exactly when its condition holds:
/// an unknown stop id; a `SKIPPED` or `NO_DATA` stop with an arrival or a
/// departure; a sequence number no static stop time of a trip with stop
/// times has; a stop id other than that of the first static stop time with
/// the update's sequence number.
pub proof fn law_update_notices_exactly_when(
    f: StaticFeedView,
    trip_id: Seq<char>,
    u: StopTimeUpdateView,
    entity_id: Option<Seq<char>>,
    path: Seq<char>,
)
    ensures
        ({
            let n = update_notices(f, trip_id, u, entity_id, path);
            let times = f.stop_times.map[trip_id];
            &&& has_code(n, "RT_STOP_NOT_IN_STATIC") == (u.stop_id matches Some(id)
                && !f.stops.map.dom().contains(id))
            &&& has_code(n, "RT_TIME_ON_NON_STOPPING_UPDATE") == ((u.schedule_relationship == Some(
                StopTimeScheduleRelationship::Skipped,
            ) || u.schedule_relationship == Some(StopTimeScheduleRelationship::NoData)) && (
            u.arrival is Some || u.departure is Some))
            &&& has_code(n, "RT_STOP_SEQUENCE_NOT_IN_STATIC") == (f.stop_times.map.dom().contains(
                trip_id,
            ) && (u.stop_sequence matches Some(q) && forall|j: int|
                0 <= j < times.len() ==> (#[trigger] times[j]).stop_sequence != q))
            &&& has_code(n, "RT_STOP_SEQUENCE_MISMATCH") == (f.stop_times.map.dom().contains(trip_id)
                && (u.stop_sequence matches Some(q) && u.stop_id matches Some(sid) && exists|j: int|
                0 <= j < times.len() && (#[trigger] times[j]).stop_sequence == q && times[j].stop_id
                != sid && (forall|i: int| 0 <= i < j ==> (#[trigger] times[i]).stop_sequence != q)))
        }),
{
    reveal_strlit("RT_STOP_NOT_IN_STATIC");
    reveal_strlit("RT_TIME_ON_NON_STOPPING_UPDATE");
    reveal_strlit("RT_STOP_SEQUENCE_NOT_IN_STATIC");
    reveal_strlit("RT_STOP_SEQUENCE_MISMATCH");
    assert("RT_STOP_NOT_IN_STATIC"@.len() != "RT_TIME_ON_NON_STOPPING_UPDATE"@.len());
    assert("RT_STOP_NOT_IN_STATIC"@.len() != "RT_STOP_SEQUENCE_NOT_IN_STATIC"@.len());
    assert("RT_STOP_NOT_IN_STATIC"@.len() != "RT_STOP_SEQUENCE_MISMATCH"@.len());
    assert("RT_STOP_SEQUENCE_NOT_IN_STATIC"@[3] != "RT_TIME_ON_NON_STOPPING_UPDATE"@[3]);
    assert("RT_STOP_SEQUENCE_MISMATCH"@.len() != "RT_TIME_ON_NON_STOPPING_UPDATE"@.len());
    assert("RT_STOP_SEQUENCE_MISMATCH"@.len() != "RT_STOP_SEQUENCE_NOT_IN_STATIC"@.len());
    let n = update_notices(f, trip_id, u, entity_id, path);
    let times = f.stop_times.map[trip_id];
    if let Some(q) = u.stop_sequence {
        lemma_first_with_sequence(times, q);
        if let Some(t) = first_with_sequence(times, q) {
            if let Some(sid) = u.stop_id {
                if exists|j: int|
                    0 <= j < times.len() && (#[trigger] times[j]).stop_sequence == q && times[j].stop_id
                        != sid && (forall|i: int| 0 <= i < j ==> (#[trigger] times[i]).stop_sequence
                        != q) {
                    let j = choose|j: int|
                        0 <= j < times.len() && (#[trigger] times[j]).stop_sequence == q
                            && times[j].stop_id != sid && (forall|i: int|
                            0 <= i < j ==> (#[trigger] times[i]).stop_sequence != q);
                    let k = choose|k: int|
                        0 <= k < times.len() && #[trigger] times[k] == t && t.stop_sequence == q && (
                        forall|i: int| 0 <= i < k ==> (#[trigger] times[i]).stop_sequence != q);
                    if j < k {
                        assert(times[j].stop_sequence != q);
                    } else if k < j {
                        assert(times[k].stop_sequence != q);
                    }
                }
            }
        }
    }
    let a = unknown_stop_notices(f, trip_id, u, entity_id, path);
    let b = timed_stop_notices(f, trip_id, u, entity_id, path);
    let c = sequence_notices(f, trip_id, u, entity_id, path);
    let codes: Seq<&'static str> = seq![
        "RT_STOP_NOT_IN_STATIC",
        "RT_TIME_ON_NON_STOPPING_UPDATE",
        "RT_STOP_SEQUENCE_NOT_IN_STATIC",
        "RT_STOP_SEQUENCE_MISMATCH",
    ];
    assert forall|x: int| 0 <= x < 4 implies has_code(n, #[trigger] codes[x]) == (has_code(a, codes[x])
        || has_code(b, codes[x]) || has_code(c, codes[x])) by {
        lemma_has_code_concat(a + b, c, codes[x]);
        lemma_has_code_concat(a, b, codes[x]);
    }
    assert forall|x: int| 0 <= x < 4 implies {
        &&& a.len() == 1 ==> has_code(a, #[trigger] codes[x]) == (a[0].code@ == codes[x]@)
        &&& a.len() == 0 ==> !has_code(a, codes[x])
        &&& b.len() == 1 ==> has_code(b, codes[x]) == (b[0].code@ == codes[x]@)
        &&& b.len() == 0 ==> !has_code(b, codes[x])
        &&& c.len() == 1 ==> has_code(c, codes[x]) == (c[0].code@ == codes[x]@)
        &&& c.len() == 0 ==> !has_code(c, codes[x])
    } by {
        if a.len() == 1 {
            assert(a == seq![a[0]]);
            lemma_has_code_one(a[0], codes[x]);
        }
        if b.len() == 1 {
            assert(b == seq![b[0]]);
            lemma_has_code_one(b[0], codes[x]);
        }
        if c.len() == 1 {
            assert(c == seq![c[0]]);
            lemma_has_code_one(c[0], codes[x]);
        }
    }
    assert(codes[0] == "RT_STOP_NOT_IN_STATIC");
    assert(codes[1] == "RT_TIME_ON_NON_STOPPING_UPDATE");
    assert(codes[2] == "RT_STOP_SEQUENCE_NOT_IN_STATIC");
    assert(codes[3] == "RT_STOP_SEQUENCE_MISMATCH");
}


/// A trip reference gets a notice exactly when it names a trip that is not
/// added, new or duplicated (those have no static counterpart) and either
/// `trips.txt` lacks the trip, or the reference gives a route other than the
/// trip's own.
pub proof fn law_trip_reference_notices_exactly_when(
    f: StaticFeedView,
    t: TripDescriptorView,
    entity_id: Option<Seq<char>>,
    path: Seq<char>,
)
    ensures
        ({
            let n = trip_reference_notices(f, t, entity_id, path);
            let looked_up = !(t.schedule_relationship == Some(TripScheduleRelationship::Added)
                || t.schedule_relationship == Some(TripScheduleRelationship::New)
                || t.schedule_relationship == Some(TripScheduleRelationship::Duplicated));
            &&& has_code(n, "RT_TRIP_NOT_IN_STATIC") == (t.trip_id matches Some(id) && looked_up
                && !f.trips.map.dom().contains(id))
            &&& has_code(n, "RT_ROUTE_MISMATCH") == (t.trip_id matches Some(id) && looked_up
                && f.trips.map.dom().contains(id) && (t.route_id matches Some(r) && r
                != f.trips.map[id].route_id))
            &&& n.len() <= 1
        }),
{
    reveal_strlit("RT_TRIP_NOT_IN_STATIC");
    reveal_strlit("RT_ROUTE_MISMATCH");
    assert("RT_TRIP_NOT_IN_STATIC"@.len() != "RT_ROUTE_MISMATCH"@.len());
    let n = trip_reference_notices(f, t, entity_id, path);
    if n.len() == 1 {
        assert(n == seq![n[0]]);
        lemma_has_code_one(n[0], "RT_TRIP_NOT_IN_STATIC");
        lemma_has_code_one(n[0], "RT_ROUTE_MISMATCH");
    } else {
        lemma_has_code_one(n[0], "RT_TRIP_NOT_IN_STATIC");
        assert(n =~= Seq::<NoticeView>::empty());
    }
}


proof fn lemma_count_of_positive(vs: Seq<Seq<char>>, x: Seq<char>)
    ensures
        (count_of(vs, x) > 0) == vs.contains(x),
    decreases vs.len(),
{
    if vs.len() > 0 {
        lemma_count_of_positive(vs.drop_last(), x);
        if vs.drop_last().contains(x) {
            let i = choose|i: int| 0 <= i < vs.drop_last().len() && vs.drop_last()[i] == x;
            assert(vs[i] == x);
        }
        if vs.contains(x) {
            let i = choose|i: int| 0 <= i < vs.len() && vs[i] == x;
            if i < vs.len() - 1 {
                assert(vs.drop_last()[i] == x);
            }
        }
    }
}

proof fn lemma_first_seen_members(vs: Seq<Seq<char>>, x: Seq<char>)
    ensures
        first_seen(vs).contains(x) == vs.contains(x),
    decreases vs.len(),
{
    if vs.len() > 0 {
        let f = first_seen(vs.drop_last());
        lemma_first_seen_members(vs.drop_last(), x);
        lemma_first_seen_members(vs.drop_last(), vs.last());
        if vs.drop_last().contains(x) {
            let i = choose|i: int| 0 <= i < vs.drop_last().len() && vs.drop_last()[i] == x;
            assert(vs[i] == x);
        }
        if vs.contains(x) && x != vs.last() {
            let i = choose|i: int| 0 <= i < vs.len() && vs[i] == x;
            assert(vs.drop_last()[i] == x);
        }
        if !f.contains(vs.last()) {
            if f.push(vs.last()).contains(x) && x != vs.last() {
                let i = choose|i: int| 0 <= i < f.push(vs.last()).len() && f.push(vs.last())[i] == x;
                assert(f[i] == x);
            }
            if f.contains(x) {
                let i = choose|i: int| 0 <= i < f.len() && f[i] == x;
                assert(f.push(vs.last())[i] == x);
            }
            assert(f.push(vs.last())[f.len() as int] == vs.last());
        }
    }
}

proof fn lemma_repeated_members(ids: Seq<Seq<char>>, vs: Seq<Seq<char>>, x: Seq<char>)
    ensures
        repeated(ids, vs).contains(x) == (ids.contains(x) && count_of(vs, x) > 1),
    decreases ids.len(),
{
    if ids.len() > 0 {
        let r = repeated(ids.drop_last(), vs);
        lemma_repeated_members(ids.drop_last(), vs, x);
        if ids.drop_last().contains(x) {
            let i = choose|i: int| 0 <= i < ids.drop_last().len() && ids.drop_last()[i] == x;
            assert(ids[i] == x);
        }
        if ids.contains(x) && x != ids.last() {
            let i = choose|i: int| 0 <= i < ids.len() && ids[i] == x;
            assert(ids.drop_last()[i] == x);
        }
        if count_of(vs, ids.last()) > 1 {
            if r.push(ids.last()).contains(x) && x != ids.last() {
                let i = choose|i: int| 0 <= i < r.push(ids.last()).len() && r.push(ids.last())[i] == x;
                assert(r[i] == x);
            }
            if r.contains(x) {
                let i = choose|i: int| 0 <= i < r.len() && r[i] == x;
                assert(r.push(ids.last())[i] == x);
            }
            assert(r.push(ids.last())[r.len() as int] == ids.last());
        }
    }
}

proof fn lemma_insertion_point_bounds(sorted: Seq<Seq<char>>, x: Seq<char>)
    ensures
        0 <= insertion_point(sorted, x) <= sorted.len(),
    decreases sorted.len(),
{
    if sorted.len() > 0 {
        lemma_insertion_point_bounds(sorted.drop_first(), x);
    }
}

proof fn lemma_sort_ids_members(ids: Seq<Seq<char>>, x: Seq<char>)
    ensures
        sort_ids(ids).contains(x) == ids.contains(x),
        sort_ids(ids).len() == ids.len(),
    decreases ids.len(),
{
    if ids.len() > 0 {
        let s = sort_ids(ids.drop_last());
        let y = ids.last();
        lemma_sort_ids_members(ids.drop_last(), x);
        lemma_insertion_point_bounds(s, y);
        let p = insertion_point(s, y);
        let t = s.insert(p, y);
        assert(t[p] == y);
        if s.contains(x) {
            let i = choose|i: int| 0 <= i < s.len() && s[i] == x;
            if i < p {
                assert(t[i] == x);
            } else {
                assert(t[i + 1] == x);
            }
        }
        if t.contains(x) && x != y {
            let i = choose|i: int| 0 <= i < t.len() && t[i] == x;
            if i < p {
                assert(s[i] == x);
            } else {
                assert(s[i - 1] == x);
            }
        }
        if ids.drop_last().contains(x) {
            let i = choose|i: int| 0 <= i < ids.drop_last().len() && ids.drop_last()[i] == x;
            assert(ids[i] == x);
        }
        if ids.contains(x) && x != y {
            let i = choose|i: int| 0 <= i < ids.len() && ids[i] == x;
            assert(ids.drop_last()[i] == x);
        }
    }
}

/// A trip is warned about for several vehicles exactly when more than one
/// vehicle of the snapshot reports it; each warning gives the trip and how
/// many vehicles report it.
pub proof fn law_vehicle_warnings_exactly_when(vs: Seq<Seq<char>>, id: Seq<char>)
    ensures
        ({
            let ids = sort_ids(repeated(first_seen(vs), vs));
            let n = vehicle_notices(vs);
            &&& ids.contains(id) == (count_of(vs, id) > 1)
            &&& n.len() == ids.len()
            &&& forall|i: int|
                0 <= i < n.len() ==> (#[trigger] n[i]).code == "RT_MULTIPLE_VEHICLES_FOR_TRIP"
                    && n[i].severity == Severity::Warning && count_of(vs, ids[i]) > 1
                    && n[i].message == "trip_id '"@ + ids[i] + "' için aynı snapshot'ta "@
                    + decimal(count_of(vs, ids[i])) + " araç bildiriyor"@
        }),
{
    let ids = sort_ids(repeated(first_seen(vs), vs));
    lemma_sort_ids_members(repeated(first_seen(vs), vs), id);
    lemma_repeated_members(first_seen(vs), vs, id);
    lemma_first_seen_members(vs, id);
    lemma_count_of_positive(vs, id);
    assert forall|i: int| 0 <= i < ids.len() implies count_of(vs, #[trigger] ids[i]) > 1 by {
        lemma_sort_ids_members(repeated(first_seen(vs), vs), ids[i]);
        lemma_repeated_members(first_seen(vs), vs, ids[i]);
        assert(ids.contains(ids[i]));
    }
}

} // verus!
