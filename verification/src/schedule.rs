//! A narrow static GTFS reader.
//!
//! Only the five tables needed to match realtime data are read: `routes`,
//! `trips`, `stops`, `stop_times` and the optional `calendar`. No rules run
//! here; the indexes are handed to the consistency rules.
use vstd::prelude::*;
use crate::archive::{
    open_archive, read_optional, read_required, spec_read_optional, spec_read_required, zip_entries,
    zip_listing,
};
use std::io::Cursor;
use zip::ZipArchive;
use crate::index::{str_set_contents, text_lt, StrIndex, StrSet};
use crate::decode::opt_view;
use crate::text::{decimal, push_decimal, push_lit};
use crate::reader::{
    calendar_key, group_map, groups_match, kept_only, law_filtered_stop_times, parse_calendars, parse_routes,
    parse_stop_times_within,
    parse_stops, parse_trips, route_key, spec_parse_calendars, spec_parse_routes,
    spec_parse_stop_times, spec_parse_stops, spec_parse_trips, stop_key, trip_key, StopRow,
};

verus! {

#[derive(Debug, Clone, PartialEq, Eq)]
pub struct Route {
    pub route_id: String,
    pub route_short_name: Option<String>,
    pub route_long_name: Option<String>,
    pub route_type: Option<u16>,
}

#[derive(Debug, Clone, PartialEq, Eq)]
pub struct Trip {
    pub route_id: String,
    pub service_id: String,
    pub trip_id: String,
    pub trip_headsign: Option<String>,
    pub direction_id: Option<u8>,
}

/// A stop. The coordinates are kept as the decimal text of the file, checked
/// against the syntax that `f64`'s `FromStr` accepts (see [`spec_float_text`]).
#[derive(Debug, Clone, PartialEq, Eq)]
pub struct Stop {
    pub stop_id: String,
    pub stop_name: Option<String>,
    pub stop_lat: Option<String>,
    pub stop_lon: Option<String>,
}

/// A row of `stop_times.txt`; reached through the per-trip index, so it does
/// not repeat the trip id.
#[derive(Debug, Clone, PartialEq, Eq)]
pub struct StopTime {
    pub arrival_time: Option<u32>,
    pub departure_time: Option<u32>,
    pub stop_id: String,
    pub stop_sequence: u32,
}

#[derive(Debug, Clone, PartialEq, Eq)]
pub struct Calendar {
    pub service_id: String,
    pub monday: bool,
    pub tuesday: bool,
    pub wednesday: bool,
    pub thursday: bool,
    pub friday: bool,
    pub saturday: bool,
    pub sunday: bool,
    pub start_date: String,
    pub end_date: String,
}

#[derive(Debug, Clone, PartialEq, Eq)]
pub struct StaticFeedSummary {
    pub routes: usize,
    pub trips: usize,
    pub stops: usize,
    pub stop_times: usize,
    pub calendars: usize,
}

/// Why a static feed could not be read.
#[derive(Debug, Clone, PartialEq, Eq)]
pub enum StaticFeedError {
    Zip { detail: String },
    MissingFile { file: &'static str },
    Csv { file: &'static str, detail: String },
    MissingColumn { file: &'static str, column: &'static str },
    DuplicateId { file: &'static str, id: String },
    EmptyField { file: &'static str, column: &'static str, row: usize },
    InvalidField { file: &'static str, column: &'static str, value: String, row: usize },
    /// A table read whole is larger than the size ceiling.
    TableTooLarge { file: &'static str, limit: usize },
    /// `stop_times.txt` has more records than the row ceiling.
    TooManyRows { file: &'static str, limit: usize },
}

/// A [`StaticFeedError`] as plain values.
pub enum StaticFeedErrorView {
    Zip { detail: Seq<char> },
    MissingFile { file: Seq<char> },
    Csv { file: Seq<char>, detail: Seq<char> },
    MissingColumn { file: Seq<char>, column: Seq<char> },
    DuplicateId { file: Seq<char>, id: Seq<char> },
    EmptyField { file: Seq<char>, column: Seq<char>, row: usize },
    InvalidField { file: Seq<char>, column: Seq<char>, value: Seq<char>, row: usize },
    TableTooLarge { file: Seq<char>, limit: usize },
    TooManyRows { file: Seq<char>, limit: usize },
}

impl View for StaticFeedError {
    type V = StaticFeedErrorView;

    open spec fn view(&self) -> StaticFeedErrorView {
        match self {
            StaticFeedError::Zip { detail } => StaticFeedErrorView::Zip { detail: detail@ },
            StaticFeedError::MissingFile { file } => StaticFeedErrorView::MissingFile { file: file@ },
            StaticFeedError::Csv { file, detail } => StaticFeedErrorView::Csv {
                file: file@,
                detail: detail@,
            },
            StaticFeedError::MissingColumn { file, column } => StaticFeedErrorView::MissingColumn {
                file: file@,
                column: column@,
            },
            StaticFeedError::DuplicateId { file, id } => StaticFeedErrorView::DuplicateId {
                file: file@,
                id: id@,
            },
            StaticFeedError::EmptyField { file, column, row } => StaticFeedErrorView::EmptyField {
                file: file@,
                column: column@,
                row: *row,
            },
            StaticFeedError::InvalidField { file, column, value, row } => {
                StaticFeedErrorView::InvalidField {
                    file: file@,
                    column: column@,
                    value: value@,
                    row: *row,
                }
            },
            StaticFeedError::TableTooLarge { file, limit } => StaticFeedErrorView::TableTooLarge {
                file: file@,
                limit: *limit,
            },
            StaticFeedError::TooManyRows { file, limit } => StaticFeedErrorView::TooManyRows {
                file: file@,
                limit: *limit,
            },
        }
    }
}

/// The message for an error, as the reader words it.
pub open spec fn spec_error_text(e: StaticFeedErrorView) -> Seq<char> {
    match e {
        StaticFeedErrorView::Zip { detail } => "GTFS ZIP okunamadı: "@ + detail,
        StaticFeedErrorView::MissingFile { file } => "GTFS tablosu eksik: "@ + file,
        StaticFeedErrorView::Csv { file, detail } => file + " CSV okunamadı: "@ + detail,
        StaticFeedErrorView::MissingColumn { file, column } => file + " zorunlu sütunu eksik: "@
            + column,
        StaticFeedErrorView::DuplicateId { file, id } => file + " yinelenen kimlik: "@ + id,
        StaticFeedErrorView::EmptyField { file, column, row } => file + " satır "@ + decimal(
            row as nat,
        ) + ": "@ + column + " boş"@,
        StaticFeedErrorView::InvalidField { file, column, value, row } => file + " satır "@
            + decimal(row as nat) + ": "@ + column + " geçersiz değer: "@ + value,
        StaticFeedErrorView::TableTooLarge { file, limit } => file + " boyut sınırını aşıyor: "@
            + decimal(limit as nat) + " bayt"@,
        StaticFeedErrorView::TooManyRows { file, limit } => file + " satır sınırını aşıyor: "@
            + decimal(limit as nat) + " satır"@,
    }
}

impl StaticFeedError {
    /// The error's message.
    pub fn describe(&self) -> (s: String)
        ensures
            s@ == spec_error_text(self@),
    {
        let mut s = String::new();
        match self {
            StaticFeedError::Zip { detail } => {
                push_lit(&mut s, "GTFS ZIP okunamadı: ");
                push_lit(&mut s, detail.as_str());
            },
            StaticFeedError::MissingFile { file } => {
                push_lit(&mut s, "GTFS tablosu eksik: ");
                push_lit(&mut s, file);
            },
            StaticFeedError::Csv { file, detail } => {
                push_lit(&mut s, file);
                push_lit(&mut s, " CSV okunamadı: ");
                push_lit(&mut s, detail.as_str());
            },
            StaticFeedError::MissingColumn { file, column } => {
                push_lit(&mut s, file);
                push_lit(&mut s, " zorunlu sütunu eksik: ");
                push_lit(&mut s, column);
            },
            StaticFeedError::DuplicateId { file, id } => {
                push_lit(&mut s, file);
                push_lit(&mut s, " yinelenen kimlik: ");
                push_lit(&mut s, id.as_str());
            },
            StaticFeedError::EmptyField { file, column, row } => {
                push_lit(&mut s, file);
                push_lit(&mut s, " satır ");
                push_decimal(&mut s, *row as u64);
                push_lit(&mut s, ": ");
                push_lit(&mut s, column);
                push_lit(&mut s, " boş");
            },
            StaticFeedError::InvalidField { file, column, value, row } => {
                push_lit(&mut s, file);
                push_lit(&mut s, " satır ");
                push_decimal(&mut s, *row as u64);
                push_lit(&mut s, ": ");
                push_lit(&mut s, column);
                push_lit(&mut s, " geçersiz değer: ");
                push_lit(&mut s, value.as_str());
            },
            StaticFeedError::TableTooLarge { file, limit } => {
                push_lit(&mut s, file);
                push_lit(&mut s, " boyut sınırını aşıyor: ");
                push_decimal(&mut s, *limit as u64);
                push_lit(&mut s, " bayt");
            },
            StaticFeedError::TooManyRows { file, limit } => {
                push_lit(&mut s, file);
                push_lit(&mut s, " satır sınırını aşıyor: ");
                push_decimal(&mut s, *limit as u64);
                push_lit(&mut s, " satır");
            },
        }
        proof {
            assert(s@ =~= spec_error_text(self@));
        }
        s
    }
}

/// Which trips' stop times a reading keeps.
pub enum TripFilter<'a> {
    /// Every trip's.
    All,
    /// Only those of the trips in the set.
    Only(&'a StrSet),
}

/// The trips a filter keeps: `None` for all of them.
pub open spec fn filter_view(f: TripFilter) -> Option<Set<Seq<char>>> {
    match f {
        TripFilter::All => None,
        TripFilter::Only(s) => Some(str_set_contents(*s)),
    }
}

pub struct RouteView {
    pub route_id: Seq<char>,
    pub route_short_name: Option<Seq<char>>,
    pub route_long_name: Option<Seq<char>>,
    pub route_type: Option<u16>,
}

impl View for Route {
    type V = RouteView;

    open spec fn view(&self) -> RouteView {
        RouteView {
            route_id: self.route_id@,
            route_short_name: opt_view(self.route_short_name),
            route_long_name: opt_view(self.route_long_name),
            route_type: self.route_type,
        }
    }
}

pub struct TripView {
    pub route_id: Seq<char>,
    pub service_id: Seq<char>,
    pub trip_id: Seq<char>,
    pub trip_headsign: Option<Seq<char>>,
    pub direction_id: Option<u8>,
}

impl View for Trip {
    type V = TripView;

    open spec fn view(&self) -> TripView {
        TripView {
            route_id: self.route_id@,
            service_id: self.service_id@,
            trip_id: self.trip_id@,
            trip_headsign: opt_view(self.trip_headsign),
            direction_id: self.direction_id,
        }
    }
}

pub struct StopView {
    pub stop_id: Seq<char>,
    pub stop_name: Option<Seq<char>>,
    pub stop_lat: Option<Seq<char>>,
    pub stop_lon: Option<Seq<char>>,
}

impl View for Stop {
    type V = StopView;

    open spec fn view(&self) -> StopView {
        StopView {
            stop_id: self.stop_id@,
            stop_name: opt_view(self.stop_name),
            stop_lat: opt_view(self.stop_lat),
            stop_lon: opt_view(self.stop_lon),
        }
    }
}

pub struct StopTimeView {
    pub arrival_time: Option<u32>,
    pub departure_time: Option<u32>,
    pub stop_id: Seq<char>,
    pub stop_sequence: u32,
}

impl View for StopTime {
    type V = StopTimeView;

    open spec fn view(&self) -> StopTimeView {
        StopTimeView {
            arrival_time: self.arrival_time,
            departure_time: self.departure_time,
            stop_id: self.stop_id@,
            stop_sequence: self.stop_sequence,
        }
    }
}

pub struct CalendarView {
    pub service_id: Seq<char>,
    pub days: Seq<bool>,
    pub start_date: Seq<char>,
    pub end_date: Seq<char>,
}

impl View for Calendar {
    type V = CalendarView;

    open spec fn view(&self) -> CalendarView {
        CalendarView {
            service_id: self.service_id@,
            days: seq![
                self.monday,
                self.tuesday,
                self.wednesday,
                self.thursday,
                self.friday,
                self.saturday,
                self.sunday,
            ],
            start_date: self.start_date@,
            end_date: self.end_date@,
        }
    }
}

/// The views of a vector's elements.
pub open spec fn views<T: View>(v: Seq<T>) -> Seq<T::V> {
    v.map_values(|x: T| x@)
}

/// A record table keyed by an id, as a plain value: the map from id to
/// record, and how many records there are.
pub struct Keyed<V> {
    pub map: Map<Seq<char>, V>,
    pub count: nat,
}

/// The static feed as plain values: each table as a map from its id, and the
/// stop times grouped by trip id, each group in `stop_sequence` order.
pub struct StaticFeedView {
    pub routes: Keyed<RouteView>,
    pub trips: Keyed<TripView>,
    pub stops: Keyed<StopView>,
    pub stop_times: Keyed<Seq<StopTimeView>>,
    pub calendars: Keyed<CalendarView>,
}

/// The records of `items` keyed through `index`.
pub open spec fn keyed<T: View>(items: Seq<T>, index: Map<Seq<char>, usize>) -> Keyed<T::V> {
    Keyed {
        map: Map::new(|k: Seq<char>| index.dom().contains(k), |k: Seq<char>| items[index[k] as int]@),
        count: items.len(),
    }
}

/// `index` maps exactly the keys of `items` to their positions.
pub open spec fn index_matches<T>(
    items: Seq<T>,
    index: Map<Seq<char>, usize>,
    key: spec_fn(T) -> Seq<char>,
) -> bool {
    &&& forall|k: Seq<char>| #[trigger]
        index.dom().contains(k) ==> index[k] < items.len() && key(items[index[k] as int]) == k
    &&& forall|i: int| 0 <= i < items.len() ==> index.dom().contains(#[trigger] key(items[i]))
        && index[key(items[i])] == i
}

/// A `Vec` of stop times, viewed as the sequence of their views.
#[derive(Debug, Clone, PartialEq, Eq)]
pub struct StopTimes {
    pub rows: Vec<StopTime>,
}

impl View for StopTimes {
    type V = Seq<StopTimeView>;

    open spec fn view(&self) -> Seq<StopTimeView> {
        views(self.rows@)
    }
}

/// A key for each group of stop times: its position in the group list is
/// what the index gives, so the key lives beside it.
#[derive(Debug, Clone, PartialEq, Eq)]
pub struct Group {
    pub trip_id: String,
    pub times: StopTimes,
}

impl View for Group {
    type V = Seq<StopTimeView>;

    open spec fn view(&self) -> Seq<StopTimeView> {
        self.times@
    }
}

/// The parsed static feed.
#[derive(Debug, PartialEq, Eq)]
pub struct StaticFeed {
    routes: Vec<Route>,
    route_index: StrIndex,
    trips: Vec<Trip>,
    trip_index: StrIndex,
    stops: Vec<Stop>,
    stop_index: StrIndex,
    stop_times: Vec<Group>,
    stop_time_index: StrIndex,
    calendars: Vec<Calendar>,
    calendar_index: StrIndex,
}

impl View for StaticFeed {
    type V = StaticFeedView;

    closed spec fn view(&self) -> StaticFeedView {
        StaticFeedView {
            routes: keyed(self.routes@, self.route_index@),
            trips: keyed(self.trips@, self.trip_index@),
            stops: keyed(self.stops@, self.stop_index@),
            stop_times: keyed(self.stop_times@, self.stop_time_index@),
            calendars: keyed(self.calendars@, self.calendar_index@),
        }
    }
}

/// Number of rows in all stop-time groups.
pub open spec fn total_rows(groups: Seq<Seq<StopTimeView>>) -> nat
    decreases groups.len(),
{
    if groups.len() == 0 {
        0
    } else {
        total_rows(groups.drop_last()) + groups.last().len()
    }
}

/// `n`, capped at `usize::MAX`.
pub open spec fn capped(n: nat) -> usize {
    if n <= usize::MAX {
        n as usize
    } else {
        usize::MAX
    }
}

/// The rows of `rows` keyed by `key`: each key maps to the row that has it.
pub open spec fn keyed_by<V>(rows: Seq<V>, key: spec_fn(V) -> Seq<char>) -> Keyed<V> {
    Keyed {
        map: Map::new(
            |k: Seq<char>| exists|j: int| 0 <= j < rows.len() && #[trigger] key(rows[j]) == k,
            |k: Seq<char>| rows[choose|j: int| 0 <= j < rows.len() && #[trigger] key(rows[j]) == k],
        ),
        count: rows.len(),
    }
}

/// The views of borrowed items.
pub open spec fn ref_views<T: View>(v: Seq<&T>) -> Seq<T::V> {
    v.map_values(|x: &T| x@)
}

/// `rows` are the rows of the table `t`, each once, in ascending order of
/// their ids.
pub open spec fn in_id_order<V>(rows: Seq<V>, id: spec_fn(V) -> Seq<char>, t: Keyed<V>) -> bool {
    &&& forall|i: int, j: int|
        0 <= i < j < rows.len() ==> text_lt(id(#[trigger] rows[i]), id(#[trigger] rows[j]))
    &&& forall|i: int|
        0 <= i < rows.len() ==> t.map.dom().contains(id(#[trigger] rows[i])) && t.map[id(rows[i])]
            == rows[i]
    &&& forall|k: Seq<char>|
        #[trigger] t.map.dom().contains(k) ==> exists|i: int| 0 <= i < rows.len() && id(#[trigger] rows[i]) == k
}

/// The items of a table in ascending order of their ids, as its index
/// gives them.
fn in_key_order<'a, T: View>(
    items: &'a Vec<T>,
    index: &StrIndex,
    Ghost(key): Ghost<spec_fn(T) -> Seq<char>>,
    Ghost(vkey): Ghost<spec_fn(T::V) -> Seq<char>>,
) -> (r: Vec<&'a T>)
    requires
        index_matches(items@, index@, key),
        forall|x: T| #[trigger] key(x) == vkey(x@),
    ensures
        in_id_order(ref_views(r@), vkey, keyed(items@, index@)),
{
    let entries = index.entries();
    let ghost es = entries@;
    let mut out: Vec<&'a T> = Vec::new();
    let mut i: usize = 0;
    while i < entries.len()
        invariant
            i <= es.len(),
            es == entries@,
            out@.len() == i,
            index_matches(items@, index@, key),
            forall|x: T| #[trigger] key(x) == vkey(x@),
            forall|a: int, b: int| 0 <= a < b < es.len() ==> text_lt(#[trigger] es[a].0@, #[trigger] es[b].0@),
            forall|a: int|
                0 <= a < es.len() ==> index@.dom().contains(#[trigger] es[a].0@) && index@[es[a].0@]
                    == *es[a].1,
            forall|a: int|
                0 <= a < i ==> #[trigger] out@[a] == &items@[*es[a].1 as int] && vkey(out@[a]@)
                    == es[a].0@,
        decreases es.len() - i,
    {
        let pos = *entries[i].1;
        proof {
            assert(index@.dom().contains(es[i as int].0@));
        }
        out.push(&items[pos]);
        i = i + 1;
    }
    let ghost rows = ref_views(out@);
    let ghost t = keyed(items@, index@);
    proof {
        assert forall|a: int| 0 <= a < rows.len() implies vkey(#[trigger] rows[a]) == es[a].0@ && rows[a]
            == items@[*es[a].1 as int]@ by {
            assert(out@[a] == &items@[*es[a].1 as int]);
        }
        assert forall|a: int, b: int| 0 <= a < b < rows.len() implies text_lt(
            vkey(#[trigger] rows[a]),
            vkey(#[trigger] rows[b]),
        ) by {
            assert(vkey(rows[a]) == es[a].0@);
            assert(vkey(rows[b]) == es[b].0@);
            assert(text_lt(es[a].0@, es[b].0@));
        }
        assert forall|a: int| 0 <= a < rows.len() implies t.map.dom().contains(vkey(#[trigger] rows[a]))
            && t.map[vkey(rows[a])] == rows[a] by {
            assert(vkey(rows[a]) == es[a].0@);
            assert(index@.dom().contains(es[a].0@));
        }
        assert forall|k: Seq<char>| #[trigger] t.map.dom().contains(k) implies exists|a: int|
            0 <= a < rows.len() && vkey(#[trigger] rows[a]) == k by {
            assert(index@.dom().contains(k));
            let a = choose|a: int| 0 <= a < es.len() && #[trigger] es[a].0@ == k;
            assert(vkey(rows[a]) == es[a].0@);
        }
    }
    out
}

/// An exact index makes the keyed view the rows keyed by their ids.
proof fn lemma_keyed<T: View>(
    items: Seq<T>,
    index: Map<Seq<char>, usize>,
    key: spec_fn(T) -> Seq<char>,
    vkey: spec_fn(T::V) -> Seq<char>,
)
    requires
        index_matches(items, index, key),
        forall|x: T| #[trigger] key(x) == vkey(x@),
    ensures
        keyed(items, index) == keyed_by(views(items), vkey),
{
    let a = keyed(items, index);
    let b = keyed_by(views(items), vkey);
    let vs = views(items);
    assert forall|k: Seq<char>| a.map.dom().contains(k) == b.map.dom().contains(k) by {
        if index.dom().contains(k) {
            let j = index[k] as int;
            assert(vkey(vs[j]) == key(items[j]));
        }
        if b.map.dom().contains(k) {
            let j = choose|j: int| 0 <= j < vs.len() && #[trigger] vkey(vs[j]) == k;
            assert(key(items[j]) == vkey(items[j]@));
        }
    }
    assert forall|k: Seq<char>| #[trigger] a.map.dom().contains(k) implies a.map[k] == b.map[k] by {
        let j = choose|j: int| 0 <= j < vs.len() && #[trigger] vkey(vs[j]) == k;
        assert(key(items[j]) == vkey(items[j]@));
        assert(index[key(items[j])] == j);
    }
    assert(a.map =~= b.map);
}

/// Exact groups make the stop-time view the rows grouped by trip.
proof fn lemma_grouped(groups: Seq<Group>, index: Map<Seq<char>, usize>, rows: Seq<StopRow>)
    requires
        groups_match(groups, index, rows),
    ensures
        keyed(groups, index).map == group_map(rows),
{
    let a = keyed(groups, index).map;
    assert forall|k: Seq<char>| #[trigger] a.dom().contains(k) implies a[k] == group_map(rows)[k] by {
        assert(groups[index[k] as int].trip_id@ == k);
    }
    assert(a =~= group_map(rows));
}

/// A static feed as the rows its tables hold: each keyed table in file
/// order, and the kept stop-time rows with their trip ids.
pub struct StaticRows {
    pub routes: Seq<RouteView>,
    pub trips: Seq<TripView>,
    pub stops: Seq<StopView>,
    pub stop_rows: Seq<StopRow>,
    pub calendars: Seq<CalendarView>,
}

/// Size ceiling, in bytes, for each table read whole: `routes.txt`,
/// `trips.txt`, `stops.txt` and `calendar.txt`.
pub const MAX_TABLE_BYTES: usize = 268_435_456;

/// Row ceiling for the records of `stop_times.txt`, which is inflated whole
/// and then parsed record by record; well above the 4.5 million rows of a
/// large city's feed.
pub const MAX_STOP_TIME_ROWS: usize = 50_000_000;

/// The ceilings a reading applies.
#[derive(Debug, Clone, Copy, PartialEq, Eq)]
pub struct ReadLimits {
    /// Most bytes a table read whole may have.
    pub max_table_bytes: usize,
    /// Most records `stop_times.txt` may have.
    pub max_stop_time_rows: usize,
}

/// The ceilings of [`MAX_TABLE_BYTES`] and [`MAX_STOP_TIME_ROWS`].
pub open spec fn standard_limits() -> ReadLimits {
    ReadLimits { max_table_bytes: MAX_TABLE_BYTES, max_stop_time_rows: MAX_STOP_TIME_ROWS }
}

impl ReadLimits {
    /// The standard ceilings.
    pub fn standard() -> (r: Self)
        ensures
            r == standard_limits(),
    {
        ReadLimits { max_table_bytes: MAX_TABLE_BYTES, max_stop_time_rows: MAX_STOP_TIME_ROWS }
    }
}

/// A table read whole: its bytes, or the error, refusing more than
/// `max_bytes` bytes.
pub open spec fn spec_read_table(
    entries: Seq<crate::archive::EntryView>,
    file: Seq<char>,
    max_bytes: usize,
) -> Result<Seq<u8>, StaticFeedErrorView> {
    match spec_read_required(entries, file) {
        Ok(b) => if b.len() > max_bytes {
            Err(StaticFeedErrorView::TableTooLarge { file, limit: max_bytes })
        } else {
            Ok(b)
        },
        Err(e) => Err(e),
    }
}

/// As [`spec_read_table`] for a table that may be missing.
pub open spec fn spec_read_optional_table(
    entries: Seq<crate::archive::EntryView>,
    file: Seq<char>,
    max_bytes: usize,
) -> Result<Option<Seq<u8>>, StaticFeedErrorView> {
    match spec_read_optional(entries, file) {
        Ok(Some(b)) => if b.len() > max_bytes {
            Err(StaticFeedErrorView::TableTooLarge { file, limit: max_bytes })
        } else {
            Ok(Some(b))
        },
        other => other,
    }
}

/// What reading the archive `bytes` with the standard ceilings gives.
pub open spec fn spec_read_feed(bytes: Seq<u8>, wanted: Option<Set<Seq<char>>>) -> Result<
    StaticRows,
    StaticFeedErrorView,
> {
    spec_read_feed_within(bytes, wanted, standard_limits())
}

/// What reading the archive `bytes` gives, keeping the stop times of the
/// trips `wanted` keeps (all of them for `None`), or the first error: the
/// tables are read in the order routes, trips, stops, stop times, calendar,
/// each file read and then parsed; `calendar.txt` may be missing. A table
/// read whole past the size ceiling, or a `stop_times.txt` past the row
/// ceiling, is refused.
pub open spec fn spec_read_feed_within(
    bytes: Seq<u8>,
    wanted: Option<Set<Seq<char>>>,
    limits: ReadLimits,
) -> Result<StaticRows, StaticFeedErrorView> {
    let max = limits.max_table_bytes;
    match zip_listing(bytes) {
        Err(m) => Err(StaticFeedErrorView::Zip { detail: m }),
        Ok(entries) => match spec_read_table(entries, "routes.txt"@, max) {
            Err(e) => Err(e),
            Ok(b) => match spec_parse_routes(b) {
                Err(e) => Err(e),
                Ok(routes) => match spec_read_table(entries, "trips.txt"@, max) {
                    Err(e) => Err(e),
                    Ok(b) => match spec_parse_trips(b) {
                        Err(e) => Err(e),
                        Ok(trips) => match spec_read_table(entries, "stops.txt"@, max) {
                            Err(e) => Err(e),
                            Ok(b) => match spec_parse_stops(b) {
                                Err(e) => Err(e),
                                Ok(stops) => match spec_read_required(entries, "stop_times.txt"@) {
                                    Err(e) => Err(e),
                                    Ok(b) => match spec_parse_stop_times(
                                        b,
                                        wanted,
                                        limits.max_stop_time_rows,
                                    ) {
                                        Err(e) => Err(e),
                                        Ok(stop_rows) => match spec_read_optional_table(
                                            entries,
                                            "calendar.txt"@,
                                            max,
                                        ) {
                                            Err(e) => Err(e),
                                            Ok(None) => Ok(
                                                StaticRows {
                                                    routes,
                                                    trips,
                                                    stops,
                                                    stop_rows,
                                                    calendars: Seq::empty(),
                                                },
                                            ),
                                            Ok(Some(b)) => match spec_parse_calendars(b) {
                                                Err(e) => Err(e),
                                                Ok(calendars) => Ok(
                                                    StaticRows {
                                                        routes,
                                                        trips,
                                                        stops,
                                                        stop_rows,
                                                        calendars,
                                                    },
                                                ),
                                            },
                                        },
                                    },
                                },
                            },
                        },
                    },
                },
            },
        },
    }
}

/// The static feed whose tables hold the rows `m`.
pub open spec fn rows_view(m: StaticRows) -> StaticFeedView {
    StaticFeedView {
        routes: keyed_by(m.routes, |r: RouteView| route_key(r)),
        trips: keyed_by(m.trips, |t: TripView| trip_key(t)),
        stops: keyed_by(m.stops, |s: StopView| stop_key(s)),
        stop_times: Keyed {
            map: group_map(m.stop_rows),
            count: group_map(m.stop_rows).dom().len(),
        },
        calendars: keyed_by(m.calendars, |c: CalendarView| calendar_key(c)),
    }
}

/// `v` is the static feed whose tables hold the rows `m`.
pub open spec fn describes(v: StaticFeedView, m: StaticRows) -> bool {
    &&& v.routes == keyed_by(m.routes, |r: RouteView| route_key(r))
    &&& v.trips == keyed_by(m.trips, |t: TripView| trip_key(t))
    &&& v.stops == keyed_by(m.stops, |s: StopView| stop_key(s))
    &&& v.calendars == keyed_by(m.calendars, |c: CalendarView| calendar_key(c))
    &&& v.stop_times.map == group_map(m.stop_rows)
}

impl StaticFeed {
    /// Each index maps exactly the ids of its table; trip records and stop-time
    /// groups are filed under their own trip id.
    #[verifier::type_invariant]
    spec fn wf(&self) -> bool {
        &&& index_matches(self.routes@, self.route_index@, |r: Route| r.route_id@)
        &&& index_matches(self.trips@, self.trip_index@, |t: Trip| t.trip_id@)
        &&& index_matches(self.stops@, self.stop_index@, |s: Stop| s.stop_id@)
        &&& index_matches(self.stop_times@, self.stop_time_index@, |g: Group| g.trip_id@)
        &&& index_matches(self.calendars@, self.calendar_index@, |c: Calendar| c.service_id@)
    }

    /// The routes, in file order.
    pub closed spec fn routes_in_order(&self) -> Seq<RouteView> {
        views(self.routes@)
    }

    /// The trips, in file order.
    pub closed spec fn trips_in_order(&self) -> Seq<TripView> {
        views(self.trips@)
    }

    /// The stops, in file order.
    pub closed spec fn stops_in_order(&self) -> Seq<StopView> {
        views(self.stops@)
    }

    /// The calendars, in file order.
    pub closed spec fn calendars_in_order(&self) -> Seq<CalendarView> {
        views(self.calendars@)
    }

    /// The rows of all stop-time groups, group by group.
    pub closed spec fn group_rows(&self) -> Seq<Seq<StopTimeView>> {
        views(self.stop_times@)
    }

    /// Looks a trip up by its id.
    pub fn trip(&self, trip_id: &str) -> (r: Option<&Trip>)
        ensures
            match r {
                Some(t) => self@.trips.map.dom().contains(trip_id@) && t@ == self@.trips.map[trip_id@]
                    && t.trip_id@ == trip_id@,
                None => !self@.trips.map.dom().contains(trip_id@),
            },
    {
        proof {
            use_type_invariant(self);
        }
        match self.trip_index.get(trip_id) {
            Some(i) => Some(&self.trips[i]),
            None => None,
        }
    }

    /// Looks a route up by its id.
    pub fn route(&self, route_id: &str) -> (r: Option<&Route>)
        ensures
            match r {
                Some(t) => self@.routes.map.dom().contains(route_id@) && t@
                    == self@.routes.map[route_id@],
                None => !self@.routes.map.dom().contains(route_id@),
            },
    {
        proof {
            use_type_invariant(self);
        }
        match self.route_index.get(route_id) {
            Some(i) => Some(&self.routes[i]),
            None => None,
        }
    }

    /// Looks a stop up by its id.
    pub fn stop(&self, stop_id: &str) -> (r: Option<&Stop>)
        ensures
            match r {
                Some(t) => self@.stops.map.dom().contains(stop_id@) && t@ == self@.stops.map[stop_id@],
                None => !self@.stops.map.dom().contains(stop_id@),
            },
    {
        proof {
            use_type_invariant(self);
        }
        match self.stop_index.get(stop_id) {
            Some(i) => Some(&self.stops[i]),
            None => None,
        }
    }

    /// Whether `stops.txt` holds the id.
    pub fn has_stop(&self, stop_id: &str) -> (r: bool)
        ensures
            r == self@.stops.map.dom().contains(stop_id@),
    {
        proof {
            use_type_invariant(self);
        }
        self.stop_index.contains(stop_id)
    }

    /// Looks a calendar up by its service id.
    pub fn calendar(&self, service_id: &str) -> (r: Option<&Calendar>)
        ensures
            match r {
                Some(t) => self@.calendars.map.dom().contains(service_id@) && t@
                    == self@.calendars.map[service_id@],
                None => !self@.calendars.map.dom().contains(service_id@),
            },
    {
        proof {
            use_type_invariant(self);
        }
        match self.calendar_index.get(service_id) {
            Some(i) => Some(&self.calendars[i]),
            None => None,
        }
    }

    /// The stop times of a trip, in `stop_sequence` order.
    pub fn stop_times_for_trip(&self, trip_id: &str) -> (r: Option<&[StopTime]>)
        ensures
            match r {
                Some(t) => self@.stop_times.map.dom().contains(trip_id@) && views(t@)
                    == self@.stop_times.map[trip_id@],
                None => !self@.stop_times.map.dom().contains(trip_id@),
            },
    {
        proof {
            use_type_invariant(self);
        }
        match self.stop_time_index.get(trip_id) {
            Some(i) => Some(self.stop_times[i].times.rows.as_slice()),
            None => None,
        }
    }

    /// All routes, in ascending order of their ids.
    pub fn routes(&self) -> (r: Vec<&Route>)
        ensures
            in_id_order(ref_views(r@), |v: RouteView| route_key(v), self@.routes),
    {
        proof {
            use_type_invariant(self);
        }
        in_key_order(&self.routes, &self.route_index, Ghost(|x: Route| x.route_id@), Ghost(|v: RouteView| route_key(v)))
    }

    /// All trips, in ascending order of their ids.
    pub fn trips(&self) -> (r: Vec<&Trip>)
        ensures
            in_id_order(ref_views(r@), |v: TripView| trip_key(v), self@.trips),
    {
        proof {
            use_type_invariant(self);
        }
        in_key_order(&self.trips, &self.trip_index, Ghost(|x: Trip| x.trip_id@), Ghost(|v: TripView| trip_key(v)))
    }

    /// All stops, in ascending order of their ids.
    pub fn stops(&self) -> (r: Vec<&Stop>)
        ensures
            in_id_order(ref_views(r@), |v: StopView| stop_key(v), self@.stops),
    {
        proof {
            use_type_invariant(self);
        }
        in_key_order(&self.stops, &self.stop_index, Ghost(|x: Stop| x.stop_id@), Ghost(|v: StopView| stop_key(v)))
    }

    /// All calendars, in ascending order of their service ids.
    pub fn calendars(&self) -> (r: Vec<&Calendar>)
        ensures
            in_id_order(ref_views(r@), |v: CalendarView| calendar_key(v), self@.calendars),
    {
        proof {
            use_type_invariant(self);
        }
        in_key_order(&self.calendars, &self.calendar_index, Ghost(|x: Calendar| x.service_id@), Ghost(|v: CalendarView| calendar_key(v)))
    }

    /// Number of stop-time rows held, over all trips (capped at `usize::MAX`).
    pub fn stop_time_count(&self) -> (n: usize)
        ensures
            n == capped(total_rows(self.group_rows())),
    {
        let mut n: usize = 0;
        let mut i: usize = 0;
        let ghost rows = self.group_rows();
        while i < self.stop_times.len()
            invariant
                i <= self.stop_times.len(),
                rows == self.group_rows(),
                rows.len() == self.stop_times@.len(),
                n == capped(total_rows(rows.take(i as int))),
            decreases self.stop_times.len() - i,
        {
            proof {
                assert(rows.take(i as int + 1).drop_last() =~= rows.take(i as int));
                assert(rows[i as int] == self.stop_times@[i as int]@);
            }
            let len = self.stop_times[i].times.rows.len();
            n = if n <= usize::MAX - len {
                n + len
            } else {
                usize::MAX
            };
            i = i + 1;
        }
        proof {
            assert(rows.take(self.stop_times.len() as int) =~= rows);
        }
        n
    }

    pub fn summary(&self) -> (s: StaticFeedSummary)
        ensures
            s.routes == self@.routes.count,
            s.trips == self@.trips.count,
            s.stops == self@.stops.count,
            s.stop_times == capped(total_rows(self.group_rows())),
            s.calendars == self@.calendars.count,
    {
        StaticFeedSummary {
            routes: self.routes.len(),
            trips: self.trips.len(),
            stops: self.stops.len(),
            stop_times: self.stop_time_count(),
            calendars: self.calendars.len(),
        }
    }
}


/// A table read whole, refused past `max_bytes` bytes.
fn read_table(a: &mut ZipArchive<Cursor<&[u8]>>, file: &'static str, max_bytes: usize) -> (r: Result<
    Vec<u8>,
    StaticFeedError,
>)
    ensures
        zip_entries(*final(a)) == zip_entries(*old(a)),
        match r {
            Ok(b) => spec_read_table(zip_entries(*old(a)), file@, max_bytes) == Ok::<
                Seq<u8>,
                StaticFeedErrorView,
            >(b@),
            Err(e) => spec_read_table(zip_entries(*old(a)), file@, max_bytes) == Err::<
                Seq<u8>,
                StaticFeedErrorView,
            >(e@),
        },
{
    let bytes = read_required(a, file)?;
    if bytes.len() > max_bytes {
        return Err(StaticFeedError::TableTooLarge { file, limit: max_bytes });
    }
    Ok(bytes)
}

/// A table read whole that may be missing, refused past `max_bytes` bytes.
fn read_optional_table(
    a: &mut ZipArchive<Cursor<&[u8]>>,
    file: &'static str,
    max_bytes: usize,
) -> (r: Result<Option<Vec<u8>>, StaticFeedError>)
    ensures
        zip_entries(*final(a)) == zip_entries(*old(a)),
        match r {
            Ok(Some(b)) => spec_read_optional_table(zip_entries(*old(a)), file@, max_bytes) == Ok::<
                Option<Seq<u8>>,
                StaticFeedErrorView,
            >(Some(b@)),
            Ok(None) => spec_read_optional_table(zip_entries(*old(a)), file@, max_bytes) == Ok::<
                Option<Seq<u8>>,
                StaticFeedErrorView,
            >(None),
            Err(e) => spec_read_optional_table(zip_entries(*old(a)), file@, max_bytes) == Err::<
                Option<Seq<u8>>,
                StaticFeedErrorView,
            >(e@),
        },
{
    match read_optional(a, file)? {
        Some(bytes) => {
            if bytes.len() > max_bytes {
                return Err(StaticFeedError::TableTooLarge { file, limit: max_bytes });
            }
            Ok(Some(bytes))
        },
        None => Ok(None),
    }
}

impl StaticFeed {
    /// Reads a GTFS ZIP archive held in memory, keeping the stop times of the
    /// trips the filter keeps. Every row is read and checked either way, so
    /// the filter changes only which stop times are kept. `calendar.txt` may
    /// be missing, leaving no calendars. The standard ceilings apply.
    pub fn from_zip_bytes_filtered(bytes: &[u8], filter: TripFilter) -> (r: Result<Self, StaticFeedError>)
        ensures
            match r {
                Ok(f) => (spec_read_feed(bytes@, filter_view(filter)) matches Ok(m) && describes(
                    f@,
                    m,
                ) && total_rows(f.group_rows()) == m.stop_rows.len() && f.routes_in_order() == m.routes
                    && f.trips_in_order() == m.trips && f.stops_in_order() == m.stops && f.calendars_in_order()
                    == m.calendars),
                Err(e) => spec_read_feed(bytes@, filter_view(filter)) == Err::<
                    StaticRows,
                    StaticFeedErrorView,
                >(e@),
            },
    {
        Self::from_zip_bytes_within(bytes, filter, ReadLimits::standard())
    }

    /// As [`StaticFeed::from_zip_bytes_filtered`], under the given ceilings.
    pub fn from_zip_bytes_within(bytes: &[u8], filter: TripFilter, limits: ReadLimits) -> (r: Result<
        Self,
        StaticFeedError,
    >)
        ensures
            match r {
                Ok(f) => (spec_read_feed_within(bytes@, filter_view(filter), limits) matches Ok(m)
                    && describes(f@, m) && total_rows(f.group_rows()) == m.stop_rows.len()
                    && f.routes_in_order() == m.routes && f.trips_in_order() == m.trips
                    && f.stops_in_order() == m.stops && f.calendars_in_order() == m.calendars),
                Err(e) => spec_read_feed_within(bytes@, filter_view(filter), limits) == Err::<
                    StaticRows,
                    StaticFeedErrorView,
                >(e@),
            },
    {
        proof {
            reveal_strlit("routes.txt");
            reveal_strlit("trips.txt");
            reveal_strlit("stops.txt");
            reveal_strlit("stop_times.txt");
            reveal_strlit("calendar.txt");
        }
        let max = limits.max_table_bytes;
        let mut archive = match open_archive(bytes) {
            Ok(a) => a,
            Err(detail) => {
                return Err(StaticFeedError::Zip { detail });
            },
        };
        let routes_bytes = read_table(&mut archive, "routes.txt", max)?;
        let (routes, route_index) = parse_routes(routes_bytes.as_slice())?;
        let trips_bytes = read_table(&mut archive, "trips.txt", max)?;
        let (trips, trip_index) = parse_trips(trips_bytes.as_slice())?;
        let stops_bytes = read_table(&mut archive, "stops.txt", max)?;
        let (stops, stop_index) = parse_stops(stops_bytes.as_slice())?;
        let stop_times_bytes = read_required(&mut archive, "stop_times.txt")?;
        let (stop_times, stop_time_index) = parse_stop_times_within(
            stop_times_bytes.as_slice(),
            &filter,
            limits.max_stop_time_rows,
        )?;
        let (calendars, calendar_index) = match read_optional_table(&mut archive, "calendar.txt", max)? {
            Some(calendar_bytes) => parse_calendars(calendar_bytes.as_slice())?,
            None => (Vec::new(), StrIndex::new()),
        };
        let feed = StaticFeed {
            routes,
            route_index,
            trips,
            trip_index,
            stops,
            stop_index,
            stop_times,
            stop_time_index,
            calendars,
            calendar_index,
        };
        proof {
            lemma_keyed(feed.routes@, feed.route_index@, |x: Route| x.route_id@, |v: RouteView| route_key(v));
            lemma_keyed(feed.trips@, feed.trip_index@, |x: Trip| x.trip_id@, |v: TripView| trip_key(v));
            lemma_keyed(feed.stops@, feed.stop_index@, |x: Stop| x.stop_id@, |v: StopView| stop_key(v));
            lemma_keyed(
                feed.calendars@,
                feed.calendar_index@,
                |x: Calendar| x.service_id@,
                |v: CalendarView| calendar_key(v),
            );
            let m = spec_read_feed_within(bytes@, filter_view(filter), limits)->Ok_0;
            assert(m.calendars =~= views(feed.calendars@));
            lemma_grouped(feed.stop_times@, feed.stop_time_index@, m.stop_rows);
        }
        Ok(feed)
    }

    /// Reads a GTFS ZIP archive held in memory, keeping every trip's stop times.
    pub fn from_zip_bytes(bytes: &[u8]) -> (r: Result<Self, StaticFeedError>)
        ensures
            match r {
                Ok(f) => (spec_read_feed(bytes@, None) matches Ok(m) && describes(f@, m)
                    && total_rows(f.group_rows()) == m.stop_rows.len() && f.routes_in_order() == m.routes
                    && f.trips_in_order() == m.trips && f.stops_in_order() == m.stops && f.calendars_in_order()
                    == m.calendars),
                Err(e) => spec_read_feed(bytes@, None) == Err::<StaticRows, StaticFeedErrorView>(e@),
            },
    {
        Self::from_zip_bytes_filtered(bytes, TripFilter::All)
    }
}

/// Reading with a filter fails exactly when reading everything fails, with
/// the same error, under the same ceilings. When it succeeds it holds the
/// same routes, trips, stops and calendars, and of the stop-time rows those
/// of the wanted trips, in the same order.
pub proof fn law_filter_changes_only_the_kept_stop_times(
    bytes: Seq<u8>,
    wanted: Set<Seq<char>>,
    limits: ReadLimits,
)
    ensures
        match spec_read_feed_within(bytes, None, limits) {
            Err(e) => spec_read_feed_within(bytes, Some(wanted), limits) == Err::<
                StaticRows,
                StaticFeedErrorView,
            >(e),
            Ok(full) => spec_read_feed_within(bytes, Some(wanted), limits) == Ok::<
                StaticRows,
                StaticFeedErrorView,
            >(StaticRows { stop_rows: kept_only(full.stop_rows, wanted), ..full }),
        },
{
    if let Ok(entries) = zip_listing(bytes) {
        if let Ok(b) = spec_read_required(entries, "stop_times.txt"@) {
            law_filtered_stop_times(b, wanted, limits.max_stop_time_rows);
        }
    }
}

} // verus!
