//! The readers of the five tables: what each yields for the bytes of its
//! file, stated over what the `csv` crate reads out of them.
use vstd::prelude::*;
use crate::fields::{
    is_date, is_float_text, parse_flag, parse_time, parse_unsigned, spec_float_text, spec_is_date,
    spec_parse_flag, spec_parse_time, spec_parse_unsigned,
};
use crate::index::{set_contains, StrIndex};
use crate::schedule::{
    capped, filter_view, index_matches, total_rows, views, Calendar, MAX_STOP_TIME_ROWS, CalendarView, Group, Route, RouteView,
    StaticFeedError, StaticFeedErrorView, Stop, StopTime, StopTimeView, StopTimes, StopView, Trip,
    TripFilter, TripView,
};
use crate::decode::opt_view;
use crate::table::{
    col, collect_from, csv_parse, field_optional, field_value, field_views, opt_nat, opt_usize,
    record_error, row_number,
    record_failure, row_views, spec_column, spec_open_table, spec_optional, spec_value, RecordView,
    Table,
};

verus! {

// ── Keyed tables ─────────────────────────────────────────────────────────────

/// Some row of `rows` has the key `k`.
pub open spec fn has_key<V>(rows: Seq<V>, key: spec_fn(V) -> Seq<char>, k: Seq<char>) -> bool {
    exists|j: int| 0 <= j < rows.len() && #[trigger] key(rows[j]) == k
}

/// An index over `items` holds exactly their keys.
proof fn lemma_index_has_key<T: View>(
    items: Seq<T>,
    index: Map<Seq<char>, usize>,
    key: spec_fn(T) -> Seq<char>,
    vkey: spec_fn(T::V) -> Seq<char>,
    k: Seq<char>,
)
    requires
        index_matches(items, index, key),
        forall|x: T| #[trigger] key(x) == vkey(x@),
    ensures
        index.dom().contains(k) == has_key(views(items), vkey, k),
{
    if index.dom().contains(k) {
        let j = index[k] as int;
        assert(vkey(views(items)[j]) == key(items[j]));
    }
    if has_key(views(items), vkey, k) {
        let j = choose|j: int| 0 <= j < views(items).len() && #[trigger] vkey(views(items)[j]) == k;
        assert(key(items[j]) == vkey(items[j]@));
    }
}

/// Adding an item under a new key keeps the index exact.
proof fn lemma_index_push<T>(
    items: Seq<T>,
    index: Map<Seq<char>, usize>,
    key: spec_fn(T) -> Seq<char>,
    x: T,
)
    requires
        index_matches(items, index, key),
        !index.dom().contains(key(x)),
        items.len() <= usize::MAX,
    ensures
        index_matches(items.push(x), index.insert(key(x), items.len() as usize), key),
{
    let items2 = items.push(x);
    let index2 = index.insert(key(x), items.len() as usize);
    assert forall|k: Seq<char>| #[trigger] index2.dom().contains(k) implies index2[k] < items2.len()
        && key(items2[index2[k] as int]) == k by {
        if k != key(x) {
            assert(items2[index[k] as int] == items[index[k] as int]);
        }
    }
    assert forall|i: int| 0 <= i < items2.len() implies index2.dom().contains(#[trigger] key(items2[i]))
        && index2[key(items2[i])] == i by {
        if i < items.len() {
            assert(items2[i] == items[i]);
            assert(index.dom().contains(key(items[i])));
        }
    }
}

// ── routes.txt ──────────────────────────────────────────────────────────────

/// An optional number column: `None` for a blank field, the number, or the
/// error for text that is not an unsigned number of at most `max`.
pub open spec fn spec_optional_number(
    file: Seq<char>,
    column: Seq<char>,
    value: Option<Seq<char>>,
    row: usize,
    max: nat,
) -> Result<Option<nat>, StaticFeedErrorView> {
    match value {
        None => Ok(None),
        Some(v) => match spec_parse_unsigned(v, max) {
            Some(n) => Ok(Some(n)),
            None => Err(StaticFeedErrorView::InvalidField { file, column, value: v, row }),
        },
    }
}

fn optional_number(
    file: &'static str,
    column: &'static str,
    value: Option<String>,
    row: usize,
    max: u32,
) -> (r: Result<Option<u32>, StaticFeedError>)
    ensures
        match r {
            Ok(Some(n)) => spec_optional_number(file@, column@, opt_view(value), row, max as nat)
                == Ok::<Option<nat>, StaticFeedErrorView>(Some(n as nat)),
            Ok(None) => spec_optional_number(file@, column@, opt_view(value), row, max as nat)
                == Ok::<Option<nat>, StaticFeedErrorView>(None),
            Err(e) => spec_optional_number(file@, column@, opt_view(value), row, max as nat)
                == Err::<Option<nat>, StaticFeedErrorView>(e@),
        },
{
    match value {
        None => Ok(None),
        Some(v) => match parse_unsigned(v.as_str(), max) {
            Some(n) => Ok(Some(n)),
            None => Err(StaticFeedError::InvalidField { file, column, value: v, row }),
        },
    }
}

pub open spec fn route_key(r: RouteView) -> Seq<char> {
    r.route_id
}

/// Where the columns of `routes.txt` are.
#[derive(Debug, Clone, Copy, PartialEq, Eq)]
pub struct RouteColumns {
    pub route_id: usize,
    pub route_short_name: Option<usize>,
    pub route_long_name: Option<usize>,
    pub route_type: Option<usize>,
}

/// The columns of `routes.txt` as the header places them.
pub open spec fn route_columns(h: Seq<Seq<char>>) -> RouteColumns {
    RouteColumns {
        route_id: col(h, "route_id"@) as usize,
        route_short_name: opt_usize(spec_column(h, "route_short_name"@)),
        route_long_name: opt_usize(spec_column(h, "route_long_name"@)),
        route_type: opt_usize(spec_column(h, "route_type"@)),
    }
}

/// The routes of `rows` from the `k`-th on, after `acc`.
pub open spec fn routes_from(
    c: RouteColumns,
    rows: Seq<Seq<Seq<char>>>,
    k: int,
    acc: Seq<RouteView>,
) -> Result<Seq<RouteView>, StaticFeedErrorView>
    decreases rows.len() - k,
{
    if k < 0 || k >= rows.len() {
        Ok(acc)
    } else {
        let file = "routes.txt"@;
        let rec = rows[k];
        let row = row_number(k);
        match spec_value(file, rec, c.route_id as int, row, "route_id"@) {
            Err(e) => Err(e),
            Ok(id) => if has_key(acc, |r: RouteView| route_key(r), id) {
                Err(StaticFeedErrorView::DuplicateId { file, id })
            } else {
                match spec_optional_number(
                    file,
                    "route_type"@,
                    spec_optional(rec, opt_nat(c.route_type)),
                    row,
                    u16::MAX as nat,
                ) {
                    Err(e) => Err(e),
                    Ok(route_type) => routes_from(
                        c,
                        rows,
                        k + 1,
                        acc.push(
                            RouteView {
                                route_id: id,
                                route_short_name: spec_optional(rec, opt_nat(c.route_short_name)),
                                route_long_name: spec_optional(rec, opt_nat(c.route_long_name)),
                                route_type: match route_type {
                                    Some(n) => Some(n as u16),
                                    None => None,
                                },
                            },
                        ),
                    ),
                }
            },
        }
    }
}

/// The routes of `routes.txt`, in file order, or the first error.
pub open spec fn spec_parse_routes(bytes: Seq<u8>) -> Result<Seq<RouteView>, StaticFeedErrorView> {
    let file = "routes.txt"@;
    match spec_open_table(file, bytes) {
        Err(e) => Err(e),
        Ok(h) => match spec_column(h, "route_id"@) {
            None => Err(StaticFeedErrorView::MissingColumn { file, column: "route_id"@ }),
            Some(_) => match collect_from(file, csv_parse(bytes).1, 0) {
                Err(e) => Err(e),
                Ok(rows) => routes_from(route_columns(h), rows, 0, Seq::empty()),
            },
        },
    }
}

/// The routes of the records of `routes.txt` whose columns are at `c`, in
/// file order, with an index by id; or the first error.
pub fn routes_from_rows(c: &RouteColumns, rows: &Vec<Vec<String>>) -> (r: Result<
    (Vec<Route>, StrIndex),
    StaticFeedError,
>)
    ensures
        match r {
            Ok((routes, index)) => routes_from(*c, row_views(rows@), 0, Seq::empty()) == Ok::<
                Seq<RouteView>,
                StaticFeedErrorView,
            >(views(routes@)) && index_matches(routes@, index@, |x: Route| x.route_id@),
            Err(e) => routes_from(*c, row_views(rows@), 0, Seq::empty()) == Err::<
                Seq<RouteView>,
                StaticFeedErrorView,
            >(e@),
        },
{
    proof {
        reveal_strlit("routes.txt");
    }
    let ghost rv = row_views(rows@);
    let mut routes: Vec<Route> = Vec::new();
    let mut index = StrIndex::new();
    let mut k: usize = 0;
    proof {
        assert(views(routes@) =~= Seq::<RouteView>::empty());
    }
    while k < rows.len()
        invariant
            rv == row_views(rows@),
            rv.len() == rows.len(),
            k <= rows.len(),
            routes@.len() == k,
            index_matches(routes@, index@, |x: Route| x.route_id@),
            routes_from(*c, rv, 0, Seq::empty()) == routes_from(*c, rv, k as int, views(routes@)),
        decreases rows.len() - k,
    {
        let rec = &rows[k];
        let row = k.saturating_add(2);
        proof {
            assert(rv[k as int] == field_views(rec@));
            assert(row == row_number(k as int));
        }
        let id = field_value("routes.txt", rec, c.route_id, row, "route_id")?;
        proof {
            lemma_index_has_key(
                routes@,
                index@,
                |x: Route| x.route_id@,
                |v: RouteView| route_key(v),
                id@,
            );
        }
        if index.contains(id.as_str()) {
            return Err(StaticFeedError::DuplicateId { file: "routes.txt", id });
        }
        let rt = optional_number(
            "routes.txt",
            "route_type",
            field_optional(rec, c.route_type),
            row,
            65535,
        )?;
        let route = Route {
            route_id: id.clone(),
            route_short_name: field_optional(rec, c.route_short_name),
            route_long_name: field_optional(rec, c.route_long_name),
            route_type: match rt {
                Some(n) => Some(n as u16),
                None => None,
            },
        };
        proof {
            lemma_index_push(routes@, index@, |x: Route| x.route_id@, route);
            assert(views(routes@.push(route)) =~= views(routes@).push(route@));
        }
        index.insert(id, routes.len());
        routes.push(route);
        k = k + 1;
    }
    Ok((routes, index))
}

/// Reads `routes.txt`: the routes in file order and an index by id.
pub fn parse_routes(bytes: &[u8]) -> (r: Result<(Vec<Route>, StrIndex), StaticFeedError>)
    ensures
        match r {
            Ok((routes, index)) => spec_parse_routes(bytes@) == Ok::<
                Seq<RouteView>,
                StaticFeedErrorView,
            >(views(routes@)) && index_matches(routes@, index@, |x: Route| x.route_id@),
            Err(e) => spec_parse_routes(bytes@) == Err::<Seq<RouteView>, StaticFeedErrorView>(e@),
        },
{
    let mut table = Table::new("routes.txt", bytes)?;
    proof {
        reveal_strlit("routes.txt");
    }
    let ghost h = table.header();
    let c = RouteColumns {
        route_id: table.column("route_id")?,
        route_short_name: table.optional_column("route_short_name"),
        route_long_name: table.optional_column("route_long_name"),
        route_type: table.optional_column("route_type"),
    };
    proof {
        assert(c == route_columns(h));
    }
    let rows = table.records()?;
    routes_from_rows(&c, &rows)
}

// ── trips.txt ───────────────────────────────────────────────────────────────

pub open spec fn trip_key(t: TripView) -> Seq<char> {
    t.trip_id
}

/// Where the columns of `trips.txt` are.
#[derive(Debug, Clone, Copy, PartialEq, Eq)]
pub struct TripColumns {
    pub route_id: usize,
    pub service_id: usize,
    pub trip_id: usize,
    pub trip_headsign: Option<usize>,
    pub direction_id: Option<usize>,
}

/// The columns of `trips.txt` as the header places them.
pub open spec fn trip_columns(h: Seq<Seq<char>>) -> TripColumns {
    TripColumns {
        route_id: col(h, "route_id"@) as usize,
        service_id: col(h, "service_id"@) as usize,
        trip_id: col(h, "trip_id"@) as usize,
        trip_headsign: opt_usize(spec_column(h, "trip_headsign"@)),
        direction_id: opt_usize(spec_column(h, "direction_id"@)),
    }
}

/// The trips of `rows` from the `k`-th on, after `acc`.
pub open spec fn trips_from(
    c: TripColumns,
    rows: Seq<Seq<Seq<char>>>,
    k: int,
    acc: Seq<TripView>,
) -> Result<Seq<TripView>, StaticFeedErrorView>
    decreases rows.len() - k,
{
    if k < 0 || k >= rows.len() {
        Ok(acc)
    } else {
        let file = "trips.txt"@;
        let rec = rows[k];
        let row = row_number(k);
        match spec_value(file, rec, c.trip_id as int, row, "trip_id"@) {
            Err(e) => Err(e),
            Ok(id) => if has_key(acc, |t: TripView| trip_key(t), id) {
                Err(StaticFeedErrorView::DuplicateId { file, id })
            } else {
                match spec_optional_number(
                    file,
                    "direction_id"@,
                    spec_optional(rec, opt_nat(c.direction_id)),
                    row,
                    u8::MAX as nat,
                ) {
                    Err(e) => Err(e),
                    Ok(direction) => match spec_value(file, rec, c.route_id as int, row, "route_id"@) {
                        Err(e) => Err(e),
                        Ok(route_id) => match spec_value(
                            file,
                            rec,
                            c.service_id as int,
                            row,
                            "service_id"@,
                        ) {
                            Err(e) => Err(e),
                            Ok(service_id) => trips_from(
                                c,
                                rows,
                                k + 1,
                                acc.push(
                                    TripView {
                                        route_id,
                                        service_id,
                                        trip_id: id,
                                        trip_headsign: spec_optional(rec, opt_nat(c.trip_headsign)),
                                        direction_id: match direction {
                                            Some(n) => Some(n as u8),
                                            None => None,
                                        },
                                    },
                                ),
                            ),
                        },
                    },
                }
            },
        }
    }
}

/// The trips of `trips.txt`, in file order, or the first error.
pub open spec fn spec_parse_trips(bytes: Seq<u8>) -> Result<Seq<TripView>, StaticFeedErrorView> {
    let file = "trips.txt"@;
    match spec_open_table(file, bytes) {
        Err(e) => Err(e),
        Ok(h) => if spec_column(h, "route_id"@) is None {
            Err(StaticFeedErrorView::MissingColumn { file, column: "route_id"@ })
        } else if spec_column(h, "service_id"@) is None {
            Err(StaticFeedErrorView::MissingColumn { file, column: "service_id"@ })
        } else if spec_column(h, "trip_id"@) is None {
            Err(StaticFeedErrorView::MissingColumn { file, column: "trip_id"@ })
        } else {
            match collect_from(file, csv_parse(bytes).1, 0) {
                Err(e) => Err(e),
                Ok(rows) => trips_from(trip_columns(h), rows, 0, Seq::empty()),
            }
        },
    }
}

/// The trips of the records of `trips.txt` whose columns are at `c`, in
/// file order, with an index by id; or the first error.
pub fn trips_from_rows(c: &TripColumns, rows: &Vec<Vec<String>>) -> (r: Result<
    (Vec<Trip>, StrIndex),
    StaticFeedError,
>)
    ensures
        match r {
            Ok((trips, index)) => trips_from(*c, row_views(rows@), 0, Seq::empty()) == Ok::<
                Seq<TripView>,
                StaticFeedErrorView,
            >(views(trips@)) && index_matches(trips@, index@, |x: Trip| x.trip_id@),
            Err(e) => trips_from(*c, row_views(rows@), 0, Seq::empty()) == Err::<
                Seq<TripView>,
                StaticFeedErrorView,
            >(e@),
        },
{
    proof {
        reveal_strlit("trips.txt");
    }
    let ghost rv = row_views(rows@);
    let mut trips: Vec<Trip> = Vec::new();
    let mut index = StrIndex::new();
    let mut k: usize = 0;
    proof {
        assert(views(trips@) =~= Seq::<TripView>::empty());
    }
    while k < rows.len()
        invariant
            rv == row_views(rows@),
            rv.len() == rows.len(),
            k <= rows.len(),
            trips@.len() == k,
            index_matches(trips@, index@, |x: Trip| x.trip_id@),
            trips_from(*c, rv, 0, Seq::empty()) == trips_from(*c, rv, k as int, views(trips@)),
        decreases rows.len() - k,
    {
        let rec = &rows[k];
        let row = k.saturating_add(2);
        proof {
            assert(rv[k as int] == field_views(rec@));
            assert(row == row_number(k as int));
        }
        let id = field_value("trips.txt", rec, c.trip_id, row, "trip_id")?;
        proof {
            lemma_index_has_key(
                trips@,
                index@,
                |x: Trip| x.trip_id@,
                |v: TripView| trip_key(v),
                id@,
            );
        }
        if index.contains(id.as_str()) {
            return Err(StaticFeedError::DuplicateId { file: "trips.txt", id });
        }
        let dir = optional_number(
            "trips.txt",
            "direction_id",
            field_optional(rec, c.direction_id),
            row,
            255,
        )?;
        let route = field_value("trips.txt", rec, c.route_id, row, "route_id")?;
        let service = field_value("trips.txt", rec, c.service_id, row, "service_id")?;
        let trip = Trip {
            route_id: route,
            service_id: service,
            trip_id: id.clone(),
            trip_headsign: field_optional(rec, c.trip_headsign),
            direction_id: match dir {
                Some(n) => Some(n as u8),
                None => None,
            },
        };
        proof {
            lemma_index_push(trips@, index@, |x: Trip| x.trip_id@, trip);
            assert(views(trips@.push(trip)) =~= views(trips@).push(trip@));
        }
        index.insert(id, trips.len());
        trips.push(trip);
        k = k + 1;
    }
    Ok((trips, index))
}

/// Reads `trips.txt`: the trips in file order and an index by id.
pub fn parse_trips(bytes: &[u8]) -> (r: Result<(Vec<Trip>, StrIndex), StaticFeedError>)
    ensures
        match r {
            Ok((trips, index)) => spec_parse_trips(bytes@) == Ok::<
                Seq<TripView>,
                StaticFeedErrorView,
            >(views(trips@)) && index_matches(trips@, index@, |x: Trip| x.trip_id@),
            Err(e) => spec_parse_trips(bytes@) == Err::<Seq<TripView>, StaticFeedErrorView>(e@),
        },
{
    let mut table = Table::new("trips.txt", bytes)?;
    proof {
        reveal_strlit("trips.txt");
    }
    let ghost h = table.header();
    let route_id = table.column("route_id")?;
    let service_id = table.column("service_id")?;
    let trip_id = table.column("trip_id")?;
    let c = TripColumns {
        route_id,
        service_id,
        trip_id,
        trip_headsign: table.optional_column("trip_headsign"),
        direction_id: table.optional_column("direction_id"),
    };
    proof {
        assert(c == trip_columns(h));
    }
    let rows = table.records()?;
    trips_from_rows(&c, &rows)
}

// ── stops.txt ───────────────────────────────────────────────────────────────

pub open spec fn stop_key(s: StopView) -> Seq<char> {
    s.stop_id
}

/// An optional coordinate: `None` for a blank field, the text when `f64`
/// reads it, or the error.
pub open spec fn spec_optional_float(
    file: Seq<char>,
    column: Seq<char>,
    value: Option<Seq<char>>,
    row: usize,
) -> Result<Option<Seq<char>>, StaticFeedErrorView> {
    match value {
        None => Ok(None),
        Some(v) => if spec_float_text(v) {
            Ok(Some(v))
        } else {
            Err(StaticFeedErrorView::InvalidField { file, column, value: v, row })
        },
    }
}

fn optional_float(
    file: &'static str,
    column: &'static str,
    value: Option<String>,
    row: usize,
) -> (r: Result<Option<String>, StaticFeedError>)
    ensures
        match r {
            Ok(v) => spec_optional_float(file@, column@, opt_view(value), row) == Ok::<
                Option<Seq<char>>,
                StaticFeedErrorView,
            >(opt_view(v)),
            Err(e) => spec_optional_float(file@, column@, opt_view(value), row) == Err::<
                Option<Seq<char>>,
                StaticFeedErrorView,
            >(e@),
        },
{
    match value {
        None => Ok(None),
        Some(v) => if is_float_text(v.as_str()) {
            Ok(Some(v))
        } else {
            Err(StaticFeedError::InvalidField { file, column, value: v, row })
        },
    }
}

/// Where the columns of `stops.txt` are.
#[derive(Debug, Clone, Copy, PartialEq, Eq)]
pub struct StopColumns {
    pub stop_id: usize,
    pub stop_name: Option<usize>,
    pub stop_lat: Option<usize>,
    pub stop_lon: Option<usize>,
}

/// The columns of `stops.txt` as the header places them.
pub open spec fn stop_columns(h: Seq<Seq<char>>) -> StopColumns {
    StopColumns {
        stop_id: col(h, "stop_id"@) as usize,
        stop_name: opt_usize(spec_column(h, "stop_name"@)),
        stop_lat: opt_usize(spec_column(h, "stop_lat"@)),
        stop_lon: opt_usize(spec_column(h, "stop_lon"@)),
    }
}

/// The stops of `rows` from the `k`-th on, after `acc`.
pub open spec fn stops_from(
    c: StopColumns,
    rows: Seq<Seq<Seq<char>>>,
    k: int,
    acc: Seq<StopView>,
) -> Result<Seq<StopView>, StaticFeedErrorView>
    decreases rows.len() - k,
{
    if k < 0 || k >= rows.len() {
        Ok(acc)
    } else {
        let file = "stops.txt"@;
        let rec = rows[k];
        let row = row_number(k);
        match spec_value(file, rec, c.stop_id as int, row, "stop_id"@) {
            Err(e) => Err(e),
            Ok(id) => if has_key(acc, |s: StopView| stop_key(s), id) {
                Err(StaticFeedErrorView::DuplicateId { file, id })
            } else {
                match spec_optional_float(file, "stop_lat"@, spec_optional(rec, opt_nat(c.stop_lat)), row) {
                    Err(e) => Err(e),
                    Ok(lat) => match spec_optional_float(
                        file,
                        "stop_lon"@,
                        spec_optional(rec, opt_nat(c.stop_lon)),
                        row,
                    ) {
                        Err(e) => Err(e),
                        Ok(lon) => stops_from(
                            c,
                            rows,
                            k + 1,
                            acc.push(
                                StopView {
                                    stop_id: id,
                                    stop_name: spec_optional(rec, opt_nat(c.stop_name)),
                                    stop_lat: lat,
                                    stop_lon: lon,
                                },
                            ),
                        ),
                    },
                }
            },
        }
    }
}

/// The stops of `stops.txt`, in file order, or the first error.
pub open spec fn spec_parse_stops(bytes: Seq<u8>) -> Result<Seq<StopView>, StaticFeedErrorView> {
    let file = "stops.txt"@;
    match spec_open_table(file, bytes) {
        Err(e) => Err(e),
        Ok(h) => match spec_column(h, "stop_id"@) {
            None => Err(StaticFeedErrorView::MissingColumn { file, column: "stop_id"@ }),
            Some(_) => match collect_from(file, csv_parse(bytes).1, 0) {
                Err(e) => Err(e),
                Ok(rows) => stops_from(stop_columns(h), rows, 0, Seq::empty()),
            },
        },
    }
}

/// The stops of the records of `stops.txt` whose columns are at `c`, in file
/// order, with an index by id; or the first error.
pub fn stops_from_rows(c: &StopColumns, rows: &Vec<Vec<String>>) -> (r: Result<
    (Vec<Stop>, StrIndex),
    StaticFeedError,
>)
    ensures
        match r {
            Ok((stops, index)) => stops_from(*c, row_views(rows@), 0, Seq::empty()) == Ok::<
                Seq<StopView>,
                StaticFeedErrorView,
            >(views(stops@)) && index_matches(stops@, index@, |x: Stop| x.stop_id@),
            Err(e) => stops_from(*c, row_views(rows@), 0, Seq::empty()) == Err::<
                Seq<StopView>,
                StaticFeedErrorView,
            >(e@),
        },
{
    proof {
        reveal_strlit("stops.txt");
    }
    let ghost rv = row_views(rows@);
    let mut stops: Vec<Stop> = Vec::new();
    let mut index = StrIndex::new();
    let mut k: usize = 0;
    proof {
        assert(views(stops@) =~= Seq::<StopView>::empty());
    }
    while k < rows.len()
        invariant
            rv == row_views(rows@),
            rv.len() == rows.len(),
            k <= rows.len(),
            stops@.len() == k,
            index_matches(stops@, index@, |x: Stop| x.stop_id@),
            stops_from(*c, rv, 0, Seq::empty()) == stops_from(*c, rv, k as int, views(stops@)),
        decreases rows.len() - k,
    {
        let rec = &rows[k];
        let row = k.saturating_add(2);
        proof {
            assert(rv[k as int] == field_views(rec@));
            assert(row == row_number(k as int));
        }
        let id = field_value("stops.txt", rec, c.stop_id, row, "stop_id")?;
        proof {
            lemma_index_has_key(
                stops@,
                index@,
                |x: Stop| x.stop_id@,
                |v: StopView| stop_key(v),
                id@,
            );
        }
        if index.contains(id.as_str()) {
            return Err(StaticFeedError::DuplicateId { file: "stops.txt", id });
        }
        let stop_lat = optional_float("stops.txt", "stop_lat", field_optional(rec, c.stop_lat), row)?;
        let stop_lon = optional_float("stops.txt", "stop_lon", field_optional(rec, c.stop_lon), row)?;
        let stop = Stop {
            stop_id: id.clone(),
            stop_name: field_optional(rec, c.stop_name),
            stop_lat,
            stop_lon,
        };
        proof {
            lemma_index_push(stops@, index@, |x: Stop| x.stop_id@, stop);
            assert(views(stops@.push(stop)) =~= views(stops@).push(stop@));
        }
        index.insert(id, stops.len());
        stops.push(stop);
        k = k + 1;
    }
    Ok((stops, index))
}

/// Reads `stops.txt`: the stops in file order and an index by id.
pub fn parse_stops(bytes: &[u8]) -> (r: Result<(Vec<Stop>, StrIndex), StaticFeedError>)
    ensures
        match r {
            Ok((stops, index)) => spec_parse_stops(bytes@) == Ok::<
                Seq<StopView>,
                StaticFeedErrorView,
            >(views(stops@)) && index_matches(stops@, index@, |x: Stop| x.stop_id@),
            Err(e) => spec_parse_stops(bytes@) == Err::<Seq<StopView>, StaticFeedErrorView>(e@),
        },
{
    let mut table = Table::new("stops.txt", bytes)?;
    proof {
        reveal_strlit("stops.txt");
    }
    let ghost h = table.header();
    let c = StopColumns {
        stop_id: table.column("stop_id")?,
        stop_name: table.optional_column("stop_name"),
        stop_lat: table.optional_column("stop_lat"),
        stop_lon: table.optional_column("stop_lon"),
    };
    proof {
        assert(c == stop_columns(h));
    }
    let rows = table.records()?;
    stops_from_rows(&c, &rows)
}

// ── calendar.txt ────────────────────────────────────────────────────────────

pub open spec fn calendar_key(c: CalendarView) -> Seq<char> {
    c.service_id
}

/// The name of the `i`-th weekday column, Monday first.
pub open spec fn day_name(i: int) -> Seq<char> {
    if i == 0 {
        "monday"@
    } else if i == 1 {
        "tuesday"@
    } else if i == 2 {
        "wednesday"@
    } else if i == 3 {
        "thursday"@
    } else if i == 4 {
        "friday"@
    } else if i == 5 {
        "saturday"@
    } else {
        "sunday"@
    }
}

fn day(i: usize) -> (r: &'static str)
    requires
        i < 7,
    ensures
        r@ == day_name(i as int),
{
    if i == 0 {
        "monday"
    } else if i == 1 {
        "tuesday"
    } else if i == 2 {
        "wednesday"
    } else if i == 3 {
        "thursday"
    } else if i == 4 {
        "friday"
    } else if i == 5 {
        "saturday"
    } else {
        "sunday"
    }
}

/// The first weekday column from the `i`-th on that the header lacks.
pub open spec fn missing_day(h: Seq<Seq<char>>, i: int) -> Option<Seq<char>>
    decreases 7 - i,
{
    if i < 0 || i >= 7 {
        None
    } else if spec_column(h, day_name(i)) is None {
        Some(day_name(i))
    } else {
        missing_day(h, i + 1)
    }
}

/// Where the columns of `calendar.txt` are.
#[derive(Debug, Clone, Copy, PartialEq, Eq)]
pub struct CalendarColumns {
    pub service_id: usize,
    pub monday: usize,
    pub tuesday: usize,
    pub wednesday: usize,
    pub thursday: usize,
    pub friday: usize,
    pub saturday: usize,
    pub sunday: usize,
    pub start_date: usize,
    pub end_date: usize,
}

/// The column of the `i`-th weekday, Monday first.
pub open spec fn day_column(c: CalendarColumns, i: int) -> usize {
    if i == 0 {
        c.monday
    } else if i == 1 {
        c.tuesday
    } else if i == 2 {
        c.wednesday
    } else if i == 3 {
        c.thursday
    } else if i == 4 {
        c.friday
    } else if i == 5 {
        c.saturday
    } else {
        c.sunday
    }
}

fn day_col(c: &CalendarColumns, i: usize) -> (r: usize)
    requires
        i < 7,
    ensures
        r == day_column(*c, i as int),
{
    if i == 0 {
        c.monday
    } else if i == 1 {
        c.tuesday
    } else if i == 2 {
        c.wednesday
    } else if i == 3 {
        c.thursday
    } else if i == 4 {
        c.friday
    } else if i == 5 {
        c.saturday
    } else {
        c.sunday
    }
}

/// The columns of `calendar.txt` as the header places them.
pub open spec fn calendar_columns(h: Seq<Seq<char>>) -> CalendarColumns {
    CalendarColumns {
        service_id: col(h, "service_id"@) as usize,
        monday: col(h, day_name(0)) as usize,
        tuesday: col(h, day_name(1)) as usize,
        wednesday: col(h, day_name(2)) as usize,
        thursday: col(h, day_name(3)) as usize,
        friday: col(h, day_name(4)) as usize,
        saturday: col(h, day_name(5)) as usize,
        sunday: col(h, day_name(6)) as usize,
        start_date: col(h, "start_date"@) as usize,
        end_date: col(h, "end_date"@) as usize,
    }
}

/// The weekday flags of a record from the `i`-th day on, after `acc`.
pub open spec fn days_from(
    c: CalendarColumns,
    rec: Seq<Seq<char>>,
    row: usize,
    i: int,
    acc: Seq<bool>,
) -> Result<Seq<bool>, StaticFeedErrorView>
    decreases 7 - i,
{
    if i < 0 || i >= 7 {
        Ok(acc)
    } else {
        let file = "calendar.txt"@;
        match spec_value(file, rec, day_column(c, i) as int, row, day_name(i)) {
            Err(e) => Err(e),
            Ok(v) => match spec_parse_flag(v) {
                None => Err(
                    StaticFeedErrorView::InvalidField { file, column: day_name(i), value: v, row },
                ),
                Some(b) => days_from(c, rec, row, i + 1, acc.push(b)),
            },
        }
    }
}

/// A date field: its text, or the error for one that is not eight digits.
pub open spec fn spec_date(column: Seq<char>, v: Seq<char>, row: usize) -> Result<
    Seq<char>,
    StaticFeedErrorView,
> {
    if spec_is_date(v) {
        Ok(v)
    } else {
        Err(StaticFeedErrorView::InvalidField { file: "calendar.txt"@, column, value: v, row })
    }
}

/// The calendars of `rows` from the `k`-th on, after `acc`.
pub open spec fn calendars_from(
    c: CalendarColumns,
    rows: Seq<Seq<Seq<char>>>,
    k: int,
    acc: Seq<CalendarView>,
) -> Result<Seq<CalendarView>, StaticFeedErrorView>
    decreases rows.len() - k,
{
    if k < 0 || k >= rows.len() {
        Ok(acc)
    } else {
        let file = "calendar.txt"@;
        let rec = rows[k];
        let row = row_number(k);
        match spec_value(file, rec, c.service_id as int, row, "service_id"@) {
            Err(e) => Err(e),
            Ok(id) => if has_key(acc, |c: CalendarView| calendar_key(c), id) {
                Err(StaticFeedErrorView::DuplicateId { file, id })
            } else {
                match days_from(c, rec, row, 0, Seq::empty()) {
                    Err(e) => Err(e),
                    Ok(days) => match spec_value(
                        file,
                        rec,
                        c.start_date as int,
                        row,
                        "start_date"@,
                    ) {
                        Err(e) => Err(e),
                        Ok(start) => match spec_value(
                            file,
                            rec,
                            c.end_date as int,
                            row,
                            "end_date"@,
                        ) {
                            Err(e) => Err(e),
                            Ok(end) => match spec_date("start_date"@, start, row) {
                                Err(e) => Err(e),
                                Ok(_) => match spec_date("end_date"@, end, row) {
                                    Err(e) => Err(e),
                                    Ok(_) => calendars_from(
                                        c,
                                        rows,
                                        k + 1,
                                        acc.push(
                                            CalendarView {
                                                service_id: id,
                                                days,
                                                start_date: start,
                                                end_date: end,
                                            },
                                        ),
                                    ),
                                },
                            },
                        },
                    },
                }
            },
        }
    }
}

/// The calendars of `calendar.txt`, in file order, or the first error.
pub open spec fn spec_parse_calendars(bytes: Seq<u8>) -> Result<
    Seq<CalendarView>,
    StaticFeedErrorView,
> {
    let file = "calendar.txt"@;
    match spec_open_table(file, bytes) {
        Err(e) => Err(e),
        Ok(h) => if spec_column(h, "service_id"@) is None {
            Err(StaticFeedErrorView::MissingColumn { file, column: "service_id"@ })
        } else if missing_day(h, 0) is Some {
            Err(StaticFeedErrorView::MissingColumn { file, column: missing_day(h, 0)->0 })
        } else if spec_column(h, "start_date"@) is None {
            Err(StaticFeedErrorView::MissingColumn { file, column: "start_date"@ })
        } else if spec_column(h, "end_date"@) is None {
            Err(StaticFeedErrorView::MissingColumn { file, column: "end_date"@ })
        } else {
            match collect_from(file, csv_parse(bytes).1, 0) {
                Err(e) => Err(e),
                Ok(rows) => calendars_from(calendar_columns(h), rows, 0, Seq::empty()),
            }
        },
    }
}

/// The weekday flags of a record, Monday first.
fn read_days(c: &CalendarColumns, rec: &Vec<String>, row: usize) -> (r: Result<
    Vec<bool>,
    StaticFeedError,
>)
    ensures
        r matches Ok(days) ==> days@.len() == 7,
        match r {
            Ok(days) => days_from(*c, field_views(rec@), row, 0, Seq::empty()) == Ok::<
                Seq<bool>,
                StaticFeedErrorView,
            >(days@),
            Err(e) => days_from(*c, field_views(rec@), row, 0, Seq::empty()) == Err::<
                Seq<bool>,
                StaticFeedErrorView,
            >(e@),
        },
{
    proof {
        reveal_strlit("calendar.txt");
    }
    let mut days: Vec<bool> = Vec::new();
    let mut i: usize = 0;
    while i < 7
        invariant
            i <= 7,
            days@.len() == i,
            days_from(*c, field_views(rec@), row, 0, Seq::empty()) == days_from(
                *c,
                field_views(rec@),
                row,
                i as int,
                days@,
            ),
        decreases 7 - i,
    {
        let name = day(i);
        let v = field_value("calendar.txt", rec, day_col(c, i), row, name)?;
        match parse_flag(v.as_str()) {
            Some(b) => {
                days.push(b);
            },
            None => {
                return Err(
                    StaticFeedError::InvalidField { file: "calendar.txt", column: name, value: v, row },
                );
            },
        }
        i = i + 1;
    }
    Ok(days)
}

fn check_date(column: &'static str, v: &String, row: usize) -> (r: Result<(), StaticFeedError>)
    ensures
        match r {
            Ok(_) => spec_date(column@, v@, row) is Ok,
            Err(e) => spec_date(column@, v@, row) == Err::<Seq<char>, StaticFeedErrorView>(e@),
        },
{
    proof {
        reveal_strlit("calendar.txt");
    }
    if is_date(v.as_str()) {
        Ok(())
    } else {
        Err(StaticFeedError::InvalidField { file: "calendar.txt", column, value: v.clone(), row })
    }
}

/// The calendars of the records of `calendar.txt` whose columns are at `c`,
/// in file order, with an index by service id; or the first error.
pub fn calendars_from_rows(c: &CalendarColumns, rows: &Vec<Vec<String>>) -> (r: Result<
    (Vec<Calendar>, StrIndex),
    StaticFeedError,
>)
    ensures
        match r {
            Ok((calendars, index)) => calendars_from(*c, row_views(rows@), 0, Seq::empty()) == Ok::<
                Seq<CalendarView>,
                StaticFeedErrorView,
            >(views(calendars@)) && index_matches(calendars@, index@, |x: Calendar| x.service_id@),
            Err(e) => calendars_from(*c, row_views(rows@), 0, Seq::empty()) == Err::<
                Seq<CalendarView>,
                StaticFeedErrorView,
            >(e@),
        },
{
    proof {
        reveal_strlit("calendar.txt");
    }
    let ghost rv = row_views(rows@);
    let mut calendars: Vec<Calendar> = Vec::new();
    let mut index = StrIndex::new();
    let mut k: usize = 0;
    proof {
        assert(views(calendars@) =~= Seq::<CalendarView>::empty());
    }
    while k < rows.len()
        invariant
            rv == row_views(rows@),
            rv.len() == rows.len(),
            k <= rows.len(),
            calendars@.len() == k,
            index_matches(calendars@, index@, |x: Calendar| x.service_id@),
            calendars_from(*c, rv, 0, Seq::empty()) == calendars_from(*c, rv, k as int, views(calendars@)),
        decreases rows.len() - k,
    {
        let rec = &rows[k];
        let row = k.saturating_add(2);
        proof {
            assert(rv[k as int] == field_views(rec@));
            assert(row == row_number(k as int));
        }
        let id = field_value("calendar.txt", rec, c.service_id, row, "service_id")?;
        proof {
            lemma_index_has_key(
                calendars@,
                index@,
                |x: Calendar| x.service_id@,
                |v: CalendarView| calendar_key(v),
                id@,
            );
        }
        if index.contains(id.as_str()) {
            return Err(StaticFeedError::DuplicateId { file: "calendar.txt", id });
        }
        let days = read_days(c, rec, row)?;
        let start = field_value("calendar.txt", rec, c.start_date, row, "start_date")?;
        let end = field_value("calendar.txt", rec, c.end_date, row, "end_date")?;
        check_date("start_date", &start, row)?;
        check_date("end_date", &end, row)?;
        let calendar = Calendar {
            service_id: id.clone(),
            monday: days[0],
            tuesday: days[1],
            wednesday: days[2],
            thursday: days[3],
            friday: days[4],
            saturday: days[5],
            sunday: days[6],
            start_date: start,
            end_date: end,
        };
        proof {
            assert(calendar@.days =~= days@);
            lemma_index_push(calendars@, index@, |x: Calendar| x.service_id@, calendar);
            assert(views(calendars@.push(calendar)) =~= views(calendars@).push(calendar@));
        }
        index.insert(id, calendars.len());
        calendars.push(calendar);
        k = k + 1;
    }
    Ok((calendars, index))
}

/// Reads `calendar.txt`: the calendars in file order and an index by service id.
pub fn parse_calendars(bytes: &[u8]) -> (r: Result<(Vec<Calendar>, StrIndex), StaticFeedError>)
    ensures
        match r {
            Ok((calendars, index)) => spec_parse_calendars(bytes@) == Ok::<
                Seq<CalendarView>,
                StaticFeedErrorView,
            >(views(calendars@)) && index_matches(calendars@, index@, |x: Calendar| x.service_id@),
            Err(e) => spec_parse_calendars(bytes@) == Err::<Seq<CalendarView>, StaticFeedErrorView>(
                e@,
            ),
        },
{
    let mut table = Table::new("calendar.txt", bytes)?;
    proof {
        reveal_strlit("calendar.txt");
    }
    let ghost h = table.header();
    let service_id = table.column("service_id")?;
    let mut day_columns: Vec<usize> = Vec::new();
    let mut i: usize = 0;
    while i < 7
        invariant
            h == table.header(),
            spec_open_table("calendar.txt"@, bytes@) == Ok::<Seq<Seq<char>>, StaticFeedErrorView>(h),
            spec_column(h, "service_id"@) is Some,
            table.file@ == "calendar.txt"@,
            i <= 7,
            day_columns@.len() == i,
            missing_day(h, 0) == missing_day(h, i as int),
            forall|j: int| 0 <= j < i ==> spec_column(h, day_name(j)) == Some(#[trigger] day_columns@[j] as nat),
        decreases 7 - i,
    {
        let column = table.column(day(i))?;
        day_columns.push(column);
        i = i + 1;
    }
    let start_date = table.column("start_date")?;
    let end_date = table.column("end_date")?;
    let c = CalendarColumns {
        service_id,
        monday: day_columns[0],
        tuesday: day_columns[1],
        wednesday: day_columns[2],
        thursday: day_columns[3],
        friday: day_columns[4],
        saturday: day_columns[5],
        sunday: day_columns[6],
        start_date,
        end_date,
    };
    proof {
        assert(spec_column(h, day_name(0)) == Some(day_columns@[0] as nat));
        assert(spec_column(h, day_name(1)) == Some(day_columns@[1] as nat));
        assert(spec_column(h, day_name(2)) == Some(day_columns@[2] as nat));
        assert(spec_column(h, day_name(3)) == Some(day_columns@[3] as nat));
        assert(spec_column(h, day_name(4)) == Some(day_columns@[4] as nat));
        assert(spec_column(h, day_name(5)) == Some(day_columns@[5] as nat));
        assert(spec_column(h, day_name(6)) == Some(day_columns@[6] as nat));
        assert(missing_day(h, 7) is None);
        assert(c == calendar_columns(h));
    }
    let rows = table.records()?;
    calendars_from_rows(&c, &rows)
}

// ── stop_times.txt ──────────────────────────────────────────────────────────

/// A kept row of `stop_times.txt`: its trip id and its stop time.
pub type StopRow = (Seq<char>, StopTimeView);

/// `x` placed into `sorted` after every row whose `stop_sequence` is not
/// greater than its own.
pub open spec fn insert_by_sequence(sorted: Seq<StopTimeView>, x: StopTimeView) -> Seq<StopTimeView>
    decreases sorted.len(),
{
    if sorted.len() == 0 {
        seq![x]
    } else if sorted.last().stop_sequence <= x.stop_sequence {
        sorted.push(x)
    } else {
        insert_by_sequence(sorted.drop_last(), x).push(sorted.last())
    }
}

/// The rows ordered by `stop_sequence`, rows with equal sequence numbers in
/// the order they came (a stable sort).
pub open spec fn sort_by_sequence(s: Seq<StopTimeView>) -> Seq<StopTimeView>
    decreases s.len(),
{
    if s.len() == 0 {
        s
    } else {
        insert_by_sequence(sort_by_sequence(s.drop_last()), s.last())
    }
}

/// The stop times of trip `trip` among `rows`, in the order they came.
pub open spec fn rows_of(rows: Seq<StopRow>, trip: Seq<char>) -> Seq<StopTimeView>
    decreases rows.len(),
{
    if rows.len() == 0 {
        Seq::empty()
    } else if rows.last().0 == trip {
        rows_of(rows.drop_last(), trip).push(rows.last().1)
    } else {
        rows_of(rows.drop_last(), trip)
    }
}

/// Some row belongs to trip `trip`.
pub open spec fn has_trip(rows: Seq<StopRow>, trip: Seq<char>) -> bool {
    exists|j: int| 0 <= j < rows.len() && #[trigger] rows[j].0 == trip
}

/// The stop times of each trip that has any, sorted by `stop_sequence`.
pub open spec fn group_map(rows: Seq<StopRow>) -> Map<Seq<char>, Seq<StopTimeView>> {
    Map::new(|k: Seq<char>| has_trip(rows, k), |k: Seq<char>| sort_by_sequence(rows_of(rows, k)))
}

/// Whether the filter keeps the stop times of `trip`.
pub open spec fn keeps(wanted: Option<Set<Seq<char>>>, trip: Seq<char>) -> bool {
    match wanted {
        None => true,
        Some(w) => w.contains(trip),
    }
}

/// An optional time column: `None` for a blank field, the seconds after
/// midnight, or the error.
pub open spec fn spec_optional_time(
    column: Seq<char>,
    value: Option<Seq<char>>,
    row: usize,
) -> Result<Option<u32>, StaticFeedErrorView> {
    match value {
        None => Ok(None),
        Some(v) => match spec_parse_time(v) {
            Some(t) => Ok(Some(t as u32)),
            None => Err(
                StaticFeedErrorView::InvalidField { file: "stop_times.txt"@, column, value: v, row },
            ),
        },
    }
}

fn optional_time(column: &'static str, value: Option<String>, row: usize) -> (r: Result<
    Option<u32>,
    StaticFeedError,
>)
    ensures
        match r {
            Ok(t) => spec_optional_time(column@, opt_view(value), row) == Ok::<
                Option<u32>,
                StaticFeedErrorView,
            >(t),
            Err(e) => spec_optional_time(column@, opt_view(value), row) == Err::<
                Option<u32>,
                StaticFeedErrorView,
            >(e@),
        },
{
    proof {
        reveal_strlit("stop_times.txt");
    }
    match value {
        None => Ok(None),
        Some(v) => match parse_time(v.as_str()) {
            Some(t) => Ok(Some(t)),
            None => Err(StaticFeedError::InvalidField { file: "stop_times.txt", column, value: v, row }),
        },
    }
}

/// Where the columns of `stop_times.txt` are.
#[derive(Debug, Clone, Copy, PartialEq, Eq)]
pub struct StopTimeColumns {
    pub trip_id: usize,
    pub arrival_time: Option<usize>,
    pub departure_time: Option<usize>,
    pub stop_id: usize,
    pub stop_sequence: usize,
}

/// The columns of `stop_times.txt` as the header places them.
pub open spec fn stop_time_columns(h: Seq<Seq<char>>) -> StopTimeColumns {
    StopTimeColumns {
        trip_id: col(h, "trip_id"@) as usize,
        arrival_time: opt_usize(spec_column(h, "arrival_time"@)),
        departure_time: opt_usize(spec_column(h, "departure_time"@)),
        stop_id: col(h, "stop_id"@) as usize,
        stop_sequence: col(h, "stop_sequence"@) as usize,
    }
}

/// One record of `stop_times.txt`: its trip id and stop time, or the error.
pub open spec fn stop_row(c: StopTimeColumns, rec: Seq<Seq<char>>, row: usize) -> Result<
    StopRow,
    StaticFeedErrorView,
> {
    let file = "stop_times.txt"@;
    match spec_value(file, rec, c.trip_id as int, row, "trip_id"@) {
        Err(e) => Err(e),
        Ok(trip) => match spec_value(file, rec, c.stop_id as int, row, "stop_id"@) {
            Err(e) => Err(e),
            Ok(stop) => match spec_value(
                file,
                rec,
                c.stop_sequence as int,
                row,
                "stop_sequence"@,
            ) {
                Err(e) => Err(e),
                Ok(sv) => match spec_parse_unsigned(sv, u32::MAX as nat) {
                    None => Err(
                        StaticFeedErrorView::InvalidField {
                            file,
                            column: "stop_sequence"@,
                            value: sv,
                            row,
                        },
                    ),
                    Some(sequence) => match spec_optional_time(
                        "arrival_time"@,
                        spec_optional(rec, opt_nat(c.arrival_time)),
                        row,
                    ) {
                        Err(e) => Err(e),
                        Ok(arrival) => match spec_optional_time(
                            "departure_time"@,
                            spec_optional(rec, opt_nat(c.departure_time)),
                            row,
                        ) {
                            Err(e) => Err(e),
                            Ok(departure) => Ok(
                                (
                                    trip,
                                    StopTimeView {
                                        arrival_time: arrival,
                                        departure_time: departure,
                                        stop_id: stop,
                                        stop_sequence: sequence as u32,
                                    },
                                ),
                            ),
                        },
                    },
                },
            },
        },
    }
}

/// The kept rows of the records from the `k`-th on, after `acc`: every
/// record is read and checked as it comes, and kept when the filter keeps
/// its trip. A record past the first `max_rows` is refused, whatever it holds.
pub open spec fn stop_rows_from(
    c: StopTimeColumns,
    recs: Seq<RecordView>,
    k: int,
    wanted: Option<Set<Seq<char>>>,
    max_rows: usize,
    acc: Seq<StopRow>,
) -> Result<Seq<StopRow>, StaticFeedErrorView>
    decreases recs.len() - k,
{
    if k < 0 || k >= recs.len() {
        Ok(acc)
    } else if k >= max_rows {
        Err(StaticFeedErrorView::TooManyRows { file: "stop_times.txt"@, limit: max_rows })
    } else {
        match recs[k] {
            Err(m) => Err(
                StaticFeedErrorView::Csv { file: "stop_times.txt"@, detail: record_error(k, m) },
            ),
            Ok(rec) => match stop_row(c, rec, row_number(k)) {
                Err(e) => Err(e),
                Ok(r) => stop_rows_from(
                    c,
                    recs,
                    k + 1,
                    wanted,
                    max_rows,
                    if keeps(wanted, r.0) {
                        acc.push(r)
                    } else {
                        acc
                    },
                ),
            },
        }
    }
}

/// The kept rows of `stop_times.txt`, in file order, or the first error; a
/// file of more than `max_rows` records is refused.
pub open spec fn spec_parse_stop_times(
    bytes: Seq<u8>,
    wanted: Option<Set<Seq<char>>>,
    max_rows: usize,
) -> Result<
    Seq<StopRow>,
    StaticFeedErrorView,
> {
    let file = "stop_times.txt"@;
    match spec_open_table(file, bytes) {
        Err(e) => Err(e),
        Ok(h) => if spec_column(h, "trip_id"@) is None {
            Err(StaticFeedErrorView::MissingColumn { file, column: "trip_id"@ })
        } else if spec_column(h, "stop_id"@) is None {
            Err(StaticFeedErrorView::MissingColumn { file, column: "stop_id"@ })
        } else if spec_column(h, "stop_sequence"@) is None {
            Err(StaticFeedErrorView::MissingColumn { file, column: "stop_sequence"@ })
        } else {
            stop_rows_from(stop_time_columns(h), csv_parse(bytes).1, 0, wanted, max_rows, Seq::empty())
        },
    }
}

/// Placing `x` at `p` is inserting it by sequence when the rows from `p` on
/// come after it and the one before does not.
proof fn lemma_insert_at(s: Seq<StopTimeView>, x: StopTimeView, p: int)
    requires
        0 <= p <= s.len(),
        forall|i: int| p <= i < s.len() ==> #[trigger] s[i].stop_sequence > x.stop_sequence,
        p == 0 || s[p - 1].stop_sequence <= x.stop_sequence,
    ensures
        insert_by_sequence(s, x) == s.take(p).push(x) + s.skip(p),
    decreases s.len(),
{
    if s.len() == p {
        assert(s.take(p) =~= s);
        assert(s.take(p).push(x) + s.skip(p) =~= s.push(x));
    } else {
        assert(s.last() == s[s.len() - 1]);
        lemma_insert_at(s.drop_last(), x, p);
        assert(s.drop_last().take(p) =~= s.take(p));
        assert((s.take(p).push(x) + s.drop_last().skip(p)).push(s.last()) =~= s.take(p).push(x)
            + s.skip(p));
    }
}

/// Inserts a stop time after every row whose `stop_sequence` is not greater.
fn insert_sorted(rows: &mut Vec<StopTime>, x: StopTime)
    ensures
        views(final(rows)@) == insert_by_sequence(views(old(rows)@), x@),
{
    let ghost s = views(rows@);
    let mut p: usize = rows.len();
    while p > 0 && rows[p - 1].stop_sequence > x.stop_sequence
        invariant
            p <= rows.len(),
            s == views(rows@),
            forall|i: int| p <= i < s.len() ==> #[trigger] s[i].stop_sequence > x.stop_sequence,
        decreases p,
    {
        p = p - 1;
    }
    proof {
        lemma_insert_at(s, x@, p as int);
    }
    rows.insert(p, x);
    proof {
        assert(views(rows@) =~= s.take(p as int).push(x@) + s.skip(p as int));
    }
}

/// Total rows grow by one when one group grows by one.
proof fn lemma_total_rows_update(g: Seq<Seq<StopTimeView>>, j: int, s: Seq<StopTimeView>)
    requires
        0 <= j < g.len(),
        s.len() == g[j].len() + 1,
    ensures
        total_rows(g.update(j, s)) == total_rows(g) + 1,
    decreases g.len(),
{
    if j < g.len() - 1 {
        lemma_total_rows_update(g.drop_last(), j, s);
        assert(g.update(j, s).drop_last() =~= g.drop_last().update(j, s));
    } else {
        assert(g.update(j, s).drop_last() =~= g.drop_last());
    }
}

/// The rows of a trip after one more row came.
proof fn lemma_rows_of_push(rows: Seq<StopRow>, r: StopRow, trip: Seq<char>)
    ensures
        rows_of(rows.push(r), trip) == (if r.0 == trip {
            rows_of(rows, trip).push(r.1)
        } else {
            rows_of(rows, trip)
        }),
{
    assert(rows.push(r).drop_last() =~= rows);
}

/// A trip with no rows has none to sort.
proof fn lemma_rows_of_absent(rows: Seq<StopRow>, trip: Seq<char>)
    requires
        !has_trip(rows, trip),
    ensures
        rows_of(rows, trip) == Seq::<StopTimeView>::empty(),
    decreases rows.len(),
{
    if rows.len() > 0 {
        assert(rows.last().0 != trip) by {
            assert(rows[rows.len() - 1].0 == rows.last().0);
        }
        assert(!has_trip(rows.drop_last(), trip)) by {
            if has_trip(rows.drop_last(), trip) {
                let j = choose|j: int| 0 <= j < rows.drop_last().len() && #[trigger] rows.drop_last()[j].0 == trip;
                assert(rows[j].0 == trip);
            }
        }
        lemma_rows_of_absent(rows.drop_last(), trip);
    }
}

/// The stop-time groups hold, for each trip met so far, its rows sorted by
/// sequence, and together as many rows as were kept.
pub open spec fn groups_match(groups: Seq<Group>, index: Map<Seq<char>, usize>, rows: Seq<StopRow>) -> bool {
    &&& index_matches(groups, index, |g: Group| g.trip_id@)
    &&& forall|j: int| 0 <= j < groups.len() ==> #[trigger] groups[j]@ == sort_by_sequence(
        rows_of(rows, groups[j].trip_id@),
    )
    &&& forall|k: Seq<char>| #[trigger] index.dom().contains(k) == has_trip(rows, k)
    &&& total_rows(views(groups)) == rows.len()
}

/// Files a kept row under its trip.
fn add_row(
    groups: &mut Vec<Group>,
    index: &mut crate::index::StrIndex,
    trip: String,
    time: StopTime,
    Ghost(rows): Ghost<Seq<StopRow>>,
)
    requires
        groups_match(old(groups)@, old(index)@, rows),
    ensures
        groups_match(final(groups)@, final(index)@, rows.push((trip@, time@))),
{
    let ghost r = (trip@, time@);
    let ghost rows2 = rows.push(r);
    proof {
        assert forall|k: Seq<char>| #[trigger] has_trip(rows2, k) == (has_trip(rows, k) || k == trip@) by {
            if has_trip(rows2, k) && !has_trip(rows, k) {
                let j = choose|j: int| 0 <= j < rows2.len() && #[trigger] rows2[j].0 == k;
                if j < rows.len() {
                    assert(rows[j] == rows2[j]);
                }
            }
            if has_trip(rows, k) {
                let j = choose|j: int| 0 <= j < rows.len() && #[trigger] rows[j].0 == k;
                assert(rows2[j] == rows[j]);
            }
            if k == trip@ {
                assert(rows2[rows.len() as int].0 == k);
            }
        }
        assert forall|k: Seq<char>| true implies #[trigger] rows_of(rows2, k) == (if k == trip@ {
            rows_of(rows, k).push(time@)
        } else {
            rows_of(rows, k)
        }) by {
            lemma_rows_of_push(rows, r, k);
        }
    }
    match index.get(trip.as_str()) {
        Some(j) => {
            let ghost old_groups = groups@;
            let ghost old_rows = old_groups[j as int]@;
            proof {
                assert(old_groups[j as int].trip_id@ == trip@);
                assert(sort_by_sequence(rows_of(rows, trip@).push(time@)) == insert_by_sequence(
                    sort_by_sequence(rows_of(rows, trip@)),
                    time@,
                )) by {
                    assert(rows_of(rows, trip@).push(time@).drop_last() =~= rows_of(rows, trip@));
                }
            }
            insert_sorted(&mut groups[j].times.rows, time);
            proof {
                assert(groups@ == old_groups.update(j as int, groups@[j as int]));
                assert(views(groups@) =~= views(old_groups).update(j as int, groups@[j as int]@));
                lemma_insert_len(old_rows, time@);
                lemma_total_rows_update(views(old_groups), j as int, groups@[j as int]@);
                assert forall|i: int| 0 <= i < groups@.len() implies #[trigger] groups@[i]@
                    == sort_by_sequence(rows_of(rows2, groups@[i].trip_id@)) by {
                    if i != j {
                        assert(groups@[i] == old_groups[i]);
                        let kf = |g: Group| g.trip_id@;
                        assert(index@.dom().contains(kf(old_groups[i])));
                        assert(index@[kf(old_groups[i])] == i);
                        assert(old_groups[i].trip_id@ != trip@);
                    }
                }
                assert(index_matches(groups@, index@, |g: Group| g.trip_id@));
            }
        },
        None => {
            let ghost old_groups = groups@;
            let ghost old_index = index@;
            proof {
                lemma_rows_of_absent(rows, trip@);
                assert(rows_of(rows, trip@).push(time@) =~= seq![time@]);
                assert(sort_by_sequence(seq![time@]) == insert_by_sequence(
                    sort_by_sequence(Seq::empty()),
                    time@,
                )) by {
                    assert(seq![time@].drop_last() =~= Seq::<StopTimeView>::empty());
                }
            }
            let n = groups.len();
            let mut times = Vec::new();
            times.push(time);
            let group = Group { trip_id: trip.clone(), times: StopTimes { rows: times } };
            proof {
                assert(group@ =~= seq![time@]);
                crate::reader::lemma_index_push(old_groups, index@, |g: Group| g.trip_id@, group);
                assert(views(old_groups.push(group)) =~= views(old_groups).push(group@));
                assert(views(old_groups.push(group)).drop_last() =~= views(old_groups));
            }
            index.insert(trip, groups.len());
            groups.push(group);
            proof {
                assert forall|i: int| 0 <= i < groups@.len() implies #[trigger] groups@[i]@
                    == sort_by_sequence(rows_of(rows2, groups@[i].trip_id@)) by {
                    if i < old_groups.len() {
                        assert(groups@[i] == old_groups[i]);
                        let kf = |g: Group| g.trip_id@;
                        assert(old_index.dom().contains(kf(old_groups[i])));
                        assert(old_groups[i].trip_id@ != trip@);
                    }
                }
            }
        },
    }
}

/// Inserting adds one row.
proof fn lemma_insert_len(s: Seq<StopTimeView>, x: StopTimeView)
    ensures
        insert_by_sequence(s, x).len() == s.len() + 1,
    decreases s.len(),
{
    if s.len() > 0 && s.last().stop_sequence > x.stop_sequence {
        lemma_insert_len(s.drop_last(), x);
    }
}

/// Whether the filter keeps the stop times of `trip`.
fn keeps_trip(wanted: &TripFilter, trip: &str) -> (r: bool)
    ensures
        r == keeps(filter_view(*wanted), trip@),
{
    match wanted {
        TripFilter::All => true,
        TripFilter::Only(set) => set_contains(set, trip),
    }
}

/// One record of `stop_times.txt` whose columns are at `c`, found on line
/// `row`: its trip id and its stop time, or the error.
pub fn stop_time_row(c: &StopTimeColumns, rec: &Vec<String>, row: usize) -> (r: Result<
    (String, StopTime),
    StaticFeedError,
>)
    ensures
        match r {
            Ok((trip, time)) => stop_row(*c, field_views(rec@), row) == Ok::<
                StopRow,
                StaticFeedErrorView,
            >((trip@, time@)),
            Err(e) => stop_row(*c, field_views(rec@), row) == Err::<StopRow, StaticFeedErrorView>(e@),
        },
{
    proof {
        reveal_strlit("stop_times.txt");
    }
    let trip = field_value("stop_times.txt", rec, c.trip_id, row, "trip_id")?;
    let stop = field_value("stop_times.txt", rec, c.stop_id, row, "stop_id")?;
    let sv = field_value("stop_times.txt", rec, c.stop_sequence, row, "stop_sequence")?;
    let stop_sequence = match parse_unsigned(sv.as_str(), 4294967295) {
        Some(n) => n,
        None => {
            return Err(
                StaticFeedError::InvalidField {
                    file: "stop_times.txt",
                    column: "stop_sequence",
                    value: sv,
                    row,
                },
            );
        },
    };
    let arrival_time = optional_time("arrival_time", field_optional(rec, c.arrival_time), row)?;
    let departure_time = optional_time("departure_time", field_optional(rec, c.departure_time), row)?;
    Ok((trip, StopTime { arrival_time, departure_time, stop_id: stop, stop_sequence }))
}

/// Reads `stop_times.txt` record by record, keeping the rows of the trips the
/// filter keeps: the groups of stop times by trip, each sorted by
/// `stop_sequence`, and an index by trip id. More than
/// [`MAX_STOP_TIME_ROWS`] records are refused.
pub fn parse_stop_times(bytes: &[u8], wanted: &TripFilter) -> (r: Result<
    (Vec<Group>, StrIndex),
    StaticFeedError,
>)
    ensures
        match r {
            Ok((groups, index)) => spec_parse_stop_times(
                bytes@,
                filter_view(*wanted),
                MAX_STOP_TIME_ROWS,
            ) matches Ok(rows) && groups_match(groups@, index@, rows),
            Err(e) => spec_parse_stop_times(bytes@, filter_view(*wanted), MAX_STOP_TIME_ROWS)
                == Err::<Seq<StopRow>, StaticFeedErrorView>(e@),
        },
{
    parse_stop_times_within(bytes, wanted, MAX_STOP_TIME_ROWS)
}

/// As [`parse_stop_times`], refusing more than `max_rows` records.
pub fn parse_stop_times_within(bytes: &[u8], wanted: &TripFilter, max_rows: usize) -> (r: Result<
    (Vec<Group>, StrIndex),
    StaticFeedError,
>)
    ensures
        match r {
            Ok((groups, index)) => spec_parse_stop_times(bytes@, filter_view(*wanted), max_rows)
                matches Ok(rows) && groups_match(groups@, index@, rows),
            Err(e) => spec_parse_stop_times(bytes@, filter_view(*wanted), max_rows) == Err::<
                Seq<StopRow>,
                StaticFeedErrorView,
            >(e@),
        },
{
    let mut table = Table::new("stop_times.txt", bytes)?;
    proof {
        reveal_strlit("stop_times.txt");
    }
    let ghost h = table.header();
    let ghost w = filter_view(*wanted);
    let trip_id = table.column("trip_id")?;
    let arrival_time = table.optional_column("arrival_time");
    let departure_time = table.optional_column("departure_time");
    let stop_id = table.column("stop_id")?;
    let stop_sequence = table.column("stop_sequence")?;
    let c = StopTimeColumns { trip_id, arrival_time, departure_time, stop_id, stop_sequence };
    proof {
        assert(c == stop_time_columns(h));
    }
    let ghost all = table.pending();
    let mut groups: Vec<Group> = Vec::new();
    let mut index = StrIndex::new();
    let ghost mut kept: Seq<StopRow> = Seq::empty();
    let mut k: usize = 0;
    let ghost mut gk: int = 0;
    proof {
        assert(views(groups@) =~= Seq::<Seq<StopTimeView>>::empty());
        assert(all.skip(0) =~= all);
        assert(spec_parse_stop_times(bytes@, w, max_rows) == stop_rows_from(c, all, 0, w, max_rows, kept));
        assert forall|key: Seq<char>| #[trigger] index@.dom().contains(key) == has_trip(kept, key) by {}
    }
    loop
        invariant
            spec_parse_stop_times(bytes@, w, max_rows) == stop_rows_from(c, all, gk, w, max_rows, kept),
            w == filter_view(*wanted),
            table.file@ == "stop_times.txt"@,
            0 <= gk <= all.len(),
            table.pending() == all.skip(gk),
            k == capped(gk as nat),
            groups_match(groups@, index@, kept),
        decreases all.len() - gk,
    {
        proof {
            assert(all.skip(gk).len() == all.len() - gk);
        }
        match table.next() {
            None => {
                proof {
                    assert(gk == all.len());
                }
                return Ok((groups, index));
            },
            Some(Err(message)) => {
                if k >= max_rows {
                    return Err(StaticFeedError::TooManyRows { file: "stop_times.txt", limit: max_rows });
                }
                proof {
                    assert(all[gk] == all.skip(gk)[0]);
                }
                return Err(record_failure("stop_times.txt", k, message.as_str(), Ghost(gk)));
            },
            Some(Ok(rec)) => {
                if k >= max_rows {
                    return Err(StaticFeedError::TooManyRows { file: "stop_times.txt", limit: max_rows });
                }
                let row = k.saturating_add(2);
                proof {
                    assert(all[gk] == all.skip(gk)[0]);
                    assert(all.skip(gk).drop_first() =~= all.skip(gk + 1));
                    assert(row == row_number(gk));
                }
                let (trip, time) = stop_time_row(&c, &rec, row)?;
                if keeps_trip(wanted, trip.as_str()) {
                    let ghost r = (trip@, time@);
                    add_row(&mut groups, &mut index, trip, time, Ghost(kept));
                    proof {
                        kept = kept.push(r);
                    }
                }
                k = k.saturating_add(1);
                proof {
                    gk = gk + 1;
                }
            },
        }
    }
}

// ── Filtering ───────────────────────────────────────────────────────────────

/// The rows whose trip is in `w`, in order.
pub open spec fn kept_only(rows: Seq<StopRow>, w: Set<Seq<char>>) -> Seq<StopRow>
    decreases rows.len(),
{
    if rows.len() == 0 {
        rows
    } else if w.contains(rows.last().0) {
        kept_only(rows.drop_last(), w).push(rows.last())
    } else {
        kept_only(rows.drop_last(), w)
    }
}

proof fn lemma_stop_rows_filtered(
    c: StopTimeColumns,
    recs: Seq<RecordView>,
    k: int,
    w: Set<Seq<char>>,
    max_rows: usize,
    a: Seq<StopRow>,
)
    ensures
        match stop_rows_from(c, recs, k, None, max_rows, a) {
            Ok(r) => stop_rows_from(c, recs, k, Some(w), max_rows, kept_only(a, w)) == Ok::<
                Seq<StopRow>,
                StaticFeedErrorView,
            >(kept_only(r, w)),
            Err(e) => stop_rows_from(c, recs, k, Some(w), max_rows, kept_only(a, w)) == Err::<
                Seq<StopRow>,
                StaticFeedErrorView,
            >(e),
        },
    decreases recs.len() - k,
{
    if 0 <= k < recs.len() && k < max_rows {
        if let Ok(rec) = recs[k] {
            if let Ok(r) = stop_row(c, rec, row_number(k)) {
                lemma_stop_rows_filtered(c, recs, k + 1, w, max_rows, a.push(r));
                assert(a.push(r).drop_last() =~= a);
            }
        }
    }
}

/// Reading `stop_times.txt` with a filter fails exactly when reading it whole
/// does, with the same error (the row ceiling counts every record, kept or
/// not), and otherwise keeps the rows of the wanted trips and no others, in
/// the same order.
pub proof fn law_filtered_stop_times(bytes: Seq<u8>, w: Set<Seq<char>>, max_rows: usize)
    ensures
        match spec_parse_stop_times(bytes, None, max_rows) {
            Ok(r) => spec_parse_stop_times(bytes, Some(w), max_rows) == Ok::<
                Seq<StopRow>,
                StaticFeedErrorView,
            >(kept_only(r, w)),
            Err(e) => spec_parse_stop_times(bytes, Some(w), max_rows) == Err::<
                Seq<StopRow>,
                StaticFeedErrorView,
            >(e),
        },
{
    if let Ok(h) = spec_open_table("stop_times.txt"@, bytes) {
        lemma_stop_rows_filtered(stop_time_columns(h), csv_parse(bytes).1, 0, w, max_rows, Seq::empty());
        assert(kept_only(Seq::<StopRow>::empty(), w) =~= Seq::<StopRow>::empty());
    }
}

proof fn lemma_kept_only_rows(rows: Seq<StopRow>, w: Set<Seq<char>>, trip: Seq<char>)
    ensures
        rows_of(kept_only(rows, w), trip) == (if w.contains(trip) {
            rows_of(rows, trip)
        } else {
            Seq::<StopTimeView>::empty()
        }),
        has_trip(kept_only(rows, w), trip) == (w.contains(trip) && has_trip(rows, trip)),
    decreases rows.len(),
{
    if rows.len() > 0 {
        lemma_kept_only_rows(rows.drop_last(), w, trip);
        let last = rows.last();
        let before = kept_only(rows.drop_last(), w);
        if w.contains(last.0) {
            assert(before.push(last).drop_last() =~= before);
        }
        assert(has_trip(rows, trip) == (has_trip(rows.drop_last(), trip) || last.0 == trip)) by {
            if has_trip(rows, trip) {
                let j = choose|j: int| 0 <= j < rows.len() && #[trigger] rows[j].0 == trip;
                if j < rows.len() - 1 {
                    assert(rows.drop_last()[j] == rows[j]);
                }
            }
            if has_trip(rows.drop_last(), trip) {
                let j = choose|j: int| 0 <= j < rows.drop_last().len() && #[trigger] rows.drop_last()[j].0 == trip;
                assert(rows[j] == rows.drop_last()[j]);
            }
            assert(rows[rows.len() - 1] == last);
        }
        let k = kept_only(rows, w);
        if w.contains(last.0) {
            assert(has_trip(k, trip) == (has_trip(before, trip) || last.0 == trip)) by {
                if has_trip(k, trip) {
                    let j = choose|j: int| 0 <= j < k.len() && #[trigger] k[j].0 == trip;
                    if j < k.len() - 1 {
                        assert(before[j] == k[j]);
                    }
                }
                if has_trip(before, trip) {
                    let j = choose|j: int| 0 <= j < before.len() && #[trigger] before[j].0 == trip;
                    assert(k[j] == before[j]);
                }
                assert(k[k.len() - 1] == last);
            }
        }
    }
}

/// Keeping the rows of the trips `w` keeps the stop times of those trips as
/// they were, and drops every other trip's.
pub proof fn law_filtered_groups(rows: Seq<StopRow>, w: Set<Seq<char>>)
    ensures
        forall|trip: Seq<char>|
            #[trigger] group_map(kept_only(rows, w)).dom().contains(trip) == (w.contains(trip)
                && group_map(rows).dom().contains(trip)),
        forall|trip: Seq<char>|
            w.contains(trip) && #[trigger] group_map(rows).dom().contains(trip) ==> group_map(
                kept_only(rows, w),
            )[trip] == group_map(rows)[trip],
{
    assert forall|trip: Seq<char>| #[trigger] group_map(kept_only(rows, w)).dom().contains(trip)
        == (w.contains(trip) && group_map(rows).dom().contains(trip)) by {
        lemma_kept_only_rows(rows, w, trip);
    }
    assert forall|trip: Seq<char>| w.contains(trip) && #[trigger] group_map(rows).dom().contains(
        trip,
    ) implies group_map(kept_only(rows, w))[trip] == group_map(rows)[trip] by {
        lemma_kept_only_rows(rows, w, trip);
    }
}

} // verus!
