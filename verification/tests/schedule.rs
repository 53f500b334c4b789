use std::collections::BTreeSet;
use std::io::{Cursor, Write};

use gtfs_rt::fields::{is_date, is_float_text, parse_flag, parse_time, parse_unsigned};
use gtfs_rt::reader::parse_stop_times_within;
use gtfs_rt::schedule::{
    ReadLimits, StaticFeed, StaticFeedError, TripFilter, MAX_STOP_TIME_ROWS, MAX_TABLE_BYTES,
};
use zip::write::SimpleFileOptions;
use zip::ZipWriter;

fn archive(files: &[(&str, &str)]) -> Vec<u8> {
    let mut output = Cursor::new(Vec::new());
    let mut writer = ZipWriter::new(&mut output);
    let options = SimpleFileOptions::default();
    for (name, content) in files {
        writer.start_file(*name, options).unwrap();
        writer.write_all(content.as_bytes()).unwrap();
    }
    writer.finish().unwrap();
    output.into_inner()
}

fn required_files() -> [(&'static str, &'static str); 4] {
    [
        (
            "routes.txt",
            "route_id,route_short_name,route_long_name,route_type\nR1,1,\"Main Street, Local\",3\n",
        ),
        (
            "trips.txt",
            "route_id,service_id,trip_id,trip_headsign,direction_id\nR1,S1,T1,Town,0\n",
        ),
        (
            "stops.txt",
            "stop_id,stop_name,stop_lat,stop_lon\nS1,First,41.0,29.0\nS2,Second,41.1,29.1\n",
        ),
        (
            "stop_times.txt",
            "trip_id,arrival_time,departure_time,stop_id,stop_sequence\nT1,25:01:02,25:01:10,S2,2\nT1,24:59:00,24:59:10,S1,1\n",
        ),
    ]
}

#[test]
fn reads_required_tables_and_sorts_stop_times() {
    let feed = StaticFeed::from_zip_bytes(&archive(&required_files())).unwrap();
    assert_eq!(feed.summary().routes, 1);
    assert_eq!(feed.summary().trips, 1);
    assert_eq!(feed.summary().stops, 2);
    assert_eq!(feed.summary().stop_times, 2);
    assert_eq!(feed.summary().calendars, 0);
    assert_eq!(
        feed.route("R1").unwrap().route_long_name.as_deref(),
        Some("Main Street, Local")
    );
    let times = feed.stop_times_for_trip("T1").unwrap();
    assert_eq!(times[0].stop_sequence, 1);
    assert_eq!(times[0].arrival_time, Some(89_940));
    assert_eq!(times[1].arrival_time, Some(90_062));
}

#[test]
fn reads_calendar_and_boolean_fields() {
    let mut files = required_files().to_vec();
    files.push((
        "calendar.txt",
        "service_id,monday,tuesday,wednesday,thursday,friday,saturday,sunday,start_date,end_date\nS1,1,1,1,1,1,0,0,20260101,20261231\n",
    ));
    let feed = StaticFeed::from_zip_bytes(&archive(&files)).unwrap();
    let calendar = feed.calendar("S1").unwrap();
    assert!(calendar.monday);
    assert!(!calendar.saturday);
    assert_eq!(calendar.end_date, "20261231");
}

#[test]
fn missing_required_table_is_reported() {
    let files = required_files();
    let archive = archive(&files[..3]);
    assert_eq!(
        StaticFeed::from_zip_bytes(&archive),
        Err(StaticFeedError::MissingFile { file: "stop_times.txt" })
    );
}

#[test]
fn duplicate_trip_id_is_rejected() {
    let mut files = required_files();
    files[1].1 = "route_id,service_id,trip_id\nR1,S1,T1\nR1,S1,T1\n";
    assert!(matches!(
        StaticFeed::from_zip_bytes(&archive(&files)),
        Err(StaticFeedError::DuplicateId { file: "trips.txt", .. })
    ));
}

#[test]
fn invalid_time_is_rejected() {
    let mut files = required_files();
    files[3].1 = "trip_id,arrival_time,departure_time,stop_id,stop_sequence\nT1,25:60:00,,S1,1\n";
    assert!(matches!(
        StaticFeed::from_zip_bytes(&archive(&files)),
        Err(StaticFeedError::InvalidField { file: "stop_times.txt", column: "arrival_time", .. })
    ));
}

// ── Further cases ───────────────────────────────────────────────────────────

#[test]
fn other_tables_are_read_as_written() {
    let feed = StaticFeed::from_zip_bytes(&archive(&required_files())).unwrap();
    let route = feed.route("R1").unwrap();
    assert_eq!(route.route_short_name.as_deref(), Some("1"));
    assert_eq!(route.route_type, Some(3));
    let trip = feed.trip("T1").unwrap();
    assert_eq!(trip.route_id, "R1");
    assert_eq!(trip.service_id, "S1");
    assert_eq!(trip.trip_headsign.as_deref(), Some("Town"));
    assert_eq!(trip.direction_id, Some(0));
    let stop = feed.stop("S2").unwrap();
    assert_eq!(stop.stop_name.as_deref(), Some("Second"));
    assert_eq!(stop.stop_lat.as_deref(), Some("41.1"));
    assert!(feed.has_stop("S1"));
    assert!(!feed.has_stop("S3"));
    assert!(feed.trip("T2").is_none());
    assert!(feed.stop_times_for_trip("T2").is_none());
    let times = feed.stop_times_for_trip("T1").unwrap();
    assert_eq!(times[0].stop_id, "S1");
    assert_eq!(times[1].stop_id, "S2");
    assert_eq!(times[1].departure_time, Some(90_070));
}

#[test]
fn equal_sequence_numbers_keep_their_file_order() {
    let mut files = required_files();
    files[3].1 = "trip_id,stop_id,stop_sequence\nT1,S2,5\nT1,S1,5\nT1,S2,1\n";
    let feed = StaticFeed::from_zip_bytes(&archive(&files)).unwrap();
    let times = feed.stop_times_for_trip("T1").unwrap();
    let order: Vec<(&str, u32)> = times
        .iter()
        .map(|t| (t.stop_id.as_str(), t.stop_sequence))
        .collect();
    assert_eq!(order, vec![("S2", 1), ("S2", 5), ("S1", 5)]);
}

#[test]
fn entries_in_a_directory_are_found_by_their_base_name() {
    let files: Vec<(String, &str)> = required_files()
        .iter()
        .map(|(name, content)| (format!("feed/{name}"), *content))
        .collect();
    let named: Vec<(&str, &str)> = files.iter().map(|(n, c)| (n.as_str(), *c)).collect();
    let feed = StaticFeed::from_zip_bytes(&archive(&named)).unwrap();
    assert_eq!(feed.summary().stops, 2);
}

#[test]
fn not_a_zip_is_a_zip_error() {
    assert!(matches!(
        StaticFeed::from_zip_bytes(b"not a zip"),
        Err(StaticFeedError::Zip { .. })
    ));
}

#[test]
fn missing_column_is_reported() {
    let mut files = required_files();
    files[2].1 = "stop_name\nFirst\n";
    assert_eq!(
        StaticFeed::from_zip_bytes(&archive(&files)),
        Err(StaticFeedError::MissingColumn { file: "stops.txt", column: "stop_id" })
    );
}

#[test]
fn blank_required_field_is_reported_with_its_line() {
    let mut files = required_files();
    files[0].1 = "route_id\nR1\n  \n";
    assert_eq!(
        StaticFeed::from_zip_bytes(&archive(&files)),
        Err(StaticFeedError::EmptyField { file: "routes.txt", column: "route_id", row: 3 })
    );
}

#[test]
fn invalid_number_is_reported_with_its_text() {
    let mut files = required_files();
    files[0].1 = "route_id,route_type\nR1, -3 \n";
    assert_eq!(
        StaticFeed::from_zip_bytes(&archive(&files)),
        Err(StaticFeedError::InvalidField {
            file: "routes.txt",
            column: "route_type",
            value: "-3".to_owned(),
            row: 2,
        })
    );
}

#[test]
fn invalid_coordinate_is_reported() {
    let mut files = required_files();
    files[2].1 = "stop_id,stop_lat\nS1,north\n";
    assert!(matches!(
        StaticFeed::from_zip_bytes(&archive(&files)),
        Err(StaticFeedError::InvalidField { file: "stops.txt", column: "stop_lat", .. })
    ));
}

#[test]
fn invalid_utf8_record_is_a_csv_error_with_its_line() {
    // A stop_times.txt holding invalid UTF-8 on line 3.
    let mut output = Cursor::new(Vec::new());
    {
        let mut writer = ZipWriter::new(&mut output);
        for (name, content) in &required_files()[..3] {
            writer.start_file(*name, SimpleFileOptions::default()).unwrap();
            writer.write_all(content.as_bytes()).unwrap();
        }
        writer.start_file("stop_times.txt", SimpleFileOptions::default()).unwrap();
        writer
            .write_all(b"trip_id,stop_id,stop_sequence\nT1,S1,1\nT1,S\xff,2\n")
            .unwrap();
        writer.finish().unwrap();
    }
    let bytes = output.into_inner();
    match StaticFeed::from_zip_bytes(&bytes) {
        Err(StaticFeedError::Csv { file, detail }) => {
            assert_eq!(file, "stop_times.txt");
            assert!(detail.starts_with("satır 3: "), "{detail}");
        }
        other => panic!("{other:?}"),
    }
}

#[test]
fn calendar_flag_and_date_are_checked() {
    let mut files = required_files().to_vec();
    files.push((
        "calendar.txt",
        "service_id,monday,tuesday,wednesday,thursday,friday,saturday,sunday,start_date,end_date\nS1,1,1,1,1,2,0,0,20260101,20261231\n",
    ));
    assert_eq!(
        StaticFeed::from_zip_bytes(&archive(&files)),
        Err(StaticFeedError::InvalidField {
            file: "calendar.txt",
            column: "friday",
            value: "2".to_owned(),
            row: 2,
        })
    );
    files.pop();
    files.push((
        "calendar.txt",
        "service_id,monday,tuesday,wednesday,thursday,friday,saturday,sunday,start_date,end_date\nS1,1,1,1,1,1,0,0,2026-01-01,20261231\n",
    ));
    assert!(matches!(
        StaticFeed::from_zip_bytes(&archive(&files)),
        Err(StaticFeedError::InvalidField { file: "calendar.txt", column: "start_date", .. })
    ));
    files.pop();
    files.push(("calendar.txt", "service_id,monday\nS1,1\n"));
    assert_eq!(
        StaticFeed::from_zip_bytes(&archive(&files)),
        Err(StaticFeedError::MissingColumn { file: "calendar.txt", column: "tuesday" })
    );
}

#[test]
fn filter_keeps_only_the_wanted_trips_stop_times() {
    let mut files = required_files();
    files[1].1 = "route_id,service_id,trip_id\nR1,S1,T1\nR1,S1,T2\n";
    files[3].1 = "trip_id,stop_id,stop_sequence\nT1,S1,1\nT2,S1,1\nT2,S2,2\n";
    let bytes = archive(&files);
    let mut wanted = BTreeSet::new();
    wanted.insert("T2".to_owned());
    let part = StaticFeed::from_zip_bytes_filtered(&bytes, TripFilter::Only(&wanted)).unwrap();
    let full = StaticFeed::from_zip_bytes(&bytes).unwrap();
    assert_eq!(full.stop_time_count(), 3);
    assert_eq!(part.stop_time_count(), 2);
    assert!(part.stop_times_for_trip("T1").is_none());
    assert_eq!(part.stop_times_for_trip("T2"), full.stop_times_for_trip("T2"));
    assert_eq!(part.trips().len(), 2);
    assert_eq!(part.summary().routes, full.summary().routes);
}

#[test]
fn filter_does_not_hide_a_broken_row() {
    let mut files = required_files();
    files[3].1 = "trip_id,stop_id,stop_sequence\nT1,S1,1\nT9,S1,x\n";
    let bytes = archive(&files);
    let wanted: BTreeSet<String> = ["T1".to_owned()].into_iter().collect();
    let part = StaticFeed::from_zip_bytes_filtered(&bytes, TripFilter::Only(&wanted));
    assert_eq!(part, StaticFeed::from_zip_bytes(&bytes));
    assert!(matches!(part, Err(StaticFeedError::InvalidField { column: "stop_sequence", row: 3, .. })));
}

#[test]
fn times_are_seconds_after_midnight() {
    assert_eq!(parse_time("24:59:00"), Some(89_940));
    assert_eq!(parse_time("25:01:02"), Some(90_062));
    assert_eq!(parse_time("0:00:00"), Some(0));
    assert_eq!(parse_time("+1:+2:+3"), Some(3_723));
    assert_eq!(parse_time("25:60:00"), None);
    assert_eq!(parse_time("1:00:60"), None);
    assert_eq!(parse_time("1:00"), None);
    assert_eq!(parse_time("1:00:00:00"), None);
    assert_eq!(parse_time(""), None);
    assert_eq!(parse_time("1193046:28:15"), Some(4_294_967_295));
    assert_eq!(parse_time("1193046:28:16"), None);
}

#[test]
fn unsigned_numbers_follow_from_str() {
    assert_eq!(parse_unsigned("42", 255), Some(42));
    assert_eq!(parse_unsigned("+7", 255), Some(7));
    assert_eq!(parse_unsigned("007", 255), Some(7));
    assert_eq!(parse_unsigned("255", 255), Some(255));
    assert_eq!(parse_unsigned("256", 255), None);
    assert_eq!(parse_unsigned("-1", 255), None);
    assert_eq!(parse_unsigned("+", 255), None);
    assert_eq!(parse_unsigned("", 255), None);
    assert_eq!(parse_unsigned("1_0", 255), None);
    assert_eq!(parse_unsigned("4294967295", u32::MAX), Some(u32::MAX));
    assert_eq!(parse_unsigned("4294967296", u32::MAX), None);
    for text in ["0", "1", "+65535", "65536", "x", "++1"] {
        assert_eq!(parse_unsigned(text, 65535), text.parse::<u16>().ok().map(u32::from));
    }
}

#[test]
fn coordinates_follow_f64_syntax() {
    for text in [
        "41.0", "-29", "+1.", ".5", "1e5", "1E-5", "2.5e+3", "inf", "-Infinity", "NaN", "007",
    ] {
        assert!(is_float_text(text), "{text}");
        assert!(text.parse::<f64>().is_ok(), "{text}");
    }
    for text in ["", ".", "e5", "1e", "1.2.3", "north", "1,5", " 1", "--1", "infinit", "1e+"] {
        assert!(!is_float_text(text), "{text}");
        assert!(text.parse::<f64>().is_err(), "{text}");
    }
}

#[test]
fn flags_and_dates() {
    assert_eq!(parse_flag("0"), Some(false));
    assert_eq!(parse_flag("1"), Some(true));
    assert_eq!(parse_flag("2"), None);
    assert_eq!(parse_flag("01"), None);
    assert!(is_date("20261231"));
    assert!(!is_date("2026123"));
    assert!(!is_date("2026-1231"));
    assert!(!is_date("202612310"));
}

#[test]
fn errors_describe_themselves() {
    assert_eq!(
        StaticFeedError::MissingFile { file: "stop_times.txt" }.describe(),
        "GTFS tablosu eksik: stop_times.txt"
    );
    assert_eq!(
        StaticFeedError::EmptyField { file: "routes.txt", column: "route_id", row: 3 }.describe(),
        "routes.txt satır 3: route_id boş"
    );
    assert_eq!(
        StaticFeedError::InvalidField {
            file: "trips.txt",
            column: "direction_id",
            value: "2x".to_owned(),
            row: 12,
        }
        .describe(),
        "trips.txt satır 12: direction_id geçersiz değer: 2x"
    );
    assert_eq!(
        StaticFeedError::DuplicateId { file: "stops.txt", id: "S1".to_owned() }.describe(),
        "stops.txt yinelenen kimlik: S1"
    );
    assert_eq!(
        StaticFeedError::MissingColumn { file: "stops.txt", column: "stop_id" }.describe(),
        "stops.txt zorunlu sütunu eksik: stop_id"
    );
    assert_eq!(
        StaticFeedError::Csv { file: "stops.txt", detail: "bad".to_owned() }.describe(),
        "stops.txt CSV okunamadı: bad"
    );
    assert_eq!(
        StaticFeedError::Zip { detail: "bad".to_owned() }.describe(),
        "GTFS ZIP okunamadı: bad"
    );
}

// ── Row-level readers ───────────────────────────────────────────────────────

use gtfs_rt::archive::has_base_name;
use gtfs_rt::reader::{
    calendars_from_rows, routes_from_rows, stop_time_row, stops_from_rows, trips_from_rows,
    CalendarColumns, RouteColumns, StopColumns, StopTimeColumns, TripColumns,
};
use gtfs_rt::table::{field_optional, field_value};

fn record(fields: &[&str]) -> Vec<String> {
    fields.iter().map(|f| (*f).to_owned()).collect()
}

#[test]
fn fields_are_trimmed_and_blank_ones_are_missing() {
    let rec = record(&["  R1 ", " ", "x"]);
    assert_eq!(field_value("routes.txt", &rec, 0, 2, "route_id"), Ok("R1".to_owned()));
    assert_eq!(
        field_value("routes.txt", &rec, 1, 2, "route_id"),
        Err(StaticFeedError::EmptyField { file: "routes.txt", column: "route_id", row: 2 })
    );
    assert_eq!(
        field_value("routes.txt", &rec, 5, 7, "route_id"),
        Err(StaticFeedError::EmptyField { file: "routes.txt", column: "route_id", row: 7 })
    );
    assert_eq!(field_optional(&rec, Some(2)), Some("x".to_owned()));
    assert_eq!(field_optional(&rec, Some(1)), None);
    assert_eq!(field_optional(&rec, Some(9)), None);
    assert_eq!(field_optional(&rec, None), None);
    assert_eq!(field_optional(&record(&["\u{3000}a b\u{a0}"]), Some(0)), Some("a b".to_owned()));
}

#[test]
fn route_rows_are_read_and_duplicates_refused() {
    let c = RouteColumns {
        route_id: 0,
        route_short_name: Some(1),
        route_long_name: None,
        route_type: Some(2),
    };
    let (routes, _) = routes_from_rows(&c, &vec![record(&["R1", "1", "3"]), record(&["R2", "", ""])]).unwrap();
    assert_eq!(routes.len(), 2);
    assert_eq!(routes[0].route_type, Some(3));
    assert_eq!(routes[1].route_short_name, None);
    assert_eq!(
        routes_from_rows(&c, &vec![record(&["R1"]), record(&["R1"])]),
        Err(StaticFeedError::DuplicateId { file: "routes.txt", id: "R1".to_owned() })
    );
    assert_eq!(
        routes_from_rows(&c, &vec![record(&["R1", "1", "65536"])]),
        Err(StaticFeedError::InvalidField {
            file: "routes.txt",
            column: "route_type",
            value: "65536".to_owned(),
            row: 2,
        })
    );
}

#[test]
fn trip_rows_check_their_fields_in_order() {
    let c = TripColumns {
        route_id: 0,
        service_id: 1,
        trip_id: 2,
        trip_headsign: None,
        direction_id: Some(3),
    };
    let (trips, _) = trips_from_rows(&c, &vec![record(&["R1", "S1", "T1", "1"])]).unwrap();
    assert_eq!(trips[0].direction_id, Some(1));
    assert_eq!(
        trips_from_rows(&c, &vec![record(&["", "S1", "T1", "256"])]),
        Err(StaticFeedError::InvalidField {
            file: "trips.txt",
            column: "direction_id",
            value: "256".to_owned(),
            row: 2,
        })
    );
    assert_eq!(
        trips_from_rows(&c, &vec![record(&["", "S1", "T1"])]),
        Err(StaticFeedError::EmptyField { file: "trips.txt", column: "route_id", row: 2 })
    );
}

#[test]
fn stop_rows_keep_coordinates_as_text() {
    let c = StopColumns { stop_id: 0, stop_name: None, stop_lat: Some(1), stop_lon: Some(2) };
    let (stops, _) = stops_from_rows(&c, &vec![record(&["S1", " 41.5 ", "-2e1"])]).unwrap();
    assert_eq!(stops[0].stop_lat.as_deref(), Some("41.5"));
    assert_eq!(stops[0].stop_lon.as_deref(), Some("-2e1"));
    assert!(matches!(
        stops_from_rows(&c, &vec![record(&["S1", "41,5", ""])]),
        Err(StaticFeedError::InvalidField { column: "stop_lat", .. })
    ));
}

#[test]
fn calendar_rows_read_every_day() {
    let c = CalendarColumns {
        service_id: 0,
        monday: 1,
        tuesday: 2,
        wednesday: 3,
        thursday: 4,
        friday: 5,
        saturday: 6,
        sunday: 7,
        start_date: 8,
        end_date: 9,
    };
    let rec = record(&["S1", "0", "1", "0", "1", "0", "1", "1", "20260101", "20261231"]);
    let (calendars, _) = calendars_from_rows(&c, &vec![rec]).unwrap();
    let cal = &calendars[0];
    assert_eq!(
        (cal.monday, cal.tuesday, cal.wednesday, cal.thursday, cal.friday, cal.saturday, cal.sunday),
        (false, true, false, true, false, true, true)
    );
    let rec = record(&["S1", "0", "1", "0", "1", "0", "1", "1", "20260101", "2026"]);
    assert_eq!(
        calendars_from_rows(&c, &vec![rec]),
        Err(StaticFeedError::InvalidField {
            file: "calendar.txt",
            column: "end_date",
            value: "2026".to_owned(),
            row: 2,
        })
    );
}

#[test]
fn a_stop_time_row_is_read() {
    let c = StopTimeColumns {
        trip_id: 0,
        arrival_time: Some(1),
        departure_time: None,
        stop_id: 2,
        stop_sequence: 3,
    };
    let (trip, time) = stop_time_row(&c, &record(&["T1", "08:00:00", "S1", "+4"]), 9).unwrap();
    assert_eq!(trip, "T1");
    assert_eq!(time.arrival_time, Some(28_800));
    assert_eq!(time.departure_time, None);
    assert_eq!(time.stop_sequence, 4);
    assert_eq!(
        stop_time_row(&c, &record(&["T1", "8:00", "S1", "4"]), 9),
        Err(StaticFeedError::InvalidField {
            file: "stop_times.txt",
            column: "arrival_time",
            value: "8:00".to_owned(),
            row: 9,
        })
    );
    assert_eq!(
        stop_time_row(&c, &record(&["T1", "", "S1", "-4"]), 9),
        Err(StaticFeedError::InvalidField {
            file: "stop_times.txt",
            column: "stop_sequence",
            value: "-4".to_owned(),
            row: 9,
        })
    );
}

#[test]
fn base_names_are_what_follows_the_last_slash() {
    let wanted: Vec<char> = "stops.txt".chars().collect();
    assert!(has_base_name("stops.txt", &wanted));
    assert!(has_base_name("gtfs/feed/stops.txt", &wanted));
    assert!(!has_base_name("gtfs/stops.txt/", &wanted));
    assert!(!has_base_name("my_stops.txt", &wanted));
    assert!(!has_base_name("stops.txt.bak", &wanted));
}

#[test]
fn standard_ceilings_are_the_published_constants() {
    let limits = ReadLimits::standard();
    assert_eq!(limits.max_table_bytes, MAX_TABLE_BYTES);
    assert_eq!(limits.max_stop_time_rows, MAX_STOP_TIME_ROWS);
    assert!(MAX_STOP_TIME_ROWS > 4_494_139);
}

#[test]
fn a_table_past_the_size_ceiling_is_refused() {
    let bytes = archive(&required_files());
    // routes.txt is 81 bytes, the largest of the four.
    let limits = ReadLimits { max_table_bytes: 80, max_stop_time_rows: 10 };
    assert_eq!(
        StaticFeed::from_zip_bytes_within(&bytes, TripFilter::All, limits).err(),
        Some(StaticFeedError::TableTooLarge { file: "routes.txt", limit: 80 })
    );
    let limits = ReadLimits { max_table_bytes: 81, max_stop_time_rows: 10 };
    assert!(StaticFeed::from_zip_bytes_within(&bytes, TripFilter::All, limits).is_ok());
}

#[test]
fn an_optional_calendar_past_the_size_ceiling_is_refused() {
    let mut files = required_files().to_vec();
    files.push((
        "calendar.txt",
        "service_id,monday,tuesday,wednesday,thursday,friday,saturday,sunday,start_date,end_date\nS1,1,1,1,1,1,0,0,20260101,20261231\n",
    ));
    let limits = ReadLimits { max_table_bytes: 100, max_stop_time_rows: 10 };
    assert_eq!(
        StaticFeed::from_zip_bytes_within(&archive(&files), TripFilter::All, limits).err(),
        Some(StaticFeedError::TableTooLarge { file: "calendar.txt", limit: 100 })
    );
}

#[test]
fn stop_times_past_the_row_ceiling_are_refused_with_or_without_a_filter() {
    let bytes = archive(&required_files());
    let limits = ReadLimits { max_table_bytes: MAX_TABLE_BYTES, max_stop_time_rows: 1 };
    assert_eq!(
        StaticFeed::from_zip_bytes_within(&bytes, TripFilter::All, limits).err(),
        Some(StaticFeedError::TooManyRows { file: "stop_times.txt", limit: 1 })
    );
    let none: BTreeSet<String> = BTreeSet::new();
    assert_eq!(
        StaticFeed::from_zip_bytes_within(&bytes, TripFilter::Only(&none), limits).err(),
        Some(StaticFeedError::TooManyRows { file: "stop_times.txt", limit: 1 })
    );
    let limits = ReadLimits { max_table_bytes: MAX_TABLE_BYTES, max_stop_time_rows: 2 };
    let feed = StaticFeed::from_zip_bytes_within(&bytes, TripFilter::All, limits).unwrap();
    assert_eq!(feed.summary().stop_times, 2);
}

#[test]
fn the_row_ceiling_comes_before_a_broken_row() {
    let text = "trip_id,stop_id,stop_sequence\nT1,S1,1\nT1,S2,x\n";
    assert_eq!(
        parse_stop_times_within(text.as_bytes(), &TripFilter::All, 1).err(),
        Some(StaticFeedError::TooManyRows { file: "stop_times.txt", limit: 1 })
    );
    assert!(matches!(
        parse_stop_times_within(text.as_bytes(), &TripFilter::All, 2),
        Err(StaticFeedError::InvalidField { column: "stop_sequence", row: 3, .. })
    ));
}

#[test]
fn ceiling_errors_describe_themselves() {
    assert_eq!(
        StaticFeedError::TableTooLarge { file: "trips.txt", limit: 80 }.describe(),
        "trips.txt boyut sınırını aşıyor: 80 bayt"
    );
    assert_eq!(
        StaticFeedError::TooManyRows { file: "stop_times.txt", limit: 2 }.describe(),
        "stop_times.txt satır sınırını aşıyor: 2 satır"
    );
}

#[test]
fn tables_are_listed_in_id_order() {
    let files = [
        ("routes.txt", "route_id,route_type\nR2,3\nR10,3\nR1,3\n"),
        (
            "trips.txt",
            "route_id,service_id,trip_id\nR1,S1,T9\nR2,S1,T10\nR1,S1,Tä\nR1,S1,T1\n",
        ),
        ("stops.txt", "stop_id\nb\nB\na\n"),
        ("stop_times.txt", "trip_id,stop_id,stop_sequence\nT1,a,1\n"),
        (
            "calendar.txt",
            "service_id,monday,tuesday,wednesday,thursday,friday,saturday,sunday,start_date,end_date\nS2,1,1,1,1,1,0,0,20260101,20261231\nS1,1,1,1,1,1,0,0,20260101,20261231\n",
        ),
    ];
    let feed = StaticFeed::from_zip_bytes(&archive(&files)).unwrap();
    let routes: Vec<&str> = feed.routes().iter().map(|r| r.route_id.as_str()).collect();
    assert_eq!(routes, vec!["R1", "R10", "R2"]);
    let trips: Vec<&str> = feed.trips().iter().map(|t| t.trip_id.as_str()).collect();
    assert_eq!(trips, vec!["T1", "T10", "T9", "Tä"]);
    let stops: Vec<&str> = feed.stops().iter().map(|s| s.stop_id.as_str()).collect();
    assert_eq!(stops, vec!["B", "a", "b"]);
    let calendars: Vec<&str> = feed.calendars().iter().map(|c| c.service_id.as_str()).collect();
    assert_eq!(calendars, vec!["S1", "S2"]);
}
