# gtfs_rt

A GTFS-Realtime analyzer whose library is verified with Verus.

It answers one question: does a realtime feed still describe the schedule it
claims to? To get there it decodes the protobuf payload while reporting every
structural anomaly it meets (truncation, unknown fields, missing `required`
fields, bad UTF-8, …), reads the tables of a static GTFS archive that matter
for matching, and compares the two.

The anomalies of a payload come in byte order: their offsets never decrease,
a missing `required` field being reported at the start of its message. The
static reader refuses a table read whole past `MAX_TABLE_BYTES` and a
`stop_times.txt` of more than `MAX_STOP_TIME_ROWS` records; both ceilings can
be set per reading through `ReadLimits`.

## Layout

- `src/` — the library, every function verified:
  - `wire`, `decode`, `model`, `anomaly`: the protobuf reader and the 26
    GTFS-Realtime messages, with the anomalies stated exactly by spec
    functions over the payload bytes;
  - `archive`, `table`, `fields`, `reader`, `schedule`: the static GTFS reader
    (routes, trips, stops, stop times, calendar), stated over what the `zip`
    and `csv` crates read out of the archive;
  - `rules`: the static ↔ realtime consistency rules;
  - `report`: the analysis report that puts the pieces together.
- `tests/` — tests run against the compiled library.
- `app/` — the WebAssembly bridge: JSON rendering of the report and the
  exported entry points, plus the floating-point readings the library keeps
  as exact bits or text.

## What is trusted

The `zip` and `csv` crates do the archive and CSV work; their results are
named (`zip_listing`, `csv_parse`) rather than restated, and the library is
proved correct for whatever they return. A few standard-library functions
without a Verus specification (`str::trim`, `str::split_once`, `BTreeMap` and
`BTreeSet` with `String` keys, including `BTreeMap::iter`, `str::from_utf8`) are used through small
wrappers whose contracts say what their documentation says.
