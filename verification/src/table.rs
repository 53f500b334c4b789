//! CSV tables of a static feed, read through the `csv` crate.
//!
//! The reader is the `csv` crate's; what it yields is taken over as plain
//! values, a record being the vector of its fields. What the crate parses out
//! of given bytes is named, not restated: [`csv_parse`] is the header record
//! and the records after it.
use vstd::prelude::*;
use csv::Reader;
use crate::fields::{trim, trimmed};
use crate::decode::opt_view;
use crate::schedule::{capped, StaticFeedError, StaticFeedErrorView};
use crate::text::{decimal, owned, push_decimal, push_lit, str_eq};

verus! {

/// `csv::Reader`, carried opaquely; what it will give is [`csv_header`] and
/// [`csv_pending`].
#[verifier::external_type_specification]
#[verifier::external_body]
#[verifier::reject_recursive_types(R)]
pub struct ExReader<R>(Reader<R>);

/// A record as plain values: its fields, or the message of the error met
/// while reading it.
pub type RecordView = Result<Seq<Seq<char>>, Seq<char>>;

/// The header record that a reader gives (or the error reading it).
pub uninterp spec fn csv_header(r: Reader<&[u8]>) -> Result<Seq<Seq<char>>, Seq<char>>;

/// The records that a reader has yet to give, in order.
pub uninterp spec fn csv_pending(r: Reader<&[u8]>) -> Seq<Result<Seq<Seq<char>>, Seq<char>>>;

/// What the `csv` crate reads out of `bytes` with a flexible reader that takes
/// the first record as the header: the header, and the records after it.
pub uninterp spec fn csv_parse(bytes: Seq<u8>) -> (
    Result<Seq<Seq<char>>, Seq<char>>,
    Seq<Result<Seq<Seq<char>>, Seq<char>>>,
);

/// A record or an error, as plain values.
pub open spec fn record_view(r: Result<Vec<String>, String>) -> RecordView {
    match r {
        Ok(fields) => Ok(fields@.map_values(|f: String| f@)),
        Err(e) => Err(e@),
    }
}

/// `ReaderBuilder::new().flexible(true).from_reader(bytes)`: a reader over
/// `bytes` that takes the first record as the header and accepts records of
/// any length. What it will give is what `csv_parse` names.
#[verifier::external_body]
fn open_reader(bytes: &[u8]) -> (r: Reader<&[u8]>)
    ensures
        csv_parse(bytes@) == (csv_header(r), csv_pending(r)),
{
    csv::ReaderBuilder::new().flexible(true).from_reader(bytes)
}

/// `Reader::headers`: the header record as owned strings, or the error's
/// message. The records after the header stay pending.
#[verifier::external_body]
fn read_header(r: &mut Reader<&[u8]>) -> (h: Result<Vec<String>, String>)
    ensures
        record_view(h) == csv_header(*old(r)),
        csv_header(*final(r)) == csv_header(*old(r)),
        csv_pending(*final(r)) == csv_pending(*old(r)),
{
    match r.headers() {
        Ok(record) => Ok(record.iter().map(str::to_owned).collect()),
        Err(e) => Err(e.to_string()),
    }
}

/// `Reader::read_record`: the next pending record (its fields, or the error's
/// message), `None` when none is left.
#[verifier::external_body]
fn next_record(r: &mut Reader<&[u8]>) -> (x: Option<Result<Vec<String>, String>>)
    ensures
        csv_header(*final(r)) == csv_header(*old(r)),
        csv_pending(*old(r)).len() == 0 ==> x is None && csv_pending(*final(r)) == csv_pending(*old(r)),
        csv_pending(*old(r)).len() > 0 ==> (x matches Some(y) && record_view(y) == csv_pending(
            *old(r),
        )[0]),
        csv_pending(*old(r)).len() > 0 ==> csv_pending(*final(r)) == csv_pending(*old(r)).drop_first(),
{
    let mut record = csv::StringRecord::new();
    match r.read_record(&mut record) {
        Ok(true) => Some(Ok(record.iter().map(str::to_owned).collect())),
        Ok(false) => None,
        Err(e) => Some(Err(e.to_string())),
    }
}

/// A column position as a number.
pub open spec fn opt_nat(o: Option<usize>) -> Option<nat> {
    match o {
        Some(i) => Some(i as nat),
        None => None,
    }
}

/// The position of a column known to be present.
pub open spec fn col(headers: Seq<Seq<char>>, name: Seq<char>) -> nat {
    match spec_column(headers, name) {
        Some(i) => i,
        None => 0,
    }
}

/// The character views of a vector of strings.
pub open spec fn field_views(v: Seq<String>) -> Seq<Seq<char>> {
    v.map_values(|f: String| f@)
}

/// The header of a table, or the error opening it.
pub open spec fn spec_open_table(file: Seq<char>, bytes: Seq<u8>) -> Result<
    Seq<Seq<char>>,
    StaticFeedErrorView,
> {
    match csv_parse(bytes).0 {
        Ok(h) => Ok(h),
        Err(e) => Err(StaticFeedErrorView::Csv { file, detail: e }),
    }
}

/// The first position at or after `i` where `headers` holds `name`.
pub open spec fn column_from(headers: Seq<Seq<char>>, name: Seq<char>, i: int) -> Option<nat>
    decreases headers.len() - i,
{
    if i < 0 || i >= headers.len() {
        None
    } else if headers[i] == name {
        Some(i as nat)
    } else {
        column_from(headers, name, i + 1)
    }
}

/// The first column named `name`.
pub open spec fn spec_column(headers: Seq<Seq<char>>, name: Seq<char>) -> Option<nat> {
    column_from(headers, name, 0)
}

/// The line number of the `k`-th record after the header (the header is line 1).
pub open spec fn row_number(k: int) -> usize {
    capped((k + 2) as nat)
}

/// The message for a record that could not be read.
pub open spec fn record_error(k: int, message: Seq<char>) -> Seq<char> {
    "satır "@ + decimal(row_number(k) as nat) + ": "@ + message
}

/// The records from the `k`-th on, or the first one that could not be read.
pub open spec fn collect_from(file: Seq<char>, recs: Seq<RecordView>, k: int) -> Result<
    Seq<Seq<Seq<char>>>,
    StaticFeedErrorView,
>
    decreases recs.len() - k,
{
    if k < 0 || k >= recs.len() {
        Ok(Seq::empty())
    } else {
        match recs[k] {
            Err(e) => Err(StaticFeedErrorView::Csv { file, detail: record_error(k, e) }),
            Ok(fields) => match collect_from(file, recs, k + 1) {
                Ok(rest) => Ok(seq![fields] + rest),
                Err(e) => Err(e),
            },
        }
    }
}

/// The trimmed field at `index` (empty when the record is shorter).
pub open spec fn field_at(rec: Seq<Seq<char>>, index: int) -> Seq<char> {
    if 0 <= index < rec.len() {
        trimmed(rec[index])
    } else {
        Seq::empty()
    }
}

/// A required field: its trimmed text, or the error for an empty one.
pub open spec fn spec_value(
    file: Seq<char>,
    rec: Seq<Seq<char>>,
    index: int,
    row: usize,
    column: Seq<char>,
) -> Result<Seq<char>, StaticFeedErrorView> {
    let v = field_at(rec, index);
    if v.len() == 0 {
        Err(StaticFeedErrorView::EmptyField { file, column, row })
    } else {
        Ok(v)
    }
}

/// An optional field: its trimmed text when the column exists and the field
/// is not blank.
pub open spec fn spec_optional(rec: Seq<Seq<char>>, index: Option<nat>) -> Option<Seq<char>> {
    match index {
        Some(i) => {
            let v = field_at(rec, i as int);
            if v.len() == 0 {
                None
            } else {
                Some(v)
            }
        },
        None => None,
    }
}

/// A CSV table being read: its header, and the reader positioned after it.
pub(crate) struct Table<'a> {
    pub(crate) file: &'static str,
    pub(crate) headers: Vec<String>,
    pub(crate) reader: Reader<&'a [u8]>,
}

impl<'a> Table<'a> {
    /// The header's fields.
    pub(crate) open spec fn header(&self) -> Seq<Seq<char>> {
        field_views(self.headers@)
    }

    /// The records not read yet.
    pub(crate) open spec fn pending(&self) -> Seq<RecordView> {
        csv_pending(self.reader)
    }

    /// Opens a table: reads its header.
    pub(crate) fn new(file: &'static str, bytes: &'a [u8]) -> (r: Result<Self, StaticFeedError>)
        ensures
            match r {
                Ok(t) => spec_open_table(file@, bytes@) == Ok::<Seq<Seq<char>>, StaticFeedErrorView>(
                    t.header(),
                ) && t.file == file && t.pending() == csv_parse(bytes@).1,
                Err(e) => spec_open_table(file@, bytes@) == Err::<Seq<Seq<char>>, StaticFeedErrorView>(
                    e@,
                ),
            },
    {
        let mut reader = open_reader(bytes);
        match read_header(&mut reader) {
            Ok(headers) => {
                proof {
                    assert(field_views(headers@) == headers@.map_values(|f: String| f@));
                }
                Ok(Table { file, headers, reader })
            },
            Err(detail) => Err(StaticFeedError::Csv { file, detail }),
        }
    }

    /// The first column named `name`, or the error for a missing one.
    pub(crate) fn column(&self, name: &'static str) -> (r: Result<usize, StaticFeedError>)
        ensures
            match r {
                Ok(i) => spec_column(self.header(), name@) == Some(i as nat),
                Err(e) => spec_column(self.header(), name@) is None
                    && e@ == StaticFeedErrorView::MissingColumn { file: self.file@, column: name@ },
            },
    {
        let ghost h = self.header();
        let mut i: usize = 0;
        while i < self.headers.len()
            invariant
                i <= self.headers.len(),
                h == self.header(),
                h.len() == self.headers.len(),
                column_from(h, name@, 0) == column_from(h, name@, i as int),
            decreases self.headers.len() - i,
        {
            proof {
                assert(h[i as int] == self.headers@[i as int]@);
            }
            if str_eq(self.headers[i].as_str(), name) {
                return Ok(i);
            }
            i = i + 1;
        }
        Err(StaticFeedError::MissingColumn { file: self.file, column: name })
    }

    /// The first column named `name`, if there is one.
    pub(crate) fn optional_column(&self, name: &'static str) -> (r: Option<usize>)
        ensures
            opt_nat(r) == spec_column(self.header(), name@),
    {
        match self.column(name) {
            Ok(i) => Some(i),
            Err(_) => None,
        }
    }

    /// The next record, `None` when all have been read.
    pub(crate) fn next(&mut self) -> (x: Option<Result<Vec<String>, String>>)
        ensures
            final(self).file == old(self).file,
            final(self).header() == old(self).header(),
            old(self).pending().len() == 0 ==> x is None && final(self).pending() == old(self).pending(),
            old(self).pending().len() > 0 ==> (x matches Some(y) && record_view(y) == old(
                self,
            ).pending()[0]),
            old(self).pending().len() > 0 ==> final(self).pending() == old(self).pending().drop_first(),
    {
        next_record(&mut self.reader)
    }

    /// All remaining records, or the error for the first one that could not
    /// be read.
    pub(crate) fn records(&mut self) -> (r: Result<Vec<Vec<String>>, StaticFeedError>)
        ensures
            final(self).file == old(self).file,
            match r {
                Ok(rows) => collect_from(old(self).file@, old(self).pending(), 0) == Ok::<
                    Seq<Seq<Seq<char>>>,
                    StaticFeedErrorView,
                >(row_views(rows@)),
                Err(e) => collect_from(old(self).file@, old(self).pending(), 0) == Err::<
                    Seq<Seq<Seq<char>>>,
                    StaticFeedErrorView,
                >(e@),
            },
    {
        let ghost all = self.pending();
        let ghost file = self.file@;
        let mut rows: Vec<Vec<String>> = Vec::new();
        let mut k: usize = 0;
        let ghost mut gk: int = 0;
        loop
            invariant
                self.file == old(self).file,
                file == old(self).file@,
                all == old(self).pending(),
                0 <= gk <= all.len(),
                self.pending() == all.skip(gk),
                k == capped(gk as nat),
                collect_from(file, all, 0) == prepend(row_views(rows@), collect_from(file, all, gk)),
            decreases all.len() - gk,
        {
            let ghost before = rows@;
            proof {
                assert(all.skip(gk).len() == all.len() - gk);
            }
            match self.next() {
                None => {
                    proof {
                        assert(gk == all.len());
                        assert(row_views(rows@) + Seq::empty() =~= row_views(rows@));
                    }
                    return Ok(rows);
                },
                Some(Err(message)) => {
                    proof {
                        assert(all[gk] == all.skip(gk)[0]);
                    }
                    let e = record_failure(self.file, k, message.as_str(), Ghost(gk));
                    proof {
                        assert(collect_from(file, all, gk) == Err::<
                            Seq<Seq<Seq<char>>>,
                            StaticFeedErrorView,
                        >(e@));
                    }
                    return Err(e);
                },
                Some(Ok(fields)) => {
                    proof {
                        assert(all[gk] == all.skip(gk)[0]);
                        assert(all.skip(gk).drop_first() =~= all.skip(gk + 1));
                    }
                    rows.push(fields);
                    k = k.saturating_add(1);
                    proof {
                        assert(row_views(rows@) =~= row_views(before) + seq![field_views(fields@)]);
                        lemma_prepend_assoc(
                            row_views(before),
                            seq![field_views(fields@)],
                            collect_from(file, all, gk + 1),
                        );
                        gk = gk + 1;
                    }
                },
            }
        }
    }
}

/// A required field of `file`, trimmed, or the error for a blank one.
pub fn field_value(
    file: &'static str,
    rec: &Vec<String>,
    index: usize,
    row: usize,
    column: &'static str,
) -> (r: Result<String, StaticFeedError>)
    ensures
        match r {
            Ok(v) => spec_value(file@, field_views(rec@), index as int, row, column@) == Ok::<
                Seq<char>,
                StaticFeedErrorView,
            >(v@),
            Err(e) => spec_value(file@, field_views(rec@), index as int, row, column@) == Err::<
                Seq<char>,
                StaticFeedErrorView,
            >(e@),
        },
{
    proof {
        reveal_strlit("");
    }
    let v: &str = if index < rec.len() {
        trim(rec[index].as_str())
    } else {
        ""
    };
    if v.is_empty() {
        Err(StaticFeedError::EmptyField { file, column, row })
    } else {
        Ok(owned(v))
    }
}

/// An optional field, trimmed, when its column exists and it is not blank.
pub fn field_optional(rec: &Vec<String>, index: Option<usize>) -> (r: Option<String>)
    ensures
        opt_view(r) == spec_optional(field_views(rec@), opt_nat(index)),
{
    match index {
        Some(i) => {
            if i < rec.len() {
                let v = trim(rec[i].as_str());
                if v.is_empty() {
                    None
                } else {
                    Some(owned(v))
                }
            } else {
                None
            }
        },
        None => None,
    }
}

/// A column position as a `usize`.
pub open spec fn opt_usize(o: Option<nat>) -> Option<usize> {
    match o {
        Some(i) => Some(i as usize),
        None => None,
    }
}

/// The error for the `k`-th record after the header, which could not be read.
pub(crate) fn record_failure(file: &'static str, k: usize, message: &str, Ghost(gk): Ghost<int>) -> (e:
    StaticFeedError)
    requires
        gk >= 0,
        k == capped(gk as nat),
    ensures
        e@ == (StaticFeedErrorView::Csv { file: file@, detail: record_error(gk, message@) }),
{
    let row = k.saturating_add(2);
    proof {
        assert(row == row_number(gk));
    }
    let mut detail = String::new();
    push_lit(&mut detail, "satır ");
    push_decimal(&mut detail, row as u64);
    push_lit(&mut detail, ": ");
    push_lit(&mut detail, message);
    proof {
        assert(detail@ =~= record_error(gk, message@));
    }
    StaticFeedError::Csv { file, detail }
}

/// The field views of each row.
pub open spec fn row_views(rows: Seq<Vec<String>>) -> Seq<Seq<Seq<char>>> {
    rows.map_values(|f: Vec<String>| field_views(f@))
}

/// `rows` put before what `r` collected, or `r`'s error.
pub open spec fn prepend(
    rows: Seq<Seq<Seq<char>>>,
    r: Result<Seq<Seq<Seq<char>>>, StaticFeedErrorView>,
) -> Result<Seq<Seq<Seq<char>>>, StaticFeedErrorView> {
    match r {
        Ok(rest) => Ok(rows + rest),
        Err(e) => Err(e),
    }
}

proof fn lemma_prepend_assoc(
    a: Seq<Seq<Seq<char>>>,
    b: Seq<Seq<Seq<char>>>,
    r: Result<Seq<Seq<Seq<char>>>, StaticFeedErrorView>,
)
    ensures
        prepend(a, prepend(b, r)) == prepend(a + b, r),
{
    if let Ok(rest) = r {
        assert(a + (b + rest) =~= (a + b) + rest);
    }
}

} // verus!
