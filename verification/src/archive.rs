//! The GTFS ZIP archive, read through the `zip` crate.
//!
//! The archive is the `zip` crate's; its entries are taken over as plain
//! values. What the crate finds in given bytes is named, not restated:
//! [`zip_listing`] is the list of entries, or the error opening the archive.
use vstd::prelude::*;
use std::io::Cursor;
use std::io::Read;
use zip::ZipArchive;
use crate::schedule::{StaticFeedError, StaticFeedErrorView};

verus! {

/// `std::io::Cursor`, which lets the archive seek in a byte slice.
#[verifier::external_type_specification]
#[verifier::external_body]
#[verifier::reject_recursive_types(T)]
pub struct ExCursor<T>(Cursor<T>);

/// `zip::ZipArchive`, carried opaquely; what it holds is [`zip_entries`].
#[verifier::external_type_specification]
#[verifier::external_body]
#[verifier::reject_recursive_types(R)]
pub struct ExZipArchive<R>(ZipArchive<R>);

/// An archive entry as plain values: its name and what reading it gives
/// (its bytes, or the error's message), or the message of the error met
/// opening it.
pub type EntryView = Result<(Seq<char>, Result<Seq<u8>, Seq<char>>), Seq<char>>;

/// The entries of an open archive, in the order of its central directory.
pub uninterp spec fn zip_entries(a: ZipArchive<Cursor<&[u8]>>) -> Seq<
    Result<(Seq<char>, Result<Seq<u8>, Seq<char>>), Seq<char>>,
>;

/// What the `zip` crate finds in `bytes`: the entries, or the message of the
/// error opening the archive.
pub uninterp spec fn zip_listing(bytes: Seq<u8>) -> Result<
    Seq<Result<(Seq<char>, Result<Seq<u8>, Seq<char>>), Seq<char>>>,
    Seq<char>,
>;

/// The name of an entry, or the error opening it.
pub open spec fn entry_name_of(e: EntryView) -> Result<Seq<char>, Seq<char>> {
    match e {
        Ok((name, _)) => Ok(name),
        Err(m) => Err(m),
    }
}

/// The bytes of an entry, or the error opening or reading it.
pub open spec fn entry_data_of(e: EntryView) -> Result<Seq<u8>, Seq<char>> {
    match e {
        Ok((_, data)) => data,
        Err(m) => Err(m),
    }
}

/// `ZipArchive::new` over the bytes: the archive, whose entries are what
/// `zip_listing` names for these bytes, or the error's message, also as named.
#[verifier::external_body]
pub(crate) fn open_archive(bytes: &[u8]) -> (r: Result<ZipArchive<Cursor<&[u8]>>, String>)
    ensures
        r matches Ok(a) ==> (zip_listing(bytes@) matches Ok(es) && es == zip_entries(a)),
        r matches Err(e) ==> (zip_listing(bytes@) matches Err(m) && m == e@),
{
    match ZipArchive::new(Cursor::new(bytes)) {
        Ok(a) => Ok(a),
        Err(e) => Err(e.to_string()),
    }
}

/// `ZipArchive::len`: how many entries there are.
#[verifier::external_body]
fn archive_len(a: &ZipArchive<Cursor<&[u8]>>) -> (n: usize)
    ensures
        n == zip_entries(*a).len(),
{
    a.len()
}

/// The name of entry `i` through `ZipArchive::by_index` and `ZipFile::name`,
/// or the message of the error opening the entry; the entries stay as they
/// were.
#[verifier::external_body]
fn entry_name(a: &mut ZipArchive<Cursor<&[u8]>>, i: usize) -> (r: Result<String, String>)
    requires
        i < zip_entries(*old(a)).len(),
    ensures
        zip_entries(*final(a)) == zip_entries(*old(a)),
        r matches Ok(n) ==> (entry_name_of(zip_entries(*old(a))[i as int]) matches Ok(x) && x == n@),
        r matches Err(m) ==> (entry_name_of(zip_entries(*old(a))[i as int]) matches Err(x) && x == m@),
{
    match a.by_index(i) {
        Ok(file) => Ok(file.name().to_owned()),
        Err(e) => Err(e.to_string()),
    }
}

/// The bytes of entry `i` through `ZipArchive::by_index` and
/// `Read::read_to_end`, or the message of the error opening or reading it;
/// the entries stay as they were.
#[verifier::external_body]
fn entry_bytes(a: &mut ZipArchive<Cursor<&[u8]>>, i: usize) -> (r: Result<Vec<u8>, String>)
    requires
        i < zip_entries(*old(a)).len(),
    ensures
        zip_entries(*final(a)) == zip_entries(*old(a)),
        r matches Ok(b) ==> (entry_data_of(zip_entries(*old(a))[i as int]) matches Ok(x) && x == b@),
        r matches Err(m) ==> (entry_data_of(zip_entries(*old(a))[i as int]) matches Err(x) && x == m@),
{
    match a.by_index(i) {
        Ok(mut file) => {
            let mut bytes = Vec::new();
            match file.read_to_end(&mut bytes) {
                Ok(_) => Ok(bytes),
                Err(e) => Err(e.to_string()),
            }
        },
        Err(e) => Err(e.to_string()),
    }
}

/// What follows the last `/` of a path (the whole path when it has none).
pub open spec fn base_name(path: Seq<char>) -> Seq<char>
    decreases path.len(),
{
    if path.len() == 0 {
        path
    } else if path.last() == '/' {
        Seq::empty()
    } else {
        base_name(path.drop_last()).push(path.last())
    }
}

/// The position of the first entry from `i` on whose base name is `wanted`,
/// or the error opening an entry met before it.
pub open spec fn find_entry(entries: Seq<EntryView>, wanted: Seq<char>, i: int) -> Result<
    Option<int>,
    Seq<char>,
>
    decreases entries.len() - i,
{
    if i < 0 || i >= entries.len() {
        Ok(None)
    } else {
        match entry_name_of(entries[i]) {
            Err(m) => Err(m),
            Ok(name) => if base_name(name) == wanted {
                Ok(Some(i))
            } else {
                find_entry(entries, wanted, i + 1)
            },
        }
    }
}

/// The bytes of the first entry named `wanted` (in any directory), `None`
/// when there is none, or the error met on the way.
pub open spec fn spec_read_optional(entries: Seq<EntryView>, wanted: Seq<char>) -> Result<
    Option<Seq<u8>>,
    StaticFeedErrorView,
> {
    match find_entry(entries, wanted, 0) {
        Err(m) => Err(StaticFeedErrorView::Zip { detail: m }),
        Ok(None) => Ok(None),
        Ok(Some(i)) => match entry_data_of(entries[i]) {
            Ok(b) => Ok(Some(b)),
            Err(m) => Err(StaticFeedErrorView::Zip { detail: m }),
        },
    }
}

/// Like [`spec_read_optional`], a missing entry being an error.
pub open spec fn spec_read_required(entries: Seq<EntryView>, wanted: Seq<char>) -> Result<
    Seq<u8>,
    StaticFeedErrorView,
> {
    match spec_read_optional(entries, wanted) {
        Ok(Some(b)) => Ok(b),
        Ok(None) => Err(StaticFeedErrorView::MissingFile { file: wanted }),
        Err(e) => Err(e),
    }
}

/// Whether the path's base name is `wanted`.
pub fn has_base_name(path: &str, wanted: &Vec<char>) -> (r: bool)
    ensures
        r == (base_name(path@) == wanted@),
{
    let mut seg: Vec<char> = Vec::new();
    for c in it: path.chars()
        invariant
            it.seq() == path@,
            seg@ == base_name(path@.take(it.index())),
    {
        proof {
            assert(path@.take(it.index() + 1).drop_last() =~= path@.take(it.index()));
            assert(path@.take(it.index() + 1).last() == c);
        }
        if c == '/' {
            seg = Vec::new();
            proof {
                assert(seg@ =~= base_name(path@.take(it.index() + 1)));
            }
        } else {
            seg.push(c);
        }
    }
    proof {
        assert(path@.take(path@.len() as int) =~= path@);
    }
    if seg.len() != wanted.len() {
        return false;
    }
    let mut i: usize = 0;
    while i < seg.len()
        invariant
            seg.len() == wanted.len(),
            seg@ == base_name(path@),
            i <= seg.len(),
            forall|j: int| 0 <= j < i ==> seg@[j] == wanted@[j],
        decreases seg.len() - i,
    {
        if seg[i] != wanted[i] {
            return false;
        }
        i = i + 1;
    }
    proof {
        assert(seg@ =~= wanted@);
    }
    true
}

/// The bytes of the first entry named `wanted` (in any directory), `None`
/// when the archive has none.
pub fn read_optional(a: &mut ZipArchive<Cursor<&[u8]>>, wanted: &'static str) -> (r: Result<
    Option<Vec<u8>>,
    StaticFeedError,
>)
    ensures
        zip_entries(*final(a)) == zip_entries(*old(a)),
        match r {
            Ok(Some(b)) => spec_read_optional(zip_entries(*old(a)), wanted@) == Ok::<
                Option<Seq<u8>>,
                StaticFeedErrorView,
            >(Some(b@)),
            Ok(None) => spec_read_optional(zip_entries(*old(a)), wanted@) == Ok::<
                Option<Seq<u8>>,
                StaticFeedErrorView,
            >(None),
            Err(e) => spec_read_optional(zip_entries(*old(a)), wanted@) == Err::<
                Option<Seq<u8>>,
                StaticFeedErrorView,
            >(e@),
        },
{
    let ghost entries = zip_entries(*a);
    let target = crate::fields::chars_of(wanted);
    let n = archive_len(a);
    let mut i: usize = 0;
    while i < n
        invariant
            n == entries.len(),
            zip_entries(*a) == entries,
            entries == zip_entries(*old(a)),
            target@ == wanted@,
            i <= n,
            find_entry(entries, wanted@, 0) == find_entry(entries, wanted@, i as int),
        decreases n - i,
    {
        match entry_name(a, i) {
            Err(detail) => {
                return Err(StaticFeedError::Zip { detail });
            },
            Ok(name) => {
                if has_base_name(name.as_str(), &target) {
                    return match entry_bytes(a, i) {
                        Ok(bytes) => Ok(Some(bytes)),
                        Err(detail) => Err(StaticFeedError::Zip { detail }),
                    };
                }
            },
        }
        i = i + 1;
    }
    Ok(None)
}

/// The bytes of the first entry named `wanted`, or the error for a missing one.
pub fn read_required(a: &mut ZipArchive<Cursor<&[u8]>>, file: &'static str) -> (r: Result<
    Vec<u8>,
    StaticFeedError,
>)
    ensures
        zip_entries(*final(a)) == zip_entries(*old(a)),
        match r {
            Ok(b) => spec_read_required(zip_entries(*old(a)), file@) == Ok::<
                Seq<u8>,
                StaticFeedErrorView,
            >(b@),
            Err(e) => spec_read_required(zip_entries(*old(a)), file@) == Err::<
                Seq<u8>,
                StaticFeedErrorView,
            >(e@),
        },
{
    match read_optional(a, file) {
        Ok(Some(bytes)) => Ok(bytes),
        Ok(None) => Err(StaticFeedError::MissingFile { file }),
        Err(e) => Err(e),
    }
}

} // verus!
