//! An index from strings to positions, kept in a `BTreeMap<String, usize>`.
//!
//! Verus gives `BTreeMap` a specification only for key types whose ordering it
//! can vouch for, which `String` is not. The few map operations used here go
//! through small trusted wrappers whose contracts speak of the map's contents
//! as a `Map` from the keys' characters to positions.
use vstd::prelude::*;
use std::collections::BTreeMap;
use std::collections::BTreeSet;

verus! {

/// The map behind an index.
pub type StrMap = BTreeMap<String, usize>;

/// What a `BTreeMap<String, usize>` holds, keyed by the characters of each key.
pub uninterp spec fn str_map_contents(m: StrMap) -> Map<Seq<char>, usize>;

/// `BTreeMap::new`: an empty map.
#[verifier::external_body]
fn map_new() -> (r: StrMap)
    ensures
        str_map_contents(r).dom() == Set::<Seq<char>>::empty(),
{
    BTreeMap::new()
}

/// `BTreeMap::insert`: the key now maps to the value; the previous value, if
/// the key was present, is returned.
#[verifier::external_body]
fn map_insert(m: &mut StrMap, key: String, value: usize) -> (r: Option<usize>)
    ensures
        str_map_contents(*final(m)) == str_map_contents(*old(m)).insert(key@, value),
        r == (if str_map_contents(*old(m)).dom().contains(key@) {
            Some(str_map_contents(*old(m))[key@])
        } else {
            None
        }),
{
    m.insert(key, value)
}

/// `BTreeMap::get`, looking a `String` key up by a `&str`.
#[verifier::external_body]
fn map_get(m: &StrMap, key: &str) -> (r: Option<usize>)
    ensures
        r == (if str_map_contents(*m).dom().contains(key@) {
            Some(str_map_contents(*m)[key@])
        } else {
            None
        }),
{
    m.get(key).copied()
}

/// The order of `String`'s `Ord`, on the characters: UTF-8 compared byte by
/// byte orders as the code points do, character by character, and a proper
/// prefix comes first.
pub open spec fn text_lt(a: Seq<char>, b: Seq<char>) -> bool
    decreases a.len(),
{
    if a.len() == 0 {
        b.len() > 0
    } else if b.len() == 0 {
        false
    } else if a[0] != b[0] {
        (a[0] as u32) < (b[0] as u32)
    } else {
        text_lt(a.drop_first(), b.drop_first())
    }
}

/// `BTreeMap::iter`, collected: every entry once, in ascending order of the
/// keys.
#[verifier::external_body]
fn map_entries(m: &StrMap) -> (r: Vec<(&String, &usize)>)
    ensures
        forall|i: int, j: int| 0 <= i < j < r@.len() ==> text_lt(#[trigger] r@[i].0@, #[trigger] r@[j].0@),
        forall|i: int|
            0 <= i < r@.len() ==> str_map_contents(*m).dom().contains(#[trigger] r@[i].0@)
                && str_map_contents(*m)[r@[i].0@] == *r@[i].1,
        forall|k: Seq<char>|
            #[trigger] str_map_contents(*m).dom().contains(k) ==> exists|i: int|
                0 <= i < r@.len() && #[trigger] r@[i].0@ == k,
{
    m.iter().collect()
}

/// A map from strings (by their characters) to positions.
#[derive(Debug, Clone, PartialEq, Eq)]
pub struct StrIndex {
    map: StrMap,
}

impl View for StrIndex {
    type V = Map<Seq<char>, usize>;

    closed spec fn view(&self) -> Map<Seq<char>, usize> {
        str_map_contents(self.map)
    }
}

/// `v` looked up in the index map `m`.
pub open spec fn map_lookup(m: Map<Seq<char>, usize>, k: Seq<char>) -> Option<usize> {
    if m.dom().contains(k) {
        Some(m[k])
    } else {
        None
    }
}

impl StrIndex {
    pub fn new() -> (r: Self)
        ensures
            r@ == Map::<Seq<char>, usize>::empty(),
    {
        let r = StrIndex { map: map_new() };
        proof {
            assert(r@ =~= Map::<Seq<char>, usize>::empty());
        }
        r
    }

    /// Maps `key` to `value`; returns what it mapped to before.
    pub fn insert(&mut self, key: String, value: usize) -> (r: Option<usize>)
        ensures
            final(self)@ == old(self)@.insert(key@, value),
            r == map_lookup(old(self)@, key@),
    {
        map_insert(&mut self.map, key, value)
    }

    pub fn get(&self, key: &str) -> (r: Option<usize>)
        ensures
            r == map_lookup(self@, key@),
    {
        map_get(&self.map, key)
    }

    /// The entries, in ascending order of the keys.
    pub fn entries(&self) -> (r: Vec<(&String, &usize)>)
        ensures
            forall|i: int, j: int| 0 <= i < j < r@.len() ==> text_lt(#[trigger] r@[i].0@, #[trigger] r@[j].0@),
            forall|i: int|
                0 <= i < r@.len() ==> self@.dom().contains(#[trigger] r@[i].0@) && self@[r@[i].0@]
                    == *r@[i].1,
            forall|k: Seq<char>|
                #[trigger] self@.dom().contains(k) ==> exists|i: int| 0 <= i < r@.len() && #[trigger] r@[i].0@ == k,
    {
        map_entries(&self.map)
    }

    pub fn contains(&self, key: &str) -> (r: bool)
        ensures
            r == self@.dom().contains(key@),
    {
        self.get(key).is_some()
    }
}

/// A set of strings.
pub type StrSet = BTreeSet<String>;

/// What a `BTreeSet<String>` holds, as the characters of each member.
pub uninterp spec fn str_set_contents(s: StrSet) -> Set<Seq<char>>;

/// `BTreeSet::new`: an empty set.
#[verifier::external_body]
pub(crate) fn set_new() -> (r: StrSet)
    ensures
        str_set_contents(r) == Set::<Seq<char>>::empty(),
{
    BTreeSet::new()
}

/// `BTreeSet::insert`: the member is now in the set; `true` when it was not.
#[verifier::external_body]
pub(crate) fn set_insert(s: &mut StrSet, member: String) -> (r: bool)
    ensures
        str_set_contents(*final(s)) == str_set_contents(*old(s)).insert(member@),
        r == !str_set_contents(*old(s)).contains(member@),
{
    s.insert(member)
}

/// `BTreeSet::contains`, looking a `String` member up by a `&str`.
#[verifier::external_body]
pub(crate) fn set_contains(s: &StrSet, member: &str) -> (r: bool)
    ensures
        r == str_set_contents(*s).contains(member@),
{
    s.contains(member)
}

} // verus!
