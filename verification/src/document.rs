//! The tree of keys and values that a manifest reader hands over, and how a
//! table of it is searched.

use vstd::prelude::*;
use vstd::string::*;
use crate::text::same_text;

verus! {

/// One entry of a table: a key and what stands under it.
#[derive(Debug, PartialEq, Eq)]
pub struct Entry {
    pub key: String,
    pub value: Document,
}

/// A value of a manifest. Of a number only its presence is kept: no
/// declaration of this library is a number.
#[derive(Debug, PartialEq, Eq)]
pub enum Document {
    Null,
    Bool(bool),
    Number,
    Text(String),
    List(Vec<Document>),
    /// The entries of a table, in the order of the manifest. A key that
    /// stands twice is kept twice, and is rejected when the table is decoded.
    Table(Vec<Entry>),
}

/// What a search for a key in a table comes to.
#[derive(Clone, Copy, Debug)]
pub enum Lookup<'a> {
    /// No entry has the key.
    Absent,
    /// One entry has the key, with this value.
    Once(&'a Document),
    /// More than one entry has the key.
    Repeated,
}

/// The mathematical value of a [`Lookup`].
pub enum Found {
    Absent,
    Once(Document),
    Repeated,
}

impl<'a> View for Lookup<'a> {
    type V = Found;

    open spec fn view(&self) -> Found {
        match *self {
            Lookup::Absent => Found::Absent,
            Lookup::Once(value) => Found::Once(*value),
            Lookup::Repeated => Found::Repeated,
        }
    }
}

/// What a search for `key` among `entries` comes to.
pub open spec fn lookup(entries: Seq<Entry>, key: Seq<char>) -> Found
    decreases entries.len(),
{
    if entries.len() == 0 {
        Found::Absent
    } else {
        let before = lookup(entries.drop_last(), key);
        if entries.last().key@ == key {
            match before {
                Found::Absent => Found::Once(entries.last().value),
                _ => Found::Repeated,
            }
        } else {
            before
        }
    }
}

/// Whether `key` is one of `known`.
pub open spec fn is_known(key: Seq<char>, known: Seq<&'static str>) -> bool {
    exists|i: int| 0 <= i < known.len() && (#[trigger] known[i])@ == key
}

/// The first key among `entries` that is none of `known`.
pub open spec fn first_unknown(entries: Seq<Entry>, known: Seq<&'static str>) -> Option<
    Seq<char>,
>
    decreases entries.len(),
{
    if entries.len() == 0 {
        None
    } else {
        match first_unknown(entries.drop_last(), known) {
            Some(key) => Some(key),
            None => if is_known(entries.last().key@, known) {
                None
            } else {
                Some(entries.last().key@)
            },
        }
    }
}

/// Searches a table for a key.
pub fn find<'a>(entries: &'a Vec<Entry>, key: &str) -> (found: Lookup<'a>)
    ensures
        found@ == lookup(entries@, key@),
{
    let mut found = Lookup::Absent;
    let mut i: usize = 0;
    while i < entries.len()
        invariant
            i <= entries@.len(),
            found@ == lookup(entries@.take(i as int), key@),
        decreases entries@.len() - i,
    {
        proof {
            assert(entries@.take(i + 1).drop_last() == entries@.take(i as int));
        }
        if same_text(entries[i].key.as_str(), key) {
            found = match found {
                Lookup::Absent => Lookup::Once(&entries[i].value),
                _ => Lookup::Repeated,
            };
        }
        i += 1;
    }
    proof {
        assert(entries@.take(entries@.len() as int) == entries@);
    }
    found
}

/// Whether `key` is one of `known`.
pub fn knows(known: &Vec<&'static str>, key: &str) -> (yes: bool)
    ensures
        yes == is_known(key@, known@),
{
    let mut i: usize = 0;
    while i < known.len()
        invariant
            i <= known@.len(),
            forall|j: int| 0 <= j < i ==> (#[trigger] known@[j])@ != key@,
        decreases known@.len() - i,
    {
        if same_text(known[i], key) {
            return true;
        }
        i += 1;
    }
    false
}

/// The first key of a table that is none of `known`.
pub fn find_unknown<'a>(entries: &'a Vec<Entry>, known: &Vec<&'static str>) -> (unknown: Option<
    &'a String,
>)
    ensures
        match unknown {
            Some(key) => first_unknown(entries@, known@) == Some(key@),
            None => first_unknown(entries@, known@) is None,
        },
{
    let mut i: usize = 0;
    while i < entries.len()
        invariant
            i <= entries@.len(),
            first_unknown(entries@.take(i as int), known@) is None,
        decreases entries@.len() - i,
    {
        proof {
            assert(entries@.take(i + 1).drop_last() == entries@.take(i as int));
        }
        if !knows(known, entries[i].key.as_str()) {
            proof {
                unknown_stays(entries@, known@, i + 1);
            }
            return Some(&entries[i].key);
        }
        i += 1;
    }
    proof {
        assert(entries@.take(entries@.len() as int) == entries@);
    }
    None
}

/// The first unknown key of a table is that of any of its beginnings that
/// holds one.
pub proof fn unknown_stays(entries: Seq<Entry>, known: Seq<&'static str>, n: int)
    requires
        0 <= n <= entries.len(),
        first_unknown(entries.take(n), known) is Some,
    ensures
        first_unknown(entries, known) == first_unknown(entries.take(n), known),
    decreases entries.len() - n,
{
    if n < entries.len() {
        assert(entries.take(n + 1).drop_last() == entries.take(n));
        unknown_stays(entries, known, n + 1);
    } else {
        assert(entries.take(n) == entries);
    }
}

} // verus!
