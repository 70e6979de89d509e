//! The library's own model of a generic JSON document.
//!
//! `JsonValue` is the executable tree; `JsonRep` is its mathematical shape,
//! with every string taken to its sequence of characters. Contracts speak of
//! `JsonRep` through `rep_of`.

use vstd::prelude::*;

verus! {

/// An untyped JSON document: the result of parsing arbitrary JSON text.
/// A number is kept as the text that denoted it; the pipeline never does
/// arithmetic on one.
pub enum JsonValue {
    Null,
    Boolean(bool),
    Number(String),
    Text(String),
    Array(Vec<JsonValue>),
    Object(Vec<(String, JsonValue)>),
}

/// The mathematical shape of a `JsonValue`: the same tree with every string
/// replaced by its character sequence.
pub enum JsonRep {
    Null,
    Boolean(bool),
    Number(Seq<char>),
    Text(Seq<char>),
    Array(Seq<JsonRep>),
    Object(Seq<(Seq<char>, JsonRep)>),
}

/// The shape of a document.
pub open spec fn rep_of(v: JsonValue) -> JsonRep
    decreases v,
{
    match v {
        JsonValue::Null => JsonRep::Null,
        JsonValue::Boolean(b) => JsonRep::Boolean(b),
        JsonValue::Number(s) => JsonRep::Number(s@),
        JsonValue::Text(s) => JsonRep::Text(s@),
        JsonValue::Array(items) => JsonRep::Array(items_rep_from(items@, 0)),
        JsonValue::Object(entries) => JsonRep::Object(entries_rep_from(entries@, 0)),
    }
}

/// The shapes of the array elements from position `i` on.
pub open spec fn items_rep_from(items: Seq<JsonValue>, i: int) -> Seq<JsonRep>
    decreases items, items.len() - i,
{
    if i < 0 || i >= items.len() {
        Seq::empty()
    } else {
        seq![rep_of(items[i])] + items_rep_from(items, i + 1)
    }
}

/// The shapes of the object entries from position `i` on.
pub open spec fn entries_rep_from(entries: Seq<(String, JsonValue)>, i: int) -> Seq<(Seq<
    char,
>, JsonRep)>
    decreases entries, entries.len() - i,
{
    if i < 0 || i >= entries.len() {
        Seq::empty()
    } else {
        seq![(entries[i].0@, rep_of(entries[i].1))] + entries_rep_from(entries, i + 1)
    }
}

/// Element-wise description of `items_rep_from`.
pub proof fn lemma_items_rep_from(items: Seq<JsonValue>, i: int)
    requires
        0 <= i <= items.len(),
    ensures
        items_rep_from(items, i).len() == items.len() - i,
        forall|j: int|
            i <= j < items.len() ==> items_rep_from(items, i)[j - i] == rep_of(items[j]),
    decreases items.len() - i,
{
    if i < items.len() {
        lemma_items_rep_from(items, i + 1);
    }
}

/// The first entry with key `key`, from position `i` on.
pub open spec fn obj_lookup_from(
    entries: Seq<(Seq<char>, JsonRep)>,
    key: Seq<char>,
    i: int,
) -> Option<JsonRep>
    decreases entries.len() - i,
{
    if i < 0 || i >= entries.len() {
        Option::None
    } else if entries[i].0 == key {
        Option::Some(entries[i].1)
    } else {
        obj_lookup_from(entries, key, i + 1)
    }
}

/// The first entry with key `key` in an object's entry list.
pub open spec fn obj_lookup(entries: Seq<(Seq<char>, JsonRep)>, key: Seq<char>) -> Option<
    JsonRep,
> {
    obj_lookup_from(entries, key, 0)
}

/// The string under `key` at the top level of the document: defined exactly
/// when the document is an object whose first entry named `key` holds a
/// string.
pub open spec fn string_under(r: JsonRep, key: Seq<char>) -> Option<Seq<char>> {
    match r {
        JsonRep::Object(entries) => match obj_lookup(entries, key) {
            Option::Some(JsonRep::Text(s)) => Option::Some(s),
            _ => Option::None,
        },
        _ => Option::None,
    }
}

/// Character-for-character equality of two string slices.
pub fn str_eq(a: &str, b: &str) -> (r: bool)
    ensures
        r == (a@ == b@),
{
    let na = a.unicode_len();
    let nb = b.unicode_len();
    if na != nb {
        return false;
    }
    let mut i: usize = 0;
    while i < na
        invariant
            na == a@.len(),
            na == b@.len(),
            0 <= i <= na,
            forall|j: int| 0 <= j < i ==> a@[j] == b@[j],
        decreases na - i,
    {
        if a.get_char(i) != b.get_char(i) {
            return false;
        }
        i = i + 1;
    }
    proof {
        assert(a@ =~= b@);
    }
    true
}

/// Looks up `key` at the top level of the document and hands back the string
/// under it, if the document is an object that holds a string there.
pub fn find_string<'a>(value: &'a JsonValue, key: &str) -> (r: Option<&'a String>)
    ensures
        match r {
            Option::Some(s) => string_under(rep_of(*value), key@) == Option::Some(s@),
            Option::None => string_under(rep_of(*value), key@) is None,
        },
{
    match value {
        JsonValue::Object(entries) => {
            proof {
                lemma_entries_rep_from(entries@, 0);
                assert(*value == JsonValue::Object(*entries));
                assert(rep_of(*value) == JsonRep::Object(entries_rep_from(entries@, 0)));
            }
            let ghost er = entries_rep_from(entries@, 0);
            let n = entries.len();
            let mut i: usize = 0;
            while i < n
                invariant
                    n == entries@.len(),
                    0 <= i <= n,
                    er == entries_rep_from(entries@, 0),
                    rep_of(*value) == JsonRep::Object(er),
                    er.len() == n,
                    forall|j: int| 0 <= j < n ==> er[j] == (entries@[j].0@, rep_of(entries@[j].1)),
                    obj_lookup_from(er, key@, 0) == obj_lookup_from(er, key@, i as int),
                decreases n - i,
            {
                let entry = &entries[i];
                if str_eq(entry.0.as_str(), key) {
                    proof {
                        assert(er[i as int] == (
                            entries@[i as int].0@,
                            rep_of(entries@[i as int].1),
                        ));
                        assert(er[i as int].0 == key@);
                        assert(obj_lookup(er, key@) == Option::Some(er[i as int].1));
                    }
                    match &entry.1 {
                        JsonValue::Text(s) => {
                            proof {
                                assert(entries@[i as int].1 == JsonValue::Text(*s));
                                assert(er[i as int].1 == JsonRep::Text(s@));
                            }
                            return Option::Some(s);
                        },
                        _ => {
                            proof {
                                assert(!(er[i as int].1 is Text));
                            }
                            return Option::None;
                        },
                    }
                }
                i = i + 1;
            }
            Option::None
        },
        _ => Option::None,
    }
}

/// Element-wise description of `entries_rep_from`.
pub proof fn lemma_entries_rep_from(entries: Seq<(String, JsonValue)>, i: int)
    requires
        0 <= i <= entries.len(),
    ensures
        entries_rep_from(entries, i).len() == entries.len() - i,
        forall|j: int|
            i <= j < entries.len() ==> entries_rep_from(entries, i)[j - i] == (
            entries[j].0@,
            rep_of(entries[j].1),
            ),
    decreases entries.len() - i,
{
    if i < entries.len() {
        lemma_entries_rep_from(entries, i + 1);
    }
}

} // verus!
