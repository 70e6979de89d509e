//! Rendering a JSON document back to text, for error messages.
//!
//! `rendered` says, character for character, what the text of a document is;
//! `to_text` produces exactly that text.

use vstd::prelude::*;

use crate::json::{
    entries_rep_from, items_rep_from, lemma_entries_rep_from, lemma_items_rep_from, rep_of,
    JsonRep, JsonValue,
};

verus! {

/// How one character of a JSON string is written: the quote, the backslash
/// and the common control characters are escaped, every other character
/// stands as itself.
pub open spec fn escaped_char(c: char) -> Seq<char> {
    if c == '"' {
        seq!['\\', '"']
    } else if c == '\\' {
        seq!['\\', '\\']
    } else if c == '\n' {
        seq!['\\', 'n']
    } else if c == '\r' {
        seq!['\\', 'r']
    } else if c == '\t' {
        seq!['\\', 't']
    } else {
        seq![c]
    }
}

/// The escaped form of a string's characters from position `i` on.
pub open spec fn escaped_from(s: Seq<char>, i: int) -> Seq<char>
    decreases s.len() - i,
{
    if i < 0 || i >= s.len() {
        Seq::empty()
    } else {
        escaped_char(s[i]) + escaped_from(s, i + 1)
    }
}

/// A string as JSON writes it: quoted and escaped.
pub open spec fn quoted(s: Seq<char>) -> Seq<char> {
    seq!['"'] + escaped_from(s, 0) + seq!['"']
}

/// The text of a document: null, true and false as the words, a number as
/// the text it was kept as, a string quoted, an array bracketed and an
/// object braced, the elements separated by commas.
pub open spec fn rendered(r: JsonRep) -> Seq<char>
    decreases r, 0int,
{
    match r {
        JsonRep::Null => "null"@,
        JsonRep::Boolean(b) => if b {
            "true"@
        } else {
            "false"@
        },
        JsonRep::Number(s) => s,
        JsonRep::Text(s) => quoted(s),
        JsonRep::Array(items) => seq!['['] + rendered_items_from(items, 0) + seq![']'],
        JsonRep::Object(entries) => seq!['{'] + rendered_entries_from(entries, 0) + seq!['}'],
    }
}

/// The comma-separated text of the array elements from position `i` on.
pub open spec fn rendered_items_from(items: Seq<JsonRep>, i: int) -> Seq<char>
    decreases items, items.len() - i,
{
    if i < 0 || i >= items.len() {
        Seq::empty()
    } else if i == items.len() - 1 {
        rendered(items[i])
    } else {
        rendered(items[i]) + seq![','] + rendered_items_from(items, i + 1)
    }
}

/// The comma-separated text of the object entries from position `i` on,
/// each a quoted key, a colon and the entry's value.
pub open spec fn rendered_entries_from(entries: Seq<(Seq<char>, JsonRep)>, i: int) -> Seq<char>
    decreases entries, entries.len() - i,
{
    if i < 0 || i >= entries.len() {
        Seq::empty()
    } else if i == entries.len() - 1 {
        quoted(entries[i].0) + seq![':'] + rendered(entries[i].1)
    } else {
        quoted(entries[i].0) + seq![':'] + rendered(entries[i].1) + seq![',']
            + rendered_entries_from(entries, i + 1)
    }
}

/// Relies on std's String::push: appends one character to the string.
#[verifier::external_body]
fn push_char(out: &mut String, c: char)
    ensures
        final(out)@ == old(out)@.push(c),
{
    out.push(c);
}

/// Appends the escaped form of `s` from position `i` on.
fn write_escaped(s: &str, i: usize, out: &mut String)
    requires
        i <= s@.len(),
    ensures
        final(out)@ == old(out)@ + escaped_from(s@, i as int),
    decreases s@.len() - i,
{
    let n = s.unicode_len();
    if i < n {
        let c = s.get_char(i);
        if c == '"' {
            out.append("\\\"");
            proof {
                reveal_strlit("\\\"");
                assert("\\\""@ =~= escaped_char(c));
            }
        } else if c == '\\' {
            out.append("\\\\");
            proof {
                reveal_strlit("\\\\");
                assert("\\\\"@ =~= escaped_char(c));
            }
        } else if c == '\n' {
            out.append("\\n");
            proof {
                reveal_strlit("\\n");
                assert("\\n"@ =~= escaped_char(c));
            }
        } else if c == '\r' {
            out.append("\\r");
            proof {
                reveal_strlit("\\r");
                assert("\\r"@ =~= escaped_char(c));
            }
        } else if c == '\t' {
            out.append("\\t");
            proof {
                reveal_strlit("\\t");
                assert("\\t"@ =~= escaped_char(c));
            }
        } else {
            push_char(out, c);
            proof {
                assert(out@ =~= old(out)@ + escaped_char(c));
            }
        }
        write_escaped(s, i + 1, out);
        proof {
            assert(out@ =~= old(out)@ + escaped_from(s@, i as int));
        }
    }
}

/// Appends a string as JSON writes it: quoted and escaped.
fn write_quoted(s: &str, out: &mut String)
    ensures
        final(out)@ == old(out)@ + quoted(s@),
{
    out.append("\"");
    write_escaped(s, 0, out);
    out.append("\"");
    proof {
        reveal_strlit("\"");
        assert("\""@ =~= seq!['"']);
        assert(out@ =~= old(out)@ + quoted(s@));
    }
}

/// Appends the text of the document.
fn write_value(v: &JsonValue, out: &mut String)
    ensures
        final(out)@ == old(out)@ + rendered(rep_of(*v)),
    decreases *v, 0int,
{
    match v {
        JsonValue::Null => {
            out.append("null");
        },
        JsonValue::Boolean(b) => {
            if *b {
                out.append("true");
            } else {
                out.append("false");
            }
        },
        JsonValue::Number(s) => {
            out.append(s.as_str());
        },
        JsonValue::Text(s) => {
            write_quoted(s.as_str(), out);
        },
        JsonValue::Array(items) => {
            out.append("[");
            write_items(items, 0, out);
            out.append("]");
            proof {
                reveal_strlit("[");
                reveal_strlit("]");
                assert("["@ =~= seq!['[']);
                assert("]"@ =~= seq![']']);
                assert(out@ =~= old(out)@ + rendered(rep_of(*v)));
            }
        },
        JsonValue::Object(entries) => {
            out.append("{");
            write_entries(entries, 0, out);
            out.append("}");
            proof {
                reveal_strlit("{");
                reveal_strlit("}");
                assert("{"@ =~= seq!['{']);
                assert("}"@ =~= seq!['}']);
                assert(out@ =~= old(out)@ + rendered(rep_of(*v)));
            }
        },
    }
}

/// Appends the comma-separated text of the array elements from `i` on.
fn write_items(items: &Vec<JsonValue>, i: usize, out: &mut String)
    requires
        i <= items@.len(),
    ensures
        final(out)@ == old(out)@ + rendered_items_from(items_rep_from(items@, 0), i as int),
    decreases *items, items@.len() - i,
{
    proof {
        lemma_items_rep_from(items@, 0);
    }
    if i < items.len() {
        write_value(&items[i], out);
        if i + 1 < items.len() {
            out.append(",");
            write_items(items, i + 1, out);
            proof {
                reveal_strlit(",");
                assert(","@ =~= seq![',']);
                assert(out@ =~= old(out)@ + rendered_items_from(
                    items_rep_from(items@, 0),
                    i as int,
                ));
            }
        } else {
            proof {
                assert(out@ =~= old(out)@ + rendered_items_from(
                    items_rep_from(items@, 0),
                    i as int,
                ));
            }
        }
    }
}

/// Appends the comma-separated text of the object entries from `i` on.
fn write_entries(entries: &Vec<(String, JsonValue)>, i: usize, out: &mut String)
    requires
        i <= entries@.len(),
    ensures
        final(out)@ == old(out)@ + rendered_entries_from(entries_rep_from(entries@, 0), i as int),
    decreases *entries, entries@.len() - i,
{
    proof {
        lemma_entries_rep_from(entries@, 0);
    }
    if i < entries.len() {
        let entry = &entries[i];
        write_quoted(entry.0.as_str(), out);
        out.append(":");
        write_value(&entry.1, out);
        proof {
            reveal_strlit(":");
            assert(":"@ =~= seq![':']);
        }
        if i + 1 < entries.len() {
            out.append(",");
            write_entries(entries, i + 1, out);
            proof {
                reveal_strlit(",");
                assert(","@ =~= seq![',']);
                assert(out@ =~= old(out)@ + rendered_entries_from(
                    entries_rep_from(entries@, 0),
                    i as int,
                ));
            }
        } else {
            proof {
                assert(out@ =~= old(out)@ + rendered_entries_from(
                    entries_rep_from(entries@, 0),
                    i as int,
                ));
            }
        }
    }
}

/// The text of the document, exactly as `rendered` says.
pub fn to_text(v: &JsonValue) -> (r: String)
    ensures
        r@ == rendered(rep_of(*v)),
{
    let mut out = String::new();
    write_value(v, &mut out);
    proof {
        assert(out@ =~= rendered(rep_of(*v)));
    }
    out
}

} // verus!
