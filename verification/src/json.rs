//! JSON text as `serde_json` writes it: string literals, and the objects and
//! arrays that hand files to the page.

use vstd::prelude::*;

verus! {

#[verifier::external_type_specification]
#[verifier::external_body]
pub struct ExJsonError(serde_json::Error);

/// The lowercase hexadecimal digit of a value below sixteen.
pub open spec fn hex_digit(v: int) -> char {
    if v < 10 {
        (48 + v) as char
    } else {
        (87 + v) as char
    }
}

/// How `serde_json` writes one character inside a JSON string: `"` and `\`
/// and the control characters below U+0020 are escaped (`\b`, `\t`, `\n`,
/// `\f`, `\r`, or `\u00XX` in lowercase hexadecimal); every other character
/// is written as it is.
pub open spec fn json_escape(c: char) -> Seq<char> {
    if c == '"' {
        seq!['\\', '"']
    } else if c == '\\' {
        seq!['\\', '\\']
    } else if c == '\u{8}' {
        seq!['\\', 'b']
    } else if c == '\t' {
        seq!['\\', 't']
    } else if c == '\n' {
        seq!['\\', 'n']
    } else if c == '\u{c}' {
        seq!['\\', 'f']
    } else if c == '\r' {
        seq!['\\', 'r']
    } else if (c as int) < 32 {
        seq!['\\', 'u', '0', '0', hex_digit(c as int / 16), hex_digit(c as int % 16)]
    } else {
        seq![c]
    }
}

/// The characters of a string, each escaped as inside a JSON string.
pub open spec fn json_escaped(s: Seq<char>) -> Seq<char>
    decreases s.len(),
{
    if s.len() == 0 {
        Seq::empty()
    } else {
        json_escaped(s.drop_last()) + json_escape(s.last())
    }
}

/// The JSON string literal of a string: its escaped characters in double
/// quotes.
pub open spec fn json_string(s: Seq<char>) -> Seq<char> {
    seq!['"'] + json_escaped(s) + seq!['"']
}

/// Calls `serde_json::to_string` on a string slice. Its source writes the
/// string with the compact formatter into a `Vec<u8>`, which cannot fail:
/// a quote, each character escaped by its `ESCAPE` table as
/// [`json_escape`] states, and a quote; the result is [`json_string`].
#[verifier::external_body]
pub(crate) fn quote_json(s: &str) -> (r: Result<String, serde_json::Error>)
    ensures
        r is Ok,
        r->Ok_0@ == json_string(s@),
{
    serde_json::to_string(s)
}

/// The JSON object `{"b64":..,"mime":..,"name":..}` made of three JSON
/// string literals (keys in the order that `serde_json` writes an object's
/// keys).
pub open spec fn json_object(b64: Seq<char>, mime: Seq<char>, name: Seq<char>) -> Seq<char> {
    "{\"b64\":"@ + b64 + ",\"mime\":"@ + mime + ",\"name\":"@ + name + "}"@
}

/// Texts joined with commas.
pub open spec fn join_with_commas(items: Seq<Seq<char>>) -> Seq<char>
    decreases items.len(),
{
    if items.len() == 0 {
        Seq::empty()
    } else if items.len() == 1 {
        items[0]
    } else {
        join_with_commas(items.drop_last()) + ","@ + items.last()
    }
}

/// A JSON array of the given JSON texts.
pub open spec fn json_array(items: Seq<Seq<char>>) -> Seq<char> {
    "["@ + join_with_commas(items) + "]"@
}

/// Writes the JSON object of an entry from its three fields, each already a
/// JSON string literal.
pub fn entry_object(b64_json: &str, mime_json: &str, name_json: &str) -> (r: String)
    ensures
        r@ == json_object(b64_json@, mime_json@, name_json@),
{
    let mut out = String::from_str("{\"b64\":");
    out.append(b64_json);
    out.append(",\"mime\":");
    out.append(mime_json);
    out.append(",\"name\":");
    out.append(name_json);
    out.append("}");
    out
}

/// The views of a list of strings.
pub open spec fn strings_view(items: Seq<String>) -> Seq<Seq<char>> {
    items.map_values(|s: String| s@)
}

/// Writes a JSON array of the given JSON texts.
pub fn files_payload(items: &Vec<String>) -> (r: String)
    ensures
        r@ == json_array(strings_view(items@)),
{
    let ghost all = strings_view(items@);
    let mut out = String::from_str("[");
    let mut i: usize = 0;
    assert(all.take(0) =~= Seq::<Seq<char>>::empty());
    assert(out@ =~= "["@ + join_with_commas(all.take(0)));
    while i < items.len()
        invariant
            i <= items.len(),
            all == strings_view(items@),
            out@ == "["@ + join_with_commas(all.take(i as int)),
        decreases items.len() - i,
    {
        let ghost before = out@;
        assert(all.take(i + 1).drop_last() =~= all.take(i as int));
        assert(all.take(i + 1).last() == all[i as int]);
        if i > 0 {
            out.append(",");
        }
        out.append(items[i].as_str());
        assert(out@ =~= "["@ + join_with_commas(all.take(i + 1)));
        i = i + 1;
    }
    out.append("]");
    assert(all.take(items.len() as int) =~= all);
    out
}

} // verus!
