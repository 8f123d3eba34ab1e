//! The JSON text that the blog reads its settings from and writes into its scripts,
//! through `serde_json`.

use vstd::prelude::*;
use std::collections::BTreeMap;
use crate::strmap::{keys_distinct, Entries};

verus! {

/// The entries that `serde_json` reads from `text` when it reads a JSON object
/// whose values are all strings, in increasing key order; `None` where `text`
/// is not such an object.
pub uninterp spec fn json_string_entries(text: Seq<char>) -> Option<Entries>;

/// A lower-case hexadecimal digit.
pub open spec fn lower_hex_digit(n: int) -> char {
    seq!['0', '1', '2', '3', '4', '5', '6', '7', '8', '9', 'a', 'b', 'c', 'd', 'e', 'f'][n]
}

/// How `serde_json` writes one character inside a JSON string: `"` and `\`
/// and the control characters are escaped (`\b`, `\t`, `\n`, `\f`, `\r`, else
/// `\u00` and two lower-case hexadecimal digits); every other character is
/// written as it is.
pub open spec fn json_char(c: char) -> Seq<char> {
    if c == '"' {
        seq!['\\', '"']
    } else if c == '\\' {
        seq!['\\', '\\']
    } else if c == '\u{8}' {
        seq!['\\', 'b']
    } else if c == '\t' {
        seq!['\\', 't']
    } else if c == '\n' {
        seq!['\\', 'n']
    } else if c == '\u{c}' {
        seq!['\\', 'f']
    } else if c == '\r' {
        seq!['\\', 'r']
    } else if (c as int) < 0x20 {
        seq!['\\', 'u', '0', '0', lower_hex_digit(c as int / 16), lower_hex_digit(c as int % 16)]
    } else {
        seq![c]
    }
}

/// The characters of `s`, each written as in a JSON string.
pub open spec fn json_chars(s: Seq<char>) -> Seq<char>
    decreases s.len(),
{
    if s.len() == 0 {
        Seq::empty()
    } else {
        json_chars(s.drop_last()) + json_char(s.last())
    }
}

/// The JSON string literal of `s`.
pub open spec fn json_string_text(s: Seq<char>) -> Seq<char> {
    seq!['"'] + json_chars(s) + seq!['"']
}

/// The members of a JSON object: `"key":"value"` for each entry, separated by
/// commas.
pub open spec fn json_members(entries: Entries) -> Seq<char>
    decreases entries.len(),
{
    if entries.len() == 0 {
        Seq::empty()
    } else {
        let member = json_string_text(entries.last().0) + seq![':'] + json_string_text(
            entries.last().1,
        );
        if entries.len() == 1 {
            member
        } else {
            json_members(entries.drop_last()) + seq![','] + member
        }
    }
}

/// The JSON object text, in compact form, that `serde_json` writes for the
/// string entries `entries`, in their order: `{}` for no entries.
pub open spec fn json_object_text(entries: Entries) -> Seq<char> {
    seq!['{'] + json_members(entries) + seq!['}']
}

/// Reads `text` with `serde_json::from_str` as a map from strings to strings
/// (a `BTreeMap`) and hands its entries out in the map's order.
/// Trusted: the result is `json_string_entries` of the text; its keys are
/// distinct, as they are keys of a map. Which texts are accepted, and what is
/// read from them, is not stated here.
#[verifier::external_body]
pub(crate) fn parse_string_object(text: &str) -> (r: Option<Vec<(String, String)>>)
    ensures
        r.deep_view() == json_string_entries(text@),
        r matches Some(es) ==> keys_distinct(es.deep_view()),
{
    let map: BTreeMap<String, String> = serde_json::from_str(text).ok()?;
    Some(map.into_iter().collect())
}

/// Writes `entries` as one JSON object with `serde_json`'s compact serializer
/// (`Serializer::collect_map` over a `Vec<u8>`), keys and values as JSON strings.
/// Trusted: the result is `json_object_text` of the entries: `{`, the members
/// with `,` between them, `}`, each key and value a JSON string escaped by
/// `serde_json`'s table (`format_escaped_str`). Writing into a `Vec<u8>` does
/// not fail, and the output is UTF-8.
#[verifier::external_body]
pub(crate) fn json_object(entries: &Vec<(String, String)>) -> (r: String)
    ensures
        r@ == json_object_text(entries.deep_view()),
{
    let mut ser = serde_json::Serializer::new(Vec::new());
    let _ = serde::Serializer::collect_map(&mut ser, entries.iter().map(|e| (&e.0, &e.1)));
    String::from_utf8(ser.into_inner()).unwrap_or_default()
}

} // verus!
