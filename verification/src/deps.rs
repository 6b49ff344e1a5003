//! The calls into outside crates, each with the contract that the library
//! relies on. Nothing here is proved: each contract is a claim about the
//! outside code, as its source and documentation show it.

use vstd::prelude::*;
use chrono::TimeZone;

verus! {

/// Whether `haystack` holds a match of `pattern`, as the `regex` crate reads
/// the pattern. Regular expression matching takes more than a few lines to
/// state, so it stands here as a name.
pub uninterp spec fn regex_matches(pattern: Seq<char>, haystack: Seq<char>) -> bool;

/// The pattern of a word: letters, digits and underscores only.
pub open spec fn word_pattern() -> Seq<char> {
    "^[A-Za-z0-9_]+$"@
}

/// A character of the class `[A-Za-z0-9_]`.
pub open spec fn is_word_char(c: char) -> bool {
    ('A' <= c && c <= 'Z') || ('a' <= c && c <= 'z') || ('0' <= c && c <= '9') || c == '_'
}

/// A non-empty text made of word characters only.
pub open spec fn is_word(s: Seq<char>) -> bool {
    s.len() > 0 && forall|i: int| 0 <= i < s.len() ==> is_word_char(#[trigger] s[i])
}

/// Compiles `pattern` with `regex::Regex::new` and tests `haystack` with
/// `Regex::is_match`; a pattern that does not compile gives the error's text.
/// Claimed: a result of `Ok` is whether the pattern matches; for the word
/// pattern, anchored at both ends (`^`, `$` match only at the ends of the
/// haystack in the `regex` crate), that is whether the haystack is a
/// non-empty run of `[A-Za-z0-9_]`. `Regex::new` fails only on an invalid
/// pattern or one whose compiled form exceeds the default size limit (its
/// documented errors); the word pattern is valid and a few states large, so
/// for it the answer is `Ok`. Not claimed: which other patterns compile.
#[verifier::external_body]
pub(crate) fn regex_is_match(pattern: &str, haystack: &str) -> (res: Result<bool, String>)
    ensures
        res matches Ok(b) ==> b == regex_matches(pattern@, haystack@),
        res matches Ok(b) ==> (pattern@ == word_pattern() ==> b == is_word(haystack@)),
        pattern@ == word_pattern() ==> res is Ok,
{
    match regex::Regex::new(pattern) {
        Ok(re) => Ok(re.is_match(haystack)),
        Err(e) => Err(e.to_string()),
    }
}

/// A lower-case hexadecimal digit.
pub open spec fn hex_digit(d: int) -> char {
    if d < 10 {
        crate::text::digit_char(d)
    } else if d == 10 {
        'a'
    } else if d == 11 {
        'b'
    } else if d == 12 {
        'c'
    } else if d == 13 {
        'd'
    } else if d == 14 {
        'e'
    } else {
        'f'
    }
}

/// One character inside a JSON string as serde_json writes it: quote and
/// backslash escaped by a backslash, backspace, tab, line feed, form feed and
/// carriage return as `\b \t \n \f \r`, other controls below 0x20 as
/// `\u00xx`, everything else kept.
pub open spec fn json_char(c: char) -> Seq<char> {
    if c == '"' {
        seq!['\\', '"']
    } else if c == '\\' {
        seq!['\\', '\\']
    } else if c == '\x08' {
        seq!['\\', 'b']
    } else if c == '\t' {
        seq!['\\', 't']
    } else if c == '\n' {
        seq!['\\', 'n']
    } else if c == '\x0c' {
        seq!['\\', 'f']
    } else if c == '\r' {
        seq!['\\', 'r']
    } else if (c as int) < 0x20 {
        seq!['\\', 'u', '0', '0', hex_digit((c as int) / 16), hex_digit((c as int) % 16)]
    } else {
        seq![c]
    }
}

/// The escaped characters of a string.
pub open spec fn json_escaped(s: Seq<char>) -> Seq<char>
    decreases s.len(),
{
    if s.len() == 0 {
        Seq::empty()
    } else {
        json_escaped(s.drop_last()) + json_char(s.last())
    }
}

/// A JSON string literal.
pub open spec fn json_quoted(s: Seq<char>) -> Seq<char> {
    seq!['"'] + json_escaped(s) + seq!['"']
}

/// The string literals of a list, separated by commas.
pub open spec fn json_items(items: Seq<Seq<char>>) -> Seq<char>
    decreases items.len(),
{
    if items.len() == 0 {
        Seq::empty()
    } else if items.len() == 1 {
        json_quoted(items[0])
    } else {
        json_items(items.drop_last()) + seq![','] + json_quoted(items.last())
    }
}

/// The JSON text that `serde_json::to_string` gives for a list of strings:
/// the string literals between brackets, separated by commas, no spaces.
pub open spec fn json_string_array(items: Seq<Seq<char>>) -> Seq<char> {
    seq!['['] + json_items(items) + seq![']']
}

/// Encodes a list of strings with `serde_json::to_string`.
/// Claimed: the result is `Ok` (serde_json's serializer fails only when its
/// writer fails, and the in-memory writer of `to_string` never does), and its
/// text is the compact JSON array of the strings, escaped as serde_json's
/// escape table and `write_char_escape` do.
#[verifier::external_body]
pub(crate) fn json_of_strings(items: &Vec<String>) -> (res: Result<String, String>)
    ensures
        res is Ok,
        res matches Ok(t) ==> t@ == json_string_array(items@.map_values(|s: String| s@)),
{
    match serde_json::to_string(items) {
        Ok(t) => Ok(t),
        Err(e) => Err(e.to_string()),
    }
}

/// Whether a text is a JSON document, as `serde_json::from_str` into a
/// `serde_json::Value` reads it.
pub uninterp spec fn json_parses(text: Seq<char>) -> bool;

/// The string under `key` of a JSON document that is an object, as
/// `value[key].as_str()` gives it: `None` when the document is not an object,
/// has no such key, or holds something other than a string there.
pub uninterp spec fn json_text_field(text: Seq<char>, key: Seq<char>) -> Option<Seq<char>>;

/// Parses a JSON document with `serde_json::from_str` into a
/// `serde_json::Value` and reads the string under `key` with
/// `Value`'s indexing (which gives `Null` where nothing is) and `as_str`.
/// Claimed: the answer is `Ok` exactly when the text parses, and then it
/// holds the string under the key, if there is one. Not claimed: the text of
/// a parse error.
#[verifier::external_body]
pub(crate) fn json_string_field(text: &str, key: &str) -> (r: Result<Option<String>, String>)
    ensures
        r is Ok <==> json_parses(text@),
        r matches Ok(Some(v)) ==> json_text_field(text@, key@) == Some(v@),
        r matches Ok(None) ==> json_text_field(text@, key@) is None,
{
    match serde_json::from_str::<serde_json::Value>(text) {
        Ok(v) => match v[key].as_str() {
            Some(field) => Ok(Some(field.to_string())),
            None => Ok(None),
        },
        Err(e) => Err(e.to_string()),
    }
}

/// Whether a text is a YAML document, as `serde_yaml::from_str` into a
/// `serde_yaml::Value` reads it.
pub uninterp spec fn yaml_parses(text: Seq<char>) -> bool;

/// The string under `key` of a YAML document that is a mapping, as
/// `value[key].as_str()` gives it: `None` when the document is not a mapping,
/// has no such key, or holds something other than a string there.
pub uninterp spec fn yaml_text_field(text: Seq<char>, key: Seq<char>) -> Option<Seq<char>>;

/// Parses a YAML document with `serde_yaml::from_str` into a
/// `serde_yaml::Value` and reads the string under `key` with `Value`'s
/// indexing (which gives `Null` where nothing is) and `as_str`.
/// Claimed: the answer is `Ok` exactly when the text parses, and then it
/// holds the string under the key, if there is one. Not claimed: the text of
/// a parse error.
#[verifier::external_body]
pub(crate) fn yaml_string_field(text: &str, key: &str) -> (r: Result<Option<String>, String>)
    ensures
        r is Ok <==> yaml_parses(text@),
        r matches Ok(Some(v)) ==> yaml_text_field(text@, key@) == Some(v@),
        r matches Ok(None) ==> yaml_text_field(text@, key@) is None,
{
    match serde_yaml::from_str::<serde_yaml::Value>(text) {
        Ok(v) => match v[key].as_str() {
            Some(field) => Ok(Some(field.to_string())),
            None => Ok(None),
        },
        Err(e) => Err(e.to_string()),
    }
}

/// The text that chrono's `Display` gives for a `DateTime` whose local clock
/// reads `local_secs` seconds after 1970-01-01 00:00:00 and whose offset from
/// UTC is `offset_secs`: the date and time, a space, and the offset
/// (`2024-05-01 20:00:00 +08:00`). Calendar arithmetic takes more than a few
/// lines, so it stands here as a name.
pub uninterp spec fn local_datetime_text(local_secs: int, offset_secs: int) -> Seq<char>;

/// Renders a UNIX timestamp in the machine's local time zone, as
/// `chrono::Local.timestamp(secs, 0).to_string()` does, and gives the zone's
/// offset from UTC at that moment (`FixedOffset::local_minus_utc`).
/// Claimed: the offset is less than a day either way (chrono's `FixedOffset`
/// holds no other), and the text is the rendering of the local clock at
/// `secs` plus the offset, with that offset. Which offset the machine's zone
/// gives is not claimed. chrono panics on seconds outside its calendar
/// (-262143-01-01 00:00:00 to 262142-12-31 23:59:59 UTC, that is
/// -8,334,601,228,800 to 8,210,266,876,799), so `requires` keeps inside it;
/// its `Display` does not panic near the ends. Not claimed: that reading the
/// machine's time zone data succeeds, which chrono assumes.
#[verifier::external_body]
#[allow(deprecated)]
pub(crate) fn local_time_text(secs: i64) -> (res: (String, i32))
    requires
        -8_334_601_228_800 <= secs <= 8_210_266_876_799,
    ensures
        -86400 < res.1 < 86400,
        res.0@ == local_datetime_text(secs + res.1, res.1 as int),
{
    let dt = chrono::Local.timestamp(secs, 0);
    (dt.to_string(), dt.offset().local_minus_utc())
}

} // verus!
