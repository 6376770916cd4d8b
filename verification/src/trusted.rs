//! The calls that leave the verified code: UTF-8 decoding of std, the
//! regular-expression engine and the JSON reader and writer.
//!
//! Each function here is believed, not proved. What a call returns is a
//! function of its arguments alone and is given a name, so that the
//! contracts of the handlers can say exactly what they do with it.

use crate::search::Record;
use vstd::prelude::*;
use vstd::utf8::{decode_utf8, valid_utf8};

verus! {

/// `regex::Error`: why a pattern was rejected. Nothing is known of it.
#[verifier::external_type_specification]
#[verifier::external_body]
pub struct ExPatternError(regex::Error);

/// `serde_json::Error`: why reading or writing JSON failed. Nothing is
/// known of it.
#[verifier::external_type_specification]
#[verifier::external_body]
pub struct ExJsonError(serde_json::Error);

/// The text that `String::from_utf8_lossy` makes of `bytes`. For bytes that
/// are valid UTF-8 it is the text they encode; what it is for other bytes
/// is left to std.
pub uninterp spec fn lossy_text(bytes: Seq<u8>) -> Seq<char>;

/// Trusted: `String::from_utf8_lossy`. The result depends on the bytes
/// alone; bytes that are valid UTF-8 decode to the characters they encode,
/// and std replaces every other sequence by U+FFFD.
#[verifier::external_body]
pub(crate) fn decode_lossy(bytes: &[u8]) -> (text: String)
    ensures
        text@ == lossy_text(bytes@),
        valid_utf8(bytes@) ==> text@ == decode_utf8(bytes@),
{
    String::from_utf8_lossy(bytes).into_owned()
}

/// Trusted: `String::from_iter` over the characters of a slice. The string
/// that std collects from an iterator of `char` holds exactly those
/// characters, in order.
#[verifier::external_body]
pub(crate) fn string_of(chars: &[char]) -> (out: String)
    ensures
        out@ == chars@,
{
    String::from_iter(chars.iter())
}

/// Whether `regex::Regex::is_match` finds `pattern` anywhere in `haystack`;
/// `None` where `regex::Regex::new` rejects the pattern.
pub uninterp spec fn regex_is_match(pattern: Seq<char>, haystack: Seq<char>) -> Option<bool>;

/// Trusted: `regex::Regex::new` followed by `regex::Regex::is_match`. The
/// answer depends on the pattern and the haystack alone.
#[verifier::external_body]
pub(crate) fn pattern_found(pattern: &str, haystack: &str) -> (r: Result<bool, regex::Error>)
    ensures
        match r {
            Ok(found) => regex_is_match(pattern@, haystack@) == Some(found),
            Err(_) => regex_is_match(pattern@, haystack@) is None,
        },
{
    let re = regex::Regex::new(pattern)?;
    Ok(re.is_match(haystack))
}

/// The capture groups of the first match that `regex::Regex::captures`
/// finds for `pattern` in `haystack`, group 0 first, each with the text it
/// matched if it took part. The inner `None` says that there is no match,
/// the outer one that `regex::Regex::new` rejects the pattern.
pub uninterp spec fn regex_captures(pattern: Seq<char>, haystack: Seq<char>) -> Option<
    Option<Seq<Option<Seq<char>>>>,
>;

/// The texts of capture groups.
pub open spec fn group_texts(groups: Seq<Option<String>>) -> Seq<Option<Seq<char>>> {
    groups.map_values(
        |g: Option<String>|
            match g {
                Some(s) => Some(s@),
                None => None,
            },
    )
}

/// The texts of the capture groups of a match, if there is one.
pub open spec fn found_texts(found: Option<Vec<Option<String>>>) -> Option<
    Seq<Option<Seq<char>>>,
> {
    match found {
        Some(groups) => Some(group_texts(groups@)),
        None => None,
    }
}

/// Trusted: `regex::Regex::new` followed by `regex::Regex::captures`, the
/// groups copied out in the order of `regex::Captures::iter`. The answer
/// depends on the pattern and the haystack alone.
#[verifier::external_body]
pub(crate) fn pattern_groups(pattern: &str, haystack: &str) -> (r: Result<
    Option<Vec<Option<String>>>,
    regex::Error,
>)
    ensures
        match r {
            Ok(found) => regex_captures(pattern@, haystack@) == Some(found_texts(found)),
            Err(_) => regex_captures(pattern@, haystack@) is None,
        },
{
    let re = regex::Regex::new(pattern)?;
    Ok(
        re.captures(haystack).map(
            |caps| caps.iter().map(|m| m.map(|m| m.as_str().to_string())).collect(),
        ),
    )
}

/// The compact JSON text that `serde_json` writes for an object with two
/// string members.
pub uninterp spec fn json_object_text(
    first_key: Seq<char>,
    first: Seq<char>,
    second_key: Seq<char>,
    second: Seq<char>,
) -> Seq<char>;

/// Trusted: a `serde_json::Map` filled by two calls of `insert` with string
/// values and written by the `Display` impl of `serde_json::Value`. The text
/// depends on the four strings alone.
#[verifier::external_body]
pub(crate) fn object_json(first_key: &str, first: &str, second_key: &str, second: &str) -> (out:
    String)
    ensures
        out@ == json_object_text(first_key@, first@, second_key@, second@),
{
    let mut members = serde_json::Map::new();
    members.insert(first_key.to_string(), serde_json::Value::String(first.to_string()));
    members.insert(second_key.to_string(), serde_json::Value::String(second.to_string()));
    serde_json::Value::Object(members).to_string()
}

/// What a JSON array holds for a search: for each element, its member
/// `id_key` if that is a number that fits `u64`, and its member `name_key`
/// if that is a string, as `serde_json` reads them out of `data`. `None`
/// where `data` is not JSON or not an array.
pub uninterp spec fn json_array_fields(
    data: Seq<char>,
    id_key: Seq<char>,
    name_key: Seq<char>,
) -> Option<Seq<(Option<u64>, Option<Seq<char>>)>>;

/// The records as mathematical values.
pub open spec fn field_texts(items: Seq<Record>) -> Seq<(Option<u64>, Option<Seq<char>>)> {
    items.map_values(|item: Record| item@)
}

/// Trusted: `serde_json::from_str` to a `serde_json::Value`, then
/// `Value::as_array`, and for each element `Value::get` with each of the
/// two keys, `Value::as_u64` and `Value::as_str`. The answer depends on the
/// three strings alone.
#[verifier::external_body]
pub(crate) fn array_fields(data: &str, id_key: &str, name_key: &str) -> (r: Result<
    Option<Vec<Record>>,
    serde_json::Error,
>)
    ensures
        match r {
            Ok(Some(items)) => json_array_fields(data@, id_key@, name_key@) == Some(
                field_texts(items@),
            ),
            Ok(None) => json_array_fields(data@, id_key@, name_key@) is None,
            Err(_) => json_array_fields(data@, id_key@, name_key@) is None,
        },
{
    let value: serde_json::Value = serde_json::from_str(data)?;
    Ok(
        value.as_array().map(
            |items|
                items.iter().map(
                    |item|
                        Record {
                            id: item.get(id_key).and_then(|v| v.as_u64()),
                            name: item.get(name_key).and_then(|v| v.as_str()).map(|s| s.to_string()),
                        },
                ).collect(),
        ),
    )
}

/// The compact JSON text that `serde_json::to_string` writes for the array
/// of those elements of the JSON array in `data` that stand at the
/// positions `picks`, in the order of `picks`; each element is written
/// whole, with all its members. `None` where `data` is not JSON or not an
/// array, where a position lies outside the array, or where writing fails.
pub uninterp spec fn json_picked_text(data: Seq<char>, picks: Seq<usize>) -> Option<Seq<char>>;

/// Trusted: `serde_json::from_str` to a `serde_json::Value`, `Value::get`
/// with each position, and `serde_json::to_string` on the elements found.
/// The answer depends on the text and the positions alone.
#[verifier::external_body]
pub(crate) fn picked_json(data: &str, picks: &Vec<usize>) -> (r: Result<
    Option<String>,
    serde_json::Error,
>)
    ensures
        match r {
            Ok(Some(out)) => json_picked_text(data@, picks@) == Some(out@),
            Ok(None) => json_picked_text(data@, picks@) is None,
            Err(_) => json_picked_text(data@, picks@) is None,
        },
{
    let value: serde_json::Value = serde_json::from_str(data)?;
    let picked: Option<Vec<&serde_json::Value>> = picks.iter().map(|i| value.get(*i)).collect();
    picked.map(|items| serde_json::to_string(&items)).transpose()
}

} // verus!
