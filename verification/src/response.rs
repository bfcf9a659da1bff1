//! The boundary to the JSON tree of a raw response.
//!
//! The response text is parsed by `serde_json`; its tree values are opaque
//! here, so each accessor is a trusted wrapper around one `serde_json` call,
//! and everything these wrappers hand back flows into a [`RawItem`], on which
//! the normalization rules are verified.

use vstd::prelude::*;

use crate::normalize::{normalize_page, NormalizeError, RawItem};
use crate::media::MediaQuery;
use serde_json::Value;

verus! {

#[verifier::external_type_specification]
#[verifier::external_body]
pub struct ExValue(Value);

/// Relies on serde_json::from_str: parses JSON text into a tree value, or
/// fails on text that is not valid JSON.
#[verifier::external_body]
fn json_parse(text: &str) -> (r: Option<Value>) {
    serde_json::from_str(text).ok()
}

/// Relies on serde_json::Value::get: looks a key up in a JSON object,
/// yielding nothing for a missing key or a non-object value.
#[verifier::external_body]
fn json_get<'a>(v: &'a Value, key: &str) -> (r: Option<&'a Value>) {
    v.get(key)
}

/// Relies on serde_json::Value::as_u64: the value as an unsigned integer if
/// it is a number representable as one.
#[verifier::external_body]
fn json_u64(v: &Value) -> (r: Option<u64>) {
    v.as_u64()
}

/// Relies on serde_json::Value::as_str: the value's text if it is a string.
#[verifier::external_body]
fn json_string(v: &Value) -> (r: Option<String>) {
    v.as_str().map(|s| s.to_string())
}

/// Relies on serde_json::Value::as_array: the value's elements if it is an
/// array.
#[verifier::external_body]
fn json_array<'a>(v: &'a Value) -> (r: Option<&'a Vec<Value>>) {
    v.as_array()
}

/// A field of a JSON object as an unsigned integer, if present and numeric.
fn field_u64(item: &Value, key: &str) -> Option<u64> {
    match json_get(item, key) {
        Some(v) => json_u64(v),
        None => None,
    }
}

/// A field of a JSON object as a string, if present and textual.
fn field_string(item: &Value, key: &str) -> Option<String> {
    match json_get(item, key) {
        Some(v) => json_string(v),
        None => None,
    }
}

/// A field of a nested JSON object as an unsigned integer.
fn nested_u64(item: &Value, outer: &str, inner: &str) -> Option<u64> {
    match json_get(item, outer) {
        Some(v) => field_u64(v, inner),
        None => None,
    }
}

/// A field of a nested JSON object as a string.
fn nested_string(item: &Value, outer: &str, inner: &str) -> Option<String> {
    match json_get(item, outer) {
        Some(v) => field_string(v, inner),
        None => None,
    }
}

/// Reads the fields of one raw item out of its JSON form. Every field that is
/// absent, null, or of an unexpected type comes out as `None`; what that
/// means per field is the normalizer's business.
pub fn extract_item(item: &Value) -> RawItem {
    let genres = match json_get(item, "genres") {
        Some(g) => match json_array(g) {
            Some(arr) => {
                let mut out: Vec<Option<String>> = Vec::new();
                let mut i: usize = 0;
                while i < arr.len()
                    decreases arr@.len() - i,
                {
                    out.push(json_string(&arr[i]));
                    i += 1;
                }
                Some(out)
            },
            None => None,
        },
        None => None,
    };
    RawItem {
        id: field_u64(item, "id"),
        title_english: nested_string(item, "title", "english"),
        title_romaji: nested_string(item, "title", "romaji"),
        average_score: field_u64(item, "averageScore"),
        popularity: field_u64(item, "popularity"),
        favourites: field_u64(item, "favourites"),
        status: field_string(item, "status"),
        season: field_string(item, "season"),
        start_year: nested_u64(item, "startDate", "year"),
        start_month: nested_u64(item, "startDate", "month"),
        start_day: nested_u64(item, "startDate", "day"),
        season_year: field_u64(item, "seasonYear"),
        genres,
    }
}

/// Walks the response envelope down the fixed path to the item list and reads
/// each item; `None` when the path is absent or does not end in a list.
pub fn extract_items(root: &Value) -> Option<Vec<RawItem>> {
    let data = match json_get(root, "data") {
        Some(v) => v,
        None => {
            return None;
        },
    };
    let page = match json_get(data, "Page") {
        Some(v) => v,
        None => {
            return None;
        },
    };
    let media = match json_get(page, "media") {
        Some(v) => v,
        None => {
            return None;
        },
    };
    let arr = match json_array(media) {
        Some(v) => v,
        None => {
            return None;
        },
    };
    let mut items: Vec<RawItem> = Vec::new();
    let mut i: usize = 0;
    while i < arr.len()
        decreases arr@.len() - i,
    {
        items.push(extract_item(&arr[i]));
        i += 1;
    }
    Some(items)
}

/// Turns one response body into normalized records: text that does not parse
/// or an envelope without the item list is a fatal structural error; the
/// items themselves are handed to the verified normalization pass, whose
/// contract pins the outcome per extracted item.
pub fn response_to_records(text: &str) -> Result<Vec<MediaQuery>, NormalizeError> {
    let root = match json_parse(text) {
        Some(v) => v,
        None => {
            return Err(NormalizeError::BadResponse);
        },
    };
    let items = match extract_items(&root) {
        Some(v) => v,
        None => {
            return Err(NormalizeError::BadResponse);
        },
    };
    normalize_page(&items)
}

} // verus!
