//! Bounds on what goes on the live streams.

use vstd::prelude::*;
use vstd::string::*;
use crate::dup::Dup;
use crate::json::{int_number, json_size, Json, JsonField, JsonFieldView, JsonView};
use crate::text;
use crate::text::{fitting_prefix, utf8_size};

verus! {

/// Largest JSON text of a live measurement value, in bytes.
pub const MAX_MEASUREMENT_VALUE_BYTES: usize = 1_000_000;

/// Longest attachment path on the live stream, in bytes.
pub const MAX_ATTACHMENT_PATH_BYTES: usize = 4_096;

/// Longest name, unit or media type on the live stream, in bytes.
pub const MAX_LABEL_BYTES: usize = 1_024;

/// Largest JSON text of the detail of a warning, in bytes.
pub const MAX_WARNING_DETAIL_BYTES: usize = 10_240;

/// Longest name in a log message, in bytes.
pub const MAX_LOGGED_NAME_BYTES: usize = 128;

/// A member of a JSON object.
pub open spec fn member(key: Seq<char>, value: JsonView) -> JsonFieldView {
    JsonFieldView { key, value }
}

/// Builds a member of a JSON object.
pub fn field(key: &str, value: Json) -> (f: JsonField)
    ensures
        f.deep_view() == member(key@, value.deep_view()),
{
    JsonField { key: key.to_string(), value }
}

/// What stands for a measurement value that is too large.
pub open spec fn value_marker(size: nat) -> JsonView {
    JsonView::Object(
        seq![
            member("truncated"@, JsonView::Bool(true)),
            member("original_size_bytes"@, JsonView::Number(int_number(size))),
        ],
    )
}

/// What stands for a warning detail that is too large.
pub open spec fn detail_marker(size: nat) -> JsonView {
    JsonView::Object(
        seq![
            member("truncated"@, JsonView::Bool(true)),
            member("original_size_bytes"@, JsonView::Number(int_number(size))),
            member("reason"@, JsonView::Text("detail exceeded MAX_WARNING_DETAIL_BYTES"@)),
        ],
    )
}

/// A warning detail of some size within its bound: itself where it fits, a
/// marker where it does not.
pub open spec fn detail_within(detail: JsonView, size: nat) -> JsonView {
    if size <= MAX_WARNING_DETAIL_BYTES {
        detail
    } else {
        detail_marker(size)
    }
}

/// A warning detail within its bound, by the size of its text.
pub open spec fn capped_detail(detail: JsonView) -> JsonView {
    detail_within(detail, json_size(detail))
}

/// Bounds the detail of a warning.
pub fn cap_warning_detail(detail: Json) -> (out: Json)
    ensures
        out.deep_view() == capped_detail(detail.deep_view()),
{
    let size: usize = detail.size();
    cap_detail_of_size(detail, size)
}

/// Bounds a warning detail of some size.
pub fn cap_detail_of_size(detail: Json, size: usize) -> (out: Json)
    ensures
        out.deep_view() == detail_within(detail.deep_view(), size as nat),
{
    if size <= MAX_WARNING_DETAIL_BYTES {
        return detail;
    }
    let mut fields: Vec<JsonField> = Vec::new();
    fields.push(field("truncated", Json::Bool(true)));
    fields.push(field("original_size_bytes", Json::integer(size as u64)));
    fields.push(
        field("reason", Json::Text("detail exceeded MAX_WARNING_DETAIL_BYTES".to_string())),
    );
    assert(fields.deep_view() =~= detail_marker(size as nat)->Object_0);
    Json::object(fields)
}

/// A measurement value of some size within its bound: itself where it fits, a
/// marker where it does not.
pub open spec fn value_within(value: JsonView, size: nat) -> JsonView {
    if size <= MAX_MEASUREMENT_VALUE_BYTES {
        value
    } else {
        value_marker(size)
    }
}

/// A measurement value within its bound, by the size of its text.
pub open spec fn capped_value(value: JsonView) -> JsonView {
    value_within(value, json_size(value))
}

/// Bounds a measurement value, and tells whether it was too large.
pub fn cap_measurement_value(value: &Json) -> (out: (Json, bool))
    ensures
        out.0.deep_view() == capped_value(value.deep_view()),
        out.1 == (json_size(value.deep_view()) > MAX_MEASUREMENT_VALUE_BYTES),
{
    let size: usize = value.size();
    cap_value_of_size(value, size)
}

/// Bounds a measurement value of some size, and tells whether it was too
/// large.
pub fn cap_value_of_size(value: &Json, size: usize) -> (out: (Json, bool))
    ensures
        out.0.deep_view() == value_within(value.deep_view(), size as nat),
        out.1 == (size > MAX_MEASUREMENT_VALUE_BYTES),
{
    if size <= MAX_MEASUREMENT_VALUE_BYTES {
        return (value.dup(), false);
    }
    let mut fields: Vec<JsonField> = Vec::new();
    fields.push(field("truncated", Json::Bool(true)));
    fields.push(field("original_size_bytes", Json::integer(size as u64)));
    assert(fields.deep_view() =~= value_marker(size as nat)->Object_0);
    (Json::object(fields), true)
}

/// Cuts a text to at most `max_bytes` bytes, between two characters, and
/// tells whether anything was cut.
pub fn cap_string(s: &str, max_bytes: usize) -> (out: (String, bool))
    ensures
        out.0@ == fitting_prefix(s@, max_bytes as nat),
        out.1 == (utf8_size(s@) > max_bytes),
{
    if text::size_of(s) <= max_bytes {
        return (s.to_string(), false);
    }
    (text::prefix_within(s, max_bytes), true)
}

/// An optional text cut to `max` bytes.
pub open spec fn capped_option(s: Option<Seq<char>>, max: nat) -> Option<Seq<char>> {
    match s {
        Some(s) => Some(fitting_prefix(s, max)),
        None => None,
    }
}

/// Whether an optional text is longer than `max` bytes.
pub open spec fn option_exceeds(s: Option<Seq<char>>, max: nat) -> bool {
    s is Some && utf8_size(s->0) > max
}

/// Cuts an optional text, and tells whether anything was cut.
pub fn cap_optional(s: &Option<String>, max_bytes: usize) -> (out: (Option<String>, bool))
    ensures
        out.0.deep_view() == capped_option(s.deep_view(), max_bytes as nat),
        out.1 == option_exceeds(s.deep_view(), max_bytes as nat),
{
    match s {
        None => (None, false),
        Some(s) => {
            let (capped, cut) = cap_string(s.as_str(), max_bytes);
            (Some(capped), cut)
        },
    }
}

/// A name as log messages show it.
pub open spec fn logged_name(s: Seq<char>) -> Seq<char> {
    if utf8_size(s) <= MAX_LOGGED_NAME_BYTES {
        s
    } else {
        fitting_prefix(s, MAX_LOGGED_NAME_BYTES as nat) + "…"@
    }
}

/// Cuts a name for a log message.
pub fn truncate_for_log(s: &str) -> (out: String)
    ensures
        out@ == logged_name(s@),
{
    if text::size_of(s) <= MAX_LOGGED_NAME_BYTES {
        return s.to_string();
    }
    let mut out = text::prefix_within(s, MAX_LOGGED_NAME_BYTES);
    out.append("…");
    out
}

/// A bounded text is a leading part of the text, takes at most the bound in
/// bytes, and is the whole text wherever that fits.
pub proof fn law_cap_string(s: Seq<char>, max: nat)
    ensures
        fitting_prefix(s, max).is_prefix_of(s),
        utf8_size(fitting_prefix(s, max)) <= max,
        utf8_size(s) <= max ==> fitting_prefix(s, max) == s,
        fitting_prefix(s, max).len() < s.len() ==> utf8_size(
            s.take(fitting_prefix(s, max).len() as int + 1),
        ) > max,
{
    text::lemma_fitting_prefix(s, max);
}

} // verus!
