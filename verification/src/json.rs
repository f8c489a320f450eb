//! JSON values as the library reads and builds them.
//!
//! A number is kept by its rendered text, with the readings that the logic
//! needs: the integer, where it is one, and the bit pattern of the double.

use vstd::prelude::*;
use crate::assoc;
use crate::assoc::lookup;
use crate::dup::Dup;
use crate::order::{text_less, Keyed};
use crate::text::utf8_size;

verus! {

/// A JSON number.
#[derive(Debug, PartialEq, Eq)]
pub struct JsonNumber {
    /// The number as JSON text.
    pub text: String,
    /// The number as a 64-bit integer, where it is one.
    pub int: Option<i64>,
    /// The bit pattern of the number as a double.
    pub bits: Option<u64>,
}

/// View of [`JsonNumber`].
pub struct JsonNumberView {
    pub text: Seq<char>,
    pub int: Option<i64>,
    pub bits: Option<u64>,
}

impl DeepView for JsonNumber {
    type V = JsonNumberView;

    open spec fn deep_view(&self) -> JsonNumberView {
        JsonNumberView { text: self.text@, int: self.int, bits: self.bits }
    }
}

impl Dup for JsonNumber {
    fn dup(&self) -> (copy: Self) {
        JsonNumber { text: self.text.clone(), int: self.int, bits: self.bits }
    }
}

/// A JSON value.
#[derive(Debug, PartialEq, Eq)]
pub enum Json {
    Null,
    Bool(bool),
    Number(JsonNumber),
    Text(String),
    Array(Vec<Json>),
    Object(Vec<JsonField>),
}

/// One member of a JSON object.
#[derive(Debug, PartialEq, Eq)]
pub struct JsonField {
    pub key: String,
    pub value: Json,
}

/// View of [`Json`].
pub enum JsonView {
    Null,
    Bool(bool),
    Number(JsonNumberView),
    Text(Seq<char>),
    Array(Seq<JsonView>),
    Object(Seq<JsonFieldView>),
}

/// View of [`JsonField`].
pub struct JsonFieldView {
    pub key: Seq<char>,
    pub value: JsonView,
}

/// The view of a JSON value.
pub open spec fn json_view(json: Json) -> JsonView
    decreases json,
{
    match json {
        Json::Null => JsonView::Null,
        Json::Bool(b) => JsonView::Bool(b),
        Json::Number(n) => JsonView::Number(n.deep_view()),
        Json::Text(s) => JsonView::Text(s@),
        Json::Array(items) => JsonView::Array(
            Seq::new(
                items@.len(),
                |i: int|
                    if 0 <= i < items@.len() {
                        json_view(items@[i])
                    } else {
                        JsonView::Null
                    },
            ),
        ),
        Json::Object(fields) => JsonView::Object(
            Seq::new(
                fields@.len(),
                |i: int|
                    if 0 <= i < fields@.len() {
                        JsonFieldView { key: fields@[i].key@, value: json_view(fields@[i].value) }
                    } else {
                        JsonFieldView { key: Seq::empty(), value: JsonView::Null }
                    },
            ),
        ),
    }
}

impl DeepView for Json {
    type V = JsonView;

    open spec fn deep_view(&self) -> JsonView {
        json_view(*self)
    }
}

impl DeepView for JsonField {
    type V = JsonFieldView;

    open spec fn deep_view(&self) -> JsonFieldView {
        JsonFieldView { key: self.key@, value: json_view(self.value) }
    }
}

fn copy_json(json: &Json) -> (copy: Json)
    ensures
        json_view(copy) == json_view(*json),
    decreases *json,
{
    match json {
        Json::Null => Json::Null,
        Json::Bool(b) => Json::Bool(*b),
        Json::Number(n) => Json::Number(n.dup()),
        Json::Text(s) => Json::Text(s.clone()),
        Json::Array(items) => {
            let mut out: Vec<Json> = Vec::new();
            let mut i: usize = 0;
            while i < items.len()
                invariant
                    i <= items@.len(),
                    *json == Json::Array(*items),
                    out@.len() == i,
                    forall|k: int|
                        0 <= k < i ==> json_view(#[trigger] out@[k]) == json_view(items@[k]),
                decreases items@.len() - i,
            {
                assert(decreases_to!(*json => json->Array_0@[i as int]));
                out.push(copy_json(&items[i]));
                i += 1;
            }
            let copy = Json::Array(out);
            assert(json_view(copy)->Array_0 =~= json_view(*json)->Array_0);
            copy
        },
        Json::Object(fields) => {
            let mut out: Vec<JsonField> = Vec::new();
            let mut i: usize = 0;
            while i < fields.len()
                invariant
                    i <= fields@.len(),
                    *json == Json::Object(*fields),
                    out@.len() == i,
                    forall|k: int|
                        0 <= k < i ==> (#[trigger] out@[k]).deep_view() == fields@[k].deep_view(),
                decreases fields@.len() - i,
            {
                assert(decreases_to!(*json => json->Object_0@[i as int].value));
                out.push(
                    JsonField { key: fields[i].key.clone(), value: copy_json(&fields[i].value) },
                );
                i += 1;
            }
            let copy = Json::Object(out);
            assert forall|k: int| 0 <= k < fields@.len() implies json_view(copy)->Object_0[k]
                == json_view(*json)->Object_0[k] by {
                assert(out@[k].deep_view() == fields@[k].deep_view());
            }
            assert(json_view(copy)->Object_0 =~= json_view(*json)->Object_0);
            copy
        },
    }
}

impl Dup for Json {
    fn dup(&self) -> (copy: Self) {
        copy_json(self)
    }
}

impl Dup for JsonField {
    fn dup(&self) -> (copy: Self) {
        JsonField { key: self.key.clone(), value: copy_json(&self.value) }
    }
}

/// A natural number as a JSON number.
pub open spec fn int_number(n: nat) -> JsonNumberView {
    JsonNumberView {
        text: crate::text::decimal(n),
        int: if n <= i64::MAX {
            Some(n as i64)
        } else {
            None
        },
        bits: None,
    }
}

impl Json {
    /// A JSON array.
    pub fn array(items: Vec<Json>) -> (json: Json)
        ensures
            json.deep_view() == JsonView::Array(items.deep_view()),
    {
        let json = Json::Array(items);
        assert(json_view(json)->Array_0 =~= items.deep_view());
        json
    }

    /// A JSON object.
    pub fn object(fields: Vec<JsonField>) -> (json: Json)
        ensures
            json.deep_view() == JsonView::Object(fields.deep_view()),
    {
        let json = Json::Object(fields);
        assert(json_view(json)->Object_0 =~= fields.deep_view());
        json
    }

    /// A JSON number that is an integer of the machine.
    pub fn integer(n: u64) -> (json: Json)
        ensures
            json.deep_view() == JsonView::Number(int_number(n as nat)),
    {
        let whole: Option<i64> = if n <= i64::MAX as u64 {
            Some(n as i64)
        } else {
            None
        };
        Json::Number(JsonNumber { text: crate::text::decimal_text(n), int: whole, bits: None })
    }
}

// ---------------------------------------------------------------------------
// Values of `serde_json`
// ---------------------------------------------------------------------------

/// The value of `serde_json`, as a type that signatures can carry.
#[verifier::external_type_specification]
#[verifier::external_body]
pub struct ExJsonValue(serde_json::Value);

/// What a value of `serde_json` holds.
pub uninterp spec fn value_json(value: serde_json::Value) -> JsonView;

/// An object with one more member: the members stand in the order of their
/// keys, and one with the same key is replaced.
pub open spec fn with_member(fields: Seq<JsonFieldView>, field: JsonFieldView) -> Seq<
    JsonFieldView,
>
    decreases fields.len(),
{
    if fields.len() == 0 || text_less(fields.last().key, field.key) {
        fields.push(field)
    } else if fields.last().key == field.key {
        fields.drop_last().push(field)
    } else {
        with_member(fields.drop_last(), field).push(fields.last())
    }
}

/// What an object keeps of members that are put into it one after another.
pub open spec fn object_fields(fields: Seq<JsonFieldView>) -> Seq<JsonFieldView>
    decreases fields.len(),
{
    if fields.len() == 0 {
        Seq::empty()
    } else {
        with_member(object_fields(fields.drop_last()), fields.last())
    }
}

/// The compact text that `serde_json` gives a value that holds so much.
pub uninterp spec fn value_text(held: JsonView) -> Seq<char>;

/// The parts that a value of `serde_json` other than an object is made of.
enum Parts {
    Null,
    Bool(bool),
    Text(String),
    Array(Vec<serde_json::Value>),
}

/// What a member of an object holds.
spec fn member_held(member: (String, serde_json::Value)) -> JsonFieldView {
    JsonFieldView { key: member.0@, value: value_json(member.1) }
}

/// What a value holds that is made of parts.
spec fn parts_held(parts: Parts) -> JsonView {
    match parts {
        Parts::Null => JsonView::Null,
        Parts::Bool(b) => JsonView::Bool(b),
        Parts::Text(s) => JsonView::Text(s@),
        Parts::Array(items) => JsonView::Array(
            items@.map_values(|v: serde_json::Value| value_json(v)),
        ),
    }
}

/// A value of `serde_json`, made of its parts.
///
/// Trusted: the variants of `serde_json::Value` hold what they are made of.
#[verifier::external_body]
fn make_value(parts: Parts) -> (value: serde_json::Value)
    ensures
        value_json(value) == parts_held(parts),
{
    match parts {
        Parts::Null => serde_json::Value::Null,
        Parts::Bool(b) => serde_json::Value::Bool(b),
        Parts::Text(s) => serde_json::Value::String(s),
        Parts::Array(items) => serde_json::Value::Array(items),
    }
}

/// An object of `serde_json`, made of its members.
///
/// Trusted: a `serde_json::Map` that collects the members keeps them in the
/// order of their keys, and of members with the same key the last.
#[verifier::external_body]
fn make_object(members: Vec<(String, serde_json::Value)>) -> (value: serde_json::Value)
    ensures
        value_json(value) == JsonView::Object(
            object_fields(members@.map_values(|m: (String, serde_json::Value)| member_held(m))),
        ),
{
    serde_json::Value::Object(members.into_iter().collect())
}

/// The value as compact JSON text.
///
/// Trusted: the `Display` text of `serde_json::Value` depends on what the value
/// holds alone, and is not empty.
#[verifier::external_body]
fn render_value(value: &serde_json::Value) -> (text: String)
    ensures
        text@ == value_text(value_json(*value)),
        text@.len() > 0,
{
    value.to_string()
}

/// The value that `serde_json` reads a text as.
pub uninterp spec fn json_of_text(text: Seq<char>) -> Option<JsonView>;

/// The value of a JSON text; `None` where it is not one.
///
/// Trusted: what `serde_json::from_str` reads as a `serde_json::Value` depends
/// on the text alone.
#[verifier::external_body]
fn read_value(text: &str) -> (value: Option<serde_json::Value>)
    ensures
        json_of_text(text@) == (match value {
            Some(value) => Some(value_json(value)),
            None => None,
        }),
{
    serde_json::from_str(text).ok()
}

/// What `serde_json` holds of a value. A number is what its text is read as;
/// an object keeps what `serde_json` keeps of its members.
pub open spec fn held(value: JsonView) -> JsonView
    decreases value,
{
    match value {
        JsonView::Number(n) => match json_of_text(n.text) {
            Some(number) => number,
            None => JsonView::Null,
        },
        JsonView::Array(items) => JsonView::Array(
            Seq::new(
                items.len(),
                |i: int|
                    if 0 <= i < items.len() {
                        held(items[i])
                    } else {
                        JsonView::Null
                    },
            ),
        ),
        JsonView::Object(fields) => JsonView::Object(object_fields(held_members(fields))),
        other => other,
    }
}

/// The members of an object with what `serde_json` holds of their values.
pub open spec fn held_members(fields: Seq<JsonFieldView>) -> Seq<JsonFieldView>
    decreases fields,
{
    Seq::new(
        fields.len(),
        |i: int|
            if 0 <= i < fields.len() {
                JsonFieldView { key: fields[i].key, value: held(fields[i].value) }
            } else {
                JsonFieldView { key: Seq::empty(), value: JsonView::Null }
            },
    )
}

/// The compact text that `serde_json` gives a value.
pub open spec fn json_text(value: JsonView) -> Seq<char> {
    value_text(held(value))
}

fn number_value(n: &JsonNumber) -> (value: serde_json::Value)
    ensures
        value_json(value) == held(JsonView::Number(n.deep_view())),
{
    match read_value(n.text.as_str()) {
        Some(value) => value,
        None => make_value(Parts::Null),
    }
}

fn to_value(json: &Json) -> (value: serde_json::Value)
    ensures
        value_json(value) == held(json_view(*json)),
    decreases *json,
{
    match json {
        Json::Null => make_value(Parts::Null),
        Json::Bool(b) => make_value(Parts::Bool(*b)),
        Json::Number(n) => number_value(n),
        Json::Text(s) => make_value(Parts::Text(s.clone())),
        Json::Array(items) => {
            let mut out: Vec<serde_json::Value> = Vec::new();
            let mut i: usize = 0;
            while i < items.len()
                invariant
                    i <= items@.len(),
                    *json == Json::Array(*items),
                    out@.len() == i,
                    forall|k: int|
                        0 <= k < i ==> value_json(#[trigger] out@[k]) == held(json_view(items@[k])),
                decreases items@.len() - i,
            {
                assert(decreases_to!(*json => json->Array_0@[i as int]));
                out.push(to_value(&items[i]));
                i += 1;
            }
            let ghost seen = out@.map_values(|v: serde_json::Value| value_json(v));
            let ghost given = json_view(*json)->Array_0;
            assert(held(JsonView::Array(given))->Array_0 =~= seen);
            assert(held(json_view(*json)) == JsonView::Array(seen));
            make_value(Parts::Array(out))
        },
        Json::Object(fields) => {
            let mut out: Vec<(String, serde_json::Value)> = Vec::new();
            let mut i: usize = 0;
            while i < fields.len()
                invariant
                    i <= fields@.len(),
                    *json == Json::Object(*fields),
                    out@.len() == i,
                    forall|k: int|
                        0 <= k < i ==> member_held(#[trigger] out@[k]) == (JsonFieldView {
                            key: fields@[k].key@,
                            value: held(json_view(fields@[k].value)),
                        }),
                decreases fields@.len() - i,
            {
                assert(decreases_to!(*json => json->Object_0@[i as int].value));
                out.push((fields[i].key.clone(), to_value(&fields[i].value)));
                i += 1;
            }
            let ghost seen = out@.map_values(|m: (String, serde_json::Value)| member_held(m));
            let ghost given = json_view(*json)->Object_0;
            assert(held_members(given) =~= seen);
            make_object(out)
        },
    }
}

impl Json {
    /// The value as compact JSON text.
    pub fn render(&self) -> (text: String)
        ensures
            text@ == json_text(self.deep_view()),
            text@.len() > 0,
    {
        render_value(&to_value(self))
    }

    /// The number of bytes of the compact JSON text.
    pub fn size(&self) -> (bytes: usize)
        ensures
            bytes == json_size(self.deep_view()),
    {
        let text = self.render();
        crate::text::size_of(text.as_str())
    }
}

/// The number of bytes of the compact JSON text of a value.
pub open spec fn json_size(value: JsonView) -> nat {
    utf8_size(json_text(value))
}

// ---------------------------------------------------------------------------
// Reading
// ---------------------------------------------------------------------------

impl Keyed for JsonField {
    open spec fn sort_key(value: JsonFieldView) -> Seq<char> {
        value.key
    }

    fn key_text(&self) -> (key: &str) {
        self.key.as_str()
    }
}

/// A member of an object; nothing where the value is not an object or lacks it.
pub open spec fn json_member(value: JsonView, key: Seq<char>) -> Option<JsonView> {
    match value {
        JsonView::Object(fields) => match lookup::<JsonField>(fields, key) {
            Some(f) => Some(f.value),
            None => None,
        },
        _ => None,
    }
}

/// A member that is a text.
pub open spec fn member_text(value: JsonView, key: Seq<char>) -> Option<Seq<char>> {
    match json_member(value, key) {
        Some(JsonView::Text(s)) => Some(s),
        _ => None,
    }
}

/// A member that is a list.
pub open spec fn member_items(value: JsonView, key: Seq<char>) -> Option<Seq<JsonView>> {
    match json_member(value, key) {
        Some(JsonView::Array(items)) => Some(items),
        _ => None,
    }
}

/// A member that is a truth value.
pub open spec fn member_bool(value: JsonView, key: Seq<char>) -> Option<bool> {
    match json_member(value, key) {
        Some(JsonView::Bool(b)) => Some(b),
        _ => None,
    }
}

/// A member that is a 64-bit integer.
pub open spec fn member_int(value: JsonView, key: Seq<char>) -> Option<i64> {
    match json_member(value, key) {
        Some(JsonView::Number(n)) => n.int,
        _ => None,
    }
}

impl Json {
    /// A member of an object.
    pub fn get(&self, key: &str) -> (value: Option<&Json>)
        ensures
            value.deep_view() == json_member(self.deep_view(), key@),
    {
        match self {
            Json::Object(fields) => {
                assert(self.deep_view()->Object_0 =~= fields.deep_view());
                match assoc::get(fields, key) {
                    Some(f) => Some(&f.value),
                    None => None,
                }
            },
            _ => None,
        }
    }

    /// A member that is a text.
    pub fn get_text(&self, key: &str) -> (text: Option<&String>)
        ensures
            text.deep_view() == member_text(self.deep_view(), key@),
    {
        match self.get(key) {
            Some(Json::Text(s)) => Some(s),
            _ => None,
        }
    }

    /// A member that is a list.
    pub fn get_items(&self, key: &str) -> (items: Option<&Vec<Json>>)
        ensures
            items.deep_view() == member_items(self.deep_view(), key@),
    {
        match self.get(key) {
            Some(member) => {
                match member {
                    Json::Array(items) => {
                        assert(member.deep_view()->Array_0 =~= items.deep_view());
                        Some(items)
                    },
                    _ => None,
                }
            },
            None => None,
        }
    }

    /// A member that is a truth value.
    pub fn get_bool(&self, key: &str) -> (b: Option<bool>)
        ensures
            b == member_bool(self.deep_view(), key@),
    {
        match self.get(key) {
            Some(Json::Bool(b)) => Some(*b),
            _ => None,
        }
    }

    /// A member that is a 64-bit integer.
    pub fn get_int(&self, key: &str) -> (n: Option<i64>)
        ensures
            n == member_int(self.deep_view(), key@),
    {
        match self.get(key) {
            Some(Json::Number(n)) => n.int,
            _ => None,
        }
    }
}

/// A value of `serde_json` that was opened: what it holds, one level of it.
enum Opened<'a> {
    Null,
    Bool(bool),
    Number(JsonNumber),
    Text(String),
    Array(&'a Vec<serde_json::Value>),
    Object(Vec<(&'a String, &'a serde_json::Value)>),
}

/// What a value holds that was opened.
spec fn opened_json(opened: Opened<'_>) -> JsonView {
    match opened {
        Opened::Null => JsonView::Null,
        Opened::Bool(b) => JsonView::Bool(b),
        Opened::Number(n) => JsonView::Number(n.deep_view()),
        Opened::Text(s) => JsonView::Text(s@),
        Opened::Array(items) => JsonView::Array(
            items@.map_values(|v: serde_json::Value| value_json(v)),
        ),
        Opened::Object(members) => JsonView::Object(
            members@.map_values(
                |m: (&String, &serde_json::Value)|
                    JsonFieldView { key: m.0@, value: value_json(*m.1) },
            ),
        ),
    }
}

/// Opens a value of `serde_json`, one variant for one.
///
/// Trusted: this is what [`value_json`] names; a number holds its `Display`
/// text and what `as_i64` and `as_f64` give, an object its members in the order
/// in which a `serde_json::Map` goes through them.
#[verifier::external_body]
fn open_value<'a>(value: &'a serde_json::Value) -> (opened: Opened<'a>)
    ensures
        opened_json(opened) == value_json(*value),
{
    match value {
        serde_json::Value::Null => Opened::Null,
        serde_json::Value::Bool(b) => Opened::Bool(*b),
        serde_json::Value::Number(n) => Opened::Number(
            JsonNumber {
                text: n.to_string(),
                int: n.as_i64(),
                bits: n.as_f64().map(|d| d.to_bits()),
            },
        ),
        serde_json::Value::String(s) => Opened::Text(s.clone()),
        serde_json::Value::Array(items) => Opened::Array(items),
        serde_json::Value::Object(map) => Opened::Object(map.iter().collect()),
    }
}

fn of_value(value: &serde_json::Value) -> (json: Json)
    ensures
        json_view(json) == value_json(*value),
    decreases value_json(*value),
{
    let ghost whole = value_json(*value);
    match open_value(value) {
        Opened::Null => Json::Null,
        Opened::Bool(b) => Json::Bool(b),
        Opened::Number(n) => Json::Number(n),
        Opened::Text(s) => Json::Text(s),
        Opened::Array(items) => {
            let mut out: Vec<Json> = Vec::new();
            let mut i: usize = 0;
            while i < items.len()
                invariant
                    i <= items@.len(),
                    whole == value_json(*value),
                    whole == JsonView::Array(
                        items@.map_values(|v: serde_json::Value| value_json(v)),
                    ),
                    out@.len() == i,
                    forall|k: int|
                        0 <= k < i ==> json_view(#[trigger] out@[k]) == value_json(items@[k]),
                decreases items@.len() - i,
            {
                assert(whole->Array_0[i as int] == value_json(items@[i as int]));
                assert(decreases_to!(whole => whole->Array_0[i as int]));
                out.push(of_value(&items[i]));
                i += 1;
            }
            let json = Json::Array(out);
            assert(json_view(json)->Array_0 =~= whole->Array_0);
            json
        },
        Opened::Object(members) => {
            let mut out: Vec<JsonField> = Vec::new();
            let mut i: usize = 0;
            while i < members.len()
                invariant
                    i <= members@.len(),
                    whole == value_json(*value),
                    whole is Object,
                    whole->Object_0.len() == members@.len(),
                    forall|k: int|
                        0 <= k < members@.len() ==> (#[trigger] whole->Object_0[k])
                            == (JsonFieldView {
                            key: members@[k].0@,
                            value: value_json(*members@[k].1),
                        }),
                    out@.len() == i,
                    forall|k: int|
                        0 <= k < i ==> (#[trigger] out@[k]).deep_view() == whole->Object_0[k],
                decreases members@.len() - i,
            {
                let member = &members[i];
                assert(whole->Object_0[i as int].value == value_json(*members@[i as int].1));
                assert(decreases_to!(whole => whole->Object_0[i as int].value));
                out.push(JsonField { key: member.0.clone(), value: of_value(member.1) });
                i += 1;
            }
            let json = Json::Object(out);
            assert forall|k: int| 0 <= k < out@.len() implies json_view(json)->Object_0[k]
                == whole->Object_0[k] by {
                assert(out@[k].deep_view() == whole->Object_0[k]);
            }
            assert(json_view(json)->Object_0 =~= whole->Object_0);
            json
        },
    }
}

impl Json {
    /// Reads a JSON text.
    pub fn parse(text: &str) -> (json: Option<Json>)
        ensures
            json.deep_view() == json_of_text(text@),
    {
        match read_value(text) {
            Some(value) => Some(of_value(&value)),
            None => None,
        }
    }
}

/// The JSON value that `toml` reads a text as.
pub uninterp spec fn json_of_toml(text: Seq<char>) -> Option<JsonView>;

/// The value of a TOML text; `None` where it is not one.
///
/// Trusted: what `toml::from_str` reads as a `serde_json::Value` depends on the
/// text alone.
#[verifier::external_body]
fn read_toml(text: &str) -> (value: Option<serde_json::Value>)
    ensures
        json_of_toml(text@) == (match value {
            Some(value) => Some(value_json(value)),
            None => None,
        }),
{
    toml::from_str(text).ok()
}

impl Json {
    /// Reads a TOML text.
    pub fn parse_toml(text: &str) -> (json: Option<Json>)
        ensures
            json.deep_view() == json_of_toml(text@),
    {
        match read_toml(text) {
            Some(value) => Some(of_value(&value)),
            None => None,
        }
    }
}

} // verus!
