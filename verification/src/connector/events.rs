//! The events that a Python connector writes, one JSON value a line.
//!
//! Every line is read twice: by its type and common fields, as an event of
//! this module, and as the JSON value that it is, for what only some
//! frameworks send.

use vstd::prelude::*;
use vstd::string::*;
use crate::dup::{push, Dup};
use crate::engine::model::{KeyText, KeyTextView};
use crate::json::{json_member, Json, JsonFieldView, JsonView};
use crate::text;
use crate::text::natural;

verus! {

/// An event of a Python connector.
#[allow(inconsistent_fields)]
#[derive(Debug, PartialEq, Eq)]
pub enum PythonEvent {
    BridgeReady,
    TestStart {
        test_name: String,
        phases: Vec<String>,
        identify: bool,
        auto_identify: bool,
        unit_kwargs: Vec<KeyText>,
    },
    TestEnd {
        outcome: String,
    },
    PhaseBegin {
        name: String,
    },
    PhaseEnd {
        name: String,
        outcome: String,
        retry_count: u64,
        start_time_millis: Option<i64>,
        end_time_millis: Option<i64>,
        error: Option<String>,
    },
    /// A prompt from the test itself.
    Prompt {
        prompt_id: String,
        phase_name: Option<String>,
        message: String,
        text_input: bool,
        image_url: Option<String>,
        /// Seconds, as the bit pattern of a double.
        timeout_s: Option<u64>,
    },
    Attachment {
        name: String,
        path: String,
        mimetype: String,
        /// Whether it was reported while its phase ran.
        live: bool,
        phase_name: Option<String>,
    },
    /// A measurement as it is recorded.
    Measurement {
        name: String,
        value: Json,
        phase_name: Option<String>,
        unit: Option<String>,
    },
    /// A log line as it is written.
    PhaseLog {
        level: String,
        message: String,
        timestamp: String,
        phase_name: Option<String>,
        file: Option<String>,
        line: Option<u32>,
    },
    Warning {
        message: String,
    },
    /// A type that this side does not know.
    Unknown,
}

/// View of [`PythonEvent`].
#[allow(inconsistent_fields)]
pub enum PythonEventView {
    BridgeReady,
    TestStart {
        test_name: Seq<char>,
        phases: Seq<Seq<char>>,
        identify: bool,
        auto_identify: bool,
        unit_kwargs: Seq<KeyTextView>,
    },
    TestEnd {
        outcome: Seq<char>,
    },
    PhaseBegin {
        name: Seq<char>,
    },
    PhaseEnd {
        name: Seq<char>,
        outcome: Seq<char>,
        retry_count: u64,
        start_time_millis: Option<i64>,
        end_time_millis: Option<i64>,
        error: Option<Seq<char>>,
    },
    Prompt {
        prompt_id: Seq<char>,
        phase_name: Option<Seq<char>>,
        message: Seq<char>,
        text_input: bool,
        image_url: Option<Seq<char>>,
        timeout_s: Option<u64>,
    },
    Attachment {
        name: Seq<char>,
        path: Seq<char>,
        mimetype: Seq<char>,
        live: bool,
        phase_name: Option<Seq<char>>,
    },
    Measurement {
        name: Seq<char>,
        value: JsonView,
        phase_name: Option<Seq<char>>,
        unit: Option<Seq<char>>,
    },
    PhaseLog {
        level: Seq<char>,
        message: Seq<char>,
        timestamp: Seq<char>,
        phase_name: Option<Seq<char>>,
        file: Option<Seq<char>>,
        line: Option<u32>,
    },
    Warning {
        message: Seq<char>,
    },
    Unknown,
}

impl DeepView for PythonEvent {
    type V = PythonEventView;

    open spec fn deep_view(&self) -> PythonEventView {
        match self {
            PythonEvent::BridgeReady => PythonEventView::BridgeReady,
            PythonEvent::TestStart {
                test_name,
                phases,
                identify,
                auto_identify,
                unit_kwargs,
            } => PythonEventView::TestStart {
                test_name: test_name.deep_view(),
                phases: phases.deep_view(),
                identify: identify.deep_view(),
                auto_identify: auto_identify.deep_view(),
                unit_kwargs: unit_kwargs.deep_view(),
            },
            PythonEvent::TestEnd { outcome } => PythonEventView::TestEnd {
                outcome: outcome.deep_view(),
            },
            PythonEvent::PhaseBegin { name } => PythonEventView::PhaseBegin {
                name: name.deep_view(),
            },
            PythonEvent::PhaseEnd {
                name,
                outcome,
                retry_count,
                start_time_millis,
                end_time_millis,
                error,
            } => PythonEventView::PhaseEnd {
                name: name.deep_view(),
                outcome: outcome.deep_view(),
                retry_count: retry_count.deep_view(),
                start_time_millis: start_time_millis.deep_view(),
                end_time_millis: end_time_millis.deep_view(),
                error: error.deep_view(),
            },
            PythonEvent::Prompt {
                prompt_id,
                phase_name,
                message,
                text_input,
                image_url,
                timeout_s,
            } => PythonEventView::Prompt {
                prompt_id: prompt_id.deep_view(),
                phase_name: phase_name.deep_view(),
                message: message.deep_view(),
                text_input: text_input.deep_view(),
                image_url: image_url.deep_view(),
                timeout_s: timeout_s.deep_view(),
            },
            PythonEvent::Attachment {
                name,
                path,
                mimetype,
                live,
                phase_name,
            } => PythonEventView::Attachment {
                name: name.deep_view(),
                path: path.deep_view(),
                mimetype: mimetype.deep_view(),
                live: live.deep_view(),
                phase_name: phase_name.deep_view(),
            },
            PythonEvent::Measurement {
                name,
                value,
                phase_name,
                unit,
            } => PythonEventView::Measurement {
                name: name.deep_view(),
                value: value.deep_view(),
                phase_name: phase_name.deep_view(),
                unit: unit.deep_view(),
            },
            PythonEvent::PhaseLog {
                level,
                message,
                timestamp,
                phase_name,
                file,
                line,
            } => PythonEventView::PhaseLog {
                level: level.deep_view(),
                message: message.deep_view(),
                timestamp: timestamp.deep_view(),
                phase_name: phase_name.deep_view(),
                file: file.deep_view(),
                line: line.deep_view(),
            },
            PythonEvent::Warning { message } => PythonEventView::Warning {
                message: message.deep_view(),
            },
            PythonEvent::Unknown => PythonEventView::Unknown,
        }
    }
}

/// The value of a flag that is on unless it is turned off.
pub fn default_true() -> (yes: bool)
    ensures
        yes,
{
    true
}

// ---------------------------------------------------------------------------
// Fields
// ---------------------------------------------------------------------------

/// A field of an event: by its name in an object, by its place in a list,
/// which starts with the type.
pub open spec fn part(v: JsonView, place: int, name: Seq<char>) -> Option<JsonView> {
    match v {
        JsonView::Object(_) => json_member(v, name),
        JsonView::Array(items) => if place < items.len() {
            Some(items[place])
        } else {
            None
        },
        _ => None,
    }
}

fn part_of<'a>(v: &'a Json, place: usize, name: &str) -> (field: Option<&'a Json>)
    ensures
        field.deep_view() == part(v.deep_view(), place as int, name@),
{
    match v {
        Json::Object(_) => v.get(name),
        Json::Array(items) => {
            assert(v.deep_view()->Array_0 =~= items.deep_view());
            if place < items.len() {
                Some(&items[place])
            } else {
                None
            }
        },
        _ => None,
    }
}

/// Whether an event in the form of a list has no more than so many fields.
pub open spec fn holds_at_most(v: JsonView, fields: nat) -> bool {
    match v {
        JsonView::Array(items) => items.len() <= fields + 1,
        _ => true,
    }
}

fn fits(v: &Json, fields: usize) -> (yes: bool)
    requires
        fields < 100,
    ensures
        yes == holds_at_most(v.deep_view(), fields as nat),
{
    match v {
        Json::Array(items) => items.len() <= fields + 1,
        _ => true,
    }
}

/// A text; empty where the field is missing.
pub open spec fn text_or_empty(field: Option<JsonView>) -> Option<Seq<char>> {
    match field {
        None => Some(Seq::empty()),
        Some(JsonView::Text(s)) => Some(s),
        _ => None,
    }
}

fn read_text(field: Option<&Json>) -> (out: Option<String>)
    ensures
        out.deep_view() == text_or_empty(field.deep_view()),
{
    match field {
        None => Some(String::new()),
        Some(Json::Text(s)) => Some(s.dup()),
        _ => None,
    }
}

/// A text; nothing where the field is missing or null.
pub open spec fn optional_text(field: Option<JsonView>) -> Option<Option<Seq<char>>> {
    match field {
        None => Some(None),
        Some(JsonView::Null) => Some(None),
        Some(JsonView::Text(s)) => Some(Some(s)),
        _ => None,
    }
}

fn read_optional_text(field: Option<&Json>) -> (out: Option<Option<String>>)
    ensures
        out.deep_view() == optional_text(field.deep_view()),
{
    match field {
        None => Some(None),
        Some(Json::Null) => Some(None),
        Some(Json::Text(s)) => Some(Some(s.dup())),
        _ => None,
    }
}

/// A truth value; the default where the field is missing.
pub open spec fn flag_or(field: Option<JsonView>, default: bool) -> Option<bool> {
    match field {
        None => Some(default),
        Some(JsonView::Bool(b)) => Some(b),
        _ => None,
    }
}

fn read_flag(field: Option<&Json>, default: bool) -> (out: Option<bool>)
    ensures
        out == flag_or(field.deep_view(), default),
{
    match field {
        None => Some(default),
        Some(Json::Bool(b)) => Some(*b),
        _ => None,
    }
}

/// A natural number; zero where the field is missing.
pub open spec fn count_or_zero(field: Option<JsonView>) -> Option<u64> {
    match field {
        None => Some(0),
        Some(JsonView::Number(n)) => natural(n.text),
        _ => None,
    }
}

fn read_count(field: Option<&Json>) -> (out: Option<u64>)
    ensures
        out == count_or_zero(field.deep_view()),
{
    match field {
        None => Some(0),
        Some(Json::Number(n)) => text::parse_natural(n.text.as_str()),
        _ => None,
    }
}

/// An integer; nothing where the field is missing or null.
pub open spec fn optional_int(field: Option<JsonView>) -> Option<Option<i64>> {
    match field {
        None => Some(None),
        Some(JsonView::Null) => Some(None),
        Some(JsonView::Number(n)) => match n.int {
            Some(i) => Some(Some(i)),
            None => None,
        },
        _ => None,
    }
}

fn read_optional_int(field: Option<&Json>) -> (out: Option<Option<i64>>)
    ensures
        out == optional_int(field.deep_view()),
{
    match field {
        None => Some(None),
        Some(Json::Null) => Some(None),
        Some(Json::Number(n)) => match n.int {
            Some(i) => Some(Some(i)),
            None => None,
        },
        _ => None,
    }
}

/// A line number; nothing where the field is missing or null.
pub open spec fn optional_line(field: Option<JsonView>) -> Option<Option<u32>> {
    match field {
        None => Some(None),
        Some(JsonView::Null) => Some(None),
        Some(JsonView::Number(n)) => match natural(n.text) {
            Some(line) => if line <= u32::MAX {
                Some(Some(line as u32))
            } else {
                None
            },
            None => None,
        },
        _ => None,
    }
}

fn read_optional_line(field: Option<&Json>) -> (out: Option<Option<u32>>)
    ensures
        out == optional_line(field.deep_view()),
{
    match field {
        None => Some(None),
        Some(Json::Null) => Some(None),
        Some(Json::Number(n)) => match text::parse_natural(n.text.as_str()) {
            Some(line) => if line <= u32::MAX as u64 {
                Some(Some(line as u32))
            } else {
                None
            },
            None => None,
        },
        _ => None,
    }
}

/// A number as a double; nothing where the field is missing or null.
pub open spec fn optional_double(field: Option<JsonView>) -> Option<Option<u64>> {
    match field {
        None => Some(None),
        Some(JsonView::Null) => Some(None),
        Some(JsonView::Number(n)) => match n.bits {
            Some(bits) => Some(Some(bits)),
            None => None,
        },
        _ => None,
    }
}

fn read_optional_double(field: Option<&Json>) -> (out: Option<Option<u64>>)
    ensures
        out == optional_double(field.deep_view()),
{
    match field {
        None => Some(None),
        Some(Json::Null) => Some(None),
        Some(Json::Number(n)) => match n.bits {
            Some(bits) => Some(Some(bits)),
            None => None,
        },
        _ => None,
    }
}

/// Any value; null where the field is missing.
pub open spec fn value_or_null(field: Option<JsonView>) -> Option<JsonView> {
    match field {
        None => Some(JsonView::Null),
        Some(v) => Some(v),
    }
}

fn read_any(field: Option<&Json>) -> (out: Option<Json>)
    ensures
        out.deep_view() == value_or_null(field.deep_view()),
{
    match field {
        None => Some(Json::Null),
        Some(v) => Some(v.dup()),
    }
}

/// The texts of a list, where it holds nothing else.
pub open spec fn all_texts(items: Seq<JsonView>) -> Option<Seq<Seq<char>>> {
    if forall|i: int| 0 <= i < items.len() ==> (#[trigger] items[i]) is Text {
        Some(items.map_values(|v: JsonView| v->Text_0))
    } else {
        None
    }
}

/// A list of texts; empty where the field is missing.
pub open spec fn texts_or_none(field: Option<JsonView>) -> Option<Seq<Seq<char>>> {
    match field {
        None => Some(Seq::empty()),
        Some(JsonView::Array(items)) => all_texts(items),
        _ => None,
    }
}

fn read_texts(field: Option<&Json>) -> (out: Option<Vec<String>>)
    ensures
        out.deep_view() == texts_or_none(field.deep_view()),
{
    let mut out: Vec<String> = Vec::new();
    match field {
        None => {
            assert(out.deep_view() =~= Seq::empty());
            Some(out)
        },
        Some(value) => match value {
            Json::Array(items) => {
                let ghost seen = value.deep_view()->Array_0;
                assert(seen =~= items.deep_view());
                let mut i: usize = 0;
                while i < items.len()
                    invariant
                        i <= items@.len(),
                        seen == items.deep_view(),
                        field.deep_view() == Some(JsonView::Array(seen)),
                        out@.len() == i,
                        forall|k: int| 0 <= k < i ==> (#[trigger] seen[k]) is Text,
                        forall|k: int| 0 <= k < i ==> (#[trigger] out@[k])@ == seen[k]->Text_0,
                    decreases items@.len() - i,
                {
                    assert(seen[i as int] == items@[i as int].deep_view());
                    match &items[i] {
                        Json::Text(s) => {
                            out.push(s.dup());
                        },
                        _ => {
                            assert(!(seen[i as int] is Text));
                            return None;
                        },
                    }
                    i += 1;
                }
                assert(out.deep_view() =~= seen.map_values(|v: JsonView| v->Text_0));
                Some(out)
            },
            _ => None,
        },
    }
}

/// The pairs of an object, where all its members are texts.
pub open spec fn all_pairs(fields: Seq<JsonFieldView>) -> Option<Seq<KeyTextView>> {
    if forall|i: int| 0 <= i < fields.len() ==> (#[trigger] fields[i]).value is Text {
        Some(
            fields.map_values(
                |f: JsonFieldView| KeyTextView { key: f.key, text: f.value->Text_0 },
            ),
        )
    } else {
        None
    }
}

/// Texts by their keys; none where the field is missing.
pub open spec fn pairs_or_none(field: Option<JsonView>) -> Option<Seq<KeyTextView>> {
    match field {
        None => Some(Seq::empty()),
        Some(JsonView::Object(fields)) => all_pairs(fields),
        _ => None,
    }
}

fn read_pairs(field: Option<&Json>) -> (out: Option<Vec<KeyText>>)
    ensures
        out.deep_view() == pairs_or_none(field.deep_view()),
{
    let mut out: Vec<KeyText> = Vec::new();
    match field {
        None => {
            assert(out.deep_view() =~= Seq::empty());
            Some(out)
        },
        Some(value) => match value {
            Json::Object(fields) => {
                let ghost seen = value.deep_view()->Object_0;
                assert(seen =~= fields.deep_view());
                let mut i: usize = 0;
                while i < fields.len()
                    invariant
                        i <= fields@.len(),
                        seen == fields.deep_view(),
                        field.deep_view() == Some(JsonView::Object(seen)),
                        out@.len() == i,
                        forall|k: int| 0 <= k < i ==> (#[trigger] seen[k]).value is Text,
                        forall|k: int|
                            0 <= k < i ==> (#[trigger] out@[k]).deep_view() == (KeyTextView {
                                key: seen[k].key,
                                text: seen[k].value->Text_0,
                            }),
                    decreases fields@.len() - i,
                {
                    assert(seen[i as int] == fields@[i as int].deep_view());
                    match &fields[i].value {
                        Json::Text(s) => {
                            out.push(KeyText { key: fields[i].key.dup(), text: s.dup() });
                        },
                        _ => {
                            assert(!(seen[i as int].value is Text));
                            return None;
                        },
                    }
                    i += 1;
                }
                assert(out.deep_view() =~= seen.map_values(
                    |f: JsonFieldView| KeyTextView { key: f.key, text: f.value->Text_0 },
                ));
                Some(out)
            },
            _ => None,
        },
    }
}

// ---------------------------------------------------------------------------
// Events
// ---------------------------------------------------------------------------

/// Reads the fields of a `test_start` event.
pub open spec fn test_start_of(v: JsonView) -> Option<PythonEventView> {
    match (
        text_or_empty(part(v, 1, "test_name"@)),
        texts_or_none(part(v, 2, "phases"@)),
        flag_or(part(v, 3, "identify"@), true),
        flag_or(part(v, 4, "auto_identify"@), false),
        pairs_or_none(part(v, 5, "unit_kwargs"@)),
    ) {
        (
            Some(test_name),
            Some(phases),
            Some(identify),
            Some(auto_identify),
            Some(unit_kwargs),
        ) => if holds_at_most(v, 5) {
            Some(
                PythonEventView::TestStart {
                    test_name,
                    phases,
                    identify,
                    auto_identify,
                    unit_kwargs,
                },
            )
        } else {
            None
        },
        _ => None,
    }
}

fn read_test_start(v: &Json) -> (event: Option<PythonEvent>)
    ensures
        event.deep_view() == test_start_of(v.deep_view()),
{
    if !fits(v, 5) {
        return None;
    }
    let test_name = read_text(part_of(v, 1, "test_name"))?;
    let phases = read_texts(part_of(v, 2, "phases"))?;
    let identify: bool = read_flag(part_of(v, 3, "identify"), default_true())?;
    let auto_identify: bool = read_flag(part_of(v, 4, "auto_identify"), false)?;
    let unit_kwargs = read_pairs(part_of(v, 5, "unit_kwargs"))?;
    Some(
        PythonEvent::TestStart {
            test_name,
            phases,
            identify,
            auto_identify,
            unit_kwargs,
        },
    )
}

/// Reads the fields of a `test_end` event.
pub open spec fn test_end_of(v: JsonView) -> Option<PythonEventView> {
    match (
        text_or_empty(part(v, 1, "outcome"@)),
    ) {
        (Some(outcome),) => if holds_at_most(v, 1) {
            Some(
                PythonEventView::TestEnd {
                    outcome,
                },
            )
        } else {
            None
        },
        _ => None,
    }
}

fn read_test_end(v: &Json) -> (event: Option<PythonEvent>)
    ensures
        event.deep_view() == test_end_of(v.deep_view()),
{
    if !fits(v, 1) {
        return None;
    }
    let outcome = read_text(part_of(v, 1, "outcome"))?;
    Some(
        PythonEvent::TestEnd {
            outcome,
        },
    )
}

/// Reads the fields of a `phase_begin` event.
pub open spec fn phase_begin_of(v: JsonView) -> Option<PythonEventView> {
    match (
        text_or_empty(part(v, 1, "name"@)),
    ) {
        (Some(name),) => if holds_at_most(v, 1) {
            Some(
                PythonEventView::PhaseBegin {
                    name,
                },
            )
        } else {
            None
        },
        _ => None,
    }
}

fn read_phase_begin(v: &Json) -> (event: Option<PythonEvent>)
    ensures
        event.deep_view() == phase_begin_of(v.deep_view()),
{
    if !fits(v, 1) {
        return None;
    }
    let name = read_text(part_of(v, 1, "name"))?;
    Some(
        PythonEvent::PhaseBegin {
            name,
        },
    )
}

/// Reads the fields of a `phase_end` event.
pub open spec fn phase_end_of(v: JsonView) -> Option<PythonEventView> {
    match (
        text_or_empty(part(v, 1, "name"@)),
        text_or_empty(part(v, 2, "outcome"@)),
        count_or_zero(part(v, 3, "retry_count"@)),
        optional_int(part(v, 4, "start_time_millis"@)),
        optional_int(part(v, 5, "end_time_millis"@)),
        optional_text(part(v, 6, "error"@)),
    ) {
        (
            Some(name),
            Some(outcome),
            Some(retry_count),
            Some(start_time_millis),
            Some(end_time_millis),
            Some(error),
        ) => if holds_at_most(v, 6) {
            Some(
                PythonEventView::PhaseEnd {
                    name,
                    outcome,
                    retry_count,
                    start_time_millis,
                    end_time_millis,
                    error,
                },
            )
        } else {
            None
        },
        _ => None,
    }
}

fn read_phase_end(v: &Json) -> (event: Option<PythonEvent>)
    ensures
        event.deep_view() == phase_end_of(v.deep_view()),
{
    if !fits(v, 6) {
        return None;
    }
    let name = read_text(part_of(v, 1, "name"))?;
    let outcome = read_text(part_of(v, 2, "outcome"))?;
    let retry_count: u64 = read_count(part_of(v, 3, "retry_count"))?;
    let start_time_millis: Option<i64> = read_optional_int(part_of(v, 4, "start_time_millis"))?;
    let end_time_millis: Option<i64> = read_optional_int(part_of(v, 5, "end_time_millis"))?;
    let error = read_optional_text(part_of(v, 6, "error"))?;
    Some(
        PythonEvent::PhaseEnd {
            name,
            outcome,
            retry_count,
            start_time_millis,
            end_time_millis,
            error,
        },
    )
}

/// Reads the fields of a `prompt` event.
pub open spec fn prompt_of(v: JsonView) -> Option<PythonEventView> {
    match (
        text_or_empty(part(v, 1, "prompt_id"@)),
        optional_text(part(v, 2, "phase_name"@)),
        text_or_empty(part(v, 3, "message"@)),
        flag_or(part(v, 4, "text_input"@), false),
        optional_text(part(v, 5, "image_url"@)),
        optional_double(part(v, 6, "timeout_s"@)),
    ) {
        (
            Some(prompt_id),
            Some(phase_name),
            Some(message),
            Some(text_input),
            Some(image_url),
            Some(timeout_s),
        ) => if holds_at_most(v, 6) {
            Some(
                PythonEventView::Prompt {
                    prompt_id,
                    phase_name,
                    message,
                    text_input,
                    image_url,
                    timeout_s,
                },
            )
        } else {
            None
        },
        _ => None,
    }
}

fn read_prompt(v: &Json) -> (event: Option<PythonEvent>)
    ensures
        event.deep_view() == prompt_of(v.deep_view()),
{
    if !fits(v, 6) {
        return None;
    }
    let prompt_id = read_text(part_of(v, 1, "prompt_id"))?;
    let phase_name = read_optional_text(part_of(v, 2, "phase_name"))?;
    let message = read_text(part_of(v, 3, "message"))?;
    let text_input: bool = read_flag(part_of(v, 4, "text_input"), false)?;
    let image_url = read_optional_text(part_of(v, 5, "image_url"))?;
    let timeout_s: Option<u64> = read_optional_double(part_of(v, 6, "timeout_s"))?;
    Some(
        PythonEvent::Prompt {
            prompt_id,
            phase_name,
            message,
            text_input,
            image_url,
            timeout_s,
        },
    )
}

/// Reads the fields of a `attachment` event.
pub open spec fn attachment_of(v: JsonView) -> Option<PythonEventView> {
    match (
        text_or_empty(part(v, 1, "name"@)),
        text_or_empty(part(v, 2, "path"@)),
        text_or_empty(part(v, 3, "mimetype"@)),
        flag_or(part(v, 4, "live"@), false),
        optional_text(part(v, 5, "phase_name"@)),
    ) {
        (
            Some(name),
            Some(path),
            Some(mimetype),
            Some(live),
            Some(phase_name),
        ) => if holds_at_most(v, 5) {
            Some(
                PythonEventView::Attachment {
                    name,
                    path,
                    mimetype,
                    live,
                    phase_name,
                },
            )
        } else {
            None
        },
        _ => None,
    }
}

fn read_attachment(v: &Json) -> (event: Option<PythonEvent>)
    ensures
        event.deep_view() == attachment_of(v.deep_view()),
{
    if !fits(v, 5) {
        return None;
    }
    let name = read_text(part_of(v, 1, "name"))?;
    let path = read_text(part_of(v, 2, "path"))?;
    let mimetype = read_text(part_of(v, 3, "mimetype"))?;
    let live: bool = read_flag(part_of(v, 4, "live"), false)?;
    let phase_name = read_optional_text(part_of(v, 5, "phase_name"))?;
    Some(
        PythonEvent::Attachment {
            name,
            path,
            mimetype,
            live,
            phase_name,
        },
    )
}

/// Reads the fields of a `measurement` event.
pub open spec fn measurement_of(v: JsonView) -> Option<PythonEventView> {
    match (
        text_or_empty(part(v, 1, "name"@)),
        value_or_null(part(v, 2, "value"@)),
        optional_text(part(v, 3, "phase_name"@)),
        optional_text(part(v, 4, "unit"@)),
    ) {
        (Some(name), Some(value), Some(phase_name), Some(unit)) => if holds_at_most(v, 4) {
            Some(
                PythonEventView::Measurement {
                    name,
                    value,
                    phase_name,
                    unit,
                },
            )
        } else {
            None
        },
        _ => None,
    }
}

fn read_measurement(v: &Json) -> (event: Option<PythonEvent>)
    ensures
        event.deep_view() == measurement_of(v.deep_view()),
{
    if !fits(v, 4) {
        return None;
    }
    let name = read_text(part_of(v, 1, "name"))?;
    let value = read_any(part_of(v, 2, "value"))?;
    let phase_name = read_optional_text(part_of(v, 3, "phase_name"))?;
    let unit = read_optional_text(part_of(v, 4, "unit"))?;
    Some(
        PythonEvent::Measurement {
            name,
            value,
            phase_name,
            unit,
        },
    )
}

/// Reads the fields of a `phase_log` event.
pub open spec fn phase_log_of(v: JsonView) -> Option<PythonEventView> {
    match (
        text_or_empty(part(v, 1, "level"@)),
        text_or_empty(part(v, 2, "message"@)),
        text_or_empty(part(v, 3, "timestamp"@)),
        optional_text(part(v, 4, "phase_name"@)),
        optional_text(part(v, 5, "file"@)),
        optional_line(part(v, 6, "line"@)),
    ) {
        (
            Some(level),
            Some(message),
            Some(timestamp),
            Some(phase_name),
            Some(file),
            Some(line),
        ) => if holds_at_most(v, 6) {
            Some(
                PythonEventView::PhaseLog {
                    level,
                    message,
                    timestamp,
                    phase_name,
                    file,
                    line,
                },
            )
        } else {
            None
        },
        _ => None,
    }
}

fn read_phase_log(v: &Json) -> (event: Option<PythonEvent>)
    ensures
        event.deep_view() == phase_log_of(v.deep_view()),
{
    if !fits(v, 6) {
        return None;
    }
    let level = read_text(part_of(v, 1, "level"))?;
    let message = read_text(part_of(v, 2, "message"))?;
    let timestamp = read_text(part_of(v, 3, "timestamp"))?;
    let phase_name = read_optional_text(part_of(v, 4, "phase_name"))?;
    let file = read_optional_text(part_of(v, 5, "file"))?;
    let line: Option<u32> = read_optional_line(part_of(v, 6, "line"))?;
    Some(
        PythonEvent::PhaseLog {
            level,
            message,
            timestamp,
            phase_name,
            file,
            line,
        },
    )
}

/// Reads the fields of a `warning` event.
pub open spec fn warning_of(v: JsonView) -> Option<PythonEventView> {
    match (
        text_or_empty(part(v, 1, "message"@)),
    ) {
        (Some(message),) => if holds_at_most(v, 1) {
            Some(
                PythonEventView::Warning {
                    message,
                },
            )
        } else {
            None
        },
        _ => None,
    }
}

fn read_warning(v: &Json) -> (event: Option<PythonEvent>)
    ensures
        event.deep_view() == warning_of(v.deep_view()),
{
    if !fits(v, 1) {
        return None;
    }
    let message = read_text(part_of(v, 1, "message"))?;
    Some(
        PythonEvent::Warning {
            message,
        },
    )
}

/// An event without fields: a list holds nothing behind its type.
pub open spec fn bare_event(v: JsonView, event: PythonEventView) -> Option<PythonEventView> {
    if holds_at_most(v, 0) {
        Some(event)
    } else {
        None
    }
}

fn read_bare(v: &Json, event: PythonEvent) -> (out: Option<PythonEvent>)
    ensures
        out.deep_view() == bare_event(v.deep_view(), event.deep_view()),
{
    if fits(v, 0) {
        Some(event)
    } else {
        None
    }
}

/// The type of an event.
pub open spec fn event_type(v: JsonView) -> Option<Seq<char>> {
    match part(v, 0, "type"@) {
        Some(JsonView::Text(s)) => Some(s),
        _ => None,
    }
}

/// The event that a JSON value stands for; `None` where it has no type, a
/// field is not of its kind, or a list holds more than the event has.
pub open spec fn event_of(v: JsonView) -> Option<PythonEventView> {
    match event_type(v) {
        Some(kind) => if kind == "bridge_ready"@ {
            bare_event(v, PythonEventView::BridgeReady)
        } else if kind == "test_start"@ {
            test_start_of(v)
        } else if kind == "test_end"@ {
            test_end_of(v)
        } else if kind == "phase_begin"@ {
            phase_begin_of(v)
        } else if kind == "phase_end"@ {
            phase_end_of(v)
        } else if kind == "prompt"@ {
            prompt_of(v)
        } else if kind == "attachment"@ {
            attachment_of(v)
        } else if kind == "measurement"@ {
            measurement_of(v)
        } else if kind == "phase_log"@ {
            phase_log_of(v)
        } else if kind == "warning"@ {
            warning_of(v)
        } else {
            bare_event(v, PythonEventView::Unknown)
        },
        None => None,
    }
}

impl PythonEvent {
    /// Reads the event that a JSON value stands for.
    pub fn from_value(v: &Json) -> (event: Option<PythonEvent>)
        ensures
            event.deep_view() == event_of(v.deep_view()),
    {
        let kind = match part_of(v, 0, "type") {
            Some(Json::Text(kind)) => kind.as_str(),
            _ => {
                return None;
            },
        };
        if text::same(kind, "bridge_ready") {
            read_bare(v, PythonEvent::BridgeReady)
        } else if text::same(kind, "test_start") {
            read_test_start(v)
        } else if text::same(kind, "test_end") {
            read_test_end(v)
        } else if text::same(kind, "phase_begin") {
            read_phase_begin(v)
        } else if text::same(kind, "phase_end") {
            read_phase_end(v)
        } else if text::same(kind, "prompt") {
            read_prompt(v)
        } else if text::same(kind, "attachment") {
            read_attachment(v)
        } else if text::same(kind, "measurement") {
            read_measurement(v)
        } else if text::same(kind, "phase_log") {
            read_phase_log(v)
        } else if text::same(kind, "warning") {
            read_warning(v)
        } else {
            read_bare(v, PythonEvent::Unknown)
        }
    }
}

} // verus!
