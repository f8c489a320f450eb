//! How the events of a connector are read: by the names of their fields where
//! an event is an object, by their places where it is a list.

use vstd::prelude::*;
use crate::connector::events::{event_of, part, PythonEventView};
use crate::engine::model::KeyTextView;
use crate::json::{json_member, JsonFieldView, JsonView};
use crate::text::natural;

verus! {

/// A field of an object is found by its name, one of a list by its place;
/// nothing else has fields.
pub proof fn law_fields_by_name_or_place(v: JsonView, place: int, name: Seq<char>)
    ensures
        v is Object ==> part(v, place, name) == json_member(v, name),
        v matches JsonView::Array(items) ==> (0 <= place < items.len() ==> part(v, place, name)
            == Some(items[place])) && (place >= items.len() ==> part(v, place, name) is None),
        !(v is Object) && !(v is Array) ==> part(v, place, name) is None,
{
}

/// Whether an event is of a type, and has no more than so many fields where it
/// is a list.
pub open spec fn is_event(v: JsonView, kind: Seq<char>, fields: nat) -> bool {
    &&& part(v, 0, "type"@) == Some(JsonView::Text(kind))
    &&& v matches JsonView::Array(items) ==> items.len() <= fields + 1
}

/// Whether a text is read from a field; an empty one from a missing field.
pub open spec fn reads_text(told: Seq<char>, field: Option<JsonView>) -> bool {
    match field {
        None => told.len() == 0,
        Some(JsonView::Text(s)) => told == s,
        _ => false,
    }
}

/// Whether an optional text is read from a field; none from one that is missing
/// or null.
pub open spec fn reads_optional(told: Option<Seq<char>>, field: Option<JsonView>) -> bool {
    match field {
        None => told is None,
        Some(JsonView::Null) => told is None,
        Some(JsonView::Text(s)) => told == Some(s),
        _ => false,
    }
}

/// Whether a truth value is read from a field; a default from a missing one.
pub open spec fn reads_flag(told: bool, field: Option<JsonView>, default: bool) -> bool {
    match field {
        None => told == default,
        Some(JsonView::Bool(b)) => told == b,
        _ => false,
    }
}

/// Whether a count is read from a field; zero from a missing one.
pub open spec fn reads_count(told: u64, field: Option<JsonView>) -> bool {
    match field {
        None => told == 0,
        Some(JsonView::Number(n)) => natural(n.text) == Some(told),
        _ => false,
    }
}

/// Whether an integer is read from a field; none from one that is missing or
/// null.
pub open spec fn reads_int(told: Option<i64>, field: Option<JsonView>) -> bool {
    match field {
        None => told is None,
        Some(JsonView::Null) => told is None,
        Some(JsonView::Number(n)) => n.int is Some && told == n.int,
        _ => false,
    }
}

/// Whether a line number is read from a field; none from one that is missing or
/// null.
pub open spec fn reads_line(told: Option<u32>, field: Option<JsonView>) -> bool {
    match field {
        None => told is None,
        Some(JsonView::Null) => told is None,
        Some(JsonView::Number(n)) => told is Some && natural(n.text) is Some && natural(n.text)->0
            == told->0,
        _ => false,
    }
}

/// Whether a double is read from a field; none from one that is missing or
/// null.
pub open spec fn reads_double(told: Option<u64>, field: Option<JsonView>) -> bool {
    match field {
        None => told is None,
        Some(JsonView::Null) => told is None,
        Some(JsonView::Number(n)) => n.bits is Some && told == n.bits,
        _ => false,
    }
}

/// Whether a value is read from a field; null from a missing one.
pub open spec fn reads_value(told: JsonView, field: Option<JsonView>) -> bool {
    match field {
        None => told is Null,
        Some(v) => told == v,
    }
}

/// Whether texts are read from a field that is a list of texts; none from a
/// missing one.
pub open spec fn reads_texts(told: Seq<Seq<char>>, field: Option<JsonView>) -> bool {
    match field {
        None => told.len() == 0,
        Some(JsonView::Array(items)) => told.len() == items.len() && forall|i: int|
            0 <= i < items.len() ==> #[trigger] items[i] == JsonView::Text(told[i]),
        _ => false,
    }
}

/// Whether texts by their keys are read from a field that is an object of
/// texts; none from a missing one.
pub open spec fn reads_pairs(told: Seq<KeyTextView>, field: Option<JsonView>) -> bool {
    match field {
        None => told.len() == 0,
        Some(JsonView::Object(fields)) => told.len() == fields.len() && forall|i: int|
            0 <= i < fields.len() ==> (#[trigger] fields[i]).key == told[i].key && fields[i].value
                == JsonView::Text(told[i].text),
        _ => false,
    }
}

proof fn lemma_kinds()
    ensures
        "bridge_ready"@.len() == 12,
        "test_start"@.len() == 10,
        "test_end"@.len() == 8,
        "phase_begin"@.len() == 11,
        "phase_end"@.len() == 9,
        "prompt"@.len() == 6,
        "attachment"@.len() == 10,
        "measurement"@.len() == 11,
        "phase_log"@.len() == 9,
        "warning"@.len() == 7,
        "test_start"@ != "attachment"@,
        "phase_begin"@ != "measurement"@,
        "phase_end"@ != "phase_log"@,
{
    reveal_strlit("bridge_ready");
    reveal_strlit("test_start");
    reveal_strlit("test_end");
    reveal_strlit("phase_begin");
    reveal_strlit("phase_end");
    reveal_strlit("prompt");
    reveal_strlit("attachment");
    reveal_strlit("measurement");
    reveal_strlit("phase_log");
    reveal_strlit("warning");
    assert("test_start"@[0] == 't' && "attachment"@[0] == 'a');
    assert("phase_begin"@[0] == 'p' && "measurement"@[0] == 'm');
    assert("phase_end"@[6] == 'e' && "phase_log"@[6] == 'l');
}

proof fn lemma_empty_text(s: Seq<char>)
    ensures
        s.len() == 0 ==> s == Seq::<char>::empty(),
{
    if s.len() == 0 {
        assert(s =~= Seq::<char>::empty());
    }
}

proof fn lemma_texts(told: Seq<Seq<char>>, field: Option<JsonView>)
    ensures
        crate::connector::events::texts_or_none(field) == Some(told) <==> reads_texts(told, field),
{
    match field {
        None => {
            if told.len() == 0 {
                assert(told =~= Seq::<Seq<char>>::empty());
            }
        },
        Some(JsonView::Array(items)) => {
            if reads_texts(told, field) {
                assert forall|i: int| 0 <= i < items.len() implies (#[trigger] items[i]) is Text by {}
                assert(items.map_values(|v: JsonView| v->Text_0) =~= told);
            }
        },
        _ => {},
    }
}

proof fn lemma_pairs(told: Seq<KeyTextView>, field: Option<JsonView>)
    ensures
        crate::connector::events::pairs_or_none(field) == Some(told) <==> reads_pairs(told, field),
{
    match field {
        None => {
            if told.len() == 0 {
                assert(told =~= Seq::<KeyTextView>::empty());
            }
        },
        Some(JsonView::Object(fields)) => {
            if reads_pairs(told, field) {
                assert forall|i: int| 0 <= i < fields.len() implies (#[trigger] fields[i]).value
                    is Text by {}
                assert(fields.map_values(
                    |f: JsonFieldView| KeyTextView { key: f.key, text: f.value->Text_0 },
                ) =~= told);
            }
            if crate::connector::events::pairs_or_none(field) == Some(told) {
                assert forall|i: int| 0 <= i < fields.len() implies (#[trigger] fields[i]).key
                    == told[i].key && fields[i].value == JsonView::Text(told[i].text) by {
                    assert(fields[i].value is Text);
                }
            }
        },
        _ => {},
    }
}

/// The start of a test is read with its name, its phases, whether its unit is
/// identified (which it is by default), whether by itself (which it is not),
/// and its keywords.
pub proof fn law_test_starts_are_read(
    v: JsonView,
    test_name: Seq<char>,
    phases: Seq<Seq<char>>,
    identify: bool,
    auto_identify: bool,
    unit_kwargs: Seq<KeyTextView>,
)
    ensures
        event_of(v) == Some(
            PythonEventView::TestStart { test_name, phases, identify, auto_identify, unit_kwargs },
        ) <==> (is_event(v, "test_start"@, 5) && reads_text(test_name, part(v, 1, "test_name"@))
            && reads_texts(phases, part(v, 2, "phases"@)) && reads_flag(
            identify,
            part(v, 3, "identify"@),
            true,
        ) && reads_flag(auto_identify, part(v, 4, "auto_identify"@), false) && reads_pairs(
            unit_kwargs,
            part(v, 5, "unit_kwargs"@),
        )),
{
    lemma_kinds();
    lemma_empty_text(test_name);
    lemma_texts(phases, part(v, 2, "phases"@));
    lemma_pairs(unit_kwargs, part(v, 5, "unit_kwargs"@));
}

/// The end of a test is read with its outcome.
pub proof fn law_test_ends_are_read(v: JsonView, outcome: Seq<char>)
    ensures
        event_of(v) == Some(PythonEventView::TestEnd { outcome }) <==> (is_event(
            v,
            "test_end"@,
            1,
        ) && reads_text(outcome, part(v, 1, "outcome"@))),
{
    lemma_kinds();
    lemma_empty_text(outcome);
}

/// The start of a phase is read with its name.
pub proof fn law_phase_starts_are_read(v: JsonView, name: Seq<char>)
    ensures
        event_of(v) == Some(PythonEventView::PhaseBegin { name }) <==> (is_event(
            v,
            "phase_begin"@,
            1,
        ) && reads_text(name, part(v, 1, "name"@))),
{
    lemma_kinds();
    lemma_empty_text(name);
}

/// The end of a phase is read with its name, its outcome, its retries, its
/// times and its error.
pub proof fn law_phase_ends_are_read(
    v: JsonView,
    name: Seq<char>,
    outcome: Seq<char>,
    retry_count: u64,
    start_time_millis: Option<i64>,
    end_time_millis: Option<i64>,
    error: Option<Seq<char>>,
)
    ensures
        event_of(v) == Some(
            PythonEventView::PhaseEnd {
                name,
                outcome,
                retry_count,
                start_time_millis,
                end_time_millis,
                error,
            },
        ) <==> (is_event(v, "phase_end"@, 6) && reads_text(name, part(v, 1, "name"@))
            && reads_text(outcome, part(v, 2, "outcome"@)) && reads_count(
            retry_count,
            part(v, 3, "retry_count"@),
        ) && reads_int(start_time_millis, part(v, 4, "start_time_millis"@)) && reads_int(
            end_time_millis,
            part(v, 5, "end_time_millis"@),
        ) && reads_optional(error, part(v, 6, "error"@))),
{
    lemma_kinds();
    lemma_empty_text(name);
    lemma_empty_text(outcome);
}

/// A prompt is read with its identity, its phase, its message, whether it asks
/// for a text (which it does not by default), its image and its time.
pub proof fn law_prompts_are_read(
    v: JsonView,
    prompt_id: Seq<char>,
    phase_name: Option<Seq<char>>,
    message: Seq<char>,
    text_input: bool,
    image_url: Option<Seq<char>>,
    timeout_s: Option<u64>,
)
    ensures
        event_of(v) == Some(
            PythonEventView::Prompt {
                prompt_id,
                phase_name,
                message,
                text_input,
                image_url,
                timeout_s,
            },
        ) <==> (is_event(v, "prompt"@, 6) && reads_text(prompt_id, part(v, 1, "prompt_id"@))
            && reads_optional(phase_name, part(v, 2, "phase_name"@)) && reads_text(
            message,
            part(v, 3, "message"@),
        ) && reads_flag(text_input, part(v, 4, "text_input"@), false) && reads_optional(
            image_url,
            part(v, 5, "image_url"@),
        ) && reads_double(timeout_s, part(v, 6, "timeout_s"@))),
{
    lemma_kinds();
    lemma_empty_text(prompt_id);
    lemma_empty_text(message);
}

/// An attached file is read with its name, its path, its media type, whether
/// its phase still runs (which it does not by default), and its phase.
pub proof fn law_attachments_are_read(
    v: JsonView,
    name: Seq<char>,
    path: Seq<char>,
    mimetype: Seq<char>,
    live: bool,
    phase_name: Option<Seq<char>>,
)
    ensures
        event_of(v) == Some(
            PythonEventView::Attachment { name, path, mimetype, live, phase_name },
        ) <==> (is_event(v, "attachment"@, 5) && reads_text(name, part(v, 1, "name"@))
            && reads_text(path, part(v, 2, "path"@)) && reads_text(
            mimetype,
            part(v, 3, "mimetype"@),
        ) && reads_flag(live, part(v, 4, "live"@), false) && reads_optional(
            phase_name,
            part(v, 5, "phase_name"@),
        )),
{
    lemma_kinds();
    lemma_empty_text(name);
    lemma_empty_text(path);
    lemma_empty_text(mimetype);
}

/// A measurement is read with its name, its value, its phase and its unit.
pub proof fn law_measurements_are_read(
    v: JsonView,
    name: Seq<char>,
    value: JsonView,
    phase_name: Option<Seq<char>>,
    unit: Option<Seq<char>>,
)
    ensures
        event_of(v) == Some(PythonEventView::Measurement { name, value, phase_name, unit }) <==> (
        is_event(v, "measurement"@, 4) && reads_text(name, part(v, 1, "name"@)) && reads_value(
            value,
            part(v, 2, "value"@),
        ) && reads_optional(phase_name, part(v, 3, "phase_name"@)) && reads_optional(
            unit,
            part(v, 4, "unit"@),
        )),
{
    lemma_kinds();
    lemma_empty_text(name);
}

/// A log line is read with its level, its message, its time, its phase, its
/// file and its line.
pub proof fn law_log_lines_are_read(
    v: JsonView,
    level: Seq<char>,
    message: Seq<char>,
    timestamp: Seq<char>,
    phase_name: Option<Seq<char>>,
    file: Option<Seq<char>>,
    line: Option<u32>,
)
    ensures
        event_of(v) == Some(
            PythonEventView::PhaseLog { level, message, timestamp, phase_name, file, line },
        ) <==> (is_event(v, "phase_log"@, 6) && reads_text(level, part(v, 1, "level"@))
            && reads_text(message, part(v, 2, "message"@)) && reads_text(
            timestamp,
            part(v, 3, "timestamp"@),
        ) && reads_optional(phase_name, part(v, 4, "phase_name"@)) && reads_optional(
            file,
            part(v, 5, "file"@),
        ) && reads_line(line, part(v, 6, "line"@))),
{
    lemma_kinds();
    lemma_empty_text(level);
    lemma_empty_text(message);
    lemma_empty_text(timestamp);
}

/// A warning is read with its message; that the bridge is ready is read as
/// such.
pub proof fn law_notices_are_read(v: JsonView, message: Seq<char>)
    ensures
        event_of(v) == Some(PythonEventView::Warning { message }) <==> (is_event(v, "warning"@, 1)
            && reads_text(message, part(v, 1, "message"@))),
        event_of(v) == Some(PythonEventView::BridgeReady) <==> is_event(v, "bridge_ready"@, 0),
{
    lemma_kinds();
    lemma_empty_text(message);
}

/// An event of any other type is unknown, and a value without a type is no
/// event.
pub proof fn law_other_types_are_unknown(v: JsonView, kind: Seq<char>)
    ensures
        !(part(v, 0, "type"@) matches Some(JsonView::Text(_))) ==> event_of(v) is None,
        part(v, 0, "type"@) == Some(JsonView::Text(kind)) ==> (event_of(v) == Some(
            PythonEventView::Unknown,
        ) <==> is_event(v, kind, 0) && kind != "bridge_ready"@ && kind != "test_start"@ && kind
            != "test_end"@ && kind != "phase_begin"@ && kind != "phase_end"@ && kind != "prompt"@
            && kind != "attachment"@ && kind != "measurement"@ && kind != "phase_log"@ && kind
            != "warning"@),
{
    lemma_kinds();
}

} // verus!
