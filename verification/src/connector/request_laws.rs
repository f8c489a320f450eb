//! What an upload and the live stream tell of what a framework reported.

use vstd::prelude::*;
use crate::connector::request::{
    aggregations_of, doubles_of, live_measurements_among, live_measurements_in,
    live_validators_among, live_validators_in, logs_of, measurement_of, measurements_of,
    metadata_text, nested_validators_of, phase_of, phase_outcome_of, phases_of, request_of,
    run_outcome_of, shown_expected, shown_items, synthesized, texts_among, validators_of, x_axis_of,
    y_axes_of, y_axis_of, Connector, ResolvedUnitView, RunContextView,
};
use crate::engine::model::KeyTextView;
use crate::json::{
    json_member, json_text, member_bool, member_int, member_items, member_text, JsonView,
};
use crate::log_source::source_name;
use crate::outcomes::lemma_level_words;
use crate::protocol::{RunMeasurementView, ValidatorResultView};
use crate::sdk::{
    MeasurementOutcome, RunCreateAggregationView, RunCreateAxisView, RunCreateLogView,
    RunCreateMeasurementView, RunCreatePhaseView, RunCreateValidatorView,
};
use crate::text::{joined, trimmed};
use crate::time::Instant;

verus! {

/// Whether a verdict is the one that the word under `outcome` gives; any word
/// but `PASS` and `FAIL` leaves it unset.
pub open spec fn gives_verdict(told: MeasurementOutcome, v: JsonView) -> bool {
    &&& told is Pass <==> json_member(v, "outcome"@) == Some(JsonView::Text("PASS"@))
    &&& told is Fail <==> json_member(v, "outcome"@) == Some(JsonView::Text("FAIL"@))
}

proof fn lemma_words()
    ensures
        "PASS"@ != "FAIL"@,
        "PASS"@ != "ERROR"@,
        "PASS"@ != "SKIP"@,
        "PASS"@ != "TIMEOUT"@,
        "PASS"@ != "ABORTED"@,
        "PASS"@ != "UNSET"@,
        "FAIL"@ != "ERROR"@,
        "FAIL"@ != "SKIP"@,
        "FAIL"@ != "TIMEOUT"@,
        "FAIL"@ != "ABORTED"@,
        "FAIL"@ != "UNSET"@,
        "ERROR"@ != "SKIP"@,
        "ERROR"@ != "TIMEOUT"@,
        "ERROR"@ != "ABORTED"@,
        "SKIP"@ != "TIMEOUT"@,
        "TIMEOUT"@ != "ABORTED"@,
{
    reveal_strlit("PASS");
    reveal_strlit("FAIL");
    reveal_strlit("ERROR");
    reveal_strlit("SKIP");
    reveal_strlit("TIMEOUT");
    reveal_strlit("ABORTED");
    reveal_strlit("UNSET");
    assert("PASS"@[0] == 'P' && "FAIL"@[0] == 'F' && "ERROR"@[0] == 'E' && "SKIP"@[0] == 'S'
        && "TIMEOUT"@[0] == 'T' && "ABORTED"@[0] == 'A' && "UNSET"@[0] == 'U');
}

/// Whether a validator is the one that is reported. Its expected value is the
/// one under `expected_value`.
pub open spec fn tells_validator(out: RunCreateValidatorView, v: JsonView) -> bool {
    &&& out.outcome is Some <==> member_text(v, "outcome"@) is Some
    &&& out.outcome is Some ==> gives_verdict(out.outcome->0, v)
    &&& out.operator == member_text(v, "operator"@)
    &&& out.expression == member_text(v, "expression"@)
    &&& out.is_decisive == member_bool(v, "is_decisive"@)
    &&& out.expected_value == json_member(v, "expected_value"@)
}

/// Whether a list is `None` where it would be empty.
pub open spec fn some_where_any<A>(out: Option<Seq<A>>, list: Seq<A>) -> bool {
    &&& list.len() == 0 ==> out is None
    &&& list.len() > 0 ==> out == Some(list)
}

proof fn lemma_validators(items: Seq<JsonView>)
    ensures
        validators_of(items).len() == items.len(),
        forall|i: int|
            0 <= i < items.len() ==> tells_validator(#[trigger] validators_of(items)[i], items[i]),
    decreases items.len(),
{
    lemma_words();
    if items.len() > 0 {
        let rest = items.drop_last();
        lemma_validators(rest);
        assert forall|i: int| 0 <= i < items.len() implies tells_validator(
            #[trigger] validators_of(items)[i],
            items[i],
        ) by {
            if i < rest.len() {
                assert(validators_of(items)[i] == validators_of(rest)[i]);
                assert(rest[i] == items[i]);
            }
        }
    }
}

/// Whether the validators of an upload are those under `validators`, one by
/// one.
pub open spec fn tells_validators(out: Option<Seq<RunCreateValidatorView>>, m: JsonView) -> bool {
    match json_member(m, "validators"@) {
        Some(JsonView::Array(items)) => {
            &&& out is Some <==> items.len() > 0
            &&& out is Some ==> out->0.len() == items.len() && forall|i: int|
                0 <= i < items.len() ==> tells_validator(#[trigger] out->0[i], items[i])
        },
        _ => out is None,
    }
}

/// Whether numbers are the doubles of a list, in order; what has none is left
/// out.
pub open spec fn are_doubles(out: Seq<u64>, items: Seq<JsonView>) -> bool {
    let kept = items.filter(|v: JsonView| is_double(v));
    &&& out.len() == kept.len()
    &&& forall|i: int|
        0 <= i < kept.len() ==> (kept[i] matches JsonView::Number(n) && n.bits == Some(
            #[trigger] out[i],
        ))
}

/// Whether a value is a number that a double holds.
pub open spec fn is_double(v: JsonView) -> bool {
    v matches JsonView::Number(n) && n.bits is Some
}

proof fn lemma_doubles(items: Seq<JsonView>)
    ensures
        are_doubles(doubles_of(items), items),
    decreases items.len(),
{
    reveal(Seq::filter);
    if items.len() > 0 {
        lemma_doubles(items.drop_last());
    }
}

/// Whether the numbers of an axis are those under `data`, and its unit the
/// text under `units`.
pub open spec fn tells_axis(out: RunCreateAxisView, v: JsonView) -> bool {
    &&& out.units == member_text(v, "units"@)
    &&& out.name is None
    &&& out.validators is None
    &&& out.aggregations is None
    &&& match json_member(v, "data"@) {
        Some(JsonView::Array(items)) => are_doubles(out.data, items),
        _ => out.data.len() == 0,
    }
}

proof fn lemma_axis(v: JsonView)
    ensures
        tells_axis(x_axis_of(v), v),
        y_axis_of(v) is Some,
        tells_axis(y_axis_of(v)->0, v),
{
    if let Some(items) = member_items(v, "data"@) {
        lemma_doubles(items);
    }
}

proof fn lemma_y_axes(items: Seq<JsonView>)
    ensures
        y_axes_of(items).len() == items.len(),
        forall|i: int|
            0 <= i < items.len() ==> tells_axis(#[trigger] y_axes_of(items)[i], items[i])
                && y_axes_of(items)[i].description is None,
    decreases items.len(),
{
    if items.len() > 0 {
        let rest = items.drop_last();
        lemma_y_axes(rest);
        lemma_axis(items.last());
        assert forall|i: int| 0 <= i < items.len() implies tells_axis(
            #[trigger] y_axes_of(items)[i],
            items[i],
        ) && y_axes_of(items)[i].description is None by {
            if i < rest.len() {
                assert(y_axes_of(items)[i] == y_axes_of(rest)[i]);
                assert(rest[i] == items[i]);
            }
        }
    }
}

/// The x axis of a chart is told with its numbers, its unit and its
/// description.
pub proof fn law_x_axes_are_told(v: JsonView)
    ensures
        tells_axis(x_axis_of(v), v),
        x_axis_of(v).description == member_text(v, "description"@),
{
    lemma_axis(v);
}

/// Whether a text is the one under a key that is not empty.
pub open spec fn tells_text(out: Option<Seq<char>>, v: JsonView, key: Seq<char>) -> bool {
    match json_member(v, key) {
        Some(JsonView::Text(s)) => if s.len() > 0 {
            out == Some(s)
        } else {
            out is None
        },
        _ => out is None,
    }
}

/// Whether a measurement is the one that is reported: its name, its verdict,
/// its validators; a single value as it stands under `measured_value` with its
/// unit, a chart of OpenHTF with its axes.
pub open spec fn tells_measurement(
    out: RunCreateMeasurementView,
    m: JsonView,
    connector: Connector,
) -> bool {
    let chart = connector == Connector::OpenHtf && json_member(m, "x_axis"@) is Some
        && json_member(m, "y_axis"@) is Some;
    &&& json_member(m, "name"@) == Some(JsonView::Text(out.name))
    &&& gives_verdict(out.outcome, m)
    &&& tells_validators(out.validators, m)
    &&& out.aggregations is None
    &&& connector == Connector::OpenHtf ==> tells_text(out.docstring, m, "docstring"@)
    &&& connector == Connector::Robot ==> out.docstring is None
    &&& !chart ==> {
        &&& out.measured_value == json_member(m, "measured_value"@)
        &&& out.x_axis is None
        &&& out.y_axis is None
        &&& json_member(m, "measured_value"@) is None ==> out.units is None
        &&& json_member(m, "measured_value"@) is Some ==> match json_member(m, "units"@) {
            Some(JsonView::Null) => out.units is None,
            Some(u) => out.units == Some(u),
            None => out.units is None,
        }
    }
    &&& chart ==> {
        &&& out.measured_value is None
        &&& out.units is None
        &&& out.x_axis is Some
        &&& tells_axis(out.x_axis->0, json_member(m, "x_axis"@)->0)
        &&& match json_member(m, "y_axis"@) {
            Some(JsonView::Array(items)) => {
                &&& out.y_axis is Some <==> items.len() > 0
                &&& out.y_axis is Some ==> out.y_axis->0.len() == items.len() && forall|i: int|
                    0 <= i < items.len() ==> tells_axis(#[trigger] out.y_axis->0[i], items[i])
            },
            _ => out.y_axis is None,
        }
    }
}

/// A measurement with a name is uploaded as it is reported; one without is
/// not.
pub proof fn law_measurements_are_uploaded(connector: Connector, m: JsonView)
    ensures
        measurement_of(connector, m) is Some <==> json_member(m, "name"@) matches Some(
            JsonView::Text(_),
        ),
        measurement_of(connector, m) is Some ==> tells_measurement(
            measurement_of(connector, m)->0,
            m,
            connector,
        ),
{
    lemma_words();
    if let Some(items) = member_items(m, "validators"@) {
        lemma_validators(items);
    }
    if let Some(x) = json_member(m, "x_axis"@) {
        lemma_axis(x);
    }
    if let Some(items) = member_items(m, "y_axis"@) {
        lemma_y_axes(items);
    }
}

/// Where a measurement has a name, no axes and a value, that value is
/// uploaded, with the unit that is not null.
pub proof fn law_measured_values_are_uploaded(
    connector: Connector,
    m: JsonView,
    name: Seq<char>,
    x: JsonView,
)
    requires
        json_member(m, "name"@) == Some(JsonView::Text(name)),
        json_member(m, "x_axis"@) is None || json_member(m, "y_axis"@) is None,
        json_member(m, "measured_value"@) == Some(x),
    ensures
        ({
            let out = measurement_of(connector, m);
            &&& out is Some
            &&& out->0.name == name
            &&& out->0.measured_value == Some(x)
            &&& out->0.units == (if json_member(m, "units"@) == Some(JsonView::Null) {
                None
            } else {
                json_member(m, "units"@)
            })
        }),
{
}

/// Whether measurements are those of a list that have a name, in order.
pub open spec fn tells_measurements(
    out: Seq<RunCreateMeasurementView>,
    items: Seq<JsonView>,
    connector: Connector,
) -> bool {
    let named = items.filter(|m: JsonView| member_text(m, "name"@) is Some);
    &&& out.len() == named.len()
    &&& forall|i: int|
        0 <= i < named.len() ==> tells_measurement(#[trigger] out[i], named[i], connector)
}

proof fn lemma_measurements(items: Seq<JsonView>, connector: Connector)
    ensures
        tells_measurements(measurements_of(items, connector), items, connector),
    decreases items.len(),
{
    reveal(Seq::filter);
    if items.len() > 0 {
        lemma_measurements(items.drop_last(), connector);
        law_measurements_are_uploaded(connector, items.last());
    }
}

/// Whether a point in time is the one that a field gives in milliseconds since
/// the epoch, or now where it gives none that is on the calendar.
pub open spec fn gives_time(at: Instant, v: JsonView, key: Seq<char>, now: Instant) -> bool {
    match member_int(v, key) {
        Some(millis) => if -8_334_601_228_800 <= millis as int / 1000 <= 8_210_266_876_799 {
            at.secs == millis as int / 1000 && at.nanos == (millis as int % 1000) * 1_000_000
        } else {
            at == now
        },
        None => at == now,
    }
}

/// Whether a phase is the one that is reported: its name, its outcome, its
/// times, its measurements.
pub open spec fn tells_phase(
    out: RunCreatePhaseView,
    p: JsonView,
    connector: Connector,
    now: Instant,
) -> bool {
    &&& json_member(p, "name"@) == Some(JsonView::Text(out.name))
    &&& out.outcome is Pass <==> json_member(p, "outcome"@) == Some(JsonView::Text("PASS"@))
    &&& out.outcome is Skip <==> json_member(p, "outcome"@) == Some(JsonView::Text("SKIP"@))
    &&& out.outcome is Error <==> json_member(p, "outcome"@) == Some(JsonView::Text("ERROR"@))
    &&& gives_time(out.started_at, p, "start_time_millis"@, now)
    &&& gives_time(out.ended_at, p, "end_time_millis"@, now)
    &&& out.retry_count == member_int(p, "retry_count"@)
    &&& tells_text(out.docstring, p, "docstring"@)
    &&& match json_member(p, "measurements"@) {
        Some(JsonView::Array(items)) => tells_measurements(out.measurements, items, connector),
        _ => out.measurements.len() == 0,
    }
}

/// A phase with a name is uploaded as it is reported; one without is not.
pub proof fn law_phases_are_told(p: JsonView, connector: Connector, now: Instant)
    ensures
        phase_of(p, connector, now) is Some <==> json_member(p, "name"@) matches Some(
            JsonView::Text(_),
        ),
        phase_of(p, connector, now) is Some ==> tells_phase(
            phase_of(p, connector, now)->0,
            p,
            connector,
            now,
        ),
{
    lemma_words();
    if let Some(items) = member_items(p, "measurements"@) {
        lemma_measurements(items, connector);
    }
}

proof fn lemma_phases(items: Seq<JsonView>, connector: Connector, now: Instant)
    ensures
        ({
            let named = items.filter(|p: JsonView| member_text(p, "name"@) is Some);
            &&& phases_of(items, connector, now).len() == named.len()
            &&& forall|i: int|
                0 <= i < named.len() ==> tells_phase(
                    #[trigger] phases_of(items, connector, now)[i],
                    named[i],
                    connector,
                    now,
                )
        }),
    decreases items.len(),
{
    reveal(Seq::filter);
    if items.len() > 0 {
        lemma_phases(items.drop_last(), connector, now);
        law_phases_are_told(items.last(), connector, now);
    }
}

/// The phases of an upload are those that have a name, in order and each as it
/// is reported.
pub proof fn law_phases_are_uploaded(
    connector: Connector,
    test_end: JsonView,
    test_start: Option<JsonView>,
    phases: Seq<JsonView>,
    unit: ResolvedUnitView,
    ctx: RunContextView,
    now: Instant,
)
    ensures
        ({
            let r = request_of(connector, test_end, test_start, phases, unit, ctx, now);
            let named = phases.filter(|p: JsonView| member_text(p, "name"@) is Some);
            &&& r.phases.len() == named.len()
            &&& forall|i: int|
                0 <= i < named.len() ==> tells_phase(
                    #[trigger] r.phases[i],
                    named[i],
                    connector,
                    now,
                )
        }),
{
    lemma_phases(phases, connector, now);
}

/// The outcome of an upload is the one that the end of the test gives in a
/// word; an error where the word is not one.
pub proof fn law_outcomes_are_uploaded(
    connector: Connector,
    test_end: JsonView,
    test_start: Option<JsonView>,
    phases: Seq<JsonView>,
    unit: ResolvedUnitView,
    ctx: RunContextView,
    now: Instant,
)
    ensures
        ({
            let r = request_of(connector, test_end, test_start, phases, unit, ctx, now);
            let said = json_member(test_end, "outcome"@);
            &&& r.outcome is Pass <==> said == Some(JsonView::Text("PASS"@))
            &&& r.outcome is Fail <==> said == Some(JsonView::Text("FAIL"@))
            &&& r.outcome is Timeout <==> said == Some(JsonView::Text("TIMEOUT"@))
            &&& r.outcome is Aborted <==> said == Some(JsonView::Text("ABORTED"@))
            &&& gives_time(r.started_at, test_end, "start_time_millis"@, now)
            &&& gives_time(r.ended_at, test_end, "end_time_millis"@, now)
        }),
{
    lemma_words();
}

/// An upload is filed under the procedure of its run, with the version, the
/// deployment and the operator; a framework knows no slots.
pub proof fn law_uploads_are_filed(
    connector: Connector,
    test_end: JsonView,
    test_start: Option<JsonView>,
    phases: Seq<JsonView>,
    unit: ResolvedUnitView,
    ctx: RunContextView,
    now: Instant,
)
    ensures
        ({
            let r = request_of(connector, test_end, test_start, phases, unit, ctx, now);
            &&& r.procedure_id == ctx.procedure_id
            &&& r.procedure_version == ctx.procedure_version
            &&& r.deployment_id == ctx.deployment_id
            &&& r.operated_by == ctx.operated_by
            &&& r.execution_id is None
            &&& r.slot_key is None
            &&& r.slot_name is None
            &&& r.metadata is None
            &&& r.unit_metadata is None
            &&& connector == Connector::OpenHtf ==> tells_text(r.docstring, test_end, "docstring"@)
            &&& connector == Connector::Robot ==> r.docstring is None
        }),
{
}

/// Whether a test wrote a text in its own metadata: as a text, or as a number
/// or a truth value, and not an empty one.
pub open spec fn wrote(test_end: JsonView, key: Seq<char>, s: Seq<char>) -> bool {
    json_member(test_end, "metadata"@) is Some && match json_member(
        json_member(test_end, "metadata"@)->0,
        key,
    ) {
        Some(JsonView::Text(t)) => s == t && s.len() > 0,
        Some(JsonView::Number(n)) => s == n.text && s.len() > 0,
        Some(JsonView::Bool(b)) => (b && s == "true"@) || (!b && s == "false"@),
        _ => false,
    }
}

/// Whether a test wrote nothing under a key.
pub open spec fn wrote_nothing(test_end: JsonView, key: Seq<char>) -> bool {
    forall|s: Seq<char>| !#[trigger] wrote(test_end, key, s)
}

proof fn lemma_wrote(test_end: JsonView, key: Seq<char>)
    ensures
        forall|s: Seq<char>| #[trigger]
            wrote(test_end, key, s) ==> metadata_text(test_end, key) == Some(s) && s.len() > 0,
        metadata_text(test_end, key) matches Some(s) ==> wrote(test_end, key, s),
        wrote_nothing(test_end, key) ==> metadata_text(test_end, key) is None,
{
    reveal_strlit("true");
    reveal_strlit("false");
    if let Some(s) = metadata_text(test_end, key) {
        assert(wrote(test_end, key, s));
    }
}

/// The serial number of an upload is what the test wrote, before what the
/// framework recorded, before what was identified.
pub proof fn law_serial_numbers_are_uploaded(
    connector: Connector,
    test_end: JsonView,
    test_start: Option<JsonView>,
    phases: Seq<JsonView>,
    unit: ResolvedUnitView,
    ctx: RunContextView,
    now: Instant,
)
    ensures
        ({
            let r = request_of(connector, test_end, test_start, phases, unit, ctx, now);
            let dut = json_member(test_end, "dut_id"@);
            &&& forall|s: Seq<char>| #[trigger]
                wrote(test_end, "serial_number"@, s) ==> r.serial_number == s
            &&& wrote_nothing(test_end, "serial_number"@) ==> {
                let recorded = dut matches Some(JsonView::Text(s)) && s.len() > 0;
                &&& recorded ==> dut == Some(JsonView::Text(r.serial_number))
                &&& !recorded && unit.serial_number is Some ==> r.serial_number
                    == unit.serial_number->0
                &&& !recorded && unit.serial_number is None ==> r.serial_number.len() == 0
            }
        }),
{
    lemma_wrote(test_end, "serial_number"@);
}

/// The part number of an upload is what the test wrote, before what was
/// identified, before what a test of OpenHTF declared; an empty one is none.
pub proof fn law_part_numbers_are_uploaded(
    connector: Connector,
    test_end: JsonView,
    test_start: Option<JsonView>,
    phases: Seq<JsonView>,
    unit: ResolvedUnitView,
    ctx: RunContextView,
    now: Instant,
)
    ensures
        ({
            let r = request_of(connector, test_end, test_start, phases, unit, ctx, now);
            &&& forall|s: Seq<char>| #[trigger]
                wrote(test_end, "part_number"@, s) ==> r.part_number == Some(s)
            &&& wrote_nothing(test_end, "part_number"@) ==> {
                &&& unit.part_number matches Some(s) ==> r.part_number == (if s.len() > 0 {
                    Some(s)
                } else {
                    None
                })
                &&& unit.part_number is None && connector == Connector::OpenHtf && test_start is Some
                    ==> tells_text(r.part_number, test_start->0, "part_number"@)
                &&& unit.part_number is None && (connector == Connector::Robot || test_start is None)
                    ==> r.part_number is None
            }
        }),
{
    lemma_wrote(test_end, "part_number"@);
}

/// Revision and batch number of an upload are what the test wrote, before what
/// was identified; an empty one is none.
pub proof fn law_revision_and_batch_are_uploaded(
    connector: Connector,
    test_end: JsonView,
    test_start: Option<JsonView>,
    phases: Seq<JsonView>,
    unit: ResolvedUnitView,
    ctx: RunContextView,
    now: Instant,
)
    ensures
        ({
            let r = request_of(connector, test_end, test_start, phases, unit, ctx, now);
            &&& forall|s: Seq<char>| #[trigger]
                wrote(test_end, "revision_number"@, s) ==> r.revision_number == Some(s)
            &&& wrote_nothing(test_end, "revision_number"@) ==> match unit.revision_number {
                Some(s) => r.revision_number == (if s.len() > 0 {
                    Some(s)
                } else {
                    None
                }),
                None => r.revision_number is None,
            }
            &&& forall|s: Seq<char>| #[trigger]
                wrote(test_end, "batch_number"@, s) ==> r.batch_number == Some(s)
            &&& wrote_nothing(test_end, "batch_number"@) ==> match unit.batch_number {
                Some(s) => r.batch_number == (if s.len() > 0 {
                    Some(s)
                } else {
                    None
                }),
                None => r.batch_number is None,
            }
        }),
{
    lemma_wrote(test_end, "revision_number"@);
    lemma_wrote(test_end, "batch_number"@);
}

/// Whether texts are those of a list, in order; what is not a text is left
/// out.
pub open spec fn are_texts(out: Seq<Seq<char>>, items: Seq<JsonView>) -> bool {
    let kept = items.filter(|v: JsonView| v is Text);
    &&& out.len() == kept.len()
    &&& forall|i: int| 0 <= i < kept.len() ==> kept[i] == JsonView::Text(#[trigger] out[i])
}

proof fn lemma_texts(items: Seq<JsonView>)
    ensures
        are_texts(texts_among(items), items),
    decreases items.len(),
{
    reveal(Seq::filter);
    if items.len() > 0 {
        lemma_texts(items.drop_last());
    }
}

/// The sub-units of an upload are those that the test wrote as a list, before
/// those that were identified.
pub proof fn law_sub_units_are_uploaded(
    connector: Connector,
    test_end: JsonView,
    test_start: Option<JsonView>,
    phases: Seq<JsonView>,
    unit: ResolvedUnitView,
    ctx: RunContextView,
    now: Instant,
    fields: JsonView,
    items: Seq<JsonView>,
)
    ensures
        ({
            let r = request_of(connector, test_end, test_start, phases, unit, ctx, now);
            let written = json_member(test_end, "metadata"@) == Some(fields) && json_member(
                fields,
                "sub_units"@,
            ) == Some(JsonView::Array(items)) && items.filter(|v: JsonView| v is Text).len() > 0;
            let identified = unit.sub_units.map_values(|e: KeyTextView| e.text);
            &&& written ==> r.sub_units is Some && are_texts(r.sub_units->0, items)
            &&& json_member(test_end, "metadata"@) is None ==> some_where_any(
                r.sub_units,
                identified,
            )
            &&& json_member(test_end, "metadata"@) == Some(fields) && !(json_member(
                fields,
                "sub_units"@,
            ) matches Some(JsonView::Array(_))) ==> some_where_any(r.sub_units, identified)
            &&& json_member(test_end, "metadata"@) == Some(fields) && json_member(
                fields,
                "sub_units"@,
            ) == Some(JsonView::Array(items)) && !written ==> some_where_any(
                r.sub_units,
                identified,
            )
        }),
{
    lemma_texts(items);
    assert(crate::connector::request::serials(unit.sub_units) =~= unit.sub_units.map_values(
        |e: KeyTextView| e.text,
    ));
}

/// Whether a log line is the one that is reported: its level by its word,
/// information where the word is not one; its time, message, place and line.
pub open spec fn tells_log(out: RunCreateLogView, l: JsonView, dir: Seq<char>, now: Instant) -> bool {
    let level = json_member(l, "level"@);
    &&& out.level is Debug <==> level == Some(JsonView::Text("DEBUG"@))
    &&& out.level is Warning <==> level == Some(JsonView::Text("WARNING"@))
    &&& out.level is Error <==> level == Some(JsonView::Text("ERROR"@))
    &&& out.level is Critical <==> level == Some(JsonView::Text("CRITICAL"@))
    &&& gives_time(out.timestamp, l, "timestamp_millis"@, now)
    &&& member_text(l, "message"@) matches Some(s) ==> out.message == s
    &&& member_text(l, "message"@) is None ==> out.message.len() == 0
    &&& member_text(l, "source"@) matches Some(s) ==> out.source_file == source_name(s, dir)
    &&& member_text(l, "source"@) is None ==> out.source_file == source_name(Seq::empty(), dir)
    &&& member_int(l, "lineno"@) matches Some(n) ==> out.line_number == n
    &&& member_int(l, "lineno"@) is None ==> out.line_number == 0
}

proof fn lemma_logs(items: Seq<JsonView>, dir: Seq<char>, now: Instant)
    ensures
        logs_of(items, dir, now).len() == items.len(),
        forall|i: int|
            0 <= i < items.len() ==> tells_log(
                #[trigger] logs_of(items, dir, now)[i],
                items[i],
                dir,
                now,
            ),
    decreases items.len(),
{
    lemma_level_words();
    reveal_strlit("");
    assert(""@ =~= Seq::empty());
    reveal_strlit("INFO");
    reveal_strlit("DEBUG");
    reveal_strlit("WARNING");
    reveal_strlit("ERROR");
    reveal_strlit("CRITICAL");
    assert("INFO"@[0] == 'I' && "DEBUG"@[0] == 'D' && "WARNING"@[0] == 'W' && "ERROR"@[0] == 'E'
        && "CRITICAL"@[0] == 'C');
    if items.len() > 0 {
        let rest = items.drop_last();
        lemma_logs(rest, dir, now);
        assert forall|i: int| 0 <= i < items.len() implies tells_log(
            #[trigger] logs_of(items, dir, now)[i],
            items[i],
            dir,
            now,
        ) by {
            if i < rest.len() {
                assert(logs_of(items, dir, now)[i] == logs_of(rest, dir, now)[i]);
                assert(rest[i] == items[i]);
            }
        }
    }
}

/// The log lines of an upload are those that OpenHTF reports, one by one;
/// Robot Framework reports none.
pub proof fn law_logs_are_uploaded(
    connector: Connector,
    test_end: JsonView,
    test_start: Option<JsonView>,
    phases: Seq<JsonView>,
    unit: ResolvedUnitView,
    ctx: RunContextView,
    now: Instant,
)
    ensures
        ({
            let r = request_of(connector, test_end, test_start, phases, unit, ctx, now);
            &&& connector == Connector::Robot ==> r.logs is None
            &&& connector == Connector::OpenHtf ==> match json_member(test_end, "logs"@) {
                Some(JsonView::Array(items)) => {
                    &&& r.logs is Some <==> items.len() > 0
                    &&& r.logs is Some ==> r.logs->0.len() == items.len() && forall|i: int|
                        0 <= i < items.len() ==> tells_log(
                            #[trigger] r.logs->0[i],
                            items[i],
                            ctx.procedure_dir,
                            now,
                        )
                },
                _ => r.logs is None,
            }
        }),
{
    if let Some(items) = member_items(test_end, "logs"@) {
        lemma_logs(items, ctx.procedure_dir, now);
    }
}

/// Whether an expected value is shown: a number as it is written, a truth value
/// as its word, a text as it is, a list with commas between; anything else is
/// not.
pub open spec fn shows_expected(shown: Seq<char>, v: JsonView) -> bool {
    match json_member(v, "expected_value"@) {
        Some(JsonView::Number(n)) => shown == n.text,
        Some(JsonView::Bool(b)) => (b ==> shown == "true"@) && (!b ==> shown == "false"@),
        Some(JsonView::Text(s)) => shown == s,
        Some(JsonView::Array(items)) => exists|parts: Seq<Seq<char>>|
            shown == #[trigger] joined(parts, seq![',']) && parts.len() == items.len() && forall|
                i: int,
            |
                0 <= i < items.len() ==> (match items[i] {
                    JsonView::Text(s) => #[trigger] parts[i] == s,
                    other => parts[i] == json_text(other),
                }),
        _ => shown.len() == 0,
    }
}

proof fn lemma_shown_items(items: Seq<JsonView>)
    ensures
        shown_items(items).len() == items.len(),
        forall|i: int|
            0 <= i < items.len() ==> (match items[i] {
                JsonView::Text(s) => #[trigger] shown_items(items)[i] == s,
                other => shown_items(items)[i] == json_text(other),
            }),
    decreases items.len(),
{
    if items.len() > 0 {
        let rest = items.drop_last();
        lemma_shown_items(rest);
        assert forall|i: int| 0 <= i < items.len() implies (match items[i] {
            JsonView::Text(s) => #[trigger] shown_items(items)[i] == s,
            other => shown_items(items)[i] == json_text(other),
        }) by {
            if i < rest.len() {
                assert(shown_items(items)[i] == shown_items(rest)[i]);
                assert(rest[i] == items[i]);
            }
        }
    }
}

/// A validator without an expression is shown by its operator and its expected
/// value, and not at all where it has neither.
pub proof fn law_validators_are_put_in_words(v: JsonView)
    ensures
        ({
            let op = match json_member(v, "operator"@) {
                Some(JsonView::Text(s)) => trimmed(s),
                _ => Seq::<char>::empty(),
            };
            let expected = shown_expected(v);
            &&& shows_expected(expected, v)
            &&& synthesized(v) is None <==> op.len() == 0 && expected.len() == 0
            &&& op.len() > 0 && expected.len() > 0 ==> synthesized(v) == Some(
                seq!['x', ' '] + op + seq![' '] + expected,
            )
            &&& op.len() > 0 && expected.len() == 0 ==> synthesized(v) == Some(seq!['x', ' '] + op)
            &&& op.len() == 0 && expected.len() > 0 ==> synthesized(v) == Some(expected)
        }),
{
    reveal_strlit("x ");
    reveal_strlit(" ");
    reveal_strlit("");
    reveal_strlit(",");
    assert("x "@ =~= seq!['x', ' ']);
    assert(" "@ =~= seq![' ']);
    assert(""@ =~= Seq::<char>::empty());
    assert(","@ =~= seq![',']);
    assert(trimmed(Seq::<char>::empty()) =~= Seq::<char>::empty());
    if let Some(JsonView::Array(items)) = json_member(v, "expected_value"@) {
        lemma_shown_items(items);
        assert(joined(shown_items(items), ","@) == joined(shown_items(items), seq![',']));
    }
}

/// Whether a validator is shown live: by its expression, or by what stands for
/// it.
pub open spec fn shows_validator(out: ValidatorResultView, v: JsonView) -> bool {
    &&& match json_member(v, "expression"@) {
        Some(JsonView::Text(s)) => out.expression == s,
        _ => synthesized(v) == Some(out.expression),
    }
    &&& match json_member(v, "outcome"@) {
        Some(JsonView::Text(s)) => out.outcome == s,
        _ => out.outcome == "UNSET"@,
    }
    &&& out.is_decisive == member_bool(v, "is_decisive"@)
}

/// Whether something can be shown of a validator.
pub open spec fn can_be_shown(v: JsonView) -> bool {
    json_member(v, "expression"@) matches Some(JsonView::Text(_)) || synthesized(v) is Some
}

/// Whether validators are those under `validators` of which something can be
/// shown, in order.
pub open spec fn shows_validators(out: Seq<ValidatorResultView>, m: JsonView) -> bool {
    match json_member(m, "validators"@) {
        Some(JsonView::Array(items)) => {
            let shown = items.filter(|v: JsonView| can_be_shown(v));
            &&& out.len() == shown.len()
            &&& forall|i: int|
                0 <= i < shown.len() ==> shows_validator(#[trigger] out[i], shown[i])
        },
        _ => out.len() == 0,
    }
}

proof fn lemma_live_validators(items: Seq<JsonView>)
    ensures
        ({
            let shown = items.filter(|v: JsonView| can_be_shown(v));
            let out = live_validators_among(items);
            &&& out.len() == shown.len()
            &&& forall|i: int|
                0 <= i < shown.len() ==> shows_validator(#[trigger] out[i], shown[i])
        }),
    decreases items.len(),
{
    reveal(Seq::filter);
    if items.len() > 0 {
        lemma_live_validators(items.drop_last());
    }
}

/// The validators of a measurement are shown live, as far as something can be
/// shown of them.
pub proof fn law_live_validators(m: JsonView)
    ensures
        shows_validators(live_validators_in(m), m),
{
    if let Some(items) = member_items(m, "validators"@) {
        lemma_live_validators(items);
    }
}

/// Whether a measurement is shown live as it is reported.
pub open spec fn shows_measurement(out: RunMeasurementView, m: JsonView) -> bool {
    &&& json_member(m, "name"@) == Some(JsonView::Text(out.name))
    &&& match json_member(m, "outcome"@) {
        Some(JsonView::Text(s)) => out.outcome == s,
        _ => out.outcome == "UNSET"@,
    }
    &&& out.measured_value == json_member(m, "measured_value"@)
    &&& out.units == member_text(m, "units"@)
    &&& shows_validators(out.validators, m)
    &&& out.aggregations.len() == 0
}

proof fn lemma_live_measurements(items: Seq<JsonView>)
    ensures
        ({
            let named = items.filter(|m: JsonView| member_text(m, "name"@) is Some);
            let out = live_measurements_among(items);
            &&& out.len() == named.len()
            &&& forall|i: int|
                0 <= i < named.len() ==> shows_measurement(#[trigger] out[i], named[i])
        }),
    decreases items.len(),
{
    reveal(Seq::filter);
    if items.len() > 0 {
        lemma_live_measurements(items.drop_last());
        law_live_validators(items.last());
    }
}

/// The measurements of a phase that have a name are shown live, in order and
/// each as it is reported.
pub proof fn law_live_measurements(phase: JsonView)
    ensures
        match json_member(phase, "measurements"@) {
            Some(JsonView::Array(items)) => {
                let named = items.filter(|m: JsonView| member_text(m, "name"@) is Some);
                let out = live_measurements_in(phase);
                &&& out.len() == named.len()
                &&& forall|i: int|
                    0 <= i < named.len() ==> shows_measurement(#[trigger] out[i], named[i])
            },
            _ => live_measurements_in(phase).len() == 0,
        },
{
    if let Some(items) = member_items(phase, "measurements"@) {
        lemma_live_measurements(items);
    }
}

/// Whether a value is the one under a key that is not null.
pub open spec fn tells_value(out: Option<JsonView>, v: JsonView, key: Seq<char>) -> bool {
    match json_member(v, key) {
        Some(JsonView::Null) => out is None,
        Some(x) => out == Some(x),
        None => out is None,
    }
}

/// Whether a validator is the one that is reported; an expected value that is
/// null is none.
pub open spec fn tells_nested(out: RunCreateValidatorView, v: JsonView) -> bool {
    &&& out.outcome is Some <==> member_text(v, "outcome"@) is Some
    &&& out.outcome is Some ==> gives_verdict(out.outcome->0, v)
    &&& out.operator == member_text(v, "operator"@)
    &&& out.expression == member_text(v, "expression"@)
    &&& out.is_decisive == member_bool(v, "is_decisive"@)
    &&& tells_value(out.expected_value, v, "expected_value"@)
}

/// The validators of a list are told one by one.
pub proof fn law_listed_validators_are_told(items: Seq<JsonView>)
    ensures
        nested_validators_of(items).len() == items.len(),
        forall|i: int|
            0 <= i < items.len() ==> tells_nested(
                #[trigger] nested_validators_of(items)[i],
                items[i],
            ),
    decreases items.len(),
{
    lemma_words();
    if items.len() > 0 {
        let rest = items.drop_last();
        law_listed_validators_are_told(rest);
        assert forall|i: int| 0 <= i < items.len() implies tells_nested(
            #[trigger] nested_validators_of(items)[i],
            items[i],
        ) by {
            if i < rest.len() {
                assert(nested_validators_of(items)[i] == nested_validators_of(rest)[i]);
                assert(rest[i] == items[i]);
            }
        }
    }
}

/// Whether an aggregation is the one that is reported.
pub open spec fn tells_aggregation(out: RunCreateAggregationView, a: JsonView) -> bool {
    &&& json_member(a, "type"@) == Some(JsonView::Text(out.aggregation_type))
    &&& out.outcome is Some <==> member_text(a, "outcome"@) is Some
    &&& out.outcome is Some ==> gives_verdict(out.outcome->0, a)
    &&& tells_value(out.value, a, "value"@)
    &&& out.unit == member_text(a, "unit"@)
    &&& match json_member(a, "validators"@) {
        Some(JsonView::Array(items)) => {
            &&& out.validators is Some <==> items.len() > 0
            &&& out.validators is Some ==> out.validators->0.len() == items.len() && forall|i: int|
                0 <= i < items.len() ==> tells_nested(#[trigger] out.validators->0[i], items[i])
        },
        _ => out.validators is None,
    }
}

/// The aggregations of a list that have a type are told, in order.
pub proof fn law_listed_aggregations_are_told(items: Seq<JsonView>)
    ensures
        ({
            let typed = items.filter(|a: JsonView| member_text(a, "type"@) is Some);
            let out = aggregations_of(items);
            &&& out.len() == typed.len()
            &&& forall|i: int|
                0 <= i < typed.len() ==> tells_aggregation(#[trigger] out[i], typed[i])
        }),
    decreases items.len(),
{
    reveal(Seq::filter);
    lemma_words();
    if items.len() > 0 {
        law_listed_aggregations_are_told(items.drop_last());
        let a = items.last();
        if let Some(inner) = member_items(a, "validators"@) {
            law_listed_validators_are_told(inner);
        }
    }
}

/// The word of an outcome is read as that outcome: of a run as an error where
/// it is none, of a phase as a failure.
pub proof fn law_outcome_words_are_read(s: Seq<char>)
    ensures
        run_outcome_of(s) is Pass <==> s == "PASS"@,
        run_outcome_of(s) is Fail <==> s == "FAIL"@,
        run_outcome_of(s) is Timeout <==> s == "TIMEOUT"@,
        run_outcome_of(s) is Aborted <==> s == "ABORTED"@,
        phase_outcome_of(s) is Pass <==> s == "PASS"@,
        phase_outcome_of(s) is Skip <==> s == "SKIP"@,
        phase_outcome_of(s) is Error <==> s == "ERROR"@,
{
    lemma_words();
}

} // verus!
