//! What uploads and live views tell of a measurement.

use vstd::prelude::*;
use crate::engine::measurement::{
    expected_json, failure_texts, live_measurement, live_validator, measurement_error,
    measurement_failure, measurement_failures, shown_value, upload_aggregation, upload_axis,
    upload_measurement, upload_validator, upload_y_axes,
};
use crate::engine::model::{
    AggregationSpecView, AggregationValueView, AxisDataView, AxisView, MeasurementView, Outcome,
    ShownNumberView, ValidatorExpectedValueView, ValidatorOutcome, ValidatorSpecView,
};
use crate::json::{json_text, JsonView};
use crate::protocol::{RunMeasurementView, ValidatorResultView};
use crate::sdk::{
    MeasurementOutcome, RunCreateAggregationView, RunCreateAxisView, RunCreateMeasurementView,
    RunCreateValidatorView,
};
use crate::text::{joined, trimmed};

verus! {

/// Whether a verdict is told as it is.
pub open spec fn tells_verdict(told: MeasurementOutcome, said: ValidatorOutcome) -> bool {
    &&& told is Pass <==> said is Pass
    &&& told is Fail <==> said is Fail
    &&& told is Unset <==> said is Unset
}

/// Whether a verdict is told in words.
pub open spec fn words_verdict(told: Seq<char>, said: ValidatorOutcome) -> bool {
    &&& told == "PASS"@ <==> said is Pass
    &&& told == "FAIL"@ <==> said is Fail
    &&& told == "UNSET"@ <==> said is Unset
}

proof fn lemma_verdict_words()
    ensures
        "PASS"@ != "FAIL"@,
        "PASS"@ != "UNSET"@,
        "FAIL"@ != "UNSET"@,
{
    reveal_strlit("PASS");
    reveal_strlit("FAIL");
    reveal_strlit("UNSET");
    assert("PASS"@[0] == 'P' && "FAIL"@[0] == 'F' && "UNSET"@[0] == 'U');
}

/// Whether a JSON value is an expected value: of the same kind, with the same
/// contents.
pub open spec fn is_expected(json: JsonView, value: ValidatorExpectedValueView) -> bool {
    match (value, json) {
        (ValidatorExpectedValueView::Number(n), JsonView::Number(x)) => x == n.json,
        (ValidatorExpectedValueView::String(s), JsonView::Text(x)) => x == s,
        (ValidatorExpectedValueView::Boolean(b), JsonView::Bool(x)) => x == b,
        (ValidatorExpectedValueView::Null, JsonView::Null) => true,
        (ValidatorExpectedValueView::NumberArray(a), JsonView::Array(x)) => x.len() == a.len()
            && forall|i: int|
            0 <= i < a.len() ==> #[trigger] x[i] == JsonView::Number(a[i].json),
        (ValidatorExpectedValueView::StringArray(a), JsonView::Array(x)) => x.len() == a.len()
            && forall|i: int| 0 <= i < a.len() ==> #[trigger] x[i] == JsonView::Text(a[i]),
        (ValidatorExpectedValueView::MixedArray(a), JsonView::Array(x)) => x == a,
        (ValidatorExpectedValueView::Object(o), JsonView::Object(x)) => x == o,
        _ => false,
    }
}

/// An expected value is uploaded as the JSON value that it is.
pub proof fn law_expected_values_are_kept(value: ValidatorExpectedValueView)
    ensures
        is_expected(expected_json(value), value),
{
}

/// Whether a validator is told as it is.
pub open spec fn tells_validator(out: RunCreateValidatorView, v: ValidatorSpecView) -> bool {
    &&& out.operator == v.operator
    &&& out.expression == v.expression
    &&& out.outcome is Some <==> v.outcome is Some
    &&& v.outcome is Some ==> tells_verdict(out.outcome->0, v.outcome->0)
    &&& out.expected_value is Some <==> v.expected_value is Some
    &&& v.expected_value is Some ==> is_expected(out.expected_value->0, v.expected_value->0)
}

/// Whether validators are told one by one, and left out where there are none.
pub open spec fn tells_validators(
    out: Option<Seq<RunCreateValidatorView>>,
    vs: Option<Seq<ValidatorSpecView>>,
) -> bool {
    &&& out is Some <==> vs is Some && vs->0.len() > 0
    &&& out is Some ==> out->0.len() == vs->0.len() && forall|i: int|
        0 <= i < vs->0.len() ==> tells_validator(#[trigger] out->0[i], vs->0[i])
}

/// Whether a JSON value is that of an aggregation.
pub open spec fn is_aggregated(json: JsonView, value: AggregationValueView) -> bool {
    match (value, json) {
        (AggregationValueView::Number(n), JsonView::Number(x)) => x == n,
        (AggregationValueView::String(s), JsonView::Text(x)) => x == s,
        (AggregationValueView::Boolean(b), JsonView::Bool(x)) => x == b,
        (AggregationValueView::Object(o), JsonView::Object(x)) => x == o,
        _ => false,
    }
}

/// Whether an aggregation is told as it is.
pub open spec fn tells_aggregation(out: RunCreateAggregationView, a: AggregationSpecView) -> bool {
    &&& out.aggregation_type == a.aggregation_type
    &&& out.unit == a.unit
    &&& out.outcome is Some <==> a.outcome is Some
    &&& a.outcome is Some ==> tells_verdict(out.outcome->0, a.outcome->0)
    &&& out.value is Some <==> a.value is Some
    &&& a.value is Some ==> is_aggregated(out.value->0, a.value->0)
    &&& tells_validators(out.validators, a.validators)
}

/// Whether aggregations are told one by one, and left out where there are
/// none.
pub open spec fn tells_aggregations(
    out: Option<Seq<RunCreateAggregationView>>,
    xs: Option<Seq<AggregationSpecView>>,
) -> bool {
    &&& out is Some <==> xs is Some && xs->0.len() > 0
    &&& out is Some ==> out->0.len() == xs->0.len() && forall|i: int|
        0 <= i < xs->0.len() ==> tells_aggregation(#[trigger] out->0[i], xs->0[i])
}

/// Whether an axis is told as it is: its unit, its legend or else its key, and
/// its numbers.
pub open spec fn tells_axis(out: RunCreateAxisView, axis: AxisView) -> bool {
    &&& out.units == axis.unit
    &&& axis.legend is Some ==> out.name == axis.legend
    &&& axis.legend is None ==> out.name == axis.key
    &&& axis.data matches Some(AxisDataView::Numeric(data)) ==> out.data == data
    &&& !(axis.data matches Some(AxisDataView::Numeric(_))) ==> out.data.len() == 0
    &&& tells_validators(out.validators, axis.validators)
    &&& tells_aggregations(out.aggregations, axis.aggregations)
}

/// Whether an axis has numbers.
pub open spec fn has_numbers(axis: AxisView) -> bool {
    axis.data matches Some(AxisDataView::Numeric(_))
}

/// Whether y axes are told: those with numbers, in order.
pub open spec fn tells_y_axes(out: Option<Seq<RunCreateAxisView>>, axes: Seq<AxisView>) -> bool {
    let shown = axes.filter(|a: AxisView| has_numbers(a));
    &&& out is Some <==> shown.len() > 0
    &&& out is Some ==> out->0.len() == shown.len() && forall|i: int|
        0 <= i < shown.len() ==> tells_axis(#[trigger] out->0[i], shown[i])
}

/// Whether a measurement is told as it is. A single value comes with its unit
/// and without axes, a chart with its axes and without a value. It failed
/// where a validator failed, and passed where all passed.
pub open spec fn tells_measurement(out: RunCreateMeasurementView, m: MeasurementView) -> bool {
    &&& out.name == m.name
    &&& out.docstring == m.description
    &&& m.axes is None ==> {
        &&& out.measured_value == Some(m.raw)
        &&& m.unit is Some ==> out.units == Some(JsonView::Text(m.unit->0))
        &&& m.unit is None ==> out.units is None
        &&& out.x_axis is None
        &&& out.y_axis is None
    }
    &&& m.axes matches Some(axes) ==> {
        &&& out.measured_value is None
        &&& out.units is None
        &&& out.x_axis is Some
        &&& tells_axis(out.x_axis->0, axes.x_axis)
        &&& tells_y_axes(out.y_axis, axes.y_axis)
    }
    &&& out.outcome is Fail <==> m.validators is Some && exists|i: int|
        0 <= i < m.validators->0.len() && (#[trigger] m.validators->0[i]).outcome == Some(
            ValidatorOutcome::Fail,
        )
    &&& out.outcome is Pass <==> m.validators is Some && forall|i: int|
        0 <= i < m.validators->0.len() ==> (#[trigger] m.validators->0[i]).outcome == Some(
            ValidatorOutcome::Pass,
        )
    &&& tells_validators(out.validators, m.validators)
    &&& tells_aggregations(out.aggregations, m.aggregations)
}

proof fn lemma_validator(v: ValidatorSpecView)
    ensures
        tells_validator(upload_validator(v), v),
{
    if v.expected_value is Some {
        law_expected_values_are_kept(v.expected_value->0);
    }
}

proof fn lemma_validators(vs: Option<Seq<ValidatorSpecView>>)
    ensures
        tells_validators(crate::engine::measurement::upload_validators(vs), vs),
{
    if vs is Some {
        assert forall|i: int| 0 <= i < vs->0.len() implies tells_validator(
            upload_validator(vs->0[i]),
            vs->0[i],
        ) by {
            lemma_validator(vs->0[i]);
        }
    }
}

proof fn lemma_aggregation(a: AggregationSpecView)
    ensures
        tells_aggregation(upload_aggregation(a), a),
{
    lemma_validators(a.validators);
}

proof fn lemma_aggregations(xs: Option<Seq<AggregationSpecView>>)
    ensures
        tells_aggregations(crate::engine::measurement::upload_aggregations(xs), xs),
{
    if xs is Some {
        assert forall|i: int| 0 <= i < xs->0.len() implies tells_aggregation(
            upload_aggregation(xs->0[i]),
            xs->0[i],
        ) by {
            lemma_aggregation(xs->0[i]);
        }
    }
}

proof fn lemma_axis(axis: AxisView, data: Seq<u64>)
    requires
        axis.data matches Some(AxisDataView::Numeric(d)) ==> data == d,
        !has_numbers(axis) ==> data.len() == 0,
    ensures
        tells_axis(upload_axis(axis, data), axis),
{
    lemma_validators(axis.validators);
    lemma_aggregations(axis.aggregations);
}

proof fn lemma_y_axes(axes: Seq<AxisView>)
    ensures
        upload_y_axes(axes).len() == axes.filter(|a: AxisView| has_numbers(a)).len(),
        forall|i: int|
            0 <= i < upload_y_axes(axes).len() ==> tells_axis(
                #[trigger] upload_y_axes(axes)[i],
                axes.filter(|a: AxisView| has_numbers(a))[i],
            ),
    decreases axes.len(),
{
    reveal(Seq::filter);
    if axes.len() > 0 {
        lemma_y_axes(axes.drop_last());
        if let Some(AxisDataView::Numeric(data)) = axes.last().data {
            lemma_axis(axes.last(), data);
        }
    }
}

/// A measurement is uploaded as it is.
pub proof fn law_measurements_are_uploaded(m: MeasurementView)
    ensures
        tells_measurement(upload_measurement(m), m),
{
    lemma_validators(m.validators);
    lemma_aggregations(m.aggregations);
    if let Some(axes) = m.axes {
        lemma_y_axes(axes.y_axis);
        let x = axes.x_axis;
        if let Some(AxisDataView::Numeric(data)) = x.data {
            lemma_axis(x, data);
        } else {
            lemma_axis(x, Seq::empty());
        }
    }
}

/// Whether validators are shown one by one: by the expression where there is
/// one, and with their verdicts.
pub open spec fn shows_validators(
    out: Seq<ValidatorResultView>,
    vs: Option<Seq<ValidatorSpecView>>,
) -> bool {
    &&& vs is None ==> out.len() == 0
    &&& vs matches Some(vs) ==> out.len() == vs.len() && forall|i: int|
        0 <= i < vs.len() ==> {
            let shown = #[trigger] out[i];
            &&& vs[i].expression is Some ==> shown.expression == vs[i].expression->0
            &&& vs[i].outcome is Some ==> words_verdict(shown.outcome, vs[i].outcome->0)
            &&& vs[i].outcome is None ==> shown.outcome == "UNSET"@
            &&& shown.is_decisive is None
        }
}

/// Whether a measurement is shown under its name, with its verdict, its value
/// and its unit, and with each of its validators and aggregations.
pub open spec fn shows_measurement(out: RunMeasurementView, m: MeasurementView) -> bool {
    &&& out.name == m.name
    &&& words_verdict(out.outcome, m.outcome)
    &&& out.measured_value == Some(m.raw)
    &&& out.units == m.unit
    &&& shows_validators(out.validators, m.validators)
    &&& m.aggregations is None ==> out.aggregations.len() == 0
    &&& m.aggregations matches Some(xs) ==> out.aggregations.len() == xs.len() && forall|i: int|
        0 <= i < xs.len() ==> {
            let shown = #[trigger] out.aggregations[i];
            &&& shown.aggregation_type == xs[i].aggregation_type
            &&& shown.unit == xs[i].unit
            &&& shown.value is Some <==> xs[i].value is Some
            &&& xs[i].value is Some ==> is_aggregated(shown.value->0, xs[i].value->0)
            &&& xs[i].outcome is Some ==> words_verdict(shown.outcome, xs[i].outcome->0)
            &&& xs[i].outcome is None ==> shown.outcome == "UNSET"@
            &&& shows_validators(shown.validators, xs[i].validators)
        }
}

/// A measurement is shown live as it is.
pub proof fn law_measurements_are_shown(m: MeasurementView)
    ensures
        shows_measurement(live_measurement(m), m),
{
    lemma_verdict_words();
}

/// A phase that failed on its measurements says so: an error is made exactly
/// where the phase failed, was an error or ran out of time and one of its
/// validators failed.
pub proof fn law_failed_measurements_are_named(outcome: Outcome, ms: Seq<MeasurementView>)
    ensures
        measurement_error(outcome, ms) is Some <==> (outcome is Fail || outcome is Error
            || outcome is Timeout) && exists|i: int, j: int|
            0 <= i < ms.len() && ms[i].validators is Some && 0 <= j < ms[i].validators->0.len()
                && (#[trigger] ms[i].validators->0[j]).outcome == Some(ValidatorOutcome::Fail),
{
    lemma_measurement_failures(ms);
}

proof fn lemma_failure_texts(vs: Seq<ValidatorSpecView>)
    ensures
        failure_texts(vs).len() > 0 <==> exists|j: int|
            0 <= j < vs.len() && (#[trigger] vs[j]).outcome == Some(ValidatorOutcome::Fail),
    decreases vs.len(),
{
    if vs.len() > 0 {
        let rest = vs.drop_last();
        lemma_failure_texts(rest);
        assert(vs[vs.len() - 1] == vs.last());
        if failure_texts(rest).len() > 0 {
            let j = choose|j: int|
                0 <= j < rest.len() && (#[trigger] rest[j]).outcome == Some(ValidatorOutcome::Fail);
            assert(vs[j].outcome == Some(ValidatorOutcome::Fail));
        }
        if exists|j: int|
            0 <= j < vs.len() && (#[trigger] vs[j]).outcome == Some(ValidatorOutcome::Fail) {
            let j = choose|j: int|
                0 <= j < vs.len() && (#[trigger] vs[j]).outcome == Some(ValidatorOutcome::Fail);
            if j < rest.len() {
                assert(rest[j].outcome == Some(ValidatorOutcome::Fail));
            }
        }
    }
}

proof fn lemma_measurement_failures(ms: Seq<MeasurementView>)
    ensures
        measurement_failures(ms).len() > 0 <==> exists|i: int, j: int|
            0 <= i < ms.len() && ms[i].validators is Some && 0 <= j < ms[i].validators->0.len()
                && (#[trigger] ms[i].validators->0[j]).outcome == Some(ValidatorOutcome::Fail),
    decreases ms.len(),
{
    if ms.len() > 0 {
        let rest = ms.drop_last();
        lemma_measurement_failures(rest);
        let m = ms.last();
        assert(ms[ms.len() - 1] == m);
        if m.validators is Some {
            lemma_failure_texts(m.validators->0);
        }
        if measurement_failures(rest).len() > 0 {
            let (i, j) = choose|i: int, j: int|
                0 <= i < rest.len() && rest[i].validators is Some && 0 <= j
                    < rest[i].validators->0.len() && (#[trigger] rest[i].validators->0[j]).outcome
                    == Some(ValidatorOutcome::Fail);
            assert(ms[i].validators->0[j].outcome == Some(ValidatorOutcome::Fail));
        } else if measurement_failure(m) is Some {
            let j = choose|j: int|
                0 <= j < m.validators->0.len() && (#[trigger] m.validators->0[j]).outcome == Some(
                    ValidatorOutcome::Fail,
                );
            assert(ms[ms.len() - 1].validators->0[j].outcome == Some(ValidatorOutcome::Fail));
        }
        if exists|i: int, j: int|
            0 <= i < ms.len() && ms[i].validators is Some && 0 <= j < ms[i].validators->0.len()
                && (#[trigger] ms[i].validators->0[j]).outcome == Some(ValidatorOutcome::Fail) {
            let (i, j) = choose|i: int, j: int|
                0 <= i < ms.len() && ms[i].validators is Some && 0 <= j < ms[i].validators->0.len()
                    && (#[trigger] ms[i].validators->0[j]).outcome == Some(ValidatorOutcome::Fail);
            if i < rest.len() {
                assert(rest[i].validators->0[j].outcome == Some(ValidatorOutcome::Fail));
            }
        }
    }
}

/// An expected value is shown as it reads: a list with commas between its
/// items; null, objects and mixed lists are not shown.
pub proof fn law_expected_values_are_shown(
    n: ShownNumberView,
    s: Seq<char>,
    b: bool,
    numbers: Seq<ShownNumberView>,
    texts: Seq<Seq<char>>,
    other: ValidatorExpectedValueView,
)
    requires
        other is Null || other is MixedArray || other is Object,
    ensures
        shown_value(None).len() == 0,
        shown_value(Some(other)).len() == 0,
        shown_value(Some(ValidatorExpectedValueView::Number(n))) == n.display,
        shown_value(Some(ValidatorExpectedValueView::String(s))) == s,
        shown_value(Some(ValidatorExpectedValueView::Boolean(true))) == "true"@,
        shown_value(Some(ValidatorExpectedValueView::Boolean(false))) == "false"@,
        shown_value(Some(ValidatorExpectedValueView::NumberArray(Seq::empty()))).len() == 0,
        shown_value(Some(ValidatorExpectedValueView::StringArray(Seq::empty()))).len() == 0,
        shown_value(Some(ValidatorExpectedValueView::NumberArray(numbers.push(n)))) == (
        if numbers.len() == 0 {
            n.display
        } else {
            shown_value(Some(ValidatorExpectedValueView::NumberArray(numbers))) + ","@ + n.display
        }),
        shown_value(Some(ValidatorExpectedValueView::StringArray(texts.push(s)))) == (
        if texts.len() == 0 {
            s
        } else {
            shown_value(Some(ValidatorExpectedValueView::StringArray(texts))) + ","@ + s
        }),
{
    let shown = numbers.map_values(|n: ShownNumberView| n.display);
    let more = numbers.push(n).map_values(|n: ShownNumberView| n.display);
    assert(more =~= shown.push(n.display));
    assert(more.drop_last() =~= shown);
    assert(texts.push(s).drop_last() =~= texts);
}

/// A validator without an expression is shown as what the value must be: its
/// operator and its expected value, as far as it has them.
pub proof fn law_validators_are_described(v: ValidatorSpecView)
    requires
        v.expression is None,
    ensures
        ({
            let text = live_validator(v).expression;
            let value = shown_value(v.expected_value);
            let bare = v.operator is None || trimmed(v.operator->0).len() == 0;
            &&& bare && value.len() == 0 ==> text.len() == 0
            &&& bare && value.len() > 0 ==> text == "x  "@ + value
            &&& !bare && value.len() == 0 ==> text == "x "@ + trimmed(v.operator->0)
            &&& !bare && value.len() > 0 ==> text == "x "@ + trimmed(v.operator->0) + " "@ + value
        }),
{
    reveal_strlit("x ");
    reveal_strlit("x  ");
    reveal_strlit(" ");
    let value = shown_value(v.expected_value);
    assert(trimmed(Seq::empty()).len() == 0);
    if v.operator is None || trimmed(v.operator->0).len() == 0 {
        let op = trimmed(
            match v.operator {
                Some(op) => op,
                None => Seq::empty(),
            },
        );
        assert("x "@ + op + " "@ + value =~= "x  "@ + value);
    }
}

/// Whether a text names a failed validator: by its expression, or else by its
/// operator, `?` where it has none, and its expected value.
pub open spec fn names_validator(text: Seq<char>, v: ValidatorSpecView) -> bool {
    let value = if v.expected_value is Some {
        json_text(expected_json(v.expected_value->0))
    } else {
        Seq::empty()
    };
    &&& v.expression is Some ==> text == v.expression->0
    &&& v.expression is None && v.operator is Some ==> text == v.operator->0 + " "@ + value
    &&& v.expression is None && v.operator is None ==> text == "?"@ + " "@ + value
}

/// The validators that failed.
pub open spec fn failed_ones(vs: Seq<ValidatorSpecView>) -> Seq<ValidatorSpecView> {
    vs.filter(|v: ValidatorSpecView| v.outcome == Some(ValidatorOutcome::Fail))
}

/// Whether texts name the validators that failed, in order.
pub open spec fn names_failed(texts: Seq<Seq<char>>, vs: Seq<ValidatorSpecView>) -> bool {
    &&& texts.len() == failed_ones(vs).len()
    &&& forall|i: int|
        0 <= i < texts.len() ==> names_validator(#[trigger] texts[i], failed_ones(vs)[i])
}

proof fn lemma_names_failed(vs: Seq<ValidatorSpecView>)
    ensures
        names_failed(failure_texts(vs), vs),
    decreases vs.len(),
{
    reveal(Seq::filter);
    if vs.len() > 0 {
        lemma_names_failed(vs.drop_last());
    }
}

/// A measurement that failed is told by its name and by the validators that
/// failed, in order; one without such a validator is not told.
pub proof fn law_failed_validators_are_named(m: MeasurementView)
    ensures
        measurement_failure(m) is Some <==> m.validators is Some && failed_ones(
            m.validators->0,
        ).len() > 0,
        measurement_failure(m) matches Some(told) ==> exists|texts: Seq<Seq<char>>|
            names_failed(texts, m.validators->0) && told == "measurement `"@ + m.name
                + "` failed: "@ + #[trigger] joined(texts, ", "@),
{
    if m.validators is Some {
        lemma_names_failed(m.validators->0);
    }
}

/// The error of a phase tells its failed measurements, in order.
pub proof fn law_failures_are_told_in_order(
    outcome: Outcome,
    ms: Seq<MeasurementView>,
    last: MeasurementView,
)
    requires
        outcome is Fail || outcome is Error || outcome is Timeout,
    ensures
        measurement_error(outcome, Seq::empty()) is None,
        measurement_failure(last) is None ==> measurement_error(outcome, ms.push(last))
            == measurement_error(outcome, ms),
        measurement_failure(last) matches Some(told) ==> {
            let before = measurement_error(outcome, ms);
            &&& before is None ==> measurement_error(outcome, ms.push(last)) == Some(told)
            &&& before is Some ==> measurement_error(outcome, ms.push(last)) == Some(
                before->0 + "; "@ + told,
            )
        },
{
    assert(ms.push(last).drop_last() =~= ms);
    if let Some(told) = measurement_failure(last) {
        let before = measurement_failures(ms);
        assert(before.push(told).drop_last() =~= before);
    }
}

} // verus!
