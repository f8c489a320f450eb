//! Measurements on their way to the upload and to live views.

use vstd::prelude::*;
use vstd::string::*;
use crate::dup::{push, Dup};
use crate::engine::model::{
    AggregationSpec, AggregationSpecView, AggregationValue, AggregationValueView, Axis, AxisData,
    AxisDataView, AxisView, Measurement, MeasurementView, Outcome,
    ShownNumberView, ValidatorExpectedValue, ValidatorExpectedValueView, ValidatorOutcome,
    ValidatorSpec, ValidatorSpecView,
};
use crate::json::{json_text, Json, JsonView};
use crate::protocol::{
    AggregationResult, AggregationResultView, RunMeasurement, RunMeasurementView, ValidatorResult,
    ValidatorResultView,
};
use crate::sdk::{
    MeasurementOutcome, RunCreateAggregation, RunCreateAggregationView, RunCreateAxis,
    RunCreateAxisView, RunCreateMeasurement, RunCreateMeasurementView, RunCreateValidator,
    RunCreateValidatorView,
};
use crate::text;
use crate::text::{joined, trimmed};

verus! {

// ---------------------------------------------------------------------------
// Plain JSON
// ---------------------------------------------------------------------------

/// The expected value of a validator as plain JSON.
pub open spec fn expected_json(value: ValidatorExpectedValueView) -> JsonView {
    match value {
        ValidatorExpectedValueView::Number(n) => JsonView::Number(n.json),
        ValidatorExpectedValueView::String(s) => JsonView::Text(s),
        ValidatorExpectedValueView::Boolean(b) => JsonView::Bool(b),
        ValidatorExpectedValueView::Null => JsonView::Null,
        ValidatorExpectedValueView::NumberArray(a) => JsonView::Array(
            a.map_values(|n: ShownNumberView| JsonView::Number(n.json)),
        ),
        ValidatorExpectedValueView::StringArray(a) => JsonView::Array(
            a.map_values(|s: Seq<char>| JsonView::Text(s)),
        ),
        ValidatorExpectedValueView::MixedArray(a) => JsonView::Array(a),
        ValidatorExpectedValueView::Object(o) => JsonView::Object(o),
    }
}

/// Renders the expected value of a validator as plain JSON.
pub fn expected_value_to_json(value: &ValidatorExpectedValue) -> (json: Json)
    ensures
        json.deep_view() == expected_json(value.deep_view()),
{
    match value {
        ValidatorExpectedValue::Number(n) => Json::Number(n.json.dup()),
        ValidatorExpectedValue::String(s) => Json::Text(s.dup()),
        ValidatorExpectedValue::Boolean(b) => Json::Bool(*b),
        ValidatorExpectedValue::Null => Json::Null,
        ValidatorExpectedValue::NumberArray(a) => {
            let mut items: Vec<Json> = Vec::new();
            let mut i: usize = 0;
            while i < a.len()
                invariant
                    i <= a@.len(),
                    items@.len() == i,
                    forall|k: int|
                        0 <= k < i ==> (#[trigger] items@[k]).deep_view() == JsonView::Number(
                            a@[k].json.deep_view(),
                        ),
                decreases a@.len() - i,
            {
                items.push(Json::Number(a[i].json.dup()));
                i += 1;
            }
            assert(items.deep_view() =~= a.deep_view().map_values(
                |n: ShownNumberView| JsonView::Number(n.json),
            ));
            Json::array(items)
        },
        ValidatorExpectedValue::StringArray(a) => {
            let mut items: Vec<Json> = Vec::new();
            let mut i: usize = 0;
            while i < a.len()
                invariant
                    i <= a@.len(),
                    items@.len() == i,
                    forall|k: int|
                        0 <= k < i ==> (#[trigger] items@[k]).deep_view() == JsonView::Text(a@[k]@),
                decreases a@.len() - i,
            {
                items.push(Json::Text(a[i].dup()));
                i += 1;
            }
            assert(items.deep_view() =~= a.deep_view().map_values(
                |s: Seq<char>| JsonView::Text(s),
            ));
            Json::array(items)
        },
        ValidatorExpectedValue::MixedArray(a) => Json::array(a.dup()),
        ValidatorExpectedValue::Object(o) => Json::object(o.dup()),
    }
}

/// The value of an aggregation as plain JSON.
pub open spec fn aggregation_json(value: AggregationValueView) -> JsonView {
    match value {
        AggregationValueView::Number(n) => JsonView::Number(n),
        AggregationValueView::String(s) => JsonView::Text(s),
        AggregationValueView::Boolean(b) => JsonView::Bool(b),
        AggregationValueView::Object(o) => JsonView::Object(o),
    }
}

/// Renders the value of an aggregation as plain JSON.
pub fn aggregation_value_to_json(value: &AggregationValue) -> (json: Json)
    ensures
        json.deep_view() == aggregation_json(value.deep_view()),
{
    match value {
        AggregationValue::Number(n) => Json::Number(n.dup()),
        AggregationValue::String(s) => Json::Text(s.dup()),
        AggregationValue::Boolean(b) => Json::Bool(*b),
        AggregationValue::Object(o) => Json::object(o.dup()),
    }
}

// ---------------------------------------------------------------------------
// Verdicts
// ---------------------------------------------------------------------------

/// The upload verdict of an engine verdict.
pub open spec fn wire_outcome(outcome: ValidatorOutcome) -> MeasurementOutcome {
    match outcome {
        ValidatorOutcome::Pass => MeasurementOutcome::Pass,
        ValidatorOutcome::Fail => MeasurementOutcome::Fail,
        ValidatorOutcome::Unset => MeasurementOutcome::Unset,
    }
}

/// Maps an engine verdict to the upload verdict.
pub fn validator_outcome_to_wire(outcome: ValidatorOutcome) -> (wire: MeasurementOutcome)
    ensures
        wire == wire_outcome(outcome),
{
    match outcome {
        ValidatorOutcome::Pass => MeasurementOutcome::Pass,
        ValidatorOutcome::Fail => MeasurementOutcome::Fail,
        ValidatorOutcome::Unset => MeasurementOutcome::Unset,
    }
}

/// The word of an engine verdict in live views.
pub open spec fn verdict_word(outcome: ValidatorOutcome) -> Seq<char> {
    match outcome {
        ValidatorOutcome::Pass => "PASS"@,
        ValidatorOutcome::Fail => "FAIL"@,
        ValidatorOutcome::Unset => "UNSET"@,
    }
}

/// The word of an engine verdict in live views.
pub fn validator_outcome_wire_str(outcome: ValidatorOutcome) -> (word: &'static str)
    ensures
        word@ == verdict_word(outcome),
{
    match outcome {
        ValidatorOutcome::Pass => "PASS",
        ValidatorOutcome::Fail => "FAIL",
        ValidatorOutcome::Unset => "UNSET",
    }
}

/// The word of an optional engine verdict; a missing one is unset.
pub open spec fn verdict_word_of(outcome: Option<ValidatorOutcome>) -> Seq<char> {
    match outcome {
        Some(outcome) => verdict_word(outcome),
        None => "UNSET"@,
    }
}

fn outcome_word_of(outcome: Option<ValidatorOutcome>) -> (word: String)
    ensures
        word@ == verdict_word_of(outcome),
{
    match outcome {
        Some(outcome) => validator_outcome_wire_str(outcome).to_string(),
        None => "UNSET".to_string(),
    }
}

/// Whether a validator failed.
pub open spec fn failed(v: ValidatorSpecView) -> bool {
    v.outcome == Some(ValidatorOutcome::Fail)
}

/// The verdict of a measurement: a failed validator fails it, passing ones
/// pass it, and anything else leaves it open.
pub open spec fn rolled_up(validators: Option<Seq<ValidatorSpecView>>) -> MeasurementOutcome {
    match validators {
        None => MeasurementOutcome::Unset,
        Some(vs) => if exists|i: int| 0 <= i < vs.len() && failed(#[trigger] vs[i]) {
            MeasurementOutcome::Fail
        } else if forall|i: int|
            0 <= i < vs.len() ==> (#[trigger] vs[i]).outcome == Some(ValidatorOutcome::Pass) {
            MeasurementOutcome::Pass
        } else {
            MeasurementOutcome::Unset
        },
    }
}

fn roll_up(validators: &Option<Vec<ValidatorSpec>>) -> (outcome: MeasurementOutcome)
    ensures
        outcome == rolled_up(validators.deep_view()),
{
    match validators {
        None => MeasurementOutcome::Unset,
        Some(vs) => {
            let mut all_pass = true;
            let mut i: usize = 0;
            while i < vs.len()
                invariant
                    i <= vs@.len(),
                    validators.deep_view() == Some(vs.deep_view()),
                    forall|k: int| 0 <= k < i ==> !failed(#[trigger] vs.deep_view()[k]),
                    all_pass == (forall|k: int|
                        0 <= k < i ==> (#[trigger] vs.deep_view()[k]).outcome == Some(
                            ValidatorOutcome::Pass,
                        )),
                decreases vs@.len() - i,
            {
                assert(vs.deep_view()[i as int] == vs@[i as int].deep_view());
                match vs[i].outcome {
                    Some(ValidatorOutcome::Fail) => {
                        assert(failed(vs.deep_view()[i as int]));
                        return MeasurementOutcome::Fail;
                    },
                    Some(ValidatorOutcome::Pass) => {},
                    _ => {
                        all_pass = false;
                    },
                }
                i += 1;
            }
            if all_pass {
                MeasurementOutcome::Pass
            } else {
                MeasurementOutcome::Unset
            }
        },
    }
}

// ---------------------------------------------------------------------------
// Upload shapes
// ---------------------------------------------------------------------------

/// A validator of the upload.
pub open spec fn upload_validator(v: ValidatorSpecView) -> RunCreateValidatorView {
    RunCreateValidatorView {
        outcome: match v.outcome {
            Some(o) => Some(wire_outcome(o)),
            None => None,
        },
        operator: v.operator,
        expected_value: match v.expected_value {
            Some(e) => Some(expected_json(e)),
            None => None,
        },
        expression: v.expression,
        is_decisive: None,
    }
}

/// The validators of the upload; an empty list is left out.
pub open spec fn upload_validators(validators: Option<Seq<ValidatorSpecView>>) -> Option<
    Seq<RunCreateValidatorView>,
> {
    match validators {
        Some(vs) => if vs.len() > 0 {
            Some(vs.map_values(|v: ValidatorSpecView| upload_validator(v)))
        } else {
            None
        },
        None => None,
    }
}

fn map_validator(v: &ValidatorSpec) -> (out: RunCreateValidator)
    ensures
        out.deep_view() == upload_validator(v.deep_view()),
{
    RunCreateValidator {
        outcome: match v.outcome {
            Some(o) => Some(validator_outcome_to_wire(o)),
            None => None,
        },
        operator: v.operator.dup(),
        expected_value: match &v.expected_value {
            Some(e) => Some(expected_value_to_json(e)),
            None => None,
        },
        expression: v.expression.dup(),
        is_decisive: None,
    }
}

fn map_validators(validators: &Option<Vec<ValidatorSpec>>) -> (out: Option<Vec<RunCreateValidator>>)
    ensures
        out.deep_view() == upload_validators(validators.deep_view()),
{
    match validators {
        None => None,
        Some(vs) => {
            if vs.len() == 0 {
                return None;
            }
            let mut out: Vec<RunCreateValidator> = Vec::new();
            let mut i: usize = 0;
            while i < vs.len()
                invariant
                    i <= vs@.len(),
                    out@.len() == i,
                    forall|k: int|
                        0 <= k < i ==> (#[trigger] out@[k]).deep_view() == upload_validator(
                            vs@[k].deep_view(),
                        ),
                decreases vs@.len() - i,
            {
                out.push(map_validator(&vs[i]));
                i += 1;
            }
            assert(out.deep_view() =~= vs.deep_view().map_values(
                |v: ValidatorSpecView| upload_validator(v),
            ));
            Some(out)
        },
    }
}

/// An aggregation of the upload.
pub open spec fn upload_aggregation(a: AggregationSpecView) -> RunCreateAggregationView {
    RunCreateAggregationView {
        aggregation_type: a.aggregation_type,
        outcome: match a.outcome {
            Some(o) => Some(wire_outcome(o)),
            None => None,
        },
        value: match a.value {
            Some(v) => Some(aggregation_json(v)),
            None => None,
        },
        unit: a.unit,
        validators: upload_validators(a.validators),
    }
}

/// The aggregations of the upload; an empty list is left out.
pub open spec fn upload_aggregations(aggregations: Option<Seq<AggregationSpecView>>) -> Option<
    Seq<RunCreateAggregationView>,
> {
    match aggregations {
        Some(xs) => if xs.len() > 0 {
            Some(xs.map_values(|a: AggregationSpecView| upload_aggregation(a)))
        } else {
            None
        },
        None => None,
    }
}

fn map_aggregation(a: &AggregationSpec) -> (out: RunCreateAggregation)
    ensures
        out.deep_view() == upload_aggregation(a.deep_view()),
{
    RunCreateAggregation {
        aggregation_type: a.aggregation_type.dup(),
        outcome: match a.outcome {
            Some(o) => Some(validator_outcome_to_wire(o)),
            None => None,
        },
        value: match &a.value {
            Some(v) => Some(aggregation_value_to_json(v)),
            None => None,
        },
        unit: a.unit.dup(),
        validators: map_validators(&a.validators),
    }
}

fn map_aggregations(aggregations: &Option<Vec<AggregationSpec>>) -> (out: Option<
    Vec<RunCreateAggregation>,
>)
    ensures
        out.deep_view() == upload_aggregations(aggregations.deep_view()),
{
    match aggregations {
        None => None,
        Some(xs) => {
            if xs.len() == 0 {
                return None;
            }
            let mut out: Vec<RunCreateAggregation> = Vec::new();
            let mut i: usize = 0;
            while i < xs.len()
                invariant
                    i <= xs@.len(),
                    out@.len() == i,
                    forall|k: int|
                        0 <= k < i ==> (#[trigger] out@[k]).deep_view() == upload_aggregation(
                            xs@[k].deep_view(),
                        ),
                decreases xs@.len() - i,
            {
                out.push(map_aggregation(&xs[i]));
                i += 1;
            }
            assert(out.deep_view() =~= xs.deep_view().map_values(
                |a: AggregationSpecView| upload_aggregation(a),
            ));
            Some(out)
        },
    }
}

/// The label of an axis: its legend, or its key where it has none.
pub open spec fn axis_label(axis: AxisView) -> Option<Seq<char>> {
    if axis.legend is Some {
        axis.legend
    } else {
        axis.key
    }
}

/// An axis of the upload with the given data.
pub open spec fn upload_axis(axis: AxisView, data: Seq<u64>) -> RunCreateAxisView {
    RunCreateAxisView {
        data,
        units: axis.unit,
        name: axis_label(axis),
        description: None,
        validators: upload_validators(axis.validators),
        aggregations: upload_aggregations(axis.aggregations),
    }
}

/// The numbers of an axis; `None` where it has no numeric data.
pub open spec fn numeric_data(axis: AxisView) -> Option<Seq<u64>> {
    match axis.data {
        Some(AxisDataView::Numeric(data)) => Some(data),
        _ => None,
    }
}

fn map_axis(axis: &Axis, data: Vec<u64>) -> (out: RunCreateAxis)
    ensures
        out.deep_view() == upload_axis(axis.deep_view(), data.deep_view()),
{
    RunCreateAxis {
        data,
        units: axis.unit.dup(),
        name: match &axis.legend {
            Some(legend) => Some(legend.dup()),
            None => axis.key.dup(),
        },
        description: None,
        validators: map_validators(&axis.validators),
        aggregations: map_aggregations(&axis.aggregations),
    }
}

fn axis_numbers(axis: &Axis) -> (data: Option<Vec<u64>>)
    ensures
        data.deep_view() == numeric_data(axis.deep_view()),
{
    match &axis.data {
        Some(AxisData::Numeric(data)) => Some(data.dup()),
        _ => None,
    }
}

/// The y axes of the upload: those with numeric data, in order.
pub open spec fn upload_y_axes(axes: Seq<AxisView>) -> Seq<RunCreateAxisView>
    decreases axes.len(),
{
    if axes.len() == 0 {
        Seq::empty()
    } else {
        let rest = upload_y_axes(axes.drop_last());
        match numeric_data(axes.last()) {
            Some(data) => rest.push(upload_axis(axes.last(), data)),
            None => rest,
        }
    }
}

fn map_y_axes(axes: &Vec<Axis>) -> (out: Vec<RunCreateAxis>)
    ensures
        out.deep_view() == upload_y_axes(axes.deep_view()),
{
    let mut out: Vec<RunCreateAxis> = Vec::new();
    let mut i: usize = 0;
    assert(out.deep_view() =~= upload_y_axes(axes.deep_view().take(0)));
    while i < axes.len()
        invariant
            i <= axes@.len(),
            out.deep_view() == upload_y_axes(axes.deep_view().take(i as int)),
        decreases axes@.len() - i,
    {
        let ghost now = axes.deep_view().take(i + 1);
        assert(now.drop_last() =~= axes.deep_view().take(i as int));
        assert(now.last() == axes@[i as int].deep_view());
        match axis_numbers(&axes[i]) {
            Some(data) => {
                push(&mut out, map_axis(&axes[i], data));
            },
            None => {},
        }
        i += 1;
    }
    assert(axes.deep_view().take(axes@.len() as int) =~= axes.deep_view());
    out
}

/// A measurement of the upload.
pub open spec fn upload_measurement(m: MeasurementView) -> RunCreateMeasurementView {
    RunCreateMeasurementView {
        name: m.name,
        outcome: rolled_up(m.validators),
        x_axis: match m.axes {
            Some(axes) => Some(
                upload_axis(
                    axes.x_axis,
                    match numeric_data(axes.x_axis) {
                        Some(data) => data,
                        None => Seq::empty(),
                    },
                ),
            ),
            None => None,
        },
        y_axis: match m.axes {
            Some(axes) => if upload_y_axes(axes.y_axis).len() > 0 {
                Some(upload_y_axes(axes.y_axis))
            } else {
                None
            },
            None => None,
        },
        measured_value: match m.axes {
            Some(_) => None,
            None => Some(m.raw),
        },
        units: match (m.axes, m.unit) {
            (None, Some(unit)) => Some(JsonView::Text(unit)),
            _ => None,
        },
        validators: upload_validators(m.validators),
        aggregations: upload_aggregations(m.aggregations),
        docstring: m.description,
    }
}

/// Builds a measurement of the upload. A multi-dimensional one carries its
/// axes, any other its value and unit.
pub fn build_measurement(m: &Measurement) -> (out: RunCreateMeasurement)
    ensures
        out.deep_view() == upload_measurement(m.deep_view()),
{
    let outcome = roll_up(&m.validators);
    let mut x_axis: Option<RunCreateAxis> = None;
    let mut y_axis: Option<Vec<RunCreateAxis>> = None;
    let mut measured_value: Option<Json> = None;
    let mut units: Option<Json> = None;
    match &m.axes {
        Some(axes) => {
            let data = match axis_numbers(&axes.x_axis) {
                Some(data) => data,
                None => Vec::new(),
            };
            assert(numeric_data(axes.x_axis.deep_view()) is None ==> data.deep_view()
                =~= Seq::<u64>::empty());
            x_axis = Some(map_axis(&axes.x_axis, data));
            let ys = map_y_axes(&axes.y_axis);
            if ys.len() > 0 {
                y_axis = Some(ys);
            }
        },
        None => {
            measured_value = Some(m.raw.dup());
            match &m.unit {
                Some(unit) => {
                    units = Some(Json::Text(unit.dup()));
                },
                None => {},
            }
        },
    }
    RunCreateMeasurement {
        name: m.name.dup(),
        outcome,
        x_axis,
        y_axis,
        measured_value,
        units,
        validators: map_validators(&m.validators),
        aggregations: map_aggregations(&m.aggregations),
        docstring: m.description.dup(),
    }
}

// ---------------------------------------------------------------------------
// Live views
// ---------------------------------------------------------------------------

/// The display text of an expected value; empty where it has none.
pub open spec fn shown_value(value: Option<ValidatorExpectedValueView>) -> Seq<char> {
    match value {
        Some(ValidatorExpectedValueView::Number(n)) => n.display,
        Some(ValidatorExpectedValueView::Boolean(b)) => if b {
            "true"@
        } else {
            "false"@
        },
        Some(ValidatorExpectedValueView::String(s)) => s,
        Some(ValidatorExpectedValueView::NumberArray(a)) => joined(
            a.map_values(|n: ShownNumberView| n.display),
            ","@,
        ),
        Some(ValidatorExpectedValueView::StringArray(a)) => joined(a, ","@),
        _ => Seq::empty(),
    }
}

/// A validator as a short text: `x`, the operator, and the expected value,
/// as far as there are any.
pub open spec fn validator_text(v: ValidatorSpecView) -> Seq<char> {
    let op = trimmed(
        match v.operator {
            Some(op) => op,
            None => Seq::empty(),
        },
    );
    let value = shown_value(v.expected_value);
    if op.len() == 0 && value.len() == 0 {
        Seq::empty()
    } else if value.len() == 0 {
        "x "@ + op
    } else {
        "x "@ + op + " "@ + value
    }
}

fn render_expected(value: &Option<ValidatorExpectedValue>) -> (s: String)
    ensures
        s@ == shown_value(value.deep_view()),
{
    match value {
        Some(ValidatorExpectedValue::Number(n)) => n.display.dup(),
        Some(ValidatorExpectedValue::Boolean(b)) => if *b {
            "true".to_string()
        } else {
            "false".to_string()
        },
        Some(ValidatorExpectedValue::String(s)) => s.dup(),
        Some(ValidatorExpectedValue::NumberArray(a)) => {
            let mut parts: Vec<String> = Vec::new();
            let mut i: usize = 0;
            while i < a.len()
                invariant
                    i <= a@.len(),
                    parts@.len() == i,
                    forall|k: int| 0 <= k < i ==> (#[trigger] parts@[k])@ == a@[k].display@,
                decreases a@.len() - i,
            {
                parts.push(a[i].display.dup());
                i += 1;
            }
            assert(parts.deep_view() =~= a.deep_view().map_values(
                |n: ShownNumberView| n.display,
            ));
            text::join(&parts, ",")
        },
        Some(ValidatorExpectedValue::StringArray(a)) => text::join(a, ","),
        _ => String::new(),
    }
}

/// Renders a validator as a short display text.
pub fn format_validator_expression(v: &ValidatorSpec) -> (s: String)
    ensures
        s@ == validator_text(v.deep_view()),
{
    let op = match &v.operator {
        Some(op) => text::trim(op.as_str()),
        None => text::trim(""),
    };
    proof {
        reveal_strlit("");
        assert(""@ =~= Seq::<char>::empty());
    }
    let rendered = render_expected(&v.expected_value);
    if op.as_str().is_empty() && rendered.as_str().is_empty() {
        String::new()
    } else if rendered.as_str().is_empty() {
        text::concat2("x ", op.as_str())
    } else {
        let mut s = text::concat3("x ", op.as_str(), " ");
        s.append(rendered.as_str());
        s
    }
}

/// A validator in live views.
pub open spec fn live_validator(v: ValidatorSpecView) -> ValidatorResultView {
    ValidatorResultView {
        expression: match v.expression {
            Some(expression) => expression,
            None => validator_text(v),
        },
        outcome: verdict_word_of(v.outcome),
        is_decisive: None,
    }
}

/// Validators in live views.
pub open spec fn live_validators(vs: Seq<ValidatorSpecView>) -> Seq<ValidatorResultView> {
    vs.map_values(|v: ValidatorSpecView| live_validator(v))
}

/// Shows validators in live views.
pub fn validator_specs_to_results(vs: &Vec<ValidatorSpec>) -> (out: Vec<ValidatorResult>)
    ensures
        out.deep_view() == live_validators(vs.deep_view()),
{
    let mut out: Vec<ValidatorResult> = Vec::new();
    let mut i: usize = 0;
    while i < vs.len()
        invariant
            i <= vs@.len(),
            out@.len() == i,
            forall|k: int|
                0 <= k < i ==> (#[trigger] out@[k]).deep_view() == live_validator(
                    vs@[k].deep_view(),
                ),
        decreases vs@.len() - i,
    {
        let expression = match &vs[i].expression {
            Some(expression) => expression.dup(),
            None => format_validator_expression(&vs[i]),
        };
        out.push(
            ValidatorResult {
                expression,
                outcome: outcome_word_of(vs[i].outcome),
                is_decisive: None,
            },
        );
        i += 1;
    }
    assert(out.deep_view() =~= live_validators(vs.deep_view()));
    out
}

/// The validators of a measurement in live views.
pub open spec fn live_validators_of(validators: Option<Seq<ValidatorSpecView>>) -> Seq<
    ValidatorResultView,
> {
    match validators {
        Some(vs) => live_validators(vs),
        None => Seq::empty(),
    }
}

/// Shows the validators of a measurement in live views.
pub fn build_validator_results(validators: &Option<Vec<ValidatorSpec>>) -> (out: Vec<
    ValidatorResult,
>)
    ensures
        out.deep_view() == live_validators_of(validators.deep_view()),
{
    match validators {
        Some(vs) => validator_specs_to_results(vs),
        None => {
            let out: Vec<ValidatorResult> = Vec::new();
            assert(out.deep_view() =~= Seq::empty());
            out
        },
    }
}

/// An aggregation in live views.
pub open spec fn live_aggregation(a: AggregationSpecView) -> AggregationResultView {
    AggregationResultView {
        aggregation_type: a.aggregation_type,
        value: match a.value {
            Some(v) => Some(aggregation_json(v)),
            None => None,
        },
        unit: a.unit,
        outcome: verdict_word_of(a.outcome),
        validators: live_validators_of(a.validators),
    }
}

/// The aggregations of a measurement in live views.
pub open spec fn live_aggregations(aggregations: Option<Seq<AggregationSpecView>>) -> Seq<
    AggregationResultView,
> {
    match aggregations {
        Some(xs) => xs.map_values(|a: AggregationSpecView| live_aggregation(a)),
        None => Seq::empty(),
    }
}

/// Shows the aggregations of a measurement in live views.
pub fn build_aggregation_results(aggregations: &Option<Vec<AggregationSpec>>) -> (out: Vec<
    AggregationResult,
>)
    ensures
        out.deep_view() == live_aggregations(aggregations.deep_view()),
{
    let mut out: Vec<AggregationResult> = Vec::new();
    match aggregations {
        Some(xs) => {
            let mut i: usize = 0;
            while i < xs.len()
                invariant
                    i <= xs@.len(),
                    out@.len() == i,
                    forall|k: int|
                        0 <= k < i ==> (#[trigger] out@[k]).deep_view() == live_aggregation(
                            xs@[k].deep_view(),
                        ),
                decreases xs@.len() - i,
            {
                out.push(
                    AggregationResult {
                        aggregation_type: xs[i].aggregation_type.dup(),
                        value: match &xs[i].value {
                            Some(v) => Some(aggregation_value_to_json(v)),
                            None => None,
                        },
                        unit: xs[i].unit.dup(),
                        outcome: outcome_word_of(xs[i].outcome),
                        validators: build_validator_results(&xs[i].validators),
                    },
                );
                i += 1;
            }
        },
        None => {},
    }
    assert(out.deep_view() =~= live_aggregations(aggregations.deep_view()));
    out
}

/// A measurement in live views.
pub open spec fn live_measurement(m: MeasurementView) -> RunMeasurementView {
    RunMeasurementView {
        name: m.name,
        outcome: verdict_word(m.outcome),
        measured_value: Some(m.raw),
        units: m.unit,
        validators: live_validators_of(m.validators),
        aggregations: live_aggregations(m.aggregations),
    }
}

/// The measurements of a phase in live views.
pub open spec fn live_measurements(ms: Seq<MeasurementView>) -> Seq<RunMeasurementView> {
    ms.map_values(|m: MeasurementView| live_measurement(m))
}

/// Shows the measurements of a phase in live views.
pub fn build_run_measurements(ms: &Vec<Measurement>) -> (out: Vec<RunMeasurement>)
    ensures
        out.deep_view() == live_measurements(ms.deep_view()),
{
    let mut out: Vec<RunMeasurement> = Vec::new();
    let mut i: usize = 0;
    while i < ms.len()
        invariant
            i <= ms@.len(),
            out@.len() == i,
            forall|k: int|
                0 <= k < i ==> (#[trigger] out@[k]).deep_view() == live_measurement(
                    ms@[k].deep_view(),
                ),
        decreases ms@.len() - i,
    {
        out.push(
            RunMeasurement {
                name: ms[i].name.dup(),
                outcome: validator_outcome_wire_str(ms[i].outcome).to_string(),
                measured_value: Some(ms[i].raw.dup()),
                units: ms[i].unit.dup(),
                validators: build_validator_results(&ms[i].validators),
                aggregations: build_aggregation_results(&ms[i].aggregations),
            },
        );
        i += 1;
    }
    assert(out.deep_view() =~= live_measurements(ms.deep_view()));
    out
}

// ---------------------------------------------------------------------------
// Errors told from measurements
// ---------------------------------------------------------------------------

/// How a failed validator is named in an error.
pub open spec fn failure_text(v: ValidatorSpecView) -> Seq<char> {
    match v.expression {
        Some(expression) => expression,
        None => (match v.operator {
            Some(op) => op,
            None => "?"@,
        }) + " "@ + (match v.expected_value {
            Some(e) => json_text(expected_json(e)),
            None => Seq::empty(),
        }),
    }
}

/// The names of the failed validators, in order.
pub open spec fn failure_texts(vs: Seq<ValidatorSpecView>) -> Seq<Seq<char>>
    decreases vs.len(),
{
    if vs.len() == 0 {
        Seq::empty()
    } else {
        let rest = failure_texts(vs.drop_last());
        if failed(vs.last()) {
            rest.push(failure_text(vs.last()))
        } else {
            rest
        }
    }
}

/// What the failed validators of one measurement are told as; `None` where
/// none failed.
pub open spec fn measurement_failure(m: MeasurementView) -> Option<Seq<char>> {
    match m.validators {
        Some(vs) => if failure_texts(vs).len() > 0 {
            Some("measurement `"@ + m.name + "` failed: "@ + joined(failure_texts(vs), ", "@))
        } else {
            None
        },
        None => None,
    }
}

/// What the failed measurements are told as, in order.
pub open spec fn measurement_failures(ms: Seq<MeasurementView>) -> Seq<Seq<char>>
    decreases ms.len(),
{
    if ms.len() == 0 {
        Seq::empty()
    } else {
        let rest = measurement_failures(ms.drop_last());
        match measurement_failure(ms.last()) {
            Some(failure) => rest.push(failure),
            None => rest,
        }
    }
}

/// The error of a phase that failed on its measurements; `None` where the
/// phase did not fail or no validator did.
pub open spec fn measurement_error(outcome: Outcome, ms: Seq<MeasurementView>) -> Option<
    Seq<char>,
> {
    if (outcome == Outcome::Fail || outcome == Outcome::Error || outcome == Outcome::Timeout)
        && measurement_failures(ms).len() > 0 {
        Some(joined(measurement_failures(ms), "; "@))
    } else {
        None
    }
}

fn failed_validator_text(v: &ValidatorSpec) -> (s: String)
    ensures
        s@ == failure_text(v.deep_view()),
{
    match &v.expression {
        Some(expression) => expression.dup(),
        None => {
            let op = match &v.operator {
                Some(op) => op.dup(),
                None => "?".to_string(),
            };
            let value = match &v.expected_value {
                Some(e) => expected_value_to_json(e).render(),
                None => String::new(),
            };
            text::concat3(op.as_str(), " ", value.as_str())
        },
    }
}

fn failed_validator_texts(vs: &Vec<ValidatorSpec>) -> (out: Vec<String>)
    ensures
        out.deep_view() == failure_texts(vs.deep_view()),
{
    let mut out: Vec<String> = Vec::new();
    let mut i: usize = 0;
    assert(out.deep_view() =~= failure_texts(vs.deep_view().take(0)));
    while i < vs.len()
        invariant
            i <= vs@.len(),
            out.deep_view() == failure_texts(vs.deep_view().take(i as int)),
        decreases vs@.len() - i,
    {
        let ghost now = vs.deep_view().take(i + 1);
        assert(now.drop_last() =~= vs.deep_view().take(i as int));
        assert(now.last() == vs@[i as int].deep_view());
        match vs[i].outcome {
            Some(ValidatorOutcome::Fail) => {
                push(&mut out, failed_validator_text(&vs[i]));
            },
            _ => {},
        }
        i += 1;
    }
    assert(vs.deep_view().take(vs@.len() as int) =~= vs.deep_view());
    out
}

fn failed_measurement_text(m: &Measurement) -> (s: Option<String>)
    ensures
        s.deep_view() == measurement_failure(m.deep_view()),
{
    match &m.validators {
        Some(vs) => {
            let texts = failed_validator_texts(vs);
            if texts.len() == 0 {
                return None;
            }
            let mut s = text::concat3("measurement `", m.name.as_str(), "` failed: ");
            let list = text::join(&texts, ", ");
            s.append(list.as_str());
            Some(s)
        },
        None => None,
    }
}

/// Builds an error text from the failed validators of a phase.
pub fn synthesize_measurement_error(outcome: Outcome, ms: &Vec<Measurement>) -> (error: Option<
    String,
>)
    ensures
        error.deep_view() == measurement_error(outcome, ms.deep_view()),
{
    match outcome {
        Outcome::Fail | Outcome::Error | Outcome::Timeout => {},
        _ => {
            return None;
        },
    }
    let mut failures: Vec<String> = Vec::new();
    let mut i: usize = 0;
    assert(failures.deep_view() =~= measurement_failures(ms.deep_view().take(0)));
    while i < ms.len()
        invariant
            i <= ms@.len(),
            failures.deep_view() == measurement_failures(ms.deep_view().take(i as int)),
        decreases ms@.len() - i,
    {
        let ghost now = ms.deep_view().take(i + 1);
        assert(now.drop_last() =~= ms.deep_view().take(i as int));
        assert(now.last() == ms@[i as int].deep_view());
        match failed_measurement_text(&ms[i]) {
            Some(failure) => {
                push(&mut failures, failure);
            },
            None => {},
        }
        i += 1;
    }
    assert(ms.deep_view().take(ms@.len() as int) =~= ms.deep_view());
    if failures.len() == 0 {
        return None;
    }
    Some(text::join(&failures, "; "))
}

} // verus!
