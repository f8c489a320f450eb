//! The upload of a run that a Python framework carried out.
//!
//! The framework reports phases, measurements and the end of the test as JSON
//! values. They are read field by field: what is missing or of the wrong kind
//! is left out, and the rest is kept.

use vstd::prelude::*;
use vstd::string::*;
use crate::dup::{push, Dup};
use crate::engine::model::{KeyText, KeyTextView};
use crate::json::{
    json_member, json_text, member_bool, member_int, member_items, member_text, Json, JsonView,
};
use crate::log_source::{sanitize_source_file, source_name};
use crate::outcomes::{
    level_of, parse_log_level, validator_outcome_from_wire, wire_verdict, ABORTED, ERROR, FAIL,
    PASS, SKIP, TIMEOUT,
};
use crate::protocol::{
    AggregationResult, RunMeasurement, RunMeasurementView, ValidatorResult, ValidatorResultView,
};
use crate::sdk::{
    MeasurementOutcome, RunCreateAggregation, RunCreateAggregationView, RunCreateAxis,
    RunCreateAxisView, RunCreateLog, RunCreateLogView, RunCreateMeasurement,
    RunCreateMeasurementView, RunCreatePhase, RunCreatePhaseView, RunCreateRequest,
    RunCreateRequestView, RunCreateValidator, RunCreateValidatorView, RunGetOutcome,
    RunGetPhasesOutcome,
};
use crate::text;
use crate::text::{joined, trimmed};
use crate::time::{from_millis, instant_or, millis_instant, read_or, Instant};

verus! {

/// A Python framework that a connector drives.
#[derive(Debug, Clone, Copy, PartialEq, Eq, Structural)]
pub enum Connector {
    OpenHtf,
    Robot,
}

impl DeepView for Connector {
    type V = Connector;

    open spec fn deep_view(&self) -> Connector {
        *self
    }
}

impl Dup for Connector {
    fn dup(&self) -> (copy: Self) {
        *self
    }
}

/// The unit as it was identified before the first phase.
#[derive(Debug, PartialEq, Eq)]
pub struct ResolvedUnit {
    pub serial_number: Option<String>,
    pub part_number: Option<String>,
    pub revision_number: Option<String>,
    pub batch_number: Option<String>,
    /// Serial numbers by their labels.
    pub sub_units: Vec<KeyText>,
}

/// View of [`ResolvedUnit`].
pub struct ResolvedUnitView {
    pub serial_number: Option<Seq<char>>,
    pub part_number: Option<Seq<char>>,
    pub revision_number: Option<Seq<char>>,
    pub batch_number: Option<Seq<char>>,
    pub sub_units: Seq<KeyTextView>,
}

impl DeepView for ResolvedUnit {
    type V = ResolvedUnitView;

    open spec fn deep_view(&self) -> ResolvedUnitView {
        ResolvedUnitView {
            serial_number: self.serial_number.deep_view(),
            part_number: self.part_number.deep_view(),
            revision_number: self.revision_number.deep_view(),
            batch_number: self.batch_number.deep_view(),
            sub_units: self.sub_units.deep_view(),
        }
    }
}

impl Dup for ResolvedUnit {
    fn dup(&self) -> (copy: Self) {
        ResolvedUnit {
            serial_number: self.serial_number.dup(),
            part_number: self.part_number.dup(),
            revision_number: self.revision_number.dup(),
            batch_number: self.batch_number.dup(),
            sub_units: self.sub_units.dup(),
        }
    }
}

/// What is known of a run beside what the framework reports.
#[derive(Debug, PartialEq, Eq)]
pub struct RunContext {
    pub procedure_id: String,
    pub procedure_dir: String,
    pub procedure_version: Option<String>,
    pub deployment_id: Option<String>,
    pub operated_by: Option<String>,
}

/// View of [`RunContext`].
pub struct RunContextView {
    pub procedure_id: Seq<char>,
    pub procedure_dir: Seq<char>,
    pub procedure_version: Option<Seq<char>>,
    pub deployment_id: Option<Seq<char>>,
    pub operated_by: Option<Seq<char>>,
}

impl DeepView for RunContext {
    type V = RunContextView;

    open spec fn deep_view(&self) -> RunContextView {
        RunContextView {
            procedure_id: self.procedure_id.deep_view(),
            procedure_dir: self.procedure_dir.deep_view(),
            procedure_version: self.procedure_version.deep_view(),
            deployment_id: self.deployment_id.deep_view(),
            operated_by: self.operated_by.deep_view(),
        }
    }
}

impl Dup for RunContext {
    fn dup(&self) -> (copy: Self) {
        RunContext {
            procedure_id: self.procedure_id.dup(),
            procedure_dir: self.procedure_dir.dup(),
            procedure_version: self.procedure_version.dup(),
            deployment_id: self.deployment_id.dup(),
            operated_by: self.operated_by.dup(),
        }
    }
}

// ---------------------------------------------------------------------------
// Fields
// ---------------------------------------------------------------------------

/// A text, or another where it is missing.
pub open spec fn text_or(text: Option<Seq<char>>, other: Seq<char>) -> Seq<char> {
    match text {
        Some(s) => s,
        None => other,
    }
}

/// A text that is not empty.
pub open spec fn not_empty(text: Option<Seq<char>>) -> Option<Seq<char>> {
    match text {
        Some(s) => if s.len() > 0 {
            Some(s)
        } else {
            None
        },
        None => None,
    }
}

fn keep_filled(s: Option<String>) -> (out: Option<String>)
    ensures
        out.deep_view() == not_empty(s.deep_view()),
{
    match s {
        Some(s) => if s.as_str().is_empty() {
            None
        } else {
            Some(s)
        },
        None => None,
    }
}

fn field_text(v: &Json, key: &str) -> (out: Option<String>)
    ensures
        out.deep_view() == member_text(v.deep_view(), key@),
{
    match v.get_text(key) {
        Some(s) => Some(s.dup()),
        None => None,
    }
}

fn field_text_or(v: &Json, key: &str, other: &str) -> (out: String)
    ensures
        out@ == text_or(member_text(v.deep_view(), key@), other@),
{
    match v.get_text(key) {
        Some(s) => s.dup(),
        None => other.to_string(),
    }
}

fn field_value(v: &Json, key: &str) -> (out: Option<Json>)
    ensures
        out.deep_view() == json_member(v.deep_view(), key@),
{
    match v.get(key) {
        Some(value) => Some(value.dup()),
        None => None,
    }
}

/// A value that is not null.
pub open spec fn not_null(value: Option<JsonView>) -> Option<JsonView> {
    match value {
        Some(JsonView::Null) => None,
        _ => value,
    }
}

fn field_present(v: &Json, key: &str) -> (out: Option<Json>)
    ensures
        out.deep_view() == not_null(json_member(v.deep_view(), key@)),
{
    match v.get(key) {
        Some(Json::Null) => None,
        Some(value) => Some(value.dup()),
        None => None,
    }
}

/// The point in time that a field gives in milliseconds, or now where it does
/// not.
pub open spec fn time_of(v: JsonView, key: Seq<char>, now: Instant) -> Instant {
    match member_int(v, key) {
        Some(millis) => read_or(millis_instant(millis), now),
        None => now,
    }
}

fn json_millis(v: &Json, key: &str, now: Instant) -> (at: Instant)
    ensures
        at == time_of(v.deep_view(), key@, now),
{
    match v.get_int(key) {
        Some(millis) => instant_or(from_millis(millis), now),
        None => now,
    }
}

/// The outcome of a run by its word; an error where the word is not one.
pub open spec fn run_outcome_of(s: Seq<char>) -> RunGetOutcome {
    if s == PASS@ {
        RunGetOutcome::Pass
    } else if s == FAIL@ {
        RunGetOutcome::Fail
    } else if s == TIMEOUT@ {
        RunGetOutcome::Timeout
    } else if s == ABORTED@ {
        RunGetOutcome::Aborted
    } else {
        RunGetOutcome::Error
    }
}

/// The outcome of a run by its word.
pub fn parse_outcome(s: &str) -> (outcome: RunGetOutcome)
    ensures
        outcome == run_outcome_of(s@),
{
    if text::same(s, PASS) {
        RunGetOutcome::Pass
    } else if text::same(s, FAIL) {
        RunGetOutcome::Fail
    } else if text::same(s, TIMEOUT) {
        RunGetOutcome::Timeout
    } else if text::same(s, ABORTED) {
        RunGetOutcome::Aborted
    } else {
        RunGetOutcome::Error
    }
}

/// The outcome of a phase by its word; a failure where the word is not one.
pub open spec fn phase_outcome_of(s: Seq<char>) -> RunGetPhasesOutcome {
    if s == PASS@ {
        RunGetPhasesOutcome::Pass
    } else if s == SKIP@ {
        RunGetPhasesOutcome::Skip
    } else if s == ERROR@ {
        RunGetPhasesOutcome::Error
    } else {
        RunGetPhasesOutcome::Fail
    }
}

/// The outcome of a phase by its word.
pub fn parse_phase_outcome(s: &str) -> (outcome: RunGetPhasesOutcome)
    ensures
        outcome == phase_outcome_of(s@),
{
    if text::same(s, PASS) {
        RunGetPhasesOutcome::Pass
    } else if text::same(s, SKIP) {
        RunGetPhasesOutcome::Skip
    } else if text::same(s, ERROR) {
        RunGetPhasesOutcome::Error
    } else {
        RunGetPhasesOutcome::Fail
    }
}

// ---------------------------------------------------------------------------
// Validators and axes
// ---------------------------------------------------------------------------

/// The verdict that a field gives.
pub open spec fn verdict_of(v: JsonView) -> Option<MeasurementOutcome> {
    match member_text(v, "outcome"@) {
        Some(s) => Some(wire_verdict(s)),
        None => None,
    }
}

fn read_verdict(v: &Json) -> (out: Option<MeasurementOutcome>)
    ensures
        out == verdict_of(v.deep_view()),
{
    match v.get_text("outcome") {
        Some(s) => Some(validator_outcome_from_wire(s.as_str())),
        None => None,
    }
}

/// A validator of the upload with a given expected value.
pub open spec fn validator_with(v: JsonView, expected: Option<JsonView>) -> RunCreateValidatorView {
    RunCreateValidatorView {
        outcome: verdict_of(v),
        operator: member_text(v, "operator"@),
        expected_value: expected,
        expression: member_text(v, "expression"@),
        is_decisive: member_bool(v, "is_decisive"@),
    }
}

/// A validator of the upload.
pub open spec fn validator_of(v: JsonView) -> Option<RunCreateValidatorView> {
    Some(validator_with(v, json_member(v, "expected_value"@)))
}

/// Reads a validator.
pub fn build_validator(v: &Json) -> (out: Option<RunCreateValidator>)
    ensures
        out.deep_view() == validator_of(v.deep_view()),
{
    Some(
        RunCreateValidator {
            outcome: read_verdict(v),
            operator: field_text(v, "operator"),
            expected_value: field_value(v, "expected_value"),
            expression: field_text(v, "expression"),
            is_decisive: v.get_bool("is_decisive"),
        },
    )
}

/// The validators of the upload.
pub open spec fn validators_of(items: Seq<JsonView>) -> Seq<RunCreateValidatorView>
    decreases items.len(),
{
    if items.len() == 0 {
        Seq::empty()
    } else {
        let rest = validators_of(items.drop_last());
        match validator_of(items.last()) {
            Some(x) => rest.push(x),
            None => rest,
        }
    }
}

fn collect_validators(items: &Vec<Json>) -> (out: Vec<RunCreateValidator>)
    ensures
        out.deep_view() == validators_of(items.deep_view()),
{
    let mut out: Vec<RunCreateValidator> = Vec::new();
    let mut i: usize = 0;
    assert(out.deep_view() =~= validators_of(items.deep_view().take(0)));
    while i < items.len()
        invariant
            i <= items@.len(),
            out.deep_view() == validators_of(items.deep_view().take(i as int)),
        decreases items@.len() - i,
    {
        let ghost now_seen = items.deep_view().take(i + 1);
        assert(now_seen.drop_last() =~= items.deep_view().take(i as int));
        assert(now_seen.last() == items@[i as int].deep_view());
        match build_validator(&items[i]) {
            Some(x) => {
                push(&mut out, x);
            },
            None => {},
        }
        i += 1;
    }
    assert(items.deep_view().take(items@.len() as int) =~= items.deep_view());
    out
}

/// A list, where it is not empty.
pub open spec fn some_if_any<A>(list: Seq<A>) -> Option<Seq<A>> {
    if list.len() > 0 {
        Some(list)
    } else {
        None
    }
}

/// A number as a double.
pub open spec fn double_of(v: JsonView) -> Option<u64> {
    match v {
        JsonView::Number(n) => n.bits,
        _ => None,
    }
}

fn read_double(v: &Json) -> (out: Option<u64>)
    ensures
        out.deep_view() == double_of(v.deep_view()),
{
    match v {
        Json::Number(n) => n.bits,
        _ => None,
    }
}

/// The numbers of a list as doubles; what is not a number is left out.
pub open spec fn doubles_of(items: Seq<JsonView>) -> Seq<u64>
    decreases items.len(),
{
    if items.len() == 0 {
        Seq::empty()
    } else {
        let rest = doubles_of(items.drop_last());
        match double_of(items.last()) {
            Some(x) => rest.push(x),
            None => rest,
        }
    }
}

fn collect_doubles(items: &Vec<Json>) -> (out: Vec<u64>)
    ensures
        out.deep_view() == doubles_of(items.deep_view()),
{
    let mut out: Vec<u64> = Vec::new();
    let mut i: usize = 0;
    assert(out.deep_view() =~= doubles_of(items.deep_view().take(0)));
    while i < items.len()
        invariant
            i <= items@.len(),
            out.deep_view() == doubles_of(items.deep_view().take(i as int)),
        decreases items@.len() - i,
    {
        let ghost now_seen = items.deep_view().take(i + 1);
        assert(now_seen.drop_last() =~= items.deep_view().take(i as int));
        assert(now_seen.last() == items@[i as int].deep_view());
        match read_double(&items[i]) {
            Some(x) => {
                push(&mut out, x);
            },
            None => {},
        }
        i += 1;
    }
    assert(items.deep_view().take(items@.len() as int) =~= items.deep_view());
    out
}

/// The numbers of an axis.
pub open spec fn axis_data(v: JsonView) -> Seq<u64> {
    match member_items(v, "data"@) {
        Some(items) => doubles_of(items),
        None => Seq::empty(),
    }
}

fn json_f64_vec(v: &Json, key: &str) -> (out: Vec<u64>)
    ensures
        out.deep_view() == (match member_items(v.deep_view(), key@) {
            Some(items) => doubles_of(items),
            None => Seq::empty(),
        }),
{
    match v.get_items(key) {
        Some(items) => collect_doubles(items),
        None => {
            let none: Vec<u64> = Vec::new();
            assert(none.deep_view() =~= Seq::empty());
            none
        },
    }
}

/// The x axis of the upload.
pub open spec fn x_axis_of(v: JsonView) -> RunCreateAxisView {
    RunCreateAxisView {
        data: axis_data(v),
        units: member_text(v, "units"@),
        name: None,
        description: member_text(v, "description"@),
        validators: None,
        aggregations: None,
    }
}

/// Reads an x axis.
pub fn build_x_axis(v: &Json) -> (out: RunCreateAxis)
    ensures
        out.deep_view() == x_axis_of(v.deep_view()),
{
    RunCreateAxis {
        data: json_f64_vec(v, "data"),
        units: field_text(v, "units"),
        name: None,
        description: field_text(v, "description"),
        validators: None,
        aggregations: None,
    }
}

/// A y axis of the upload.
pub open spec fn y_axis_of(v: JsonView) -> Option<RunCreateAxisView> {
    Some(
        RunCreateAxisView {
            data: axis_data(v),
            units: member_text(v, "units"@),
            name: None,
            description: None,
            validators: None,
            aggregations: None,
        },
    )
}

/// Reads a y axis.
pub fn build_y_axis(v: &Json) -> (out: Option<RunCreateAxis>)
    ensures
        out.deep_view() == y_axis_of(v.deep_view()),
{
    Some(
        RunCreateAxis {
            data: json_f64_vec(v, "data"),
            units: field_text(v, "units"),
            name: None,
            description: None,
            validators: None,
            aggregations: None,
        },
    )
}

/// The y axes of the upload.
pub open spec fn y_axes_of(items: Seq<JsonView>) -> Seq<RunCreateAxisView>
    decreases items.len(),
{
    if items.len() == 0 {
        Seq::empty()
    } else {
        let rest = y_axes_of(items.drop_last());
        match y_axis_of(items.last()) {
            Some(x) => rest.push(x),
            None => rest,
        }
    }
}

fn collect_y_axes(items: &Vec<Json>) -> (out: Vec<RunCreateAxis>)
    ensures
        out.deep_view() == y_axes_of(items.deep_view()),
{
    let mut out: Vec<RunCreateAxis> = Vec::new();
    let mut i: usize = 0;
    assert(out.deep_view() =~= y_axes_of(items.deep_view().take(0)));
    while i < items.len()
        invariant
            i <= items@.len(),
            out.deep_view() == y_axes_of(items.deep_view().take(i as int)),
        decreases items@.len() - i,
    {
        let ghost now_seen = items.deep_view().take(i + 1);
        assert(now_seen.drop_last() =~= items.deep_view().take(i as int));
        assert(now_seen.last() == items@[i as int].deep_view());
        match build_y_axis(&items[i]) {
            Some(x) => {
                push(&mut out, x);
            },
            None => {},
        }
        i += 1;
    }
    assert(items.deep_view().take(items@.len() as int) =~= items.deep_view());
    out
}

// ---------------------------------------------------------------------------
// Measurements and phases
// ---------------------------------------------------------------------------

/// Whether a measurement is a chart. Robot Framework has none.
pub open spec fn is_chart(connector: Connector, m: JsonView) -> bool {
    connector == Connector::OpenHtf && json_member(m, "x_axis"@) is Some && json_member(
        m,
        "y_axis"@,
    ) is Some
}

/// The y axes of a chart, where there are any.
pub open spec fn chart_y_axes(m: JsonView) -> Option<Seq<RunCreateAxisView>> {
    match member_items(m, "y_axis"@) {
        Some(items) => some_if_any(y_axes_of(items)),
        None => None,
    }
}

/// The validators of a measurement, where there are any.
pub open spec fn measurement_validators(m: JsonView) -> Option<Seq<RunCreateValidatorView>> {
    match member_items(m, "validators"@) {
        Some(items) => some_if_any(validators_of(items)),
        None => None,
    }
}

/// A measurement of the upload; `None` where it has no name.
pub open spec fn measurement_of(connector: Connector, m: JsonView) -> Option<
    RunCreateMeasurementView,
> {
    match member_text(m, "name"@) {
        Some(name) => {
            let chart = is_chart(connector, m);
            let value = json_member(m, "measured_value"@);
            Some(
                RunCreateMeasurementView {
                    name,
                    outcome: wire_verdict(text_or(member_text(m, "outcome"@), "UNSET"@)),
                    x_axis: if chart {
                        Some(x_axis_of(json_member(m, "x_axis"@)->0))
                    } else {
                        None
                    },
                    y_axis: if chart {
                        chart_y_axes(m)
                    } else {
                        None
                    },
                    measured_value: if chart {
                        None
                    } else {
                        value
                    },
                    units: if chart || value is None {
                        None
                    } else {
                        not_null(json_member(m, "units"@))
                    },
                    validators: measurement_validators(m),
                    aggregations: None,
                    docstring: if connector == Connector::OpenHtf {
                        not_empty(member_text(m, "docstring"@))
                    } else {
                        None
                    },
                },
            )
        },
        None => None,
    }
}

fn read_chart_y_axes(m: &Json) -> (out: Option<Vec<RunCreateAxis>>)
    ensures
        out.deep_view() == chart_y_axes(m.deep_view()),
{
    match m.get_items("y_axis") {
        Some(items) => {
            let axes = collect_y_axes(items);
            if axes.len() > 0 {
                Some(axes)
            } else {
                None
            }
        },
        None => None,
    }
}

fn read_validators(m: &Json) -> (out: Option<Vec<RunCreateValidator>>)
    ensures
        out.deep_view() == measurement_validators(m.deep_view()),
{
    match m.get_items("validators") {
        Some(items) => {
            let list = collect_validators(items);
            if list.len() > 0 {
                Some(list)
            } else {
                None
            }
        },
        None => None,
    }
}

/// Reads a measurement.
pub fn build_measurement(m: &Json, connector: Connector) -> (out: Option<RunCreateMeasurement>)
    ensures
        out.deep_view() == measurement_of(connector, m.deep_view()),
{
    let name = match m.get_text("name") {
        Some(name) => name.dup(),
        None => {
            return None;
        },
    };
    let word = field_text_or(m, "outcome", "UNSET");
    let outcome = validator_outcome_from_wire(word.as_str());
    let mut x_axis: Option<RunCreateAxis> = None;
    let mut y_axis: Option<Vec<RunCreateAxis>> = None;
    let mut measured_value: Option<Json> = None;
    let mut units: Option<Json> = None;
    let openhtf = connector == Connector::OpenHtf;
    match (openhtf, m.get("x_axis"), m.get("y_axis")) {
        (true, Some(x), Some(_)) => {
            x_axis = Some(build_x_axis(x));
            y_axis = read_chart_y_axes(m);
        },
        _ => {
            measured_value = field_value(m, "measured_value");
            if measured_value.is_some() {
                units = field_present(m, "units");
            }
        },
    }
    let docstring = if openhtf {
        keep_filled(field_text(m, "docstring"))
    } else {
        None
    };
    Some(
        RunCreateMeasurement {
            name,
            outcome,
            x_axis,
            y_axis,
            measured_value,
            units,
            validators: read_validators(m),
            aggregations: None,
            docstring,
        },
    )
}

/// A measurement of the upload, read for a framework.
pub open spec fn measurement_item(m: JsonView, connector: Connector) -> Option<
    RunCreateMeasurementView,
> {
    measurement_of(connector, m)
}

/// The measurements of the upload; one without a name is left out.
pub open spec fn measurements_of(items: Seq<JsonView>, connector: Connector) -> Seq<RunCreateMeasurementView>
    decreases items.len(),
{
    if items.len() == 0 {
        Seq::empty()
    } else {
        let rest = measurements_of(items.drop_last(), connector);
        match measurement_item(items.last(), connector) {
            Some(x) => rest.push(x),
            None => rest,
        }
    }
}

fn collect_measurements(items: &Vec<Json>, connector: Connector) -> (out: Vec<RunCreateMeasurement>)
    ensures
        out.deep_view() == measurements_of(items.deep_view(), connector),
{
    let mut out: Vec<RunCreateMeasurement> = Vec::new();
    let mut i: usize = 0;
    assert(out.deep_view() =~= measurements_of(items.deep_view().take(0), connector));
    while i < items.len()
        invariant
            i <= items@.len(),
            out.deep_view() == measurements_of(items.deep_view().take(i as int), connector),
        decreases items@.len() - i,
    {
        let ghost now_seen = items.deep_view().take(i + 1);
        assert(now_seen.drop_last() =~= items.deep_view().take(i as int));
        assert(now_seen.last() == items@[i as int].deep_view());
        match build_measurement(&items[i], connector) {
            Some(x) => {
                push(&mut out, x);
            },
            None => {},
        }
        i += 1;
    }
    assert(items.deep_view().take(items@.len() as int) =~= items.deep_view());
    out
}

/// The measurements that a phase reports.
pub open spec fn phase_measurements(p: JsonView, connector: Connector) -> Seq<
    RunCreateMeasurementView,
> {
    match member_items(p, "measurements"@) {
        Some(items) => measurements_of(items, connector),
        None => Seq::empty(),
    }
}

/// A phase of the upload; `None` where it has no name.
pub open spec fn phase_of(p: JsonView, connector: Connector, now: Instant) -> Option<
    RunCreatePhaseView,
> {
    match member_text(p, "name"@) {
        Some(name) => Some(
            RunCreatePhaseView {
                name,
                outcome: phase_outcome_of(text_or(member_text(p, "outcome"@), FAIL@)),
                started_at: time_of(p, "start_time_millis"@, now),
                ended_at: time_of(p, "end_time_millis"@, now),
                measurements: phase_measurements(p, connector),
                retry_count: member_int(p, "retry_count"@),
                docstring: not_empty(member_text(p, "docstring"@)),
            },
        ),
        None => None,
    }
}

/// Reads a phase.
pub fn build_phase(p: &Json, connector: Connector, now: Instant) -> (out: Option<RunCreatePhase>)
    ensures
        out.deep_view() == phase_of(p.deep_view(), connector, now),
{
    let name = match p.get_text("name") {
        Some(name) => name.dup(),
        None => {
            return None;
        },
    };
    let measurements = match p.get_items("measurements") {
        Some(items) => collect_measurements(items, connector),
        None => {
            let none: Vec<RunCreateMeasurement> = Vec::new();
            assert(none.deep_view() =~= Seq::empty());
            none
        },
    };
    let word = field_text_or(p, "outcome", FAIL);
    Some(
        RunCreatePhase {
            name,
            outcome: parse_phase_outcome(word.as_str()),
            started_at: json_millis(p, "start_time_millis", now),
            ended_at: json_millis(p, "end_time_millis", now),
            measurements,
            retry_count: p.get_int("retry_count"),
            docstring: keep_filled(field_text(p, "docstring")),
        },
    )
}

/// The phases of the upload; one without a name is left out.
pub open spec fn phases_of(items: Seq<JsonView>, connector: Connector, now: Instant) -> Seq<RunCreatePhaseView>
    decreases items.len(),
{
    if items.len() == 0 {
        Seq::empty()
    } else {
        let rest = phases_of(items.drop_last(), connector, now);
        match phase_of(items.last(), connector, now) {
            Some(x) => rest.push(x),
            None => rest,
        }
    }
}

fn collect_phases(items: &Vec<Json>, connector: Connector, now: Instant) -> (out: Vec<RunCreatePhase>)
    ensures
        out.deep_view() == phases_of(items.deep_view(), connector, now),
{
    let mut out: Vec<RunCreatePhase> = Vec::new();
    let mut i: usize = 0;
    assert(out.deep_view() =~= phases_of(items.deep_view().take(0), connector, now));
    while i < items.len()
        invariant
            i <= items@.len(),
            out.deep_view() == phases_of(items.deep_view().take(i as int), connector, now),
        decreases items@.len() - i,
    {
        let ghost now_seen = items.deep_view().take(i + 1);
        assert(now_seen.drop_last() =~= items.deep_view().take(i as int));
        assert(now_seen.last() == items@[i as int].deep_view());
        match build_phase(&items[i], connector, now) {
            Some(x) => {
                push(&mut out, x);
            },
            None => {},
        }
        i += 1;
    }
    assert(items.deep_view().take(items@.len() as int) =~= items.deep_view());
    out
}

// ---------------------------------------------------------------------------
// Logs
// ---------------------------------------------------------------------------

/// A log line of the upload.
pub open spec fn log_of(l: JsonView, dir: Seq<char>, now: Instant) -> Option<RunCreateLogView> {
    Some(
        RunCreateLogView {
            level: level_of(text_or(member_text(l, "level"@), "INFO"@)),
            timestamp: time_of(l, "timestamp_millis"@, now),
            message: text_or(member_text(l, "message"@), ""@),
            source_file: source_name(text_or(member_text(l, "source"@), ""@), dir),
            line_number: match member_int(l, "lineno"@) {
                Some(n) => n,
                None => 0,
            },
        },
    )
}

/// Reads a log line.
pub fn build_log(l: &Json, procedure_dir: &str, now: Instant) -> (out: Option<RunCreateLog>)
    ensures
        out.deep_view() == log_of(l.deep_view(), procedure_dir@, now),
{
    let level = field_text_or(l, "level", "INFO");
    let source = field_text_or(l, "source", "");
    Some(
        RunCreateLog {
            level: parse_log_level(level.as_str()),
            timestamp: json_millis(l, "timestamp_millis", now),
            message: field_text_or(l, "message", ""),
            source_file: sanitize_source_file(source.as_str(), procedure_dir),
            line_number: match l.get_int("lineno") {
                Some(n) => n,
                None => 0,
            },
        },
    )
}

/// The log lines of the upload.
pub open spec fn logs_of(items: Seq<JsonView>, dir: Seq<char>, now: Instant) -> Seq<RunCreateLogView>
    decreases items.len(),
{
    if items.len() == 0 {
        Seq::empty()
    } else {
        let rest = logs_of(items.drop_last(), dir, now);
        match log_of(items.last(), dir, now) {
            Some(x) => rest.push(x),
            None => rest,
        }
    }
}

fn collect_logs(items: &Vec<Json>, dir: &str, now: Instant) -> (out: Vec<RunCreateLog>)
    ensures
        out.deep_view() == logs_of(items.deep_view(), dir@, now),
{
    let mut out: Vec<RunCreateLog> = Vec::new();
    let mut i: usize = 0;
    assert(out.deep_view() =~= logs_of(items.deep_view().take(0), dir@, now));
    while i < items.len()
        invariant
            i <= items@.len(),
            out.deep_view() == logs_of(items.deep_view().take(i as int), dir@, now),
        decreases items@.len() - i,
    {
        let ghost now_seen = items.deep_view().take(i + 1);
        assert(now_seen.drop_last() =~= items.deep_view().take(i as int));
        assert(now_seen.last() == items@[i as int].deep_view());
        match build_log(&items[i], dir, now) {
            Some(x) => {
                push(&mut out, x);
            },
            None => {},
        }
        i += 1;
    }
    assert(items.deep_view().take(items@.len() as int) =~= items.deep_view());
    out
}

// ---------------------------------------------------------------------------
// The request
// ---------------------------------------------------------------------------

/// What a test wrote in its own metadata under a key: a text, or a number or
/// truth value as text; nothing where that is empty.
pub open spec fn metadata_text(test_end: JsonView, key: Seq<char>) -> Option<Seq<char>> {
    match json_member(test_end, "metadata"@) {
        Some(metadata) => match json_member(metadata, key) {
            Some(JsonView::Text(s)) => not_empty(Some(s)),
            Some(JsonView::Number(n)) => not_empty(Some(n.text)),
            Some(JsonView::Bool(b)) => Some(
                if b {
                    "true"@
                } else {
                    "false"@
                },
            ),
            _ => None,
        },
        None => None,
    }
}

fn meta_text(test_end: &Json, key: &str) -> (out: Option<String>)
    ensures
        out.deep_view() == metadata_text(test_end.deep_view(), key@),
{
    match test_end.get("metadata") {
        Some(metadata) => match metadata.get(key) {
            Some(Json::Text(s)) => keep_filled(Some(s.dup())),
            Some(Json::Number(n)) => keep_filled(Some(n.text.dup())),
            Some(Json::Bool(b)) => if *b {
                Some("true".to_string())
            } else {
                Some("false".to_string())
            },
            _ => None,
        },
        None => None,
    }
}

/// The first of two that is there.
pub open spec fn or_else<A>(a: Option<A>, b: Option<A>) -> Option<A> {
    if a is Some {
        a
    } else {
        b
    }
}

/// The serial number: what the test wrote, what the framework recorded, what
/// was identified, in this order.
pub open spec fn serial_of(test_end: JsonView, unit: ResolvedUnitView) -> Seq<char> {
    text_or(
        or_else(
            metadata_text(test_end, "serial_number"@),
            or_else(not_empty(member_text(test_end, "dut_id"@)), unit.serial_number),
        ),
        Seq::empty(),
    )
}

fn read_serial(test_end: &Json, unit: &ResolvedUnit) -> (out: String)
    ensures
        out@ == serial_of(test_end.deep_view(), unit.deep_view()),
{
    match meta_text(test_end, "serial_number") {
        Some(s) => s,
        None => match keep_filled(field_text(test_end, "dut_id")) {
            Some(s) => s,
            None => match &unit.serial_number {
                Some(s) => s.dup(),
                None => String::new(),
            },
        },
    }
}

/// A field of the unit: what the test wrote, or what was identified.
pub open spec fn unit_field(
    test_end: JsonView,
    key: Seq<char>,
    identified: Option<Seq<char>>,
) -> Option<Seq<char>> {
    not_empty(or_else(metadata_text(test_end, key), identified))
}

fn read_unit_field(test_end: &Json, key: &str, identified: &Option<String>) -> (out: Option<String>)
    ensures
        out.deep_view() == unit_field(test_end.deep_view(), key@, identified.deep_view()),
{
    match meta_text(test_end, key) {
        Some(s) => keep_filled(Some(s)),
        None => keep_filled(identified.dup()),
    }
}

/// What the test declared as its part number, where the framework passes it
/// on.
pub open spec fn declared_part(connector: Connector, test_start: Option<JsonView>) -> Option<
    Seq<char>,
> {
    match test_start {
        Some(start) => if connector == Connector::OpenHtf {
            member_text(start, "part_number"@)
        } else {
            None
        },
        None => None,
    }
}

fn read_declared_part(connector: Connector, test_start: &Option<Json>) -> (out: Option<String>)
    ensures
        out.deep_view() == declared_part(connector, test_start.deep_view()),
{
    match test_start {
        Some(start) => match connector {
            Connector::OpenHtf => field_text(start, "part_number"),
            Connector::Robot => None,
        },
        None => None,
    }
}

/// A value that is a text.
pub open spec fn text_item(v: JsonView) -> Option<Seq<char>> {
    match v {
        JsonView::Text(s) => Some(s),
        _ => None,
    }
}

fn read_text_item(v: &Json) -> (out: Option<String>)
    ensures
        out.deep_view() == text_item(v.deep_view()),
{
    match v {
        Json::Text(s) => Some(s.dup()),
        _ => None,
    }
}

/// The texts of a list; what is not a text is left out.
pub open spec fn texts_among(items: Seq<JsonView>) -> Seq<Seq<char>>
    decreases items.len(),
{
    if items.len() == 0 {
        Seq::empty()
    } else {
        let rest = texts_among(items.drop_last());
        match text_item(items.last()) {
            Some(x) => rest.push(x),
            None => rest,
        }
    }
}

fn collect_texts(items: &Vec<Json>) -> (out: Vec<String>)
    ensures
        out.deep_view() == texts_among(items.deep_view()),
{
    let mut out: Vec<String> = Vec::new();
    let mut i: usize = 0;
    assert(out.deep_view() =~= texts_among(items.deep_view().take(0)));
    while i < items.len()
        invariant
            i <= items@.len(),
            out.deep_view() == texts_among(items.deep_view().take(i as int)),
        decreases items@.len() - i,
    {
        let ghost now_seen = items.deep_view().take(i + 1);
        assert(now_seen.drop_last() =~= items.deep_view().take(i as int));
        assert(now_seen.last() == items@[i as int].deep_view());
        match read_text_item(&items[i]) {
            Some(x) => {
                push(&mut out, x);
            },
            None => {},
        }
        i += 1;
    }
    assert(items.deep_view().take(items@.len() as int) =~= items.deep_view());
    out
}

/// The serial numbers of identified sub-units.
pub open spec fn serials(subs: Seq<KeyTextView>) -> Seq<Seq<char>> {
    subs.map_values(|s: KeyTextView| s.text)
}

/// Gives the serial numbers of identified sub-units.
pub fn serials_of(subs: &Vec<KeyText>) -> (out: Vec<String>)
    ensures
        out.deep_view() == serials(subs.deep_view()),
{
    let mut out: Vec<String> = Vec::new();
    let mut i: usize = 0;
    while i < subs.len()
        invariant
            i <= subs@.len(),
            out@.len() == i,
            forall|k: int| 0 <= k < i ==> (#[trigger] out@[k])@ == subs@[k].text@,
        decreases subs@.len() - i,
    {
        out.push(subs[i].text.dup());
        i += 1;
    }
    assert(out.deep_view() =~= serials(subs.deep_view()));
    out
}

/// What the test wrote as its sub-units.
pub open spec fn written_sub_units(test_end: JsonView) -> Seq<Seq<char>> {
    match json_member(test_end, "metadata"@) {
        Some(metadata) => match member_items(metadata, "sub_units"@) {
            Some(items) => texts_among(items),
            None => Seq::empty(),
        },
        None => Seq::empty(),
    }
}

fn read_written_sub_units(test_end: &Json) -> (out: Vec<String>)
    ensures
        out.deep_view() == written_sub_units(test_end.deep_view()),
{
    match test_end.get("metadata") {
        Some(metadata) => match metadata.get_items("sub_units") {
            Some(items) => {
                return collect_texts(items);
            },
            None => {},
        },
        None => {},
    }
    let none: Vec<String> = Vec::new();
    assert(none.deep_view() =~= Seq::empty());
    none
}

/// The sub-units of the upload: what the test wrote, or what was identified.
pub open spec fn sub_units_of(test_end: JsonView, unit: ResolvedUnitView) -> Option<
    Seq<Seq<char>>,
> {
    or_else(some_if_any(written_sub_units(test_end)), some_if_any(serials(unit.sub_units)))
}

fn read_sub_units(test_end: &Json, unit: &ResolvedUnit) -> (out: Option<Vec<String>>)
    ensures
        out.deep_view() == sub_units_of(test_end.deep_view(), unit.deep_view()),
{
    let written = read_written_sub_units(test_end);
    if written.len() > 0 {
        return Some(written);
    }
    let identified = serials_of(&unit.sub_units);
    if identified.len() > 0 {
        Some(identified)
    } else {
        None
    }
}

/// The log lines of the upload, where there are any. Robot Framework reports
/// none.
pub open spec fn request_logs(
    connector: Connector,
    test_end: JsonView,
    dir: Seq<char>,
    now: Instant,
) -> Option<Seq<RunCreateLogView>> {
    if connector == Connector::OpenHtf {
        match member_items(test_end, "logs"@) {
            Some(items) => some_if_any(logs_of(items, dir, now)),
            None => None,
        }
    } else {
        None
    }
}

fn read_logs(connector: Connector, test_end: &Json, dir: &str, now: Instant) -> (out: Option<
    Vec<RunCreateLog>,
>)
    ensures
        out.deep_view() == request_logs(connector, test_end.deep_view(), dir@, now),
{
    match connector {
        Connector::Robot => None,
        Connector::OpenHtf => match test_end.get_items("logs") {
            Some(items) => {
                let logs = collect_logs(items, dir, now);
                if logs.len() > 0 {
                    Some(logs)
                } else {
                    None
                }
            },
            None => None,
        },
    }
}

/// The upload of a run, as the end of the test and its phases report it.
pub open spec fn request_of(
    connector: Connector,
    test_end: JsonView,
    test_start: Option<JsonView>,
    phases: Seq<JsonView>,
    unit: ResolvedUnitView,
    ctx: RunContextView,
    now: Instant,
) -> RunCreateRequestView {
    RunCreateRequestView {
        outcome: run_outcome_of(text_or(member_text(test_end, "outcome"@), ERROR@)),
        procedure_id: ctx.procedure_id,
        serial_number: serial_of(test_end, unit),
        started_at: time_of(test_end, "start_time_millis"@, now),
        ended_at: time_of(test_end, "end_time_millis"@, now),
        phases: phases_of(phases, connector, now),
        logs: request_logs(connector, test_end, ctx.procedure_dir, now),
        part_number: not_empty(
            or_else(
                metadata_text(test_end, "part_number"@),
                or_else(unit.part_number, declared_part(connector, test_start)),
            ),
        ),
        revision_number: unit_field(test_end, "revision_number"@, unit.revision_number),
        batch_number: unit_field(test_end, "batch_number"@, unit.batch_number),
        sub_units: sub_units_of(test_end, unit),
        execution_id: None,
        slot_key: None,
        slot_name: None,
        metadata: None,
        unit_metadata: None,
        docstring: if connector == Connector::OpenHtf {
            not_empty(member_text(test_end, "docstring"@))
        } else {
            None
        },
        procedure_version: ctx.procedure_version,
        deployment_id: ctx.deployment_id,
        operated_by: ctx.operated_by,
    }
}

/// Builds the upload of a run. What the test wrote in its own metadata wins
/// over what was identified before it ran.
pub fn build_request(
    connector: Connector,
    test_end: &Json,
    test_start: &Option<Json>,
    phases: &Vec<Json>,
    unit: &ResolvedUnit,
    ctx: &RunContext,
    now: Instant,
) -> (request: RunCreateRequest)
    ensures
        request.deep_view() == request_of(
            connector,
            test_end.deep_view(),
            test_start.deep_view(),
            phases.deep_view(),
            unit.deep_view(),
            ctx.deep_view(),
            now,
        ),
{
    let word = field_text_or(test_end, "outcome", ERROR);
    let identified_part = match &unit.part_number {
        Some(s) => Some(s.dup()),
        None => read_declared_part(connector, test_start),
    };
    let part_number = read_unit_field(test_end, "part_number", &identified_part);
    let docstring = match connector {
        Connector::OpenHtf => keep_filled(field_text(test_end, "docstring")),
        Connector::Robot => None,
    };
    RunCreateRequest {
        outcome: parse_outcome(word.as_str()),
        procedure_id: ctx.procedure_id.dup(),
        serial_number: read_serial(test_end, unit),
        started_at: json_millis(test_end, "start_time_millis", now),
        ended_at: json_millis(test_end, "end_time_millis", now),
        phases: collect_phases(phases, connector, now),
        logs: read_logs(connector, test_end, ctx.procedure_dir.as_str(), now),
        part_number,
        revision_number: read_unit_field(test_end, "revision_number", &unit.revision_number),
        batch_number: read_unit_field(test_end, "batch_number", &unit.batch_number),
        sub_units: read_sub_units(test_end, unit),
        execution_id: None,
        slot_key: None,
        slot_name: None,
        metadata: None,
        unit_metadata: None,
        docstring,
        procedure_version: ctx.procedure_version.dup(),
        deployment_id: ctx.deployment_id.dup(),
        operated_by: ctx.operated_by.dup(),
    }
}

// ---------------------------------------------------------------------------
// Live measurements
// ---------------------------------------------------------------------------

/// A value as it is shown: a text as it is, anything else as JSON.
pub open spec fn shown_item(v: JsonView) -> Option<Seq<char>> {
    match v {
        JsonView::Text(s) => Some(s),
        _ => Some(json_text(v)),
    }
}

fn show_item(v: &Json) -> (out: Option<String>)
    ensures
        out.deep_view() == shown_item(v.deep_view()),
{
    match v {
        Json::Text(s) => Some(s.dup()),
        _ => Some(v.render()),
    }
}

/// The values of a list as they are shown.
pub open spec fn shown_items(items: Seq<JsonView>) -> Seq<Seq<char>>
    decreases items.len(),
{
    if items.len() == 0 {
        Seq::empty()
    } else {
        let rest = shown_items(items.drop_last());
        match shown_item(items.last()) {
            Some(x) => rest.push(x),
            None => rest,
        }
    }
}

fn show_items(items: &Vec<Json>) -> (out: Vec<String>)
    ensures
        out.deep_view() == shown_items(items.deep_view()),
{
    let mut out: Vec<String> = Vec::new();
    let mut i: usize = 0;
    assert(out.deep_view() =~= shown_items(items.deep_view().take(0)));
    while i < items.len()
        invariant
            i <= items@.len(),
            out.deep_view() == shown_items(items.deep_view().take(i as int)),
        decreases items@.len() - i,
    {
        let ghost now_seen = items.deep_view().take(i + 1);
        assert(now_seen.drop_last() =~= items.deep_view().take(i as int));
        assert(now_seen.last() == items@[i as int].deep_view());
        match show_item(&items[i]) {
            Some(x) => {
                push(&mut out, x);
            },
            None => {},
        }
        i += 1;
    }
    assert(items.deep_view().take(items@.len() as int) =~= items.deep_view());
    out
}

/// An expected value as it is shown.
pub open spec fn shown_expected(v: JsonView) -> Seq<char> {
    match json_member(v, "expected_value"@) {
        Some(JsonView::Number(n)) => n.text,
        Some(JsonView::Bool(b)) => if b {
            "true"@
        } else {
            "false"@
        },
        Some(JsonView::Text(s)) => s,
        Some(JsonView::Array(items)) => joined(shown_items(items), ","@),
        _ => Seq::empty(),
    }
}

fn show_expected(v: &Json) -> (out: String)
    ensures
        out@ == shown_expected(v.deep_view()),
{
    match v.get("expected_value") {
        Some(value) => match value {
            Json::Number(n) => n.text.dup(),
            Json::Bool(b) => if *b {
                "true".to_string()
            } else {
                "false".to_string()
            },
            Json::Text(s) => s.dup(),
            Json::Array(items) => {
                assert(value.deep_view()->Array_0 =~= items.deep_view());
                let parts = show_items(items);
                text::join(&parts, ",")
            },
            _ => String::new(),
        },
        None => String::new(),
    }
}

/// A validator in words, from its operator and expected value; `None` where
/// it has neither.
pub open spec fn synthesized(v: JsonView) -> Option<Seq<char>> {
    let op = trimmed(text_or(member_text(v, "operator"@), ""@));
    let expected = shown_expected(v);
    if op.len() == 0 && expected.len() == 0 {
        None
    } else if expected.len() == 0 {
        Some("x "@ + op)
    } else if op.len() == 0 {
        Some(expected)
    } else {
        Some("x "@ + op + " "@ + expected)
    }
}

/// Puts a validator in words.
pub fn synthesize_validator_expression(v: &Json) -> (out: Option<String>)
    ensures
        out.deep_view() == synthesized(v.deep_view()),
{
    let raw = field_text_or(v, "operator", "");
    let op = text::trim(raw.as_str());
    let expected = show_expected(v);
    if op.as_str().is_empty() && expected.as_str().is_empty() {
        None
    } else if expected.as_str().is_empty() {
        Some(text::concat2("x ", op.as_str()))
    } else if op.as_str().is_empty() {
        Some(expected)
    } else {
        let mut s = text::concat3("x ", op.as_str(), " ");
        s.append(expected.as_str());
        Some(s)
    }
}

/// A validator on the live stream; `None` where nothing can be shown of it.
pub open spec fn live_validator_of(v: JsonView) -> Option<ValidatorResultView> {
    match or_else(member_text(v, "expression"@), synthesized(v)) {
        Some(expression) => Some(
            ValidatorResultView {
                expression,
                outcome: text_or(member_text(v, "outcome"@), "UNSET"@),
                is_decisive: member_bool(v, "is_decisive"@),
            },
        ),
        None => None,
    }
}

fn read_live_validator(v: &Json) -> (out: Option<ValidatorResult>)
    ensures
        out.deep_view() == live_validator_of(v.deep_view()),
{
    let expression = match field_text(v, "expression") {
        Some(s) => Some(s),
        None => synthesize_validator_expression(v),
    };
    match expression {
        Some(expression) => Some(
            ValidatorResult {
                expression,
                outcome: field_text_or(v, "outcome", "UNSET"),
                is_decisive: v.get_bool("is_decisive"),
            },
        ),
        None => None,
    }
}

/// The validators on the live stream.
pub open spec fn live_validators_among(items: Seq<JsonView>) -> Seq<ValidatorResultView>
    decreases items.len(),
{
    if items.len() == 0 {
        Seq::empty()
    } else {
        let rest = live_validators_among(items.drop_last());
        match live_validator_of(items.last()) {
            Some(x) => rest.push(x),
            None => rest,
        }
    }
}

fn collect_live_validators(items: &Vec<Json>) -> (out: Vec<ValidatorResult>)
    ensures
        out.deep_view() == live_validators_among(items.deep_view()),
{
    let mut out: Vec<ValidatorResult> = Vec::new();
    let mut i: usize = 0;
    assert(out.deep_view() =~= live_validators_among(items.deep_view().take(0)));
    while i < items.len()
        invariant
            i <= items@.len(),
            out.deep_view() == live_validators_among(items.deep_view().take(i as int)),
        decreases items@.len() - i,
    {
        let ghost now_seen = items.deep_view().take(i + 1);
        assert(now_seen.drop_last() =~= items.deep_view().take(i as int));
        assert(now_seen.last() == items@[i as int].deep_view());
        match read_live_validator(&items[i]) {
            Some(x) => {
                push(&mut out, x);
            },
            None => {},
        }
        i += 1;
    }
    assert(items.deep_view().take(items@.len() as int) =~= items.deep_view());
    out
}

/// The validators of a measurement on the live stream.
pub open spec fn live_validators_in(m: JsonView) -> Seq<ValidatorResultView> {
    match member_items(m, "validators"@) {
        Some(items) => live_validators_among(items),
        None => Seq::empty(),
    }
}

/// Reads the validators of a measurement for the live stream.
pub fn extract_validator_results(m: &Json) -> (out: Vec<ValidatorResult>)
    ensures
        out.deep_view() == live_validators_in(m.deep_view()),
{
    match m.get_items("validators") {
        Some(items) => collect_live_validators(items),
        None => {
            let none: Vec<ValidatorResult> = Vec::new();
            assert(none.deep_view() =~= Seq::empty());
            none
        },
    }
}

/// A measurement on the live stream; `None` where it has no name.
pub open spec fn live_measurement_of(m: JsonView) -> Option<RunMeasurementView> {
    match member_text(m, "name"@) {
        Some(name) => Some(
            RunMeasurementView {
                name,
                outcome: text_or(member_text(m, "outcome"@), "UNSET"@),
                measured_value: json_member(m, "measured_value"@),
                units: member_text(m, "units"@),
                validators: live_validators_in(m),
                aggregations: Seq::empty(),
            },
        ),
        None => None,
    }
}

fn read_live_measurement(m: &Json) -> (out: Option<RunMeasurement>)
    ensures
        out.deep_view() == live_measurement_of(m.deep_view()),
{
    match m.get_text("name") {
        Some(name) => {
            let aggregations: Vec<AggregationResult> = Vec::new();
            assert(aggregations.deep_view() =~= Seq::empty());
            Some(
                RunMeasurement {
                    name: name.dup(),
                    outcome: field_text_or(m, "outcome", "UNSET"),
                    measured_value: field_value(m, "measured_value"),
                    units: field_text(m, "units"),
                    validators: extract_validator_results(m),
                    aggregations,
                },
            )
        },
        None => None,
    }
}

/// The measurements on the live stream.
pub open spec fn live_measurements_among(items: Seq<JsonView>) -> Seq<RunMeasurementView>
    decreases items.len(),
{
    if items.len() == 0 {
        Seq::empty()
    } else {
        let rest = live_measurements_among(items.drop_last());
        match live_measurement_of(items.last()) {
            Some(x) => rest.push(x),
            None => rest,
        }
    }
}

fn collect_live_measurements(items: &Vec<Json>) -> (out: Vec<RunMeasurement>)
    ensures
        out.deep_view() == live_measurements_among(items.deep_view()),
{
    let mut out: Vec<RunMeasurement> = Vec::new();
    let mut i: usize = 0;
    assert(out.deep_view() =~= live_measurements_among(items.deep_view().take(0)));
    while i < items.len()
        invariant
            i <= items@.len(),
            out.deep_view() == live_measurements_among(items.deep_view().take(i as int)),
        decreases items@.len() - i,
    {
        let ghost now_seen = items.deep_view().take(i + 1);
        assert(now_seen.drop_last() =~= items.deep_view().take(i as int));
        assert(now_seen.last() == items@[i as int].deep_view());
        match read_live_measurement(&items[i]) {
            Some(x) => {
                push(&mut out, x);
            },
            None => {},
        }
        i += 1;
    }
    assert(items.deep_view().take(items@.len() as int) =~= items.deep_view());
    out
}

/// The measurements that a phase reports, on the live stream.
pub open spec fn live_measurements_in(phase: JsonView) -> Seq<RunMeasurementView> {
    match member_items(phase, "measurements"@) {
        Some(items) => live_measurements_among(items),
        None => Seq::empty(),
    }
}

/// Reads the measurements that a phase reports for the live stream.
pub fn extract_run_measurements(phase: &Json) -> (out: Vec<RunMeasurement>)
    ensures
        out.deep_view() == live_measurements_in(phase.deep_view()),
{
    match phase.get_items("measurements") {
        Some(items) => collect_live_measurements(items),
        None => {
            let none: Vec<RunMeasurement> = Vec::new();
            assert(none.deep_view() =~= Seq::empty());
            none
        },
    }
}

// ---------------------------------------------------------------------------
// Shared mappings
// ---------------------------------------------------------------------------

/// A validator of the upload, whose expected value is left out where it is
/// null.
pub open spec fn nested_validator_of(v: JsonView) -> Option<RunCreateValidatorView> {
    Some(validator_with(v, not_null(json_member(v, "expected_value"@))))
}

fn read_nested_validator(v: &Json) -> (out: Option<RunCreateValidator>)
    ensures
        out.deep_view() == nested_validator_of(v.deep_view()),
{
    Some(
        RunCreateValidator {
            outcome: read_verdict(v),
            operator: field_text(v, "operator"),
            expected_value: field_present(v, "expected_value"),
            expression: field_text(v, "expression"),
            is_decisive: v.get_bool("is_decisive"),
        },
    )
}

/// The validators of a list.
pub open spec fn nested_validators_of(items: Seq<JsonView>) -> Seq<RunCreateValidatorView>
    decreases items.len(),
{
    if items.len() == 0 {
        Seq::empty()
    } else {
        let rest = nested_validators_of(items.drop_last());
        match nested_validator_of(items.last()) {
            Some(x) => rest.push(x),
            None => rest,
        }
    }
}

/// Reads a list of validators.
pub fn json_validators(items: &Vec<Json>) -> (out: Vec<RunCreateValidator>)
    ensures
        out.deep_view() == nested_validators_of(items.deep_view()),
{
    let mut out: Vec<RunCreateValidator> = Vec::new();
    let mut i: usize = 0;
    assert(out.deep_view() =~= nested_validators_of(items.deep_view().take(0)));
    while i < items.len()
        invariant
            i <= items@.len(),
            out.deep_view() == nested_validators_of(items.deep_view().take(i as int)),
        decreases items@.len() - i,
    {
        let ghost now_seen = items.deep_view().take(i + 1);
        assert(now_seen.drop_last() =~= items.deep_view().take(i as int));
        assert(now_seen.last() == items@[i as int].deep_view());
        match read_nested_validator(&items[i]) {
            Some(x) => {
                push(&mut out, x);
            },
            None => {},
        }
        i += 1;
    }
    assert(items.deep_view().take(items@.len() as int) =~= items.deep_view());
    out
}

/// The validators of an aggregation, where there are any.
pub open spec fn aggregation_validators(a: JsonView) -> Option<Seq<RunCreateValidatorView>> {
    match member_items(a, "validators"@) {
        Some(items) => some_if_any(nested_validators_of(items)),
        None => None,
    }
}

/// An aggregation of the upload; `None` where it has no type.
pub open spec fn aggregation_of(a: JsonView) -> Option<RunCreateAggregationView> {
    match member_text(a, "type"@) {
        Some(kind) => Some(
            RunCreateAggregationView {
                aggregation_type: kind,
                outcome: verdict_of(a),
                value: not_null(json_member(a, "value"@)),
                unit: member_text(a, "unit"@),
                validators: aggregation_validators(a),
            },
        ),
        None => None,
    }
}

fn read_aggregation(a: &Json) -> (out: Option<RunCreateAggregation>)
    ensures
        out.deep_view() == aggregation_of(a.deep_view()),
{
    let kind = match a.get_text("type") {
        Some(kind) => kind.dup(),
        None => {
            return None;
        },
    };
    let validators = match a.get_items("validators") {
        Some(items) => {
            let list = json_validators(items);
            if list.len() > 0 {
                Some(list)
            } else {
                None
            }
        },
        None => None,
    };
    Some(
        RunCreateAggregation {
            aggregation_type: kind,
            outcome: read_verdict(a),
            value: field_present(a, "value"),
            unit: field_text(a, "unit"),
            validators,
        },
    )
}

/// The aggregations of a list; one without a type is left out.
pub open spec fn aggregations_of(items: Seq<JsonView>) -> Seq<RunCreateAggregationView>
    decreases items.len(),
{
    if items.len() == 0 {
        Seq::empty()
    } else {
        let rest = aggregations_of(items.drop_last());
        match aggregation_of(items.last()) {
            Some(x) => rest.push(x),
            None => rest,
        }
    }
}

/// Reads a list of aggregations.
pub fn json_aggregations(items: &Vec<Json>) -> (out: Vec<RunCreateAggregation>)
    ensures
        out.deep_view() == aggregations_of(items.deep_view()),
{
    let mut out: Vec<RunCreateAggregation> = Vec::new();
    let mut i: usize = 0;
    assert(out.deep_view() =~= aggregations_of(items.deep_view().take(0)));
    while i < items.len()
        invariant
            i <= items@.len(),
            out.deep_view() == aggregations_of(items.deep_view().take(i as int)),
        decreases items@.len() - i,
    {
        let ghost now_seen = items.deep_view().take(i + 1);
        assert(now_seen.drop_last() =~= items.deep_view().take(i as int));
        assert(now_seen.last() == items@[i as int].deep_view());
        match read_aggregation(&items[i]) {
            Some(x) => {
                push(&mut out, x);
            },
            None => {},
        }
        i += 1;
    }
    assert(items.deep_view().take(items@.len() as int) =~= items.deep_view());
    out
}

// ---------------------------------------------------------------------------
// Laws
// ---------------------------------------------------------------------------

/// What the test wrote in its own metadata wins over everything that was
/// identified before it ran.
pub proof fn law_metadata_wins(
    connector: Connector,
    test_end: JsonView,
    test_start: Option<JsonView>,
    phases: Seq<JsonView>,
    unit: ResolvedUnitView,
    ctx: RunContextView,
    now: Instant,
)
    ensures
        ({
            let r = request_of(connector, test_end, test_start, phases, unit, ctx, now);
            &&& metadata_text(test_end, "serial_number"@) is Some ==> r.serial_number
                == metadata_text(test_end, "serial_number"@)->0
            &&& metadata_text(test_end, "part_number"@) is Some ==> r.part_number
                == metadata_text(test_end, "part_number"@)
            &&& metadata_text(test_end, "revision_number"@) is Some ==> r.revision_number
                == metadata_text(test_end, "revision_number"@)
            &&& metadata_text(test_end, "batch_number"@) is Some ==> r.batch_number
                == metadata_text(test_end, "batch_number"@)
            &&& written_sub_units(test_end).len() > 0 ==> r.sub_units == Some(
                written_sub_units(test_end),
            )
        }),
{
    reveal_strlit("true");
    reveal_strlit("false");
}

/// A phase that has a name is uploaded, with its name; one without is not.
pub proof fn law_named_phases_are_uploaded(phases: Seq<JsonView>, connector: Connector, now: Instant)
    ensures
        phases_of(phases, connector, now).len() == phases.filter(
            |p: JsonView| member_text(p, "name"@) is Some,
        ).len(),
        phases_of(phases, connector, now).len() <= phases.len(),
    decreases phases.len(),
{
    reveal(Seq::filter);
    if phases.len() > 0 {
        law_named_phases_are_uploaded(phases.drop_last(), connector, now);
    }
}

} // verus!
