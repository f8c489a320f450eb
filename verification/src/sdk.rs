//! The shape of an upload.

use vstd::prelude::*;
use crate::dup::Dup;
use crate::json::{Json, JsonField, JsonFieldView, JsonView};
use crate::time::Instant;

verus! {

/// Outcome of an uploaded run.
#[derive(Debug, Clone, Copy, PartialEq, Eq, Structural)]
pub enum RunGetOutcome {
    Pass,
    Fail,
    Error,
    Timeout,
    Aborted,
}

impl DeepView for RunGetOutcome {
    type V = RunGetOutcome;

    open spec fn deep_view(&self) -> RunGetOutcome {
        *self
    }
}

impl Dup for RunGetOutcome {
    fn dup(&self) -> (copy: Self) {
        *self
    }
}

/// Outcome of an uploaded phase.
#[derive(Debug, Clone, Copy, PartialEq, Eq, Structural)]
pub enum RunGetPhasesOutcome {
    Pass,
    Fail,
    Skip,
    Error,
}

impl DeepView for RunGetPhasesOutcome {
    type V = RunGetPhasesOutcome;

    open spec fn deep_view(&self) -> RunGetPhasesOutcome {
        *self
    }
}

impl Dup for RunGetPhasesOutcome {
    fn dup(&self) -> (copy: Self) {
        *self
    }
}

/// Verdict of an uploaded measurement, validator or aggregation.
#[derive(Debug, Clone, Copy, PartialEq, Eq, Structural)]
pub enum MeasurementOutcome {
    Pass,
    Fail,
    Unset,
}

impl DeepView for MeasurementOutcome {
    type V = MeasurementOutcome;

    open spec fn deep_view(&self) -> MeasurementOutcome {
        *self
    }
}

impl Dup for MeasurementOutcome {
    fn dup(&self) -> (copy: Self) {
        *self
    }
}

/// Severity of an uploaded log line.
#[derive(Debug, Clone, Copy, PartialEq, Eq, Structural)]
pub enum Level {
    Debug,
    Info,
    Warning,
    Error,
    Critical,
}

impl DeepView for Level {
    type V = Level;

    open spec fn deep_view(&self) -> Level {
        *self
    }
}

impl Dup for Level {
    fn dup(&self) -> (copy: Self) {
        *self
    }
}

/// A validator of an upload.
#[derive(Debug, PartialEq, Eq)]
pub struct RunCreateValidator {
    pub outcome: Option<MeasurementOutcome>,
    pub operator: Option<String>,
    pub expected_value: Option<Json>,
    pub expression: Option<String>,
    pub is_decisive: Option<bool>,
}

/// View of [`RunCreateValidator`].
pub struct RunCreateValidatorView {
    pub outcome: Option<MeasurementOutcome>,
    pub operator: Option<Seq<char>>,
    pub expected_value: Option<JsonView>,
    pub expression: Option<Seq<char>>,
    pub is_decisive: Option<bool>,
}

impl DeepView for RunCreateValidator {
    type V = RunCreateValidatorView;

    open spec fn deep_view(&self) -> RunCreateValidatorView {
        RunCreateValidatorView {
            outcome: self.outcome.deep_view(),
            operator: self.operator.deep_view(),
            expected_value: self.expected_value.deep_view(),
            expression: self.expression.deep_view(),
            is_decisive: self.is_decisive.deep_view(),
        }
    }
}

impl Dup for RunCreateValidator {
    fn dup(&self) -> (copy: Self) {
        RunCreateValidator {
            outcome: self.outcome.dup(),
            operator: self.operator.dup(),
            expected_value: self.expected_value.dup(),
            expression: self.expression.dup(),
            is_decisive: self.is_decisive.dup(),
        }
    }
}

/// An aggregation of an upload.
#[derive(Debug, PartialEq, Eq)]
pub struct RunCreateAggregation {
    pub aggregation_type: String,
    pub outcome: Option<MeasurementOutcome>,
    pub value: Option<Json>,
    pub unit: Option<String>,
    pub validators: Option<Vec<RunCreateValidator>>,
}

/// View of [`RunCreateAggregation`].
pub struct RunCreateAggregationView {
    pub aggregation_type: Seq<char>,
    pub outcome: Option<MeasurementOutcome>,
    pub value: Option<JsonView>,
    pub unit: Option<Seq<char>>,
    pub validators: Option<Seq<RunCreateValidatorView>>,
}

impl DeepView for RunCreateAggregation {
    type V = RunCreateAggregationView;

    open spec fn deep_view(&self) -> RunCreateAggregationView {
        RunCreateAggregationView {
            aggregation_type: self.aggregation_type.deep_view(),
            outcome: self.outcome.deep_view(),
            value: self.value.deep_view(),
            unit: self.unit.deep_view(),
            validators: self.validators.deep_view(),
        }
    }
}

impl Dup for RunCreateAggregation {
    fn dup(&self) -> (copy: Self) {
        RunCreateAggregation {
            aggregation_type: self.aggregation_type.dup(),
            outcome: self.outcome.dup(),
            value: self.value.dup(),
            unit: self.unit.dup(),
            validators: self.validators.dup(),
        }
    }
}

/// An axis of an upload.
#[derive(Debug, PartialEq, Eq)]
pub struct RunCreateAxis {
    /// Doubles, by their bit patterns.
    pub data: Vec<u64>,
    pub units: Option<String>,
    pub name: Option<String>,
    pub description: Option<String>,
    pub validators: Option<Vec<RunCreateValidator>>,
    pub aggregations: Option<Vec<RunCreateAggregation>>,
}

/// View of [`RunCreateAxis`].
pub struct RunCreateAxisView {
    pub data: Seq<u64>,
    pub units: Option<Seq<char>>,
    pub name: Option<Seq<char>>,
    pub description: Option<Seq<char>>,
    pub validators: Option<Seq<RunCreateValidatorView>>,
    pub aggregations: Option<Seq<RunCreateAggregationView>>,
}

impl DeepView for RunCreateAxis {
    type V = RunCreateAxisView;

    open spec fn deep_view(&self) -> RunCreateAxisView {
        RunCreateAxisView {
            data: self.data.deep_view(),
            units: self.units.deep_view(),
            name: self.name.deep_view(),
            description: self.description.deep_view(),
            validators: self.validators.deep_view(),
            aggregations: self.aggregations.deep_view(),
        }
    }
}

impl Dup for RunCreateAxis {
    fn dup(&self) -> (copy: Self) {
        RunCreateAxis {
            data: self.data.dup(),
            units: self.units.dup(),
            name: self.name.dup(),
            description: self.description.dup(),
            validators: self.validators.dup(),
            aggregations: self.aggregations.dup(),
        }
    }
}

/// A measurement of an upload.
#[derive(Debug, PartialEq, Eq)]
pub struct RunCreateMeasurement {
    pub name: String,
    pub outcome: MeasurementOutcome,
    pub x_axis: Option<RunCreateAxis>,
    pub y_axis: Option<Vec<RunCreateAxis>>,
    pub measured_value: Option<Json>,
    pub units: Option<Json>,
    pub validators: Option<Vec<RunCreateValidator>>,
    pub aggregations: Option<Vec<RunCreateAggregation>>,
    pub docstring: Option<String>,
}

/// View of [`RunCreateMeasurement`].
pub struct RunCreateMeasurementView {
    pub name: Seq<char>,
    pub outcome: MeasurementOutcome,
    pub x_axis: Option<RunCreateAxisView>,
    pub y_axis: Option<Seq<RunCreateAxisView>>,
    pub measured_value: Option<JsonView>,
    pub units: Option<JsonView>,
    pub validators: Option<Seq<RunCreateValidatorView>>,
    pub aggregations: Option<Seq<RunCreateAggregationView>>,
    pub docstring: Option<Seq<char>>,
}

impl DeepView for RunCreateMeasurement {
    type V = RunCreateMeasurementView;

    open spec fn deep_view(&self) -> RunCreateMeasurementView {
        RunCreateMeasurementView {
            name: self.name.deep_view(),
            outcome: self.outcome.deep_view(),
            x_axis: self.x_axis.deep_view(),
            y_axis: self.y_axis.deep_view(),
            measured_value: self.measured_value.deep_view(),
            units: self.units.deep_view(),
            validators: self.validators.deep_view(),
            aggregations: self.aggregations.deep_view(),
            docstring: self.docstring.deep_view(),
        }
    }
}

impl Dup for RunCreateMeasurement {
    fn dup(&self) -> (copy: Self) {
        RunCreateMeasurement {
            name: self.name.dup(),
            outcome: self.outcome.dup(),
            x_axis: self.x_axis.dup(),
            y_axis: self.y_axis.dup(),
            measured_value: self.measured_value.dup(),
            units: self.units.dup(),
            validators: self.validators.dup(),
            aggregations: self.aggregations.dup(),
            docstring: self.docstring.dup(),
        }
    }
}

/// A phase of an upload.
#[derive(Debug, PartialEq, Eq)]
pub struct RunCreatePhase {
    pub name: String,
    pub outcome: RunGetPhasesOutcome,
    pub started_at: Instant,
    pub ended_at: Instant,
    pub measurements: Vec<RunCreateMeasurement>,
    pub retry_count: Option<i64>,
    pub docstring: Option<String>,
}

/// View of [`RunCreatePhase`].
pub struct RunCreatePhaseView {
    pub name: Seq<char>,
    pub outcome: RunGetPhasesOutcome,
    pub started_at: Instant,
    pub ended_at: Instant,
    pub measurements: Seq<RunCreateMeasurementView>,
    pub retry_count: Option<i64>,
    pub docstring: Option<Seq<char>>,
}

impl DeepView for RunCreatePhase {
    type V = RunCreatePhaseView;

    open spec fn deep_view(&self) -> RunCreatePhaseView {
        RunCreatePhaseView {
            name: self.name.deep_view(),
            outcome: self.outcome.deep_view(),
            started_at: self.started_at.deep_view(),
            ended_at: self.ended_at.deep_view(),
            measurements: self.measurements.deep_view(),
            retry_count: self.retry_count.deep_view(),
            docstring: self.docstring.deep_view(),
        }
    }
}

impl Dup for RunCreatePhase {
    fn dup(&self) -> (copy: Self) {
        RunCreatePhase {
            name: self.name.dup(),
            outcome: self.outcome.dup(),
            started_at: self.started_at.dup(),
            ended_at: self.ended_at.dup(),
            measurements: self.measurements.dup(),
            retry_count: self.retry_count.dup(),
            docstring: self.docstring.dup(),
        }
    }
}

/// A log line of an upload.
#[derive(Debug, PartialEq, Eq)]
pub struct RunCreateLog {
    pub level: Level,
    pub timestamp: Instant,
    pub message: String,
    pub source_file: String,
    pub line_number: i64,
}

/// View of [`RunCreateLog`].
pub struct RunCreateLogView {
    pub level: Level,
    pub timestamp: Instant,
    pub message: Seq<char>,
    pub source_file: Seq<char>,
    pub line_number: i64,
}

impl DeepView for RunCreateLog {
    type V = RunCreateLogView;

    open spec fn deep_view(&self) -> RunCreateLogView {
        RunCreateLogView {
            level: self.level.deep_view(),
            timestamp: self.timestamp.deep_view(),
            message: self.message.deep_view(),
            source_file: self.source_file.deep_view(),
            line_number: self.line_number.deep_view(),
        }
    }
}

impl Dup for RunCreateLog {
    fn dup(&self) -> (copy: Self) {
        RunCreateLog {
            level: self.level.dup(),
            timestamp: self.timestamp.dup(),
            message: self.message.dup(),
            source_file: self.source_file.dup(),
            line_number: self.line_number.dup(),
        }
    }
}

/// The upload of one run.
#[derive(Debug, PartialEq, Eq)]
pub struct RunCreateRequest {
    pub outcome: RunGetOutcome,
    pub procedure_id: String,
    pub serial_number: String,
    pub started_at: Instant,
    pub ended_at: Instant,
    pub phases: Vec<RunCreatePhase>,
    pub logs: Option<Vec<RunCreateLog>>,
    pub part_number: Option<String>,
    pub revision_number: Option<String>,
    pub batch_number: Option<String>,
    pub sub_units: Option<Vec<String>>,
    pub execution_id: Option<String>,
    pub slot_key: Option<String>,
    pub slot_name: Option<String>,
    pub metadata: Option<Vec<JsonField>>,
    pub unit_metadata: Option<Vec<JsonField>>,
    pub docstring: Option<String>,
    pub procedure_version: Option<String>,
    pub deployment_id: Option<String>,
    pub operated_by: Option<String>,
}

/// View of [`RunCreateRequest`].
pub struct RunCreateRequestView {
    pub outcome: RunGetOutcome,
    pub procedure_id: Seq<char>,
    pub serial_number: Seq<char>,
    pub started_at: Instant,
    pub ended_at: Instant,
    pub phases: Seq<RunCreatePhaseView>,
    pub logs: Option<Seq<RunCreateLogView>>,
    pub part_number: Option<Seq<char>>,
    pub revision_number: Option<Seq<char>>,
    pub batch_number: Option<Seq<char>>,
    pub sub_units: Option<Seq<Seq<char>>>,
    pub execution_id: Option<Seq<char>>,
    pub slot_key: Option<Seq<char>>,
    pub slot_name: Option<Seq<char>>,
    pub metadata: Option<Seq<JsonFieldView>>,
    pub unit_metadata: Option<Seq<JsonFieldView>>,
    pub docstring: Option<Seq<char>>,
    pub procedure_version: Option<Seq<char>>,
    pub deployment_id: Option<Seq<char>>,
    pub operated_by: Option<Seq<char>>,
}

impl DeepView for RunCreateRequest {
    type V = RunCreateRequestView;

    open spec fn deep_view(&self) -> RunCreateRequestView {
        RunCreateRequestView {
            outcome: self.outcome.deep_view(),
            procedure_id: self.procedure_id.deep_view(),
            serial_number: self.serial_number.deep_view(),
            started_at: self.started_at.deep_view(),
            ended_at: self.ended_at.deep_view(),
            phases: self.phases.deep_view(),
            logs: self.logs.deep_view(),
            part_number: self.part_number.deep_view(),
            revision_number: self.revision_number.deep_view(),
            batch_number: self.batch_number.deep_view(),
            sub_units: self.sub_units.deep_view(),
            execution_id: self.execution_id.deep_view(),
            slot_key: self.slot_key.deep_view(),
            slot_name: self.slot_name.deep_view(),
            metadata: self.metadata.deep_view(),
            unit_metadata: self.unit_metadata.deep_view(),
            docstring: self.docstring.deep_view(),
            procedure_version: self.procedure_version.deep_view(),
            deployment_id: self.deployment_id.deep_view(),
            operated_by: self.operated_by.deep_view(),
        }
    }
}

impl Dup for RunCreateRequest {
    fn dup(&self) -> (copy: Self) {
        RunCreateRequest {
            outcome: self.outcome.dup(),
            procedure_id: self.procedure_id.dup(),
            serial_number: self.serial_number.dup(),
            started_at: self.started_at.dup(),
            ended_at: self.ended_at.dup(),
            phases: self.phases.dup(),
            logs: self.logs.dup(),
            part_number: self.part_number.dup(),
            revision_number: self.revision_number.dup(),
            batch_number: self.batch_number.dup(),
            sub_units: self.sub_units.dup(),
            execution_id: self.execution_id.dup(),
            slot_key: self.slot_key.dup(),
            slot_name: self.slot_name.dup(),
            metadata: self.metadata.dup(),
            unit_metadata: self.unit_metadata.dup(),
            docstring: self.docstring.dup(),
            procedure_version: self.procedure_version.dup(),
            deployment_id: self.deployment_id.dup(),
            operated_by: self.operated_by.dup(),
        }
    }
}

} // verus!
