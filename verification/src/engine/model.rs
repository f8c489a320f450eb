//! What the execution engine reports, and what a run accumulates from it.

use vstd::prelude::*;
use crate::dup::Dup;
use crate::json::{Json, JsonField, JsonFieldView, JsonNumber, JsonNumberView, JsonView};
use crate::queue::{QueuedAttachment, QueuedAttachmentView};
use crate::time::Instant;

verus! {

/// Outcome of a phase or a run, as the execution engine reports it.
#[derive(Debug, Clone, Copy, PartialEq, Eq, Structural)]
pub enum Outcome {
    Pass,
    Fail,
    Error,
    Timeout,
    Stop,
    Skip,
    Retry,
}

impl DeepView for Outcome {
    type V = Outcome;

    open spec fn deep_view(&self) -> Outcome {
        *self
    }
}

impl Dup for Outcome {
    fn dup(&self) -> (copy: Self) {
        *self
    }
}

/// Verdict of one validator or one measurement.
#[derive(Debug, Clone, Copy, PartialEq, Eq, Structural)]
pub enum ValidatorOutcome {
    Pass,
    Fail,
    Unset,
}

impl DeepView for ValidatorOutcome {
    type V = ValidatorOutcome;

    open spec fn deep_view(&self) -> ValidatorOutcome {
        *self
    }
}

impl Dup for ValidatorOutcome {
    fn dup(&self) -> (copy: Self) {
        *self
    }
}

/// Where a job stands in the engine's schedule.
#[derive(Debug, Clone, Copy, PartialEq, Eq, Structural)]
pub enum JobStatus {
    Pending,
    Running,
    Completed,
    Skipped,
}

impl DeepView for JobStatus {
    type V = JobStatus;

    open spec fn deep_view(&self) -> JobStatus {
        *self
    }
}

impl Dup for JobStatus {
    fn dup(&self) -> (copy: Self) {
        *self
    }
}

/// Stage of a procedure that a phase belongs to.
#[derive(Debug, Clone, Copy, PartialEq, Eq, Structural)]
pub enum StageScope {
    SetupAll,
    SetupEach,
    Main,
    TeardownEach,
    TeardownAll,
}

impl DeepView for StageScope {
    type V = StageScope;

    open spec fn deep_view(&self) -> StageScope {
        *self
    }
}

impl Dup for StageScope {
    fn dup(&self) -> (copy: Self) {
        *self
    }
}

/// Lifecycle state of a plug.
#[derive(Debug, Clone, Copy, PartialEq, Eq, Structural)]
pub enum PlugStatusValue {
    Idle,
    Initializing,
    Active,
    Destructing,
    Error,
    Skipped,
}

impl DeepView for PlugStatusValue {
    type V = PlugStatusValue;

    open spec fn deep_view(&self) -> PlugStatusValue {
        *self
    }
}

impl Dup for PlugStatusValue {
    fn dup(&self) -> (copy: Self) {
        *self
    }
}

/// Stage a plug is in.
#[derive(Debug, Clone, Copy, PartialEq, Eq, Structural)]
pub enum PlugStage {
    Setup,
    Teardown,
    Manual,
}

impl DeepView for PlugStage {
    type V = PlugStage;

    open spec fn deep_view(&self) -> PlugStage {
        *self
    }
}

impl Dup for PlugStage {
    fn dup(&self) -> (copy: Self) {
        *self
    }
}

/// How long a plug lives.
#[derive(Debug, Clone, Copy, PartialEq, Eq, Structural)]
pub enum PlugScope {
    Execution,
    Slot,
    Station,
}

impl DeepView for PlugScope {
    type V = PlugScope;

    open spec fn deep_view(&self) -> PlugScope {
        *self
    }
}

impl Dup for PlugScope {
    fn dup(&self) -> (copy: Self) {
        *self
    }
}

/// One entry of a map from text to text.
#[derive(Debug, PartialEq, Eq)]
pub struct KeyText {
    pub key: String,
    pub text: String,
}

/// View of [`KeyText`].
pub struct KeyTextView {
    pub key: Seq<char>,
    pub text: Seq<char>,
}

impl DeepView for KeyText {
    type V = KeyTextView;

    open spec fn deep_view(&self) -> KeyTextView {
        KeyTextView {
            key: self.key.deep_view(),
            text: self.text.deep_view(),
        }
    }
}

impl Dup for KeyText {
    fn dup(&self) -> (copy: Self) {
        KeyText {
            key: self.key.dup(),
            text: self.text.dup(),
        }
    }
}

/// A number with its display form beside the JSON one.
#[derive(Debug, PartialEq, Eq)]
pub struct ShownNumber {
    pub json: JsonNumber,
    /// The number as plain display text.
    pub display: String,
}

/// View of [`ShownNumber`].
pub struct ShownNumberView {
    pub json: JsonNumberView,
    pub display: Seq<char>,
}

impl DeepView for ShownNumber {
    type V = ShownNumberView;

    open spec fn deep_view(&self) -> ShownNumberView {
        ShownNumberView {
            json: self.json.deep_view(),
            display: self.display.deep_view(),
        }
    }
}

impl Dup for ShownNumber {
    fn dup(&self) -> (copy: Self) {
        ShownNumber {
            json: self.json.dup(),
            display: self.display.dup(),
        }
    }
}

/// What a validator compares a value with.
#[derive(Debug, PartialEq, Eq)]
pub enum ValidatorExpectedValue {
    Number(ShownNumber),
    String(String),
    Boolean(bool),
    Null,
    NumberArray(Vec<ShownNumber>),
    StringArray(Vec<String>),
    MixedArray(Vec<Json>),
    Object(Vec<JsonField>),
}

/// View of [`ValidatorExpectedValue`].
pub enum ValidatorExpectedValueView {
    Number(ShownNumberView),
    String(Seq<char>),
    Boolean(bool),
    Null,
    NumberArray(Seq<ShownNumberView>),
    StringArray(Seq<Seq<char>>),
    MixedArray(Seq<JsonView>),
    Object(Seq<JsonFieldView>),
}

impl DeepView for ValidatorExpectedValue {
    type V = ValidatorExpectedValueView;

    open spec fn deep_view(&self) -> ValidatorExpectedValueView {
        match self {
            ValidatorExpectedValue::Number(v) => ValidatorExpectedValueView::Number(v.deep_view()),
            ValidatorExpectedValue::String(v) => ValidatorExpectedValueView::String(v.deep_view()),
            ValidatorExpectedValue::Boolean(v) => ValidatorExpectedValueView::Boolean(v.deep_view()),
            ValidatorExpectedValue::Null => ValidatorExpectedValueView::Null,
            ValidatorExpectedValue::NumberArray(v) => ValidatorExpectedValueView::NumberArray(v.deep_view()),
            ValidatorExpectedValue::StringArray(v) => ValidatorExpectedValueView::StringArray(v.deep_view()),
            ValidatorExpectedValue::MixedArray(v) => ValidatorExpectedValueView::MixedArray(v.deep_view()),
            ValidatorExpectedValue::Object(v) => ValidatorExpectedValueView::Object(v.deep_view()),
        }
    }
}

impl Dup for ValidatorExpectedValue {
    fn dup(&self) -> (copy: Self) {
        match self {
            ValidatorExpectedValue::Number(v) => ValidatorExpectedValue::Number(v.dup()),
            ValidatorExpectedValue::String(v) => ValidatorExpectedValue::String(v.dup()),
            ValidatorExpectedValue::Boolean(v) => ValidatorExpectedValue::Boolean(v.dup()),
            ValidatorExpectedValue::Null => ValidatorExpectedValue::Null,
            ValidatorExpectedValue::NumberArray(v) => ValidatorExpectedValue::NumberArray(v.dup()),
            ValidatorExpectedValue::StringArray(v) => ValidatorExpectedValue::StringArray(v.dup()),
            ValidatorExpectedValue::MixedArray(v) => ValidatorExpectedValue::MixedArray(v.dup()),
            ValidatorExpectedValue::Object(v) => ValidatorExpectedValue::Object(v.dup()),
        }
    }
}

/// A validator with its verdict.
#[derive(Debug, PartialEq, Eq)]
pub struct ValidatorSpec {
    pub operator: Option<String>,
    pub expected_value: Option<ValidatorExpectedValue>,
    pub expression: Option<String>,
    pub outcome: Option<ValidatorOutcome>,
}

/// View of [`ValidatorSpec`].
pub struct ValidatorSpecView {
    pub operator: Option<Seq<char>>,
    pub expected_value: Option<ValidatorExpectedValueView>,
    pub expression: Option<Seq<char>>,
    pub outcome: Option<ValidatorOutcome>,
}

impl DeepView for ValidatorSpec {
    type V = ValidatorSpecView;

    open spec fn deep_view(&self) -> ValidatorSpecView {
        ValidatorSpecView {
            operator: self.operator.deep_view(),
            expected_value: self.expected_value.deep_view(),
            expression: self.expression.deep_view(),
            outcome: self.outcome.deep_view(),
        }
    }
}

impl Dup for ValidatorSpec {
    fn dup(&self) -> (copy: Self) {
        ValidatorSpec {
            operator: self.operator.dup(),
            expected_value: self.expected_value.dup(),
            expression: self.expression.dup(),
            outcome: self.outcome.dup(),
        }
    }
}

/// The value of an aggregation.
#[derive(Debug, PartialEq, Eq)]
pub enum AggregationValue {
    Number(JsonNumber),
    String(String),
    Boolean(bool),
    Object(Vec<JsonField>),
}

/// View of [`AggregationValue`].
pub enum AggregationValueView {
    Number(JsonNumberView),
    String(Seq<char>),
    Boolean(bool),
    Object(Seq<JsonFieldView>),
}

impl DeepView for AggregationValue {
    type V = AggregationValueView;

    open spec fn deep_view(&self) -> AggregationValueView {
        match self {
            AggregationValue::Number(v) => AggregationValueView::Number(v.deep_view()),
            AggregationValue::String(v) => AggregationValueView::String(v.deep_view()),
            AggregationValue::Boolean(v) => AggregationValueView::Boolean(v.deep_view()),
            AggregationValue::Object(v) => AggregationValueView::Object(v.deep_view()),
        }
    }
}

impl Dup for AggregationValue {
    fn dup(&self) -> (copy: Self) {
        match self {
            AggregationValue::Number(v) => AggregationValue::Number(v.dup()),
            AggregationValue::String(v) => AggregationValue::String(v.dup()),
            AggregationValue::Boolean(v) => AggregationValue::Boolean(v.dup()),
            AggregationValue::Object(v) => AggregationValue::Object(v.dup()),
        }
    }
}

/// An aggregation with its verdict.
#[derive(Debug, PartialEq, Eq)]
pub struct AggregationSpec {
    pub aggregation_type: String,
    pub value: Option<AggregationValue>,
    pub unit: Option<String>,
    pub outcome: Option<ValidatorOutcome>,
    pub validators: Option<Vec<ValidatorSpec>>,
}

/// View of [`AggregationSpec`].
pub struct AggregationSpecView {
    pub aggregation_type: Seq<char>,
    pub value: Option<AggregationValueView>,
    pub unit: Option<Seq<char>>,
    pub outcome: Option<ValidatorOutcome>,
    pub validators: Option<Seq<ValidatorSpecView>>,
}

impl DeepView for AggregationSpec {
    type V = AggregationSpecView;

    open spec fn deep_view(&self) -> AggregationSpecView {
        AggregationSpecView {
            aggregation_type: self.aggregation_type.deep_view(),
            value: self.value.deep_view(),
            unit: self.unit.deep_view(),
            outcome: self.outcome.deep_view(),
            validators: self.validators.deep_view(),
        }
    }
}

impl Dup for AggregationSpec {
    fn dup(&self) -> (copy: Self) {
        AggregationSpec {
            aggregation_type: self.aggregation_type.dup(),
            value: self.value.dup(),
            unit: self.unit.dup(),
            outcome: self.outcome.dup(),
            validators: self.validators.dup(),
        }
    }
}

/// The data series of an axis.
#[derive(Debug, PartialEq, Eq)]
pub enum AxisData {
    /// Doubles, by their bit patterns.
    Numeric(Vec<u64>),
    Labels(Vec<String>),
}

/// View of [`AxisData`].
pub enum AxisDataView {
    Numeric(Seq<u64>),
    Labels(Seq<Seq<char>>),
}

impl DeepView for AxisData {
    type V = AxisDataView;

    open spec fn deep_view(&self) -> AxisDataView {
        match self {
            AxisData::Numeric(v) => AxisDataView::Numeric(v.deep_view()),
            AxisData::Labels(v) => AxisDataView::Labels(v.deep_view()),
        }
    }
}

impl Dup for AxisData {
    fn dup(&self) -> (copy: Self) {
        match self {
            AxisData::Numeric(v) => AxisData::Numeric(v.dup()),
            AxisData::Labels(v) => AxisData::Labels(v.dup()),
        }
    }
}

/// One axis of a multi-dimensional measurement.
#[derive(Debug, PartialEq, Eq)]
pub struct Axis {
    pub key: Option<String>,
    pub legend: Option<String>,
    pub unit: Option<String>,
    pub data: Option<AxisData>,
    pub validators: Option<Vec<ValidatorSpec>>,
    pub aggregations: Option<Vec<AggregationSpec>>,
}

/// View of [`Axis`].
pub struct AxisView {
    pub key: Option<Seq<char>>,
    pub legend: Option<Seq<char>>,
    pub unit: Option<Seq<char>>,
    pub data: Option<AxisDataView>,
    pub validators: Option<Seq<ValidatorSpecView>>,
    pub aggregations: Option<Seq<AggregationSpecView>>,
}

impl DeepView for Axis {
    type V = AxisView;

    open spec fn deep_view(&self) -> AxisView {
        AxisView {
            key: self.key.deep_view(),
            legend: self.legend.deep_view(),
            unit: self.unit.deep_view(),
            data: self.data.deep_view(),
            validators: self.validators.deep_view(),
            aggregations: self.aggregations.deep_view(),
        }
    }
}

impl Dup for Axis {
    fn dup(&self) -> (copy: Self) {
        Axis {
            key: self.key.dup(),
            legend: self.legend.dup(),
            unit: self.unit.dup(),
            data: self.data.dup(),
            validators: self.validators.dup(),
            aggregations: self.aggregations.dup(),
        }
    }
}

/// The axes of a multi-dimensional measurement.
#[derive(Debug, PartialEq, Eq)]
pub struct MultiDimensional {
    pub x_axis: Axis,
    pub y_axis: Vec<Axis>,
}

/// View of [`MultiDimensional`].
pub struct MultiDimensionalView {
    pub x_axis: AxisView,
    pub y_axis: Seq<AxisView>,
}

impl DeepView for MultiDimensional {
    type V = MultiDimensionalView;

    open spec fn deep_view(&self) -> MultiDimensionalView {
        MultiDimensionalView {
            x_axis: self.x_axis.deep_view(),
            y_axis: self.y_axis.deep_view(),
        }
    }
}

impl Dup for MultiDimensional {
    fn dup(&self) -> (copy: Self) {
        MultiDimensional {
            x_axis: self.x_axis.dup(),
            y_axis: self.y_axis.dup(),
        }
    }
}

/// A measurement of a completed phase.
#[derive(Debug, PartialEq, Eq)]
pub struct Measurement {
    pub name: String,
    /// The verdict that the engine rolled up from the validators.
    pub outcome: ValidatorOutcome,
    /// The value as plain JSON.
    pub raw: Json,
    /// The axes, where the value is multi-dimensional.
    pub axes: Option<MultiDimensional>,
    pub unit: Option<String>,
    pub validators: Option<Vec<ValidatorSpec>>,
    pub aggregations: Option<Vec<AggregationSpec>>,
    pub description: Option<String>,
}

/// View of [`Measurement`].
pub struct MeasurementView {
    pub name: Seq<char>,
    pub outcome: ValidatorOutcome,
    pub raw: JsonView,
    pub axes: Option<MultiDimensionalView>,
    pub unit: Option<Seq<char>>,
    pub validators: Option<Seq<ValidatorSpecView>>,
    pub aggregations: Option<Seq<AggregationSpecView>>,
    pub description: Option<Seq<char>>,
}

impl DeepView for Measurement {
    type V = MeasurementView;

    open spec fn deep_view(&self) -> MeasurementView {
        MeasurementView {
            name: self.name.deep_view(),
            outcome: self.outcome.deep_view(),
            raw: self.raw.deep_view(),
            axes: self.axes.deep_view(),
            unit: self.unit.deep_view(),
            validators: self.validators.deep_view(),
            aggregations: self.aggregations.deep_view(),
            description: self.description.deep_view(),
        }
    }
}

impl Dup for Measurement {
    fn dup(&self) -> (copy: Self) {
        Measurement {
            name: self.name.dup(),
            outcome: self.outcome.dup(),
            raw: self.raw.dup(),
            axes: self.axes.dup(),
            unit: self.unit.dup(),
            validators: self.validators.dup(),
            aggregations: self.aggregations.dup(),
            description: self.description.dup(),
        }
    }
}

/// A log line of a completed phase.
#[derive(Debug, PartialEq, Eq)]
pub struct LogEntry {
    pub level: String,
    pub message: String,
    pub timestamp: String,
    pub file: Option<String>,
    pub line: Option<u32>,
}

/// View of [`LogEntry`].
pub struct LogEntryView {
    pub level: Seq<char>,
    pub message: Seq<char>,
    pub timestamp: Seq<char>,
    pub file: Option<Seq<char>>,
    pub line: Option<u32>,
}

impl DeepView for LogEntry {
    type V = LogEntryView;

    open spec fn deep_view(&self) -> LogEntryView {
        LogEntryView {
            level: self.level.deep_view(),
            message: self.message.deep_view(),
            timestamp: self.timestamp.deep_view(),
            file: self.file.deep_view(),
            line: self.line.deep_view(),
        }
    }
}

impl Dup for LogEntry {
    fn dup(&self) -> (copy: Self) {
        LogEntry {
            level: self.level.dup(),
            message: self.message.dup(),
            timestamp: self.timestamp.dup(),
            file: self.file.dup(),
            line: self.line.dup(),
        }
    }
}

/// A resolved unit, as the execution engine holds it.
#[derive(Debug, PartialEq, Eq)]
pub struct EngineUnit {
    pub serial_number: Option<String>,
    pub part_number: Option<String>,
    pub revision_number: Option<String>,
    pub batch_number: Option<String>,
    pub operated_by: Option<String>,
    pub sub_units: Option<Vec<KeyText>>,
    pub status: String,
    pub metadata: Option<Vec<KeyText>>,
}

/// View of [`EngineUnit`].
pub struct EngineUnitView {
    pub serial_number: Option<Seq<char>>,
    pub part_number: Option<Seq<char>>,
    pub revision_number: Option<Seq<char>>,
    pub batch_number: Option<Seq<char>>,
    pub operated_by: Option<Seq<char>>,
    pub sub_units: Option<Seq<KeyTextView>>,
    pub status: Seq<char>,
    pub metadata: Option<Seq<KeyTextView>>,
}

impl DeepView for EngineUnit {
    type V = EngineUnitView;

    open spec fn deep_view(&self) -> EngineUnitView {
        EngineUnitView {
            serial_number: self.serial_number.deep_view(),
            part_number: self.part_number.deep_view(),
            revision_number: self.revision_number.deep_view(),
            batch_number: self.batch_number.deep_view(),
            operated_by: self.operated_by.deep_view(),
            sub_units: self.sub_units.deep_view(),
            status: self.status.deep_view(),
            metadata: self.metadata.deep_view(),
        }
    }
}

impl Dup for EngineUnit {
    fn dup(&self) -> (copy: Self) {
        EngineUnit {
            serial_number: self.serial_number.dup(),
            part_number: self.part_number.dup(),
            revision_number: self.revision_number.dup(),
            batch_number: self.batch_number.dup(),
            operated_by: self.operated_by.dup(),
            sub_units: self.sub_units.dup(),
            status: self.status.dup(),
            metadata: self.metadata.dup(),
        }
    }
}

/// A phase of the run plan.
#[derive(Debug, PartialEq, Eq)]
pub struct PlannedPhase {
    pub phase_key: String,
    pub phase_name: String,
    pub stage_scope: StageScope,
}

/// View of [`PlannedPhase`].
pub struct PlannedPhaseView {
    pub phase_key: Seq<char>,
    pub phase_name: Seq<char>,
    pub stage_scope: StageScope,
}

impl DeepView for PlannedPhase {
    type V = PlannedPhaseView;

    open spec fn deep_view(&self) -> PlannedPhaseView {
        PlannedPhaseView {
            phase_key: self.phase_key.deep_view(),
            phase_name: self.phase_name.deep_view(),
            stage_scope: self.stage_scope.deep_view(),
        }
    }
}

impl Dup for PlannedPhase {
    fn dup(&self) -> (copy: Self) {
        PlannedPhase {
            phase_key: self.phase_key.dup(),
            phase_name: self.phase_name.dup(),
            stage_scope: self.stage_scope.dup(),
        }
    }
}

/// A plug of the run plan.
#[derive(Debug, PartialEq, Eq)]
pub struct PlannedPlug {
    pub plug_key: String,
    pub plug_name: String,
    pub scope: String,
}

/// View of [`PlannedPlug`].
pub struct PlannedPlugView {
    pub plug_key: Seq<char>,
    pub plug_name: Seq<char>,
    pub scope: Seq<char>,
}

impl DeepView for PlannedPlug {
    type V = PlannedPlugView;

    open spec fn deep_view(&self) -> PlannedPlugView {
        PlannedPlugView {
            plug_key: self.plug_key.deep_view(),
            plug_name: self.plug_name.deep_view(),
            scope: self.scope.deep_view(),
        }
    }
}

impl Dup for PlannedPlug {
    fn dup(&self) -> (copy: Self) {
        PlannedPlug {
            plug_key: self.plug_key.dup(),
            plug_name: self.plug_name.dup(),
            scope: self.scope.dup(),
        }
    }
}

/// The outcome of one slot.
#[derive(Debug, PartialEq, Eq)]
pub struct SlotOutcome {
    pub slot: String,
    pub outcome: Outcome,
}

/// View of [`SlotOutcome`].
pub struct SlotOutcomeView {
    pub slot: Seq<char>,
    pub outcome: Outcome,
}

impl DeepView for SlotOutcome {
    type V = SlotOutcomeView;

    open spec fn deep_view(&self) -> SlotOutcomeView {
        SlotOutcomeView {
            slot: self.slot.deep_view(),
            outcome: self.outcome.deep_view(),
        }
    }
}

impl Dup for SlotOutcome {
    fn dup(&self) -> (copy: Self) {
        SlotOutcome {
            slot: self.slot.dup(),
            outcome: self.outcome.dup(),
        }
    }
}

/// A completed phase, kept for the upload.
#[derive(Debug, PartialEq, Eq)]
pub struct CompletedPhase {
    pub name: String,
    pub outcome: Outcome,
    pub started_at: String,
    pub completed_at: String,
    pub retry_count: u64,
    pub measurements: Vec<Measurement>,
    pub logs: Vec<LogEntry>,
    pub error: Option<String>,
    /// The slot this phase ran for; `None` for a shared stage, which belongs to
    /// the run of every slot.
    pub slot_id: Option<String>,
}

/// View of [`CompletedPhase`].
pub struct CompletedPhaseView {
    pub name: Seq<char>,
    pub outcome: Outcome,
    pub started_at: Seq<char>,
    pub completed_at: Seq<char>,
    pub retry_count: u64,
    pub measurements: Seq<MeasurementView>,
    pub logs: Seq<LogEntryView>,
    pub error: Option<Seq<char>>,
    pub slot_id: Option<Seq<char>>,
}

impl DeepView for CompletedPhase {
    type V = CompletedPhaseView;

    open spec fn deep_view(&self) -> CompletedPhaseView {
        CompletedPhaseView {
            name: self.name.deep_view(),
            outcome: self.outcome.deep_view(),
            started_at: self.started_at.deep_view(),
            completed_at: self.completed_at.deep_view(),
            retry_count: self.retry_count.deep_view(),
            measurements: self.measurements.deep_view(),
            logs: self.logs.deep_view(),
            error: self.error.deep_view(),
            slot_id: self.slot_id.deep_view(),
        }
    }
}

impl Dup for CompletedPhase {
    fn dup(&self) -> (copy: Self) {
        CompletedPhase {
            name: self.name.dup(),
            outcome: self.outcome.dup(),
            started_at: self.started_at.dup(),
            completed_at: self.completed_at.dup(),
            retry_count: self.retry_count.dup(),
            measurements: self.measurements.dup(),
            logs: self.logs.dup(),
            error: self.error.dup(),
            slot_id: self.slot_id.dup(),
        }
    }
}

/// The unit of one slot.
#[derive(Debug, PartialEq, Eq)]
pub struct UnitSnapshot {
    pub serial: Option<String>,
    pub part: Option<String>,
    pub revision: Option<String>,
    pub batch: Option<String>,
    /// Operator resolved through the unit. Wins over the session email.
    pub operated_by: Option<String>,
    pub sub_units: Option<Vec<String>>,
}

/// View of [`UnitSnapshot`].
pub struct UnitSnapshotView {
    pub serial: Option<Seq<char>>,
    pub part: Option<Seq<char>>,
    pub revision: Option<Seq<char>>,
    pub batch: Option<Seq<char>>,
    pub operated_by: Option<Seq<char>>,
    pub sub_units: Option<Seq<Seq<char>>>,
}

impl DeepView for UnitSnapshot {
    type V = UnitSnapshotView;

    open spec fn deep_view(&self) -> UnitSnapshotView {
        UnitSnapshotView {
            serial: self.serial.deep_view(),
            part: self.part.deep_view(),
            revision: self.revision.deep_view(),
            batch: self.batch.deep_view(),
            operated_by: self.operated_by.deep_view(),
            sub_units: self.sub_units.deep_view(),
        }
    }
}

impl Dup for UnitSnapshot {
    fn dup(&self) -> (copy: Self) {
        UnitSnapshot {
            serial: self.serial.dup(),
            part: self.part.dup(),
            revision: self.revision.dup(),
            batch: self.batch.dup(),
            operated_by: self.operated_by.dup(),
            sub_units: self.sub_units.dup(),
        }
    }
}

/// The unit of one slot, with the slot.
#[derive(Debug, PartialEq, Eq)]
pub struct SlotUnit {
    pub slot: String,
    pub unit: UnitSnapshot,
}

/// View of [`SlotUnit`].
pub struct SlotUnitView {
    pub slot: Seq<char>,
    pub unit: UnitSnapshotView,
}

impl DeepView for SlotUnit {
    type V = SlotUnitView;

    open spec fn deep_view(&self) -> SlotUnitView {
        SlotUnitView {
            slot: self.slot.deep_view(),
            unit: self.unit.deep_view(),
        }
    }
}

impl Dup for SlotUnit {
    fn dup(&self) -> (copy: Self) {
        SlotUnit {
            slot: self.slot.dup(),
            unit: self.unit.dup(),
        }
    }
}

/// One contribution to the metadata of a run: the slot it belongs to (`None`
/// where it is shared), its source, and its entries.
#[derive(Debug, PartialEq, Eq)]
pub struct MetadataSource {
    pub slot: Option<String>,
    pub source: String,
    pub entries: Vec<JsonField>,
}

/// View of [`MetadataSource`].
pub struct MetadataSourceView {
    pub slot: Option<Seq<char>>,
    pub source: Seq<char>,
    pub entries: Seq<JsonFieldView>,
}

impl DeepView for MetadataSource {
    type V = MetadataSourceView;

    open spec fn deep_view(&self) -> MetadataSourceView {
        MetadataSourceView {
            slot: self.slot.deep_view(),
            source: self.source.deep_view(),
            entries: self.entries.deep_view(),
        }
    }
}

impl Dup for MetadataSource {
    fn dup(&self) -> (copy: Self) {
        MetadataSource {
            slot: self.slot.dup(),
            source: self.source.dup(),
            entries: self.entries.dup(),
        }
    }
}

/// An attachment with the slot that produced it.
#[derive(Debug, PartialEq, Eq)]
pub struct SlotAttachment {
    pub slot: Option<String>,
    pub attachment: QueuedAttachment,
}

/// View of [`SlotAttachment`].
pub struct SlotAttachmentView {
    pub slot: Option<Seq<char>>,
    pub attachment: QueuedAttachmentView,
}

impl DeepView for SlotAttachment {
    type V = SlotAttachmentView;

    open spec fn deep_view(&self) -> SlotAttachmentView {
        SlotAttachmentView {
            slot: self.slot.deep_view(),
            attachment: self.attachment.deep_view(),
        }
    }
}

impl Dup for SlotAttachment {
    fn dup(&self) -> (copy: Self) {
        SlotAttachment {
            slot: self.slot.dup(),
            attachment: self.attachment.dup(),
        }
    }
}

/// What one execution leaves for the upload. One accumulator for every slot:
/// phases, metadata and attachments carry the slot that produced them.
#[derive(Debug, PartialEq, Eq)]
pub struct RunData {
    pub phases: Vec<CompletedPhase>,
    pub run_outcome: Option<Outcome>,
    pub slot_outcomes: Vec<SlotOutcome>,
    pub run_id: Option<String>,
    pub start_time: Option<Instant>,
    pub end_time: Option<Instant>,
    pub units: Vec<SlotUnit>,
    pub run_metadata_sources: Vec<MetadataSource>,
    pub unit_metadata_sources: Vec<MetadataSource>,
    pub attachments: Vec<SlotAttachment>,
}

/// View of [`RunData`].
pub struct RunDataView {
    pub phases: Seq<CompletedPhaseView>,
    pub run_outcome: Option<Outcome>,
    pub slot_outcomes: Seq<SlotOutcomeView>,
    pub run_id: Option<Seq<char>>,
    pub start_time: Option<Instant>,
    pub end_time: Option<Instant>,
    pub units: Seq<SlotUnitView>,
    pub run_metadata_sources: Seq<MetadataSourceView>,
    pub unit_metadata_sources: Seq<MetadataSourceView>,
    pub attachments: Seq<SlotAttachmentView>,
}

impl DeepView for RunData {
    type V = RunDataView;

    open spec fn deep_view(&self) -> RunDataView {
        RunDataView {
            phases: self.phases.deep_view(),
            run_outcome: self.run_outcome.deep_view(),
            slot_outcomes: self.slot_outcomes.deep_view(),
            run_id: self.run_id.deep_view(),
            start_time: self.start_time.deep_view(),
            end_time: self.end_time.deep_view(),
            units: self.units.deep_view(),
            run_metadata_sources: self.run_metadata_sources.deep_view(),
            unit_metadata_sources: self.unit_metadata_sources.deep_view(),
            attachments: self.attachments.deep_view(),
        }
    }
}

impl Dup for RunData {
    fn dup(&self) -> (copy: Self) {
        RunData {
            phases: self.phases.dup(),
            run_outcome: self.run_outcome.dup(),
            slot_outcomes: self.slot_outcomes.dup(),
            run_id: self.run_id.dup(),
            start_time: self.start_time.dup(),
            end_time: self.end_time.dup(),
            units: self.units.dup(),
            run_metadata_sources: self.run_metadata_sources.dup(),
            unit_metadata_sources: self.unit_metadata_sources.dup(),
            attachments: self.attachments.dup(),
        }
    }
}

} // verus!
