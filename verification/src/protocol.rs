//! Events for the station's subscribers.

use vstd::prelude::*;
use crate::dup::Dup;
use crate::engine::model::{KeyText, KeyTextView};
use crate::json::{Json, JsonView};
use crate::ui::{UiComponent, UiComponentView};

verus! {

/// A unit on the wire.
#[derive(Debug, PartialEq, Eq)]
pub struct UnitInfo {
    pub serial_number: Option<String>,
    pub part_number: Option<String>,
    pub revision_number: Option<String>,
    pub batch_number: Option<String>,
    pub sub_units: Vec<KeyText>,
}

/// View of [`UnitInfo`].
pub struct UnitInfoView {
    pub serial_number: Option<Seq<char>>,
    pub part_number: Option<Seq<char>>,
    pub revision_number: Option<Seq<char>>,
    pub batch_number: Option<Seq<char>>,
    pub sub_units: Seq<KeyTextView>,
}

impl DeepView for UnitInfo {
    type V = UnitInfoView;

    open spec fn deep_view(&self) -> UnitInfoView {
        UnitInfoView {
            serial_number: self.serial_number.deep_view(),
            part_number: self.part_number.deep_view(),
            revision_number: self.revision_number.deep_view(),
            batch_number: self.batch_number.deep_view(),
            sub_units: self.sub_units.deep_view(),
        }
    }
}

impl Dup for UnitInfo {
    fn dup(&self) -> (copy: Self) {
        UnitInfo {
            serial_number: self.serial_number.dup(),
            part_number: self.part_number.dup(),
            revision_number: self.revision_number.dup(),
            batch_number: self.batch_number.dup(),
            sub_units: self.sub_units.dup(),
        }
    }
}

/// A unit with the slot it belongs to.
#[derive(Debug, PartialEq, Eq)]
pub struct KeyUnit {
    pub slot: String,
    pub unit: UnitInfo,
}

/// View of [`KeyUnit`].
pub struct KeyUnitView {
    pub slot: Seq<char>,
    pub unit: UnitInfoView,
}

impl DeepView for KeyUnit {
    type V = KeyUnitView;

    open spec fn deep_view(&self) -> KeyUnitView {
        KeyUnitView {
            slot: self.slot.deep_view(),
            unit: self.unit.deep_view(),
        }
    }
}

impl Dup for KeyUnit {
    fn dup(&self) -> (copy: Self) {
        KeyUnit {
            slot: self.slot.dup(),
            unit: self.unit.dup(),
        }
    }
}

/// A phase of the announced plan.
#[derive(Debug, PartialEq, Eq)]
pub struct PhasePlan {
    pub key: String,
    pub name: String,
    pub stage: String,
}

/// View of [`PhasePlan`].
pub struct PhasePlanView {
    pub key: Seq<char>,
    pub name: Seq<char>,
    pub stage: Seq<char>,
}

impl DeepView for PhasePlan {
    type V = PhasePlanView;

    open spec fn deep_view(&self) -> PhasePlanView {
        PhasePlanView {
            key: self.key.deep_view(),
            name: self.name.deep_view(),
            stage: self.stage.deep_view(),
        }
    }
}

impl Dup for PhasePlan {
    fn dup(&self) -> (copy: Self) {
        PhasePlan {
            key: self.key.dup(),
            name: self.name.dup(),
            stage: self.stage.dup(),
        }
    }
}

/// A plug of the announced plan.
#[derive(Debug, PartialEq, Eq)]
pub struct PlugDefinition {
    pub key: String,
    pub name: String,
    pub scope: String,
}

/// View of [`PlugDefinition`].
pub struct PlugDefinitionView {
    pub key: Seq<char>,
    pub name: Seq<char>,
    pub scope: Seq<char>,
}

impl DeepView for PlugDefinition {
    type V = PlugDefinitionView;

    open spec fn deep_view(&self) -> PlugDefinitionView {
        PlugDefinitionView {
            key: self.key.deep_view(),
            name: self.name.deep_view(),
            scope: self.scope.deep_view(),
        }
    }
}

impl Dup for PlugDefinition {
    fn dup(&self) -> (copy: Self) {
        PlugDefinition {
            key: self.key.dup(),
            name: self.name.dup(),
            scope: self.scope.dup(),
        }
    }
}

/// A validator for live views.
#[derive(Debug, PartialEq, Eq)]
pub struct ValidatorResult {
    pub expression: String,
    pub outcome: String,
    pub is_decisive: Option<bool>,
}

/// View of [`ValidatorResult`].
pub struct ValidatorResultView {
    pub expression: Seq<char>,
    pub outcome: Seq<char>,
    pub is_decisive: Option<bool>,
}

impl DeepView for ValidatorResult {
    type V = ValidatorResultView;

    open spec fn deep_view(&self) -> ValidatorResultView {
        ValidatorResultView {
            expression: self.expression.deep_view(),
            outcome: self.outcome.deep_view(),
            is_decisive: self.is_decisive.deep_view(),
        }
    }
}

impl Dup for ValidatorResult {
    fn dup(&self) -> (copy: Self) {
        ValidatorResult {
            expression: self.expression.dup(),
            outcome: self.outcome.dup(),
            is_decisive: self.is_decisive.dup(),
        }
    }
}

/// An aggregation for live views.
#[derive(Debug, PartialEq, Eq)]
pub struct AggregationResult {
    pub aggregation_type: String,
    pub value: Option<Json>,
    pub unit: Option<String>,
    pub outcome: String,
    pub validators: Vec<ValidatorResult>,
}

/// View of [`AggregationResult`].
pub struct AggregationResultView {
    pub aggregation_type: Seq<char>,
    pub value: Option<JsonView>,
    pub unit: Option<Seq<char>>,
    pub outcome: Seq<char>,
    pub validators: Seq<ValidatorResultView>,
}

impl DeepView for AggregationResult {
    type V = AggregationResultView;

    open spec fn deep_view(&self) -> AggregationResultView {
        AggregationResultView {
            aggregation_type: self.aggregation_type.deep_view(),
            value: self.value.deep_view(),
            unit: self.unit.deep_view(),
            outcome: self.outcome.deep_view(),
            validators: self.validators.deep_view(),
        }
    }
}

impl Dup for AggregationResult {
    fn dup(&self) -> (copy: Self) {
        AggregationResult {
            aggregation_type: self.aggregation_type.dup(),
            value: self.value.dup(),
            unit: self.unit.dup(),
            outcome: self.outcome.dup(),
            validators: self.validators.dup(),
        }
    }
}

/// A measurement for live views.
#[derive(Debug, PartialEq, Eq)]
pub struct RunMeasurement {
    pub name: String,
    pub outcome: String,
    pub measured_value: Option<Json>,
    pub units: Option<String>,
    pub validators: Vec<ValidatorResult>,
    pub aggregations: Vec<AggregationResult>,
}

/// View of [`RunMeasurement`].
pub struct RunMeasurementView {
    pub name: Seq<char>,
    pub outcome: Seq<char>,
    pub measured_value: Option<JsonView>,
    pub units: Option<Seq<char>>,
    pub validators: Seq<ValidatorResultView>,
    pub aggregations: Seq<AggregationResultView>,
}

impl DeepView for RunMeasurement {
    type V = RunMeasurementView;

    open spec fn deep_view(&self) -> RunMeasurementView {
        RunMeasurementView {
            name: self.name.deep_view(),
            outcome: self.outcome.deep_view(),
            measured_value: self.measured_value.deep_view(),
            units: self.units.deep_view(),
            validators: self.validators.deep_view(),
            aggregations: self.aggregations.deep_view(),
        }
    }
}

impl Dup for RunMeasurement {
    fn dup(&self) -> (copy: Self) {
        RunMeasurement {
            name: self.name.dup(),
            outcome: self.outcome.dup(),
            measured_value: self.measured_value.dup(),
            units: self.units.dup(),
            validators: self.validators.dup(),
            aggregations: self.aggregations.dup(),
        }
    }
}

/// A log line for live views.
#[derive(Debug, PartialEq, Eq)]
pub struct PhaseLogLine {
    pub level: String,
    pub message: String,
    pub timestamp: Option<String>,
    pub file: Option<String>,
    pub line: Option<u32>,
}

/// View of [`PhaseLogLine`].
pub struct PhaseLogLineView {
    pub level: Seq<char>,
    pub message: Seq<char>,
    pub timestamp: Option<Seq<char>>,
    pub file: Option<Seq<char>>,
    pub line: Option<u32>,
}

impl DeepView for PhaseLogLine {
    type V = PhaseLogLineView;

    open spec fn deep_view(&self) -> PhaseLogLineView {
        PhaseLogLineView {
            level: self.level.deep_view(),
            message: self.message.deep_view(),
            timestamp: self.timestamp.deep_view(),
            file: self.file.deep_view(),
            line: self.line.deep_view(),
        }
    }
}

impl Dup for PhaseLogLine {
    fn dup(&self) -> (copy: Self) {
        PhaseLogLine {
            level: self.level.dup(),
            message: self.message.dup(),
            timestamp: self.timestamp.dup(),
            file: self.file.dup(),
            line: self.line.dup(),
        }
    }
}

/// An event for the station's subscribers.
#[derive(Debug, PartialEq, Eq)]
#[allow(inconsistent_fields)]
pub enum StationEvent {
    RunStarted {
        procedure_id: String,
        procedure_name: String,
        execution_id: String,
        phases: Vec<PhasePlan>,
        slots: Vec<String>,
        slot_names: Vec<KeyText>,
        slot_units: Vec<KeyUnit>,
        plugs: Vec<PlugDefinition>,
        timestamp: Option<String>,
        run_id: Option<String>,
        deployment_id: Option<String>,
        unit: Option<UnitInfo>,
        only_phase: Option<String>,
    },
    PhaseStarted {
        phase_key: String,
        name: String,
        slot_id: Option<String>,
        attempt: u32,
        stage: Option<String>,
        timestamp: Option<String>,
        execution_id: Option<String>,
    },
    PhaseComplete {
        phase_key: String,
        name: String,
        outcome: String,
        measurements: Vec<RunMeasurement>,
        slot_id: Option<String>,
        attempt: u32,
        started_at: Option<String>,
        ended_at: Option<String>,
        duration_ms: Option<u32>,
        error: Option<String>,
        logs: Vec<PhaseLogLine>,
        execution_id: Option<String>,
    },
    PhaseLog {
        phase_key: String,
        attempt: u32,
        slot_id: Option<String>,
        level: String,
        message: String,
        timestamp: Option<String>,
        file: Option<String>,
        line: Option<u32>,
        execution_id: Option<String>,
    },
    MeasurementUpdate {
        phase_key: String,
        attempt: u32,
        slot_id: Option<String>,
        measurement: RunMeasurement,
        execution_id: Option<String>,
    },
    AttachmentAdded {
        phase_key: String,
        slot_id: Option<String>,
        name: String,
        path: Option<String>,
        mimetype: Option<String>,
        size_bytes: Option<u64>,
        execution_id: Option<String>,
    },
    PlugStatus {
        plug_key: String,
        plug_name: String,
        stage: String,
        status: String,
        scope: String,
        slot_id: Option<String>,
        execution_id: Option<String>,
    },
    PlugLog {
        plug_key: String,
        plug_name: String,
        level: String,
        message: String,
        slot_id: Option<String>,
        stage: Option<String>,
        timestamp: Option<String>,
        line: Option<u32>,
        execution_id: Option<String>,
    },
    UiRequest {
        request_id: String,
        phase_key: String,
        slot_id: Option<String>,
        components: Option<Vec<UiComponent>>,
        requires_input: bool,
        timestamp: Option<String>,
        execution_id: Option<String>,
    },
    UiUpdate {
        phase_key: String,
        action: String,
        data: Option<String>,
        job_id: Option<String>,
        slot_id: Option<String>,
        execution_id: Option<String>,
    },
    IdentifyRequest {
        request_id: String,
        procedure_id: Option<String>,
        slot_id: Option<String>,
        components: Option<Vec<UiComponent>>,
        timestamp: Option<String>,
        execution_id: Option<String>,
    },
    IdentifyResolved {
        slot_id: Option<String>,
        unit: UnitInfo,
        timestamp: Option<String>,
        execution_id: Option<String>,
    },
    IdentifyTimeout {
        request_id: String,
        execution_id: Option<String>,
    },
    RunComplete {
        outcome: String,
        run_id: Option<String>,
        execution_id: Option<String>,
        slot_outcomes: Vec<KeyText>,
    },
    RunCrashed {
        procedure_id: String,
        error: String,
        error_kind: String,
        execution_id: Option<String>,
    },
    RunUploadQueued {
        queue_id: String,
        procedure_id: String,
        outcome: String,
        serial_number: Option<String>,
        attachment_count: u32,
        queued_at: String,
    },
    RunUploadStarted {
        queue_id: String,
        attempt: u32,
    },
    RunUploadSucceeded {
        queue_id: String,
        run_id: String,
        dashboard_url: Option<String>,
    },
    RunUploadFailed {
        queue_id: String,
        attempt: u32,
        kind: String,
        status: Option<u16>,
        error: String,
        next_retry_at: Option<String>,
    },
    RunUploadDropped {
        queue_id: String,
        reason: String,
    },
    RunUploaded {
        procedure_id: String,
        run_id: String,
        dashboard_url: Option<String>,
    },
}

/// View of [`StationEvent`].
#[allow(inconsistent_fields)]
pub enum StationEventView {
    RunStarted {
        procedure_id: Seq<char>,
        procedure_name: Seq<char>,
        execution_id: Seq<char>,
        phases: Seq<PhasePlanView>,
        slots: Seq<Seq<char>>,
        slot_names: Seq<KeyTextView>,
        slot_units: Seq<KeyUnitView>,
        plugs: Seq<PlugDefinitionView>,
        timestamp: Option<Seq<char>>,
        run_id: Option<Seq<char>>,
        deployment_id: Option<Seq<char>>,
        unit: Option<UnitInfoView>,
        only_phase: Option<Seq<char>>,
    },
    PhaseStarted {
        phase_key: Seq<char>,
        name: Seq<char>,
        slot_id: Option<Seq<char>>,
        attempt: u32,
        stage: Option<Seq<char>>,
        timestamp: Option<Seq<char>>,
        execution_id: Option<Seq<char>>,
    },
    PhaseComplete {
        phase_key: Seq<char>,
        name: Seq<char>,
        outcome: Seq<char>,
        measurements: Seq<RunMeasurementView>,
        slot_id: Option<Seq<char>>,
        attempt: u32,
        started_at: Option<Seq<char>>,
        ended_at: Option<Seq<char>>,
        duration_ms: Option<u32>,
        error: Option<Seq<char>>,
        logs: Seq<PhaseLogLineView>,
        execution_id: Option<Seq<char>>,
    },
    PhaseLog {
        phase_key: Seq<char>,
        attempt: u32,
        slot_id: Option<Seq<char>>,
        level: Seq<char>,
        message: Seq<char>,
        timestamp: Option<Seq<char>>,
        file: Option<Seq<char>>,
        line: Option<u32>,
        execution_id: Option<Seq<char>>,
    },
    MeasurementUpdate {
        phase_key: Seq<char>,
        attempt: u32,
        slot_id: Option<Seq<char>>,
        measurement: RunMeasurementView,
        execution_id: Option<Seq<char>>,
    },
    AttachmentAdded {
        phase_key: Seq<char>,
        slot_id: Option<Seq<char>>,
        name: Seq<char>,
        path: Option<Seq<char>>,
        mimetype: Option<Seq<char>>,
        size_bytes: Option<u64>,
        execution_id: Option<Seq<char>>,
    },
    PlugStatus {
        plug_key: Seq<char>,
        plug_name: Seq<char>,
        stage: Seq<char>,
        status: Seq<char>,
        scope: Seq<char>,
        slot_id: Option<Seq<char>>,
        execution_id: Option<Seq<char>>,
    },
    PlugLog {
        plug_key: Seq<char>,
        plug_name: Seq<char>,
        level: Seq<char>,
        message: Seq<char>,
        slot_id: Option<Seq<char>>,
        stage: Option<Seq<char>>,
        timestamp: Option<Seq<char>>,
        line: Option<u32>,
        execution_id: Option<Seq<char>>,
    },
    UiRequest {
        request_id: Seq<char>,
        phase_key: Seq<char>,
        slot_id: Option<Seq<char>>,
        components: Option<Seq<UiComponentView>>,
        requires_input: bool,
        timestamp: Option<Seq<char>>,
        execution_id: Option<Seq<char>>,
    },
    UiUpdate {
        phase_key: Seq<char>,
        action: Seq<char>,
        data: Option<Seq<char>>,
        job_id: Option<Seq<char>>,
        slot_id: Option<Seq<char>>,
        execution_id: Option<Seq<char>>,
    },
    IdentifyRequest {
        request_id: Seq<char>,
        procedure_id: Option<Seq<char>>,
        slot_id: Option<Seq<char>>,
        components: Option<Seq<UiComponentView>>,
        timestamp: Option<Seq<char>>,
        execution_id: Option<Seq<char>>,
    },
    IdentifyResolved {
        slot_id: Option<Seq<char>>,
        unit: UnitInfoView,
        timestamp: Option<Seq<char>>,
        execution_id: Option<Seq<char>>,
    },
    IdentifyTimeout {
        request_id: Seq<char>,
        execution_id: Option<Seq<char>>,
    },
    RunComplete {
        outcome: Seq<char>,
        run_id: Option<Seq<char>>,
        execution_id: Option<Seq<char>>,
        slot_outcomes: Seq<KeyTextView>,
    },
    RunCrashed {
        procedure_id: Seq<char>,
        error: Seq<char>,
        error_kind: Seq<char>,
        execution_id: Option<Seq<char>>,
    },
    RunUploadQueued {
        queue_id: Seq<char>,
        procedure_id: Seq<char>,
        outcome: Seq<char>,
        serial_number: Option<Seq<char>>,
        attachment_count: u32,
        queued_at: Seq<char>,
    },
    RunUploadStarted {
        queue_id: Seq<char>,
        attempt: u32,
    },
    RunUploadSucceeded {
        queue_id: Seq<char>,
        run_id: Seq<char>,
        dashboard_url: Option<Seq<char>>,
    },
    RunUploadFailed {
        queue_id: Seq<char>,
        attempt: u32,
        kind: Seq<char>,
        status: Option<u16>,
        error: Seq<char>,
        next_retry_at: Option<Seq<char>>,
    },
    RunUploadDropped {
        queue_id: Seq<char>,
        reason: Seq<char>,
    },
    RunUploaded {
        procedure_id: Seq<char>,
        run_id: Seq<char>,
        dashboard_url: Option<Seq<char>>,
    },
}

impl DeepView for StationEvent {
    type V = StationEventView;

    open spec fn deep_view(&self) -> StationEventView {
        match self {
            StationEvent::RunStarted {
                procedure_id,
                procedure_name,
                execution_id,
                phases,
                slots,
                slot_names,
                slot_units,
                plugs,
                timestamp,
                run_id,
                deployment_id,
                unit,
                only_phase,
            } => StationEventView::RunStarted {
                procedure_id: procedure_id.deep_view(),
                procedure_name: procedure_name.deep_view(),
                execution_id: execution_id.deep_view(),
                phases: phases.deep_view(),
                slots: slots.deep_view(),
                slot_names: slot_names.deep_view(),
                slot_units: slot_units.deep_view(),
                plugs: plugs.deep_view(),
                timestamp: timestamp.deep_view(),
                run_id: run_id.deep_view(),
                deployment_id: deployment_id.deep_view(),
                unit: unit.deep_view(),
                only_phase: only_phase.deep_view(),
            },
            StationEvent::PhaseStarted {
                phase_key,
                name,
                slot_id,
                attempt,
                stage,
                timestamp,
                execution_id,
            } => StationEventView::PhaseStarted {
                phase_key: phase_key.deep_view(),
                name: name.deep_view(),
                slot_id: slot_id.deep_view(),
                attempt: attempt.deep_view(),
                stage: stage.deep_view(),
                timestamp: timestamp.deep_view(),
                execution_id: execution_id.deep_view(),
            },
            StationEvent::PhaseComplete {
                phase_key,
                name,
                outcome,
                measurements,
                slot_id,
                attempt,
                started_at,
                ended_at,
                duration_ms,
                error,
                logs,
                execution_id,
            } => StationEventView::PhaseComplete {
                phase_key: phase_key.deep_view(),
                name: name.deep_view(),
                outcome: outcome.deep_view(),
                measurements: measurements.deep_view(),
                slot_id: slot_id.deep_view(),
                attempt: attempt.deep_view(),
                started_at: started_at.deep_view(),
                ended_at: ended_at.deep_view(),
                duration_ms: duration_ms.deep_view(),
                error: error.deep_view(),
                logs: logs.deep_view(),
                execution_id: execution_id.deep_view(),
            },
            StationEvent::PhaseLog {
                phase_key,
                attempt,
                slot_id,
                level,
                message,
                timestamp,
                file,
                line,
                execution_id,
            } => StationEventView::PhaseLog {
                phase_key: phase_key.deep_view(),
                attempt: attempt.deep_view(),
                slot_id: slot_id.deep_view(),
                level: level.deep_view(),
                message: message.deep_view(),
                timestamp: timestamp.deep_view(),
                file: file.deep_view(),
                line: line.deep_view(),
                execution_id: execution_id.deep_view(),
            },
            StationEvent::MeasurementUpdate {
                phase_key,
                attempt,
                slot_id,
                measurement,
                execution_id,
            } => StationEventView::MeasurementUpdate {
                phase_key: phase_key.deep_view(),
                attempt: attempt.deep_view(),
                slot_id: slot_id.deep_view(),
                measurement: measurement.deep_view(),
                execution_id: execution_id.deep_view(),
            },
            StationEvent::AttachmentAdded {
                phase_key,
                slot_id,
                name,
                path,
                mimetype,
                size_bytes,
                execution_id,
            } => StationEventView::AttachmentAdded {
                phase_key: phase_key.deep_view(),
                slot_id: slot_id.deep_view(),
                name: name.deep_view(),
                path: path.deep_view(),
                mimetype: mimetype.deep_view(),
                size_bytes: size_bytes.deep_view(),
                execution_id: execution_id.deep_view(),
            },
            StationEvent::PlugStatus {
                plug_key,
                plug_name,
                stage,
                status,
                scope,
                slot_id,
                execution_id,
            } => StationEventView::PlugStatus {
                plug_key: plug_key.deep_view(),
                plug_name: plug_name.deep_view(),
                stage: stage.deep_view(),
                status: status.deep_view(),
                scope: scope.deep_view(),
                slot_id: slot_id.deep_view(),
                execution_id: execution_id.deep_view(),
            },
            StationEvent::PlugLog {
                plug_key,
                plug_name,
                level,
                message,
                slot_id,
                stage,
                timestamp,
                line,
                execution_id,
            } => StationEventView::PlugLog {
                plug_key: plug_key.deep_view(),
                plug_name: plug_name.deep_view(),
                level: level.deep_view(),
                message: message.deep_view(),
                slot_id: slot_id.deep_view(),
                stage: stage.deep_view(),
                timestamp: timestamp.deep_view(),
                line: line.deep_view(),
                execution_id: execution_id.deep_view(),
            },
            StationEvent::UiRequest {
                request_id,
                phase_key,
                slot_id,
                components,
                requires_input,
                timestamp,
                execution_id,
            } => StationEventView::UiRequest {
                request_id: request_id.deep_view(),
                phase_key: phase_key.deep_view(),
                slot_id: slot_id.deep_view(),
                components: components.deep_view(),
                requires_input: requires_input.deep_view(),
                timestamp: timestamp.deep_view(),
                execution_id: execution_id.deep_view(),
            },
            StationEvent::UiUpdate {
                phase_key,
                action,
                data,
                job_id,
                slot_id,
                execution_id,
            } => StationEventView::UiUpdate {
                phase_key: phase_key.deep_view(),
                action: action.deep_view(),
                data: data.deep_view(),
                job_id: job_id.deep_view(),
                slot_id: slot_id.deep_view(),
                execution_id: execution_id.deep_view(),
            },
            StationEvent::IdentifyRequest {
                request_id,
                procedure_id,
                slot_id,
                components,
                timestamp,
                execution_id,
            } => StationEventView::IdentifyRequest {
                request_id: request_id.deep_view(),
                procedure_id: procedure_id.deep_view(),
                slot_id: slot_id.deep_view(),
                components: components.deep_view(),
                timestamp: timestamp.deep_view(),
                execution_id: execution_id.deep_view(),
            },
            StationEvent::IdentifyResolved {
                slot_id,
                unit,
                timestamp,
                execution_id,
            } => StationEventView::IdentifyResolved {
                slot_id: slot_id.deep_view(),
                unit: unit.deep_view(),
                timestamp: timestamp.deep_view(),
                execution_id: execution_id.deep_view(),
            },
            StationEvent::IdentifyTimeout {
                request_id,
                execution_id,
            } => StationEventView::IdentifyTimeout {
                request_id: request_id.deep_view(),
                execution_id: execution_id.deep_view(),
            },
            StationEvent::RunComplete {
                outcome,
                run_id,
                execution_id,
                slot_outcomes,
            } => StationEventView::RunComplete {
                outcome: outcome.deep_view(),
                run_id: run_id.deep_view(),
                execution_id: execution_id.deep_view(),
                slot_outcomes: slot_outcomes.deep_view(),
            },
            StationEvent::RunCrashed {
                procedure_id,
                error,
                error_kind,
                execution_id,
            } => StationEventView::RunCrashed {
                procedure_id: procedure_id.deep_view(),
                error: error.deep_view(),
                error_kind: error_kind.deep_view(),
                execution_id: execution_id.deep_view(),
            },
            StationEvent::RunUploadQueued {
                queue_id,
                procedure_id,
                outcome,
                serial_number,
                attachment_count,
                queued_at,
            } => StationEventView::RunUploadQueued {
                queue_id: queue_id.deep_view(),
                procedure_id: procedure_id.deep_view(),
                outcome: outcome.deep_view(),
                serial_number: serial_number.deep_view(),
                attachment_count: attachment_count.deep_view(),
                queued_at: queued_at.deep_view(),
            },
            StationEvent::RunUploadStarted {
                queue_id,
                attempt,
            } => StationEventView::RunUploadStarted {
                queue_id: queue_id.deep_view(),
                attempt: attempt.deep_view(),
            },
            StationEvent::RunUploadSucceeded {
                queue_id,
                run_id,
                dashboard_url,
            } => StationEventView::RunUploadSucceeded {
                queue_id: queue_id.deep_view(),
                run_id: run_id.deep_view(),
                dashboard_url: dashboard_url.deep_view(),
            },
            StationEvent::RunUploadFailed {
                queue_id,
                attempt,
                kind,
                status,
                error,
                next_retry_at,
            } => StationEventView::RunUploadFailed {
                queue_id: queue_id.deep_view(),
                attempt: attempt.deep_view(),
                kind: kind.deep_view(),
                status: status.deep_view(),
                error: error.deep_view(),
                next_retry_at: next_retry_at.deep_view(),
            },
            StationEvent::RunUploadDropped {
                queue_id,
                reason,
            } => StationEventView::RunUploadDropped {
                queue_id: queue_id.deep_view(),
                reason: reason.deep_view(),
            },
            StationEvent::RunUploaded {
                procedure_id,
                run_id,
                dashboard_url,
            } => StationEventView::RunUploaded {
                procedure_id: procedure_id.deep_view(),
                run_id: run_id.deep_view(),
                dashboard_url: dashboard_url.deep_view(),
            },
        }
    }
}

} // verus!
