//! The agent stream: its events, and the commands that agents send.

use vstd::prelude::*;
use crate::dup::Dup;
use crate::engine::model::{KeyText, KeyTextView};
use crate::json::{Json, JsonField, JsonFieldView, JsonView};
use crate::ui::{
    Bound, BoundView, ComponentValue, ComponentValueView, UiComponent, UiComponentView, UiOption,
    UiOptionView,
};

verus! {

/// Where a run stands, as agents see it.
#[derive(Debug, Clone, Copy, PartialEq, Eq, Structural)]
pub enum RunStatus {
    NotStarted,
    Running,
    Finished,
}

impl DeepView for RunStatus {
    type V = RunStatus;

    open spec fn deep_view(&self) -> RunStatus {
        *self
    }
}

impl Dup for RunStatus {
    fn dup(&self) -> (copy: Self) {
        *self
    }
}

/// Why a prompt went on without the agent.
#[derive(Debug, Clone, Copy, PartialEq, Eq, Structural)]
pub enum UiAutoContinueSource {
    DisplayOnly,
    PreBaked,
}

impl DeepView for UiAutoContinueSource {
    type V = UiAutoContinueSource;

    open spec fn deep_view(&self) -> UiAutoContinueSource {
        *self
    }
}

impl Dup for UiAutoContinueSource {
    fn dup(&self) -> (copy: Self) {
        *self
    }
}

/// Why a command or a response was refused.
#[derive(Debug, Clone, Copy, PartialEq, Eq, Structural)]
pub enum UiErrorReason {
    ParseError,
    UnknownRequest,
    MissingRequired,
    InvalidValue,
    UnknownField,
    /// The run is not in the state that the command needs.
    InvalidState,
}

impl DeepView for UiErrorReason {
    type V = UiErrorReason;

    open spec fn deep_view(&self) -> UiErrorReason {
        *self
    }
}

impl Dup for UiErrorReason {
    fn dup(&self) -> (copy: Self) {
        *self
    }
}

/// A phase attempt of the lifecycle history.
#[derive(Debug, PartialEq, Eq)]
pub struct PhaseSnapshot {
    pub phase_key: String,
    pub status: String,
    pub attempt: u32,
    pub slot_id: Option<String>,
    pub outcome: Option<String>,
}

/// View of [`PhaseSnapshot`].
pub struct PhaseSnapshotView {
    pub phase_key: Seq<char>,
    pub status: Seq<char>,
    pub attempt: u32,
    pub slot_id: Option<Seq<char>>,
    pub outcome: Option<Seq<char>>,
}

impl DeepView for PhaseSnapshot {
    type V = PhaseSnapshotView;

    open spec fn deep_view(&self) -> PhaseSnapshotView {
        PhaseSnapshotView {
            phase_key: self.phase_key.deep_view(),
            status: self.status.deep_view(),
            attempt: self.attempt.deep_view(),
            slot_id: self.slot_id.deep_view(),
            outcome: self.outcome.deep_view(),
        }
    }
}

impl Dup for PhaseSnapshot {
    fn dup(&self) -> (copy: Self) {
        PhaseSnapshot {
            phase_key: self.phase_key.dup(),
            status: self.status.dup(),
            attempt: self.attempt.dup(),
            slot_id: self.slot_id.dup(),
            outcome: self.outcome.dup(),
        }
    }
}

/// A choice, as agents see it.
#[derive(Debug, PartialEq, Eq)]
pub struct AgentUiOption {
    pub value: String,
    pub label: String,
}

/// View of [`AgentUiOption`].
pub struct AgentUiOptionView {
    pub value: Seq<char>,
    pub label: Seq<char>,
}

impl DeepView for AgentUiOption {
    type V = AgentUiOptionView;

    open spec fn deep_view(&self) -> AgentUiOptionView {
        AgentUiOptionView {
            value: self.value.deep_view(),
            label: self.label.deep_view(),
        }
    }
}

impl Dup for AgentUiOption {
    fn dup(&self) -> (copy: Self) {
        AgentUiOption {
            value: self.value.dup(),
            label: self.label.dup(),
        }
    }
}

/// A component, as agents see it: what an agent needs to reason about a prompt,
/// without styling and text constraints.
#[derive(Debug, PartialEq, Eq)]
pub struct AgentUiComponent {
    pub key: String,
    pub component_type: String,
    pub label: Option<String>,
    pub description: Option<String>,
    pub required: bool,
    pub is_input: bool,
    pub default_value: Option<ComponentValue>,
    pub placeholder: Option<String>,
    pub options: Option<Vec<AgentUiOption>>,
    pub min: Option<Bound>,
    pub max: Option<Bound>,
    pub step: Option<Bound>,
}

/// View of [`AgentUiComponent`].
pub struct AgentUiComponentView {
    pub key: Seq<char>,
    pub component_type: Seq<char>,
    pub label: Option<Seq<char>>,
    pub description: Option<Seq<char>>,
    pub required: bool,
    pub is_input: bool,
    pub default_value: Option<ComponentValueView>,
    pub placeholder: Option<Seq<char>>,
    pub options: Option<Seq<AgentUiOptionView>>,
    pub min: Option<BoundView>,
    pub max: Option<BoundView>,
    pub step: Option<BoundView>,
}

impl DeepView for AgentUiComponent {
    type V = AgentUiComponentView;

    open spec fn deep_view(&self) -> AgentUiComponentView {
        AgentUiComponentView {
            key: self.key.deep_view(),
            component_type: self.component_type.deep_view(),
            label: self.label.deep_view(),
            description: self.description.deep_view(),
            required: self.required.deep_view(),
            is_input: self.is_input.deep_view(),
            default_value: self.default_value.deep_view(),
            placeholder: self.placeholder.deep_view(),
            options: self.options.deep_view(),
            min: self.min.deep_view(),
            max: self.max.deep_view(),
            step: self.step.deep_view(),
        }
    }
}

impl Dup for AgentUiComponent {
    fn dup(&self) -> (copy: Self) {
        AgentUiComponent {
            key: self.key.dup(),
            component_type: self.component_type.dup(),
            label: self.label.dup(),
            description: self.description.dup(),
            required: self.required.dup(),
            is_input: self.is_input.dup(),
            default_value: self.default_value.dup(),
            placeholder: self.placeholder.dup(),
            options: self.options.dup(),
            min: self.min.dup(),
            max: self.max.dup(),
            step: self.step.dup(),
        }
    }
}

/// A prompt in flight, in full.
#[derive(Debug, PartialEq, Eq)]
pub struct ActiveUiRequest {
    pub request_id: String,
    pub phase_key: String,
    pub components: Vec<AgentUiComponent>,
}

/// View of [`ActiveUiRequest`].
pub struct ActiveUiRequestView {
    pub request_id: Seq<char>,
    pub phase_key: Seq<char>,
    pub components: Seq<AgentUiComponentView>,
}

impl DeepView for ActiveUiRequest {
    type V = ActiveUiRequestView;

    open spec fn deep_view(&self) -> ActiveUiRequestView {
        ActiveUiRequestView {
            request_id: self.request_id.deep_view(),
            phase_key: self.phase_key.deep_view(),
            components: self.components.deep_view(),
        }
    }
}

impl Dup for ActiveUiRequest {
    fn dup(&self) -> (copy: Self) {
        ActiveUiRequest {
            request_id: self.request_id.dup(),
            phase_key: self.phase_key.dup(),
            components: self.components.dup(),
        }
    }
}

/// A unit, as agents see it.
#[derive(Debug, PartialEq, Eq)]
pub struct AgentIdentifyUnit {
    pub serial_number: Option<String>,
    pub part_number: Option<String>,
    pub revision_number: Option<String>,
    pub batch_number: Option<String>,
    pub sub_units: Vec<KeyText>,
}

/// View of [`AgentIdentifyUnit`].
pub struct AgentIdentifyUnitView {
    pub serial_number: Option<Seq<char>>,
    pub part_number: Option<Seq<char>>,
    pub revision_number: Option<Seq<char>>,
    pub batch_number: Option<Seq<char>>,
    pub sub_units: Seq<KeyTextView>,
}

impl DeepView for AgentIdentifyUnit {
    type V = AgentIdentifyUnitView;

    open spec fn deep_view(&self) -> AgentIdentifyUnitView {
        AgentIdentifyUnitView {
            serial_number: self.serial_number.deep_view(),
            part_number: self.part_number.deep_view(),
            revision_number: self.revision_number.deep_view(),
            batch_number: self.batch_number.deep_view(),
            sub_units: self.sub_units.deep_view(),
        }
    }
}

impl Dup for AgentIdentifyUnit {
    fn dup(&self) -> (copy: Self) {
        AgentIdentifyUnit {
            serial_number: self.serial_number.dup(),
            part_number: self.part_number.dup(),
            revision_number: self.revision_number.dup(),
            batch_number: self.batch_number.dup(),
            sub_units: self.sub_units.dup(),
        }
    }
}

/// A phase of the plan, as agents see it.
#[derive(Debug, PartialEq, Eq)]
pub struct PhasePlanPayload {
    pub key: String,
    pub name: String,
}

/// View of [`PhasePlanPayload`].
pub struct PhasePlanPayloadView {
    pub key: Seq<char>,
    pub name: Seq<char>,
}

impl DeepView for PhasePlanPayload {
    type V = PhasePlanPayloadView;

    open spec fn deep_view(&self) -> PhasePlanPayloadView {
        PhasePlanPayloadView {
            key: self.key.deep_view(),
            name: self.name.deep_view(),
        }
    }
}

impl Dup for PhasePlanPayload {
    fn dup(&self) -> (copy: Self) {
        PhasePlanPayload {
            key: self.key.dup(),
            name: self.name.dup(),
        }
    }
}

/// An event of the agent stream.
#[derive(Debug, PartialEq, Eq)]
#[allow(inconsistent_fields)]
pub enum CliEvent {
    RunStarted {
        procedure_id: String,
        protocol_version: String,
    },
    Plan {
        phases: Vec<PhasePlanPayload>,
    },
    PhaseStarted {
        phase_key: String,
        attempt: u32,
        slot_id: Option<String>,
        started_at: String,
    },
    UiRequest {
        request_id: String,
        phase_key: String,
        phase_description: Option<String>,
        requires_input: bool,
        components: Vec<AgentUiComponent>,
    },
    UiAutoContinue {
        request_id: String,
        phase_key: String,
        source: UiAutoContinueSource,
        values: Vec<JsonField>,
    },
    UiTimeout {
        request_id: String,
        phase_key: String,
    },
    IdentifyRequest {
        request_id: String,
        slot_id: Option<String>,
        components: Vec<AgentUiComponent>,
    },
    IdentifyResolved {
        slot_id: Option<String>,
        unit: AgentIdentifyUnit,
    },
    IdentifyTimeout {
        request_id: String,
    },
    UiError {
        request_id: Option<String>,
        reason: UiErrorReason,
        field: Option<String>,
        got: Option<Json>,
        expected: Option<String>,
    },
    PhaseFinished {
        phase_key: String,
        outcome: String,
        attempt: u32,
        slot_id: Option<String>,
        error: Option<String>,
        started_at: Option<String>,
        ended_at: Option<String>,
        duration_ms: Option<u64>,
    },
    PhaseSkipped {
        phase_key: String,
        slot_id: Option<String>,
        reason: Option<String>,
    },
    PhaseLog {
        phase_key: String,
        level: String,
        message: String,
        timestamp: String,
        slot_id: Option<String>,
        file: Option<String>,
        line: Option<u32>,
    },
    PlugStatus {
        plug_key: String,
        plug_name: String,
        status: String,
        stage: String,
        scope: String,
        slot_id: Option<String>,
    },
    PlugLog {
        plug_key: String,
        plug_name: String,
        level: String,
        message: String,
        slot_id: Option<String>,
        stage: Option<String>,
        timestamp: Option<String>,
        line: Option<u32>,
    },
    MeasurementRecorded {
        phase_key: String,
        name: String,
        value: Json,
        outcome: String,
        unit: Option<String>,
        slot_id: Option<String>,
    },
    AttachmentAdded {
        phase_key: String,
        name: String,
        path: Option<String>,
        mimetype: Option<String>,
        slot_id: Option<String>,
    },
    RunFinished {
        outcome: String,
        exit_code: i32,
    },
    RunCrashed {
        exit_code: i32,
        stderr_tail: String,
    },
    StateSnapshot {
        run_status: RunStatus,
        phases: Vec<PhaseSnapshot>,
        active_ui_request: Option<ActiveUiRequest>,
    },
    RunUploadQueued {
        queue_id: String,
        procedure_id: Option<String>,
        outcome: Option<String>,
        serial_number: Option<String>,
        attachment_count: Option<u32>,
        queued_at: Option<String>,
    },
    RunUploadStarted {
        queue_id: String,
        attempt: u32,
    },
    RunUploadSucceeded {
        queue_id: String,
        run_id: String,
        dashboard_url: Option<String>,
    },
    RunUploadFailed {
        queue_id: String,
        attempt: u32,
        kind: String,
        status: Option<u16>,
        error: String,
        next_retry_at: Option<String>,
    },
    RunUploadDropped {
        queue_id: String,
        reason: String,
    },
    InternalWarning {
        kind: String,
        message: String,
        detail: Option<Json>,
    },
}

/// View of [`CliEvent`].
#[allow(inconsistent_fields)]
pub enum CliEventView {
    RunStarted {
        procedure_id: Seq<char>,
        protocol_version: Seq<char>,
    },
    Plan {
        phases: Seq<PhasePlanPayloadView>,
    },
    PhaseStarted {
        phase_key: Seq<char>,
        attempt: u32,
        slot_id: Option<Seq<char>>,
        started_at: Seq<char>,
    },
    UiRequest {
        request_id: Seq<char>,
        phase_key: Seq<char>,
        phase_description: Option<Seq<char>>,
        requires_input: bool,
        components: Seq<AgentUiComponentView>,
    },
    UiAutoContinue {
        request_id: Seq<char>,
        phase_key: Seq<char>,
        source: UiAutoContinueSource,
        values: Seq<JsonFieldView>,
    },
    UiTimeout {
        request_id: Seq<char>,
        phase_key: Seq<char>,
    },
    IdentifyRequest {
        request_id: Seq<char>,
        slot_id: Option<Seq<char>>,
        components: Seq<AgentUiComponentView>,
    },
    IdentifyResolved {
        slot_id: Option<Seq<char>>,
        unit: AgentIdentifyUnitView,
    },
    IdentifyTimeout {
        request_id: Seq<char>,
    },
    UiError {
        request_id: Option<Seq<char>>,
        reason: UiErrorReason,
        field: Option<Seq<char>>,
        got: Option<JsonView>,
        expected: Option<Seq<char>>,
    },
    PhaseFinished {
        phase_key: Seq<char>,
        outcome: Seq<char>,
        attempt: u32,
        slot_id: Option<Seq<char>>,
        error: Option<Seq<char>>,
        started_at: Option<Seq<char>>,
        ended_at: Option<Seq<char>>,
        duration_ms: Option<u64>,
    },
    PhaseSkipped {
        phase_key: Seq<char>,
        slot_id: Option<Seq<char>>,
        reason: Option<Seq<char>>,
    },
    PhaseLog {
        phase_key: Seq<char>,
        level: Seq<char>,
        message: Seq<char>,
        timestamp: Seq<char>,
        slot_id: Option<Seq<char>>,
        file: Option<Seq<char>>,
        line: Option<u32>,
    },
    PlugStatus {
        plug_key: Seq<char>,
        plug_name: Seq<char>,
        status: Seq<char>,
        stage: Seq<char>,
        scope: Seq<char>,
        slot_id: Option<Seq<char>>,
    },
    PlugLog {
        plug_key: Seq<char>,
        plug_name: Seq<char>,
        level: Seq<char>,
        message: Seq<char>,
        slot_id: Option<Seq<char>>,
        stage: Option<Seq<char>>,
        timestamp: Option<Seq<char>>,
        line: Option<u32>,
    },
    MeasurementRecorded {
        phase_key: Seq<char>,
        name: Seq<char>,
        value: JsonView,
        outcome: Seq<char>,
        unit: Option<Seq<char>>,
        slot_id: Option<Seq<char>>,
    },
    AttachmentAdded {
        phase_key: Seq<char>,
        name: Seq<char>,
        path: Option<Seq<char>>,
        mimetype: Option<Seq<char>>,
        slot_id: Option<Seq<char>>,
    },
    RunFinished {
        outcome: Seq<char>,
        exit_code: i32,
    },
    RunCrashed {
        exit_code: i32,
        stderr_tail: Seq<char>,
    },
    StateSnapshot {
        run_status: RunStatus,
        phases: Seq<PhaseSnapshotView>,
        active_ui_request: Option<ActiveUiRequestView>,
    },
    RunUploadQueued {
        queue_id: Seq<char>,
        procedure_id: Option<Seq<char>>,
        outcome: Option<Seq<char>>,
        serial_number: Option<Seq<char>>,
        attachment_count: Option<u32>,
        queued_at: Option<Seq<char>>,
    },
    RunUploadStarted {
        queue_id: Seq<char>,
        attempt: u32,
    },
    RunUploadSucceeded {
        queue_id: Seq<char>,
        run_id: Seq<char>,
        dashboard_url: Option<Seq<char>>,
    },
    RunUploadFailed {
        queue_id: Seq<char>,
        attempt: u32,
        kind: Seq<char>,
        status: Option<u16>,
        error: Seq<char>,
        next_retry_at: Option<Seq<char>>,
    },
    RunUploadDropped {
        queue_id: Seq<char>,
        reason: Seq<char>,
    },
    InternalWarning {
        kind: Seq<char>,
        message: Seq<char>,
        detail: Option<JsonView>,
    },
}

impl DeepView for CliEvent {
    type V = CliEventView;

    open spec fn deep_view(&self) -> CliEventView {
        match self {
            CliEvent::RunStarted { procedure_id, protocol_version } => CliEventView::RunStarted {
                procedure_id: procedure_id.deep_view(),
                protocol_version: protocol_version.deep_view(),
            },
            CliEvent::Plan { phases } => CliEventView::Plan {
                phases: phases.deep_view(),
            },
            CliEvent::PhaseStarted {
                phase_key,
                attempt,
                slot_id,
                started_at,
            } => CliEventView::PhaseStarted {
                phase_key: phase_key.deep_view(),
                attempt: attempt.deep_view(),
                slot_id: slot_id.deep_view(),
                started_at: started_at.deep_view(),
            },
            CliEvent::UiRequest {
                request_id,
                phase_key,
                phase_description,
                requires_input,
                components,
            } => CliEventView::UiRequest {
                request_id: request_id.deep_view(),
                phase_key: phase_key.deep_view(),
                phase_description: phase_description.deep_view(),
                requires_input: requires_input.deep_view(),
                components: components.deep_view(),
            },
            CliEvent::UiAutoContinue {
                request_id,
                phase_key,
                source,
                values,
            } => CliEventView::UiAutoContinue {
                request_id: request_id.deep_view(),
                phase_key: phase_key.deep_view(),
                source: source.deep_view(),
                values: values.deep_view(),
            },
            CliEvent::UiTimeout { request_id, phase_key } => CliEventView::UiTimeout {
                request_id: request_id.deep_view(),
                phase_key: phase_key.deep_view(),
            },
            CliEvent::IdentifyRequest {
                request_id,
                slot_id,
                components,
            } => CliEventView::IdentifyRequest {
                request_id: request_id.deep_view(),
                slot_id: slot_id.deep_view(),
                components: components.deep_view(),
            },
            CliEvent::IdentifyResolved { slot_id, unit } => CliEventView::IdentifyResolved {
                slot_id: slot_id.deep_view(),
                unit: unit.deep_view(),
            },
            CliEvent::IdentifyTimeout { request_id } => CliEventView::IdentifyTimeout {
                request_id: request_id.deep_view(),
            },
            CliEvent::UiError {
                request_id,
                reason,
                field,
                got,
                expected,
            } => CliEventView::UiError {
                request_id: request_id.deep_view(),
                reason: reason.deep_view(),
                field: field.deep_view(),
                got: got.deep_view(),
                expected: expected.deep_view(),
            },
            CliEvent::PhaseFinished {
                phase_key,
                outcome,
                attempt,
                slot_id,
                error,
                started_at,
                ended_at,
                duration_ms,
            } => CliEventView::PhaseFinished {
                phase_key: phase_key.deep_view(),
                outcome: outcome.deep_view(),
                attempt: attempt.deep_view(),
                slot_id: slot_id.deep_view(),
                error: error.deep_view(),
                started_at: started_at.deep_view(),
                ended_at: ended_at.deep_view(),
                duration_ms: duration_ms.deep_view(),
            },
            CliEvent::PhaseSkipped { phase_key, slot_id, reason } => CliEventView::PhaseSkipped {
                phase_key: phase_key.deep_view(),
                slot_id: slot_id.deep_view(),
                reason: reason.deep_view(),
            },
            CliEvent::PhaseLog {
                phase_key,
                level,
                message,
                timestamp,
                slot_id,
                file,
                line,
            } => CliEventView::PhaseLog {
                phase_key: phase_key.deep_view(),
                level: level.deep_view(),
                message: message.deep_view(),
                timestamp: timestamp.deep_view(),
                slot_id: slot_id.deep_view(),
                file: file.deep_view(),
                line: line.deep_view(),
            },
            CliEvent::PlugStatus {
                plug_key,
                plug_name,
                status,
                stage,
                scope,
                slot_id,
            } => CliEventView::PlugStatus {
                plug_key: plug_key.deep_view(),
                plug_name: plug_name.deep_view(),
                status: status.deep_view(),
                stage: stage.deep_view(),
                scope: scope.deep_view(),
                slot_id: slot_id.deep_view(),
            },
            CliEvent::PlugLog {
                plug_key,
                plug_name,
                level,
                message,
                slot_id,
                stage,
                timestamp,
                line,
            } => CliEventView::PlugLog {
                plug_key: plug_key.deep_view(),
                plug_name: plug_name.deep_view(),
                level: level.deep_view(),
                message: message.deep_view(),
                slot_id: slot_id.deep_view(),
                stage: stage.deep_view(),
                timestamp: timestamp.deep_view(),
                line: line.deep_view(),
            },
            CliEvent::MeasurementRecorded {
                phase_key,
                name,
                value,
                outcome,
                unit,
                slot_id,
            } => CliEventView::MeasurementRecorded {
                phase_key: phase_key.deep_view(),
                name: name.deep_view(),
                value: value.deep_view(),
                outcome: outcome.deep_view(),
                unit: unit.deep_view(),
                slot_id: slot_id.deep_view(),
            },
            CliEvent::AttachmentAdded {
                phase_key,
                name,
                path,
                mimetype,
                slot_id,
            } => CliEventView::AttachmentAdded {
                phase_key: phase_key.deep_view(),
                name: name.deep_view(),
                path: path.deep_view(),
                mimetype: mimetype.deep_view(),
                slot_id: slot_id.deep_view(),
            },
            CliEvent::RunFinished { outcome, exit_code } => CliEventView::RunFinished {
                outcome: outcome.deep_view(),
                exit_code: exit_code.deep_view(),
            },
            CliEvent::RunCrashed { exit_code, stderr_tail } => CliEventView::RunCrashed {
                exit_code: exit_code.deep_view(),
                stderr_tail: stderr_tail.deep_view(),
            },
            CliEvent::StateSnapshot {
                run_status,
                phases,
                active_ui_request,
            } => CliEventView::StateSnapshot {
                run_status: run_status.deep_view(),
                phases: phases.deep_view(),
                active_ui_request: active_ui_request.deep_view(),
            },
            CliEvent::RunUploadQueued {
                queue_id,
                procedure_id,
                outcome,
                serial_number,
                attachment_count,
                queued_at,
            } => CliEventView::RunUploadQueued {
                queue_id: queue_id.deep_view(),
                procedure_id: procedure_id.deep_view(),
                outcome: outcome.deep_view(),
                serial_number: serial_number.deep_view(),
                attachment_count: attachment_count.deep_view(),
                queued_at: queued_at.deep_view(),
            },
            CliEvent::RunUploadStarted { queue_id, attempt } => CliEventView::RunUploadStarted {
                queue_id: queue_id.deep_view(),
                attempt: attempt.deep_view(),
            },
            CliEvent::RunUploadSucceeded {
                queue_id,
                run_id,
                dashboard_url,
            } => CliEventView::RunUploadSucceeded {
                queue_id: queue_id.deep_view(),
                run_id: run_id.deep_view(),
                dashboard_url: dashboard_url.deep_view(),
            },
            CliEvent::RunUploadFailed {
                queue_id,
                attempt,
                kind,
                status,
                error,
                next_retry_at,
            } => CliEventView::RunUploadFailed {
                queue_id: queue_id.deep_view(),
                attempt: attempt.deep_view(),
                kind: kind.deep_view(),
                status: status.deep_view(),
                error: error.deep_view(),
                next_retry_at: next_retry_at.deep_view(),
            },
            CliEvent::RunUploadDropped { queue_id, reason } => CliEventView::RunUploadDropped {
                queue_id: queue_id.deep_view(),
                reason: reason.deep_view(),
            },
            CliEvent::InternalWarning { kind, message, detail } => CliEventView::InternalWarning {
                kind: kind.deep_view(),
                message: message.deep_view(),
                detail: detail.deep_view(),
            },
        }
    }
}

/// A value that an agent submits for a component.
#[derive(Debug, PartialEq, Eq)]
pub struct SubmittedValue {
    pub key: String,
    pub value: Json,
    /// The bit pattern of the double that a text parses as; a number holds its
    /// own.
    pub numeric: Option<u64>,
}

/// View of [`SubmittedValue`].
pub struct SubmittedValueView {
    pub key: Seq<char>,
    pub value: JsonView,
    pub numeric: Option<u64>,
}

impl DeepView for SubmittedValue {
    type V = SubmittedValueView;

    open spec fn deep_view(&self) -> SubmittedValueView {
        SubmittedValueView {
            key: self.key.deep_view(),
            value: self.value.deep_view(),
            numeric: self.numeric.deep_view(),
        }
    }
}

impl Dup for SubmittedValue {
    fn dup(&self) -> (copy: Self) {
        SubmittedValue {
            key: self.key.dup(),
            value: self.value.dup(),
            numeric: self.numeric.dup(),
        }
    }
}

/// A command from the agent.
#[derive(Debug, PartialEq, Eq)]
#[allow(inconsistent_fields)]
pub enum CliCommand {
    UiResponse {
        request_id: String,
        values: Vec<SubmittedValue>,
    },
    AbortRun,
    GetState,
}

/// View of [`CliCommand`].
#[allow(inconsistent_fields)]
pub enum CliCommandView {
    UiResponse {
        request_id: Seq<char>,
        values: Seq<SubmittedValueView>,
    },
    AbortRun,
    GetState,
}

impl DeepView for CliCommand {
    type V = CliCommandView;

    open spec fn deep_view(&self) -> CliCommandView {
        match self {
            CliCommand::UiResponse { request_id, values } => CliCommandView::UiResponse {
                request_id: request_id.deep_view(),
                values: values.deep_view(),
            },
            CliCommand::AbortRun => CliCommandView::AbortRun,
            CliCommand::GetState => CliCommandView::GetState,
        }
    }
}

/// Version of the agent protocol, announced when a run starts.
pub const PROTOCOL_VERSION: &'static str = "1.0";

/// A choice as agents see it.
pub open spec fn agent_option(o: UiOptionView) -> AgentUiOptionView {
    AgentUiOptionView { value: o.value, label: o.label }
}

/// A component as agents see it.
pub open spec fn agent_component(c: UiComponentView) -> AgentUiComponentView {
    AgentUiComponentView {
        key: c.key,
        component_type: c.wire_type,
        label: c.label,
        description: c.description,
        required: c.required,
        is_input: c.is_input,
        default_value: c.default_value,
        placeholder: c.placeholder,
        options: match c.options {
            Some(options) => Some(options.map_values(|o: UiOptionView| agent_option(o))),
            None => None,
        },
        min: c.min,
        max: c.max,
        step: c.step,
    }
}

fn to_agent_options(options: &Vec<UiOption>) -> (out: Vec<AgentUiOption>)
    ensures
        out.deep_view() == options.deep_view().map_values(|o: UiOptionView| agent_option(o)),
{
    let mut out: Vec<AgentUiOption> = Vec::new();
    let mut i: usize = 0;
    while i < options.len()
        invariant
            i <= options@.len(),
            out@.len() == i,
            forall|k: int|
                0 <= k < i ==> (#[trigger] out@[k]).deep_view() == agent_option(
                    options@[k].deep_view(),
                ),
        decreases options@.len() - i,
    {
        out.push(AgentUiOption { value: options[i].value.dup(), label: options[i].label.dup() });
        i += 1;
    }
    assert(out.deep_view() =~= options.deep_view().map_values(|o: UiOptionView| agent_option(o)));
    out
}

/// Converts a component for agents: what an agent needs to reason about a
/// prompt.
pub fn to_agent_ui_component(c: &UiComponent) -> (out: AgentUiComponent)
    ensures
        out.deep_view() == agent_component(c.deep_view()),
{
    AgentUiComponent {
        key: c.key.dup(),
        component_type: c.wire_type.dup(),
        label: c.label.dup(),
        description: c.description.dup(),
        required: c.required,
        is_input: c.is_input,
        default_value: c.default_value.dup(),
        placeholder: c.placeholder.dup(),
        options: match &c.options {
            Some(options) => Some(to_agent_options(options)),
            None => None,
        },
        min: c.min.dup(),
        max: c.max.dup(),
        step: c.step.dup(),
    }
}

/// How a component is shown does not change what agents see of it.
pub proof fn law_agents_see_no_style(c: UiComponentView, style: Option<JsonView>)
    ensures
        agent_component(UiComponentView { style, ..c }) == agent_component(c),
{
}

} // verus!
