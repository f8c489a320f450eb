//! The events of the execution engine: what they send out, and what they
//! leave for the upload.

use vstd::prelude::*;
use vstd::string::*;
use crate::agent_proto::ctx::{skipped_phase, started_attempt, with_finished};
use crate::agent_proto::events::{CliEvent, CliEventView, PhasePlanPayload, PhasePlanPayloadView};
use crate::assoc;
use crate::assoc::with_value;
use crate::dup::{push, Dup};
use crate::emit::{run_complete, run_complete_event};
use crate::engine::caps::{
    cap_measurement_value, cap_optional, cap_string, cap_warning_detail, capped_detail,
    capped_option, capped_value, field, logged_name, member, option_exceeds, truncate_for_log,
    MAX_ATTACHMENT_PATH_BYTES, MAX_LABEL_BYTES, MAX_MEASUREMENT_VALUE_BYTES,
};
use crate::engine::measurement::{
    build_run_measurements, live_measurements, measurement_error, synthesize_measurement_error,
};
use crate::engine::metadata::{upsert_metadata_source, upserted};
use crate::engine::model::{
    CompletedPhase, CompletedPhaseView, EngineUnit, EngineUnitView, JobStatus, KeyText,
    KeyTextView, LogEntry, LogEntryView, Measurement, MeasurementView, Outcome, PlannedPhase,
    PlannedPhaseView, PlannedPlug, PlannedPlugView, PlugScope, PlugStage, PlugStatusValue, RunData,
    RunDataView, SlotAttachment, SlotAttachmentView, SlotOutcome, SlotOutcomeView, StageScope,
};
use crate::engine::unit::{
    apply_unit_info_to_run_data, apply_unit_info_to_slots, unit_info_to_wire, wire_unit,
    with_unit_info, with_unit_info_all,
};
use crate::event_router::{
    identify_resolved_emissions, phase_finished_emissions, phase_skipped_emissions,
    phase_started_emissions, stamp, stamp_text, to_both, ui_request_event, Emission, EmissionView,
    EventRouter, EventRouterView, PhaseFinished, PhaseFinishedView,
};
use crate::json::{json_size, json_text, Json, JsonField, JsonFieldView, JsonView};
use crate::order::Keyed;
use crate::outcomes::{from_execution_outcome, outcome_word, SKIP};
use crate::protocol::{
    AggregationResult, KeyUnit, KeyUnitView, PhaseLogLine, PhaseLogLineView, PhasePlan,
    PhasePlanView, PlugDefinition, PlugDefinitionView, RunMeasurement, RunMeasurementView,
    StationEvent, StationEventView, UnitInfo, UnitInfoView, ValidatorResult,
};
use crate::queue::{QueuedAttachment, QueuedAttachmentView};
use crate::text;
use crate::text::{fitting_prefix, utf8_size};
use crate::time::{duration_from_iso_pair, iso_duration, Instant};
use crate::ui::{UiRequestData, UiRequestDataView};

verus! {

/// An event of the execution engine.
#[derive(Debug, PartialEq, Eq)]
#[allow(inconsistent_fields)]
pub enum ExecutionEvent {
    /// The procedure was accepted.
    Plan {
        phases: Vec<PlannedPhase>,
        plugs_all: Vec<PlannedPlug>,
        plugs_each: Vec<PlannedPlug>,
        slots: Vec<String>,
    },
    /// A job moved on.
    JobProgress {
        phase_key: String,
        phase_name: String,
        status: JobStatus,
        retry_count: u64,
        outcome: Option<Outcome>,
        error: Option<String>,
        slot_id: Option<String>,
        started_at: Option<Instant>,
    },
    /// A phase attempt ended.
    JobComplete {
        phase_key: String,
        phase_name: String,
        outcome: Outcome,
        measurements: Vec<Measurement>,
        logs: Vec<LogEntry>,
        started_at: String,
        completed_at: String,
        retry_count: u64,
        error: Option<String>,
        slot_id: Option<String>,
        run_metadata: Vec<JsonField>,
        unit_metadata: Vec<JsonField>,
    },
    /// The execution began.
    Stats {
        start_time: Option<Instant>,
    },
    /// The execution ended.
    Complete {
        run_outcome: Option<Outcome>,
        run_id: Option<String>,
        end_time: Option<Instant>,
        slot_outcomes: Vec<SlotOutcome>,
    },
    /// A plug changed its state.
    PlugStatus {
        plug_key: String,
        plug_name: String,
        status: PlugStatusValue,
        stage: PlugStage,
        scope: PlugScope,
        slot_id: Option<String>,
    },
    /// A plug logged a line.
    PlugLog {
        plug_key: String,
        plug_name: String,
        level: String,
        message: String,
        slot_id: Option<String>,
        stage: Option<PlugStage>,
        timestamp: Option<String>,
        line: Option<u32>,
    },
    /// A phase asks the operator.
    UiRequest(UiRequestData),
    /// A phase changes a prompt that is open.
    UiUpdate {
        phase_key: String,
        slot_id: String,
        job_id: String,
        action: String,
        data: Json,
    },
    /// A phase logged a line.
    PhaseLogLine {
        phase_key: String,
        slot_id: Option<String>,
        level: String,
        message: String,
        timestamp: String,
        file: Option<String>,
        line: Option<u32>,
    },
    /// A phase recorded a value.
    MeasurementRecorded {
        phase_key: String,
        slot_id: Option<String>,
        name: String,
        value: Json,
        unit: Option<String>,
    },
    /// A phase attached a file.
    AttachmentAdded {
        phase_key: String,
        slot_id: Option<String>,
        name: String,
        path: Option<String>,
        mimetype: Option<String>,
    },
    /// A unit, or part of it, became known.
    UnitIdentified {
        slot_id: Option<String>,
        unit_info: EngineUnit,
    },
}

/// View of [`ExecutionEvent`].
#[allow(inconsistent_fields)]
pub enum ExecutionEventView {
    Plan {
        phases: Seq<PlannedPhaseView>,
        plugs_all: Seq<PlannedPlugView>,
        plugs_each: Seq<PlannedPlugView>,
        slots: Seq<Seq<char>>,
    },
    JobProgress {
        phase_key: Seq<char>,
        phase_name: Seq<char>,
        status: JobStatus,
        retry_count: u64,
        outcome: Option<Outcome>,
        error: Option<Seq<char>>,
        slot_id: Option<Seq<char>>,
        started_at: Option<Instant>,
    },
    JobComplete {
        phase_key: Seq<char>,
        phase_name: Seq<char>,
        outcome: Outcome,
        measurements: Seq<MeasurementView>,
        logs: Seq<LogEntryView>,
        started_at: Seq<char>,
        completed_at: Seq<char>,
        retry_count: u64,
        error: Option<Seq<char>>,
        slot_id: Option<Seq<char>>,
        run_metadata: Seq<JsonFieldView>,
        unit_metadata: Seq<JsonFieldView>,
    },
    Stats {
        start_time: Option<Instant>,
    },
    Complete {
        run_outcome: Option<Outcome>,
        run_id: Option<Seq<char>>,
        end_time: Option<Instant>,
        slot_outcomes: Seq<SlotOutcomeView>,
    },
    PlugStatus {
        plug_key: Seq<char>,
        plug_name: Seq<char>,
        status: PlugStatusValue,
        stage: PlugStage,
        scope: PlugScope,
        slot_id: Option<Seq<char>>,
    },
    PlugLog {
        plug_key: Seq<char>,
        plug_name: Seq<char>,
        level: Seq<char>,
        message: Seq<char>,
        slot_id: Option<Seq<char>>,
        stage: Option<PlugStage>,
        timestamp: Option<Seq<char>>,
        line: Option<u32>,
    },
    UiRequest(UiRequestDataView),
    UiUpdate {
        phase_key: Seq<char>,
        slot_id: Seq<char>,
        job_id: Seq<char>,
        action: Seq<char>,
        data: JsonView,
    },
    PhaseLogLine {
        phase_key: Seq<char>,
        slot_id: Option<Seq<char>>,
        level: Seq<char>,
        message: Seq<char>,
        timestamp: Seq<char>,
        file: Option<Seq<char>>,
        line: Option<u32>,
    },
    MeasurementRecorded {
        phase_key: Seq<char>,
        slot_id: Option<Seq<char>>,
        name: Seq<char>,
        value: JsonView,
        unit: Option<Seq<char>>,
    },
    AttachmentAdded {
        phase_key: Seq<char>,
        slot_id: Option<Seq<char>>,
        name: Seq<char>,
        path: Option<Seq<char>>,
        mimetype: Option<Seq<char>>,
    },
    UnitIdentified {
        slot_id: Option<Seq<char>>,
        unit_info: EngineUnitView,
    },
}

impl DeepView for ExecutionEvent {
    type V = ExecutionEventView;

    open spec fn deep_view(&self) -> ExecutionEventView {
        match self {
            ExecutionEvent::Plan {
                phases,
                plugs_all,
                plugs_each,
                slots,
            } => ExecutionEventView::Plan {
                phases: phases.deep_view(),
                plugs_all: plugs_all.deep_view(),
                plugs_each: plugs_each.deep_view(),
                slots: slots.deep_view(),
            },
            ExecutionEvent::JobProgress {
                phase_key,
                phase_name,
                status,
                retry_count,
                outcome,
                error,
                slot_id,
                started_at,
            } => ExecutionEventView::JobProgress {
                phase_key: phase_key.deep_view(),
                phase_name: phase_name.deep_view(),
                status: status.deep_view(),
                retry_count: retry_count.deep_view(),
                outcome: outcome.deep_view(),
                error: error.deep_view(),
                slot_id: slot_id.deep_view(),
                started_at: started_at.deep_view(),
            },
            ExecutionEvent::JobComplete {
                phase_key,
                phase_name,
                outcome,
                measurements,
                logs,
                started_at,
                completed_at,
                retry_count,
                error,
                slot_id,
                run_metadata,
                unit_metadata,
            } => ExecutionEventView::JobComplete {
                phase_key: phase_key.deep_view(),
                phase_name: phase_name.deep_view(),
                outcome: outcome.deep_view(),
                measurements: measurements.deep_view(),
                logs: logs.deep_view(),
                started_at: started_at.deep_view(),
                completed_at: completed_at.deep_view(),
                retry_count: retry_count.deep_view(),
                error: error.deep_view(),
                slot_id: slot_id.deep_view(),
                run_metadata: run_metadata.deep_view(),
                unit_metadata: unit_metadata.deep_view(),
            },
            ExecutionEvent::Stats { start_time } => ExecutionEventView::Stats {
                start_time: start_time.deep_view(),
            },
            ExecutionEvent::Complete {
                run_outcome,
                run_id,
                end_time,
                slot_outcomes,
            } => ExecutionEventView::Complete {
                run_outcome: run_outcome.deep_view(),
                run_id: run_id.deep_view(),
                end_time: end_time.deep_view(),
                slot_outcomes: slot_outcomes.deep_view(),
            },
            ExecutionEvent::PlugStatus {
                plug_key,
                plug_name,
                status,
                stage,
                scope,
                slot_id,
            } => ExecutionEventView::PlugStatus {
                plug_key: plug_key.deep_view(),
                plug_name: plug_name.deep_view(),
                status: status.deep_view(),
                stage: stage.deep_view(),
                scope: scope.deep_view(),
                slot_id: slot_id.deep_view(),
            },
            ExecutionEvent::PlugLog {
                plug_key,
                plug_name,
                level,
                message,
                slot_id,
                stage,
                timestamp,
                line,
            } => ExecutionEventView::PlugLog {
                plug_key: plug_key.deep_view(),
                plug_name: plug_name.deep_view(),
                level: level.deep_view(),
                message: message.deep_view(),
                slot_id: slot_id.deep_view(),
                stage: stage.deep_view(),
                timestamp: timestamp.deep_view(),
                line: line.deep_view(),
            },
            ExecutionEvent::UiRequest(v) => ExecutionEventView::UiRequest(v.deep_view()),
            ExecutionEvent::UiUpdate {
                phase_key,
                slot_id,
                job_id,
                action,
                data,
            } => ExecutionEventView::UiUpdate {
                phase_key: phase_key.deep_view(),
                slot_id: slot_id.deep_view(),
                job_id: job_id.deep_view(),
                action: action.deep_view(),
                data: data.deep_view(),
            },
            ExecutionEvent::PhaseLogLine {
                phase_key,
                slot_id,
                level,
                message,
                timestamp,
                file,
                line,
            } => ExecutionEventView::PhaseLogLine {
                phase_key: phase_key.deep_view(),
                slot_id: slot_id.deep_view(),
                level: level.deep_view(),
                message: message.deep_view(),
                timestamp: timestamp.deep_view(),
                file: file.deep_view(),
                line: line.deep_view(),
            },
            ExecutionEvent::MeasurementRecorded {
                phase_key,
                slot_id,
                name,
                value,
                unit,
            } => ExecutionEventView::MeasurementRecorded {
                phase_key: phase_key.deep_view(),
                slot_id: slot_id.deep_view(),
                name: name.deep_view(),
                value: value.deep_view(),
                unit: unit.deep_view(),
            },
            ExecutionEvent::AttachmentAdded {
                phase_key,
                slot_id,
                name,
                path,
                mimetype,
            } => ExecutionEventView::AttachmentAdded {
                phase_key: phase_key.deep_view(),
                slot_id: slot_id.deep_view(),
                name: name.deep_view(),
                path: path.deep_view(),
                mimetype: mimetype.deep_view(),
            },
            ExecutionEvent::UnitIdentified {
                slot_id,
                unit_info,
            } => ExecutionEventView::UnitIdentified {
                slot_id: slot_id.deep_view(),
                unit_info: unit_info.deep_view(),
            },
        }
    }
}

/// The run as the events of the engine build it up.
pub struct CliEventSink {
    pub router: EventRouter,
    /// Whether a terminal form shows the run.
    pub terminal: bool,
    pub procedure_name: String,
    pub procedure_id: String,
    pub deployment_id: Option<String>,
    /// The main phase that the run is narrowed to.
    pub only_phase: Option<String>,
    /// The slots, in the order of their declaration.
    pub slots: Vec<String>,
    pub slot_names: Vec<KeyText>,
    pub data: RunData,
    /// The unit identified last.
    pub resolved_unit: Option<UnitInfo>,
    /// The unit of each slot.
    pub resolved_units: Vec<KeyUnit>,
    /// The outcomes of the slots that the agent can ask for.
    pub agent_slot_outcomes: Vec<KeyText>,
    /// Whether the engine has shown any sign of life after the procedure was
    /// submitted.
    pub progressed: bool,
}

/// View of [`CliEventSink`].
pub struct CliEventSinkView {
    pub router: EventRouterView,
    pub terminal: bool,
    pub procedure_name: Seq<char>,
    pub procedure_id: Seq<char>,
    pub deployment_id: Option<Seq<char>>,
    pub only_phase: Option<Seq<char>>,
    pub slots: Seq<Seq<char>>,
    pub slot_names: Seq<KeyTextView>,
    pub data: RunDataView,
    pub resolved_unit: Option<UnitInfoView>,
    pub resolved_units: Seq<KeyUnitView>,
    pub agent_slot_outcomes: Seq<KeyTextView>,
    pub progressed: bool,
}

impl DeepView for CliEventSink {
    type V = CliEventSinkView;

    open spec fn deep_view(&self) -> CliEventSinkView {
        CliEventSinkView {
            router: self.router.deep_view(),
            terminal: self.terminal.deep_view(),
            procedure_name: self.procedure_name.deep_view(),
            procedure_id: self.procedure_id.deep_view(),
            deployment_id: self.deployment_id.deep_view(),
            only_phase: self.only_phase.deep_view(),
            slots: self.slots.deep_view(),
            slot_names: self.slot_names.deep_view(),
            data: self.data.deep_view(),
            resolved_unit: self.resolved_unit.deep_view(),
            resolved_units: self.resolved_units.deep_view(),
            agent_slot_outcomes: self.agent_slot_outcomes.deep_view(),
            progressed: self.progressed.deep_view(),
        }
    }
}

impl Keyed for KeyUnit {
    open spec fn sort_key(value: KeyUnitView) -> Seq<char> {
        value.slot
    }

    fn key_text(&self) -> (key: &str) {
        self.slot.as_str()
    }
}

// ---------------------------------------------------------------------------
// Words
// ---------------------------------------------------------------------------

/// The word of a plug state.
pub open spec fn plug_status_word(s: PlugStatusValue) -> Seq<char> {
    match s {
        PlugStatusValue::Idle => "idle"@,
        PlugStatusValue::Initializing => "initializing"@,
        PlugStatusValue::Active => "active"@,
        PlugStatusValue::Destructing => "destructing"@,
        PlugStatusValue::Error => "error"@,
        PlugStatusValue::Skipped => "skipped"@,
    }
}

/// The word of a plug state.
pub fn plug_status_str(s: PlugStatusValue) -> (word: &'static str)
    ensures
        word@ == plug_status_word(s),
{
    match s {
        PlugStatusValue::Idle => "idle",
        PlugStatusValue::Initializing => "initializing",
        PlugStatusValue::Active => "active",
        PlugStatusValue::Destructing => "destructing",
        PlugStatusValue::Error => "error",
        PlugStatusValue::Skipped => "skipped",
    }
}

/// The word of a plug stage.
pub open spec fn plug_stage_word(s: PlugStage) -> Seq<char> {
    match s {
        PlugStage::Setup => "setup"@,
        PlugStage::Teardown => "teardown"@,
        PlugStage::Manual => "manual"@,
    }
}

/// The word of a plug stage.
pub fn plug_stage_str(s: PlugStage) -> (word: &'static str)
    ensures
        word@ == plug_stage_word(s),
{
    match s {
        PlugStage::Setup => "setup",
        PlugStage::Teardown => "teardown",
        PlugStage::Manual => "manual",
    }
}

/// The word of a plug scope.
pub open spec fn plug_scope_word(s: PlugScope) -> Seq<char> {
    match s {
        PlugScope::Execution => "execution"@,
        PlugScope::Slot => "slot"@,
        PlugScope::Station => "station"@,
    }
}

/// The word of a plug scope.
pub fn plug_scope_str(s: PlugScope) -> (word: &'static str)
    ensures
        word@ == plug_scope_word(s),
{
    match s {
        PlugScope::Execution => "execution",
        PlugScope::Slot => "slot",
        PlugScope::Station => "station",
    }
}

/// The word of a stage.
pub open spec fn stage_word(s: StageScope) -> Seq<char> {
    match s {
        StageScope::SetupAll => "setup_all"@,
        StageScope::SetupEach => "setup_each"@,
        StageScope::Main => "main"@,
        StageScope::TeardownEach => "teardown_each"@,
        StageScope::TeardownAll => "teardown_all"@,
    }
}

/// The word of a stage.
pub fn stage_scope_str(s: StageScope) -> (word: &'static str)
    ensures
        word@ == stage_word(s),
{
    match s {
        StageScope::SetupAll => "setup_all",
        StageScope::SetupEach => "setup_each",
        StageScope::Main => "main",
        StageScope::TeardownEach => "teardown_each",
        StageScope::TeardownAll => "teardown_all",
    }
}

/// The attempt of a retry count: the retries and the first try.
pub open spec fn attempt_of(retry_count: u64) -> u32 {
    if retry_count as u32 == u32::MAX {
        u32::MAX
    } else {
        ((retry_count as u32) + 1) as u32
    }
}

fn attempt_number(retry_count: u64) -> (attempt: u32)
    ensures
        attempt == attempt_of(retry_count),
{
    let retries: u32 = retry_count as u32;
    if retries == u32::MAX {
        u32::MAX
    } else {
        retries + 1
    }
}

fn one(e: Emission) -> (out: Vec<Emission>)
    ensures
        out.deep_view() == seq![e.deep_view()],
{
    let mut out: Vec<Emission> = Vec::new();
    out.push(e);
    assert(out.deep_view() =~= seq![e.deep_view()]);
    out
}

fn nothing() -> (out: Vec<Emission>)
    ensures
        out.deep_view() == Seq::<EmissionView>::empty(),
{
    let out: Vec<Emission> = Vec::new();
    assert(out.deep_view() =~= Seq::<EmissionView>::empty());
    out
}

fn station_and_agent(agent: bool, station: StationEvent, cli: CliEvent) -> (out: Vec<Emission>)
    ensures
        out.deep_view() == to_both(agent, station.deep_view(), cli.deep_view()),
{
    let mut out: Vec<Emission> = Vec::new();
    out.push(Emission::Station(station));
    if agent {
        out.push(Emission::Agent(cli));
    }
    assert(out.deep_view() =~= to_both(agent, station.deep_view(), cli.deep_view()));
    out
}

// ---------------------------------------------------------------------------
// The plan
// ---------------------------------------------------------------------------

/// A phase of the announced plan.
pub open spec fn planned_phase(p: PlannedPhaseView) -> PhasePlanView {
    PhasePlanView { key: p.phase_key, name: p.phase_name, stage: stage_word(p.stage_scope) }
}

/// A plug of the announced plan.
pub open spec fn planned_plug(p: PlannedPlugView) -> PlugDefinitionView {
    PlugDefinitionView { key: p.plug_key, name: p.plug_name, scope: p.scope }
}

/// A phase of the plan for the agent.
pub open spec fn plan_payload(p: PlannedPhaseView) -> PhasePlanPayloadView {
    PhasePlanPayloadView { key: p.phase_key, name: p.phase_name }
}

/// What the plan sends out.
pub open spec fn plan_emissions(
    sink: CliEventSinkView,
    phases: Seq<PlannedPhaseView>,
    plugs_all: Seq<PlannedPlugView>,
    plugs_each: Seq<PlannedPlugView>,
    slots: Seq<Seq<char>>,
    now: Instant,
) -> Seq<EmissionView> {
    to_both(
        sink.router.agent,
        StationEventView::RunStarted {
            procedure_id: sink.procedure_id,
            procedure_name: sink.procedure_name,
            execution_id: sink.router.execution_id,
            phases: phases.map_values(|p: PlannedPhaseView| planned_phase(p)),
            slots,
            slot_names: sink.slot_names,
            slot_units: sink.resolved_units,
            plugs: (plugs_all + plugs_each).map_values(|p: PlannedPlugView| planned_plug(p)),
            timestamp: Some(stamp_text(now)),
            run_id: None,
            deployment_id: sink.deployment_id,
            unit: sink.resolved_unit,
            only_phase: sink.only_phase,
        },
        CliEventView::Plan { phases: phases.map_values(|p: PlannedPhaseView| plan_payload(p)) },
    )
}

fn announce_phases(phases: &Vec<PlannedPhase>) -> (out: Vec<PhasePlan>)
    ensures
        out.deep_view() == phases.deep_view().map_values(
            |p: PlannedPhaseView| planned_phase(p),
        ),
{
    let mut out: Vec<PhasePlan> = Vec::new();
    let mut i: usize = 0;
    while i < phases.len()
        invariant
            i <= phases@.len(),
            out@.len() == i,
            forall|k: int|
                0 <= k < i ==> (#[trigger] out@[k]).deep_view() == planned_phase(
                    phases@[k].deep_view(),
                ),
        decreases phases@.len() - i,
    {
        out.push(
            PhasePlan {
                key: phases[i].phase_key.dup(),
                name: phases[i].phase_name.dup(),
                stage: stage_scope_str(phases[i].stage_scope).to_string(),
            },
        );
        i += 1;
    }
    assert(out.deep_view() =~= phases.deep_view().map_values(
        |p: PlannedPhaseView| planned_phase(p),
    ));
    out
}

fn payload_phases(phases: &Vec<PlannedPhase>) -> (out: Vec<PhasePlanPayload>)
    ensures
        out.deep_view() == phases.deep_view().map_values(|p: PlannedPhaseView| plan_payload(p)),
{
    let mut out: Vec<PhasePlanPayload> = Vec::new();
    let mut i: usize = 0;
    while i < phases.len()
        invariant
            i <= phases@.len(),
            out@.len() == i,
            forall|k: int|
                0 <= k < i ==> (#[trigger] out@[k]).deep_view() == plan_payload(
                    phases@[k].deep_view(),
                ),
        decreases phases@.len() - i,
    {
        out.push(
            PhasePlanPayload { key: phases[i].phase_key.dup(), name: phases[i].phase_name.dup() },
        );
        i += 1;
    }
    assert(out.deep_view() =~= phases.deep_view().map_values(
        |p: PlannedPhaseView| plan_payload(p),
    ));
    out
}

fn push_plugs(out: &mut Vec<PlugDefinition>, plugs: &Vec<PlannedPlug>)
    ensures
        final(out).deep_view() == old(out).deep_view() + plugs.deep_view().map_values(
            |p: PlannedPlugView| planned_plug(p),
        ),
{
    let ghost before = out.deep_view();
    let ghost all = plugs.deep_view().map_values(|p: PlannedPlugView| planned_plug(p));
    let mut i: usize = 0;
    assert(before + all.take(0) =~= before);
    while i < plugs.len()
        invariant
            i <= plugs@.len(),
            all == plugs.deep_view().map_values(|p: PlannedPlugView| planned_plug(p)),
            out.deep_view() == before + all.take(i as int),
        decreases plugs@.len() - i,
    {
        let plug = PlugDefinition {
            key: plugs[i].plug_key.dup(),
            name: plugs[i].plug_name.dup(),
            scope: plugs[i].scope.dup(),
        };
        assert(plug.deep_view() == all[i as int]);
        push(out, plug);
        assert(out.deep_view() =~= before + all.take(i + 1));
        i += 1;
    }
    assert(all.take(plugs@.len() as int) =~= all);
}

fn announce_plugs(plugs_all: &Vec<PlannedPlug>, plugs_each: &Vec<PlannedPlug>) -> (out: Vec<
    PlugDefinition,
>)
    ensures
        out.deep_view() == (plugs_all.deep_view() + plugs_each.deep_view()).map_values(
            |p: PlannedPlugView| planned_plug(p),
        ),
{
    let mut out: Vec<PlugDefinition> = Vec::new();
    assert(out.deep_view() =~= Seq::empty());
    push_plugs(&mut out, plugs_all);
    push_plugs(&mut out, plugs_each);
    assert(out.deep_view() =~= (plugs_all.deep_view() + plugs_each.deep_view()).map_values(
        |p: PlannedPlugView| planned_plug(p),
    ));
    out
}

// ---------------------------------------------------------------------------
// Phases
// ---------------------------------------------------------------------------

/// A log line in live views.
pub open spec fn live_log(l: LogEntryView) -> PhaseLogLineView {
    PhaseLogLineView {
        level: l.level,
        message: l.message,
        timestamp: Some(l.timestamp),
        file: l.file,
        line: l.line,
    }
}

fn live_logs(logs: &Vec<LogEntry>) -> (out: Vec<PhaseLogLine>)
    ensures
        out.deep_view() == logs.deep_view().map_values(|l: LogEntryView| live_log(l)),
{
    let mut out: Vec<PhaseLogLine> = Vec::new();
    let mut i: usize = 0;
    while i < logs.len()
        invariant
            i <= logs@.len(),
            out@.len() == i,
            forall|k: int|
                0 <= k < i ==> (#[trigger] out@[k]).deep_view() == live_log(logs@[k].deep_view()),
        decreases logs@.len() - i,
    {
        out.push(
            PhaseLogLine {
                level: logs[i].level.dup(),
                message: logs[i].message.dup(),
                timestamp: Some(logs[i].timestamp.dup()),
                file: logs[i].file.dup(),
                line: logs[i].line,
            },
        );
        i += 1;
    }
    assert(out.deep_view() =~= logs.deep_view().map_values(|l: LogEntryView| live_log(l)));
    out
}

/// The error of a phase: what the engine says, else what its measurements
/// tell.
pub open spec fn phase_error(
    error: Option<Seq<char>>,
    outcome: Outcome,
    measurements: Seq<MeasurementView>,
) -> Option<Seq<char>> {
    if error is Some {
        error
    } else {
        measurement_error(outcome, measurements)
    }
}

/// What the streams learn of a phase that ended.
pub open spec fn finished_phase(
    phase_key: Seq<char>,
    phase_name: Seq<char>,
    phase: CompletedPhaseView,
) -> PhaseFinishedView {
    PhaseFinishedView {
        phase_key,
        phase_name,
        outcome: outcome_word(phase.outcome),
        attempt: attempt_of(phase.retry_count),
        slot_id: phase.slot_id,
        error: phase_error(phase.error, phase.outcome, phase.measurements),
        started_at: Some(phase.started_at),
        ended_at: Some(phase.completed_at),
        duration_ms: iso_duration(phase.started_at, phase.completed_at),
        station_measurements: live_measurements(phase.measurements),
        station_logs: phase.logs.map_values(|l: LogEntryView| live_log(l)),
    }
}

/// The run data after a phase has ended.
pub open spec fn with_phase(
    data: RunDataView,
    phase_key: Seq<char>,
    phase: CompletedPhaseView,
    run_metadata: Seq<JsonFieldView>,
    unit_metadata: Seq<JsonFieldView>,
) -> RunDataView {
    RunDataView {
        phases: data.phases.push(phase),
        run_metadata_sources: upserted(
            data.run_metadata_sources,
            phase.slot_id,
            phase_key,
            run_metadata,
        ),
        unit_metadata_sources: upserted(
            data.unit_metadata_sources,
            phase.slot_id,
            phase_key,
            unit_metadata,
        ),
        ..data
    }
}

// ---------------------------------------------------------------------------
// The end of the execution
// ---------------------------------------------------------------------------

/// The outcomes of the slots on the wire; left out for a single slot.
pub open spec fn slot_words(slot_outcomes: Seq<SlotOutcomeView>) -> Seq<KeyTextView> {
    if slot_outcomes.len() > 1 {
        slot_outcomes.map_values(
            |s: SlotOutcomeView| KeyTextView { key: s.slot, text: outcome_word(s.outcome) },
        )
    } else {
        Seq::empty()
    }
}

fn words_of_slots(slot_outcomes: &Vec<SlotOutcome>) -> (out: Vec<KeyText>)
    ensures
        out.deep_view() == slot_words(slot_outcomes.deep_view()),
{
    let mut out: Vec<KeyText> = Vec::new();
    if slot_outcomes.len() > 1 {
        let mut i: usize = 0;
        while i < slot_outcomes.len()
            invariant
                i <= slot_outcomes@.len(),
                out@.len() == i,
                forall|k: int|
                    0 <= k < i ==> (#[trigger] out@[k]).deep_view() == (KeyTextView {
                        key: slot_outcomes@[k].slot@,
                        text: outcome_word(slot_outcomes@[k].outcome),
                    }),
            decreases slot_outcomes@.len() - i,
        {
            out.push(
                KeyText {
                    key: slot_outcomes[i].slot.dup(),
                    text: from_execution_outcome(slot_outcomes[i].outcome).to_string(),
                },
            );
            i += 1;
        }
    }
    assert(out.deep_view() =~= slot_words(slot_outcomes.deep_view()));
    out
}

/// The word of a run outcome; `UNKNOWN` where there is none.
pub open spec fn run_word(outcome: Option<Outcome>) -> Seq<char> {
    match outcome {
        Some(outcome) => outcome_word(outcome),
        None => "UNKNOWN"@,
    }
}

// ---------------------------------------------------------------------------
// Live values and files
// ---------------------------------------------------------------------------

/// A bounded optional text as JSON.
pub open spec fn capped_json(s: Option<Seq<char>>) -> JsonView {
    match s {
        Some(s) => JsonView::Text(fitting_prefix(s, MAX_LABEL_BYTES as nat)),
        None => JsonView::Null,
    }
}

fn cap_to_json(s: &Option<String>) -> (json: Json)
    ensures
        json.deep_view() == capped_json(s.deep_view()),
{
    match s {
        Some(s) => Json::Text(cap_string(s.as_str(), MAX_LABEL_BYTES).0),
        None => Json::Null,
    }
}

/// What the agent learns of a recorded value: bounded in every part, with a
/// warning before it where a part was cut.
pub open spec fn measurement_for_agent(
    phase_key: Seq<char>,
    slot_id: Option<Seq<char>>,
    name: Seq<char>,
    value: JsonView,
    unit: Option<Seq<char>>,
) -> Seq<EmissionView> {
    let name_cut = utf8_size(name) > MAX_LABEL_BYTES;
    let unit_cut = option_exceeds(unit, MAX_LABEL_BYTES as nat);
    let value_cut = json_size(value) > MAX_MEASUREMENT_VALUE_BYTES;
    let recorded = EmissionView::Agent(
        CliEventView::MeasurementRecorded {
            phase_key,
            name: fitting_prefix(name, MAX_LABEL_BYTES as nat),
            value: capped_value(value),
            outcome: "unset"@,
            unit: capped_option(unit, MAX_LABEL_BYTES as nat),
            slot_id,
        },
    );
    if name_cut || unit_cut || value_cut {
        let warning = CliEventView::InternalWarning {
            kind: "measurement_truncated"@,
            message: "measurement '"@ + logged_name(name)
                + "' exceeded payload caps; full record in phase_finished"@,
            detail: Some(
                capped_detail(
                    JsonView::Object(
                        seq![
                            member(
                                "phase_key"@,
                                JsonView::Text(fitting_prefix(phase_key, MAX_LABEL_BYTES as nat)),
                            ),
                            member("slot_id"@, capped_json(slot_id)),
                            member("name_truncated"@, JsonView::Bool(name_cut)),
                            member("unit_truncated"@, JsonView::Bool(unit_cut)),
                            member("value_truncated"@, JsonView::Bool(value_cut)),
                        ],
                    ),
                ),
            ),
        };
        seq![EmissionView::Agent(warning), recorded]
    } else {
        seq![recorded]
    }
}

fn agent_measurement(
    phase_key: &String,
    slot_id: &Option<String>,
    name: &String,
    value: &Json,
    unit: &Option<String>,
) -> (out: Vec<Emission>)
    ensures
        out.deep_view() == measurement_for_agent(
            phase_key@,
            slot_id.deep_view(),
            name@,
            value.deep_view(),
            unit.deep_view(),
        ),
{
    let mut out: Vec<Emission> = Vec::new();
    let (capped_name, name_cut) = cap_string(name.as_str(), MAX_LABEL_BYTES);
    let (capped_unit, unit_cut) = cap_optional(unit, MAX_LABEL_BYTES);
    let (capped, value_cut) = cap_measurement_value(value);
    if name_cut || unit_cut || value_cut {
        let shown = truncate_for_log(name.as_str());
        let message = text::concat3(
            "measurement '",
            shown.as_str(),
            "' exceeded payload caps; full record in phase_finished",
        );
        let mut fields: Vec<JsonField> = Vec::new();
        fields.push(
            field("phase_key", Json::Text(cap_string(phase_key.as_str(), MAX_LABEL_BYTES).0)),
        );
        fields.push(field("slot_id", cap_to_json(slot_id)));
        fields.push(field("name_truncated", Json::Bool(name_cut)));
        fields.push(field("unit_truncated", Json::Bool(unit_cut)));
        fields.push(field("value_truncated", Json::Bool(value_cut)));
        assert(fields.deep_view() =~= seq![
            member("phase_key"@, JsonView::Text(fitting_prefix(phase_key@, MAX_LABEL_BYTES as nat))),
            member("slot_id"@, capped_json(slot_id.deep_view())),
            member("name_truncated"@, JsonView::Bool(name_cut)),
            member("unit_truncated"@, JsonView::Bool(unit_cut)),
            member("value_truncated"@, JsonView::Bool(value_cut)),
        ]);
        out.push(
            Emission::Agent(
                CliEvent::InternalWarning {
                    kind: "measurement_truncated".to_string(),
                    message,
                    detail: Some(cap_warning_detail(Json::object(fields))),
                },
            ),
        );
    }
    out.push(
        Emission::Agent(
            CliEvent::MeasurementRecorded {
                phase_key: phase_key.dup(),
                name: capped_name,
                value: capped,
                outcome: "unset".to_string(),
                unit: capped_unit,
                slot_id: slot_id.dup(),
            },
        ),
    );
    assert(out.deep_view() =~= measurement_for_agent(
        phase_key@,
        slot_id.deep_view(),
        name@,
        value.deep_view(),
        unit.deep_view(),
    ));
    out
}

/// What a recorded value sends out.
pub open spec fn measurement_emissions(
    sink: CliEventSinkView,
    phase_key: Seq<char>,
    slot_id: Option<Seq<char>>,
    name: Seq<char>,
    value: JsonView,
    unit: Option<Seq<char>>,
) -> Seq<EmissionView> {
    let station = EmissionView::Station(
        StationEventView::MeasurementUpdate {
            phase_key,
            attempt: 1,
            slot_id,
            measurement: RunMeasurementView {
                name,
                outcome: "UNSET"@,
                measured_value: Some(value),
                units: unit,
                validators: Seq::empty(),
                aggregations: Seq::empty(),
            },
            execution_id: Some(sink.router.execution_id),
        },
    );
    if sink.router.agent {
        measurement_for_agent(phase_key, slot_id, name, value, unit).push(station)
    } else {
        seq![station]
    }
}

/// What the agent learns of an attached file: bounded in every part, with a
/// warning before it where a part was cut.
pub open spec fn attachment_for_agent(
    phase_key: Seq<char>,
    slot_id: Option<Seq<char>>,
    name: Seq<char>,
    path: Option<Seq<char>>,
    mimetype: Option<Seq<char>>,
) -> Seq<EmissionView> {
    let name_cut = utf8_size(name) > MAX_LABEL_BYTES;
    let path_cut = option_exceeds(path, MAX_ATTACHMENT_PATH_BYTES as nat);
    let mime_cut = option_exceeds(mimetype, MAX_LABEL_BYTES as nat);
    let added = EmissionView::Agent(
        CliEventView::AttachmentAdded {
            phase_key,
            name: fitting_prefix(name, MAX_LABEL_BYTES as nat),
            path: capped_option(path, MAX_ATTACHMENT_PATH_BYTES as nat),
            mimetype: capped_option(mimetype, MAX_LABEL_BYTES as nat),
            slot_id,
        },
    );
    if name_cut || path_cut || mime_cut {
        let warning = CliEventView::InternalWarning {
            kind: "attachment_truncated"@,
            message: "attachment '"@ + logged_name(name) + "' exceeded payload caps"@,
            detail: Some(
                capped_detail(
                    JsonView::Object(
                        seq![
                            member(
                                "phase_key"@,
                                JsonView::Text(fitting_prefix(phase_key, MAX_LABEL_BYTES as nat)),
                            ),
                            member("name_truncated"@, JsonView::Bool(name_cut)),
                            member("path_truncated"@, JsonView::Bool(path_cut)),
                            member("mimetype_truncated"@, JsonView::Bool(mime_cut)),
                        ],
                    ),
                ),
            ),
        };
        seq![EmissionView::Agent(warning), added]
    } else {
        seq![added]
    }
}

fn agent_attachment(
    phase_key: &String,
    slot_id: &Option<String>,
    name: &String,
    path: &Option<String>,
    mimetype: &Option<String>,
) -> (out: Vec<Emission>)
    ensures
        out.deep_view() == attachment_for_agent(
            phase_key@,
            slot_id.deep_view(),
            name@,
            path.deep_view(),
            mimetype.deep_view(),
        ),
{
    let mut out: Vec<Emission> = Vec::new();
    let (capped_name, name_cut) = cap_string(name.as_str(), MAX_LABEL_BYTES);
    let (capped_path, path_cut) = cap_optional(path, MAX_ATTACHMENT_PATH_BYTES);
    let (capped_mimetype, mime_cut) = cap_optional(mimetype, MAX_LABEL_BYTES);
    if name_cut || path_cut || mime_cut {
        let shown = truncate_for_log(name.as_str());
        let message = text::concat3("attachment '", shown.as_str(), "' exceeded payload caps");
        let mut fields: Vec<JsonField> = Vec::new();
        fields.push(
            field("phase_key", Json::Text(cap_string(phase_key.as_str(), MAX_LABEL_BYTES).0)),
        );
        fields.push(field("name_truncated", Json::Bool(name_cut)));
        fields.push(field("path_truncated", Json::Bool(path_cut)));
        fields.push(field("mimetype_truncated", Json::Bool(mime_cut)));
        assert(fields.deep_view() =~= seq![
            member("phase_key"@, JsonView::Text(fitting_prefix(phase_key@, MAX_LABEL_BYTES as nat))),
            member("name_truncated"@, JsonView::Bool(name_cut)),
            member("path_truncated"@, JsonView::Bool(path_cut)),
            member("mimetype_truncated"@, JsonView::Bool(mime_cut)),
        ]);
        out.push(
            Emission::Agent(
                CliEvent::InternalWarning {
                    kind: "attachment_truncated".to_string(),
                    message,
                    detail: Some(cap_warning_detail(Json::object(fields))),
                },
            ),
        );
    }
    out.push(
        Emission::Agent(
            CliEvent::AttachmentAdded {
                phase_key: phase_key.dup(),
                name: capped_name,
                path: capped_path,
                mimetype: capped_mimetype,
                slot_id: slot_id.dup(),
            },
        ),
    );
    assert(out.deep_view() =~= attachment_for_agent(
        phase_key@,
        slot_id.deep_view(),
        name@,
        path.deep_view(),
        mimetype.deep_view(),
    ));
    out
}

/// What an attached file sends out.
pub open spec fn attachment_emissions(
    sink: CliEventSinkView,
    phase_key: Seq<char>,
    slot_id: Option<Seq<char>>,
    name: Seq<char>,
    path: Option<Seq<char>>,
    mimetype: Option<Seq<char>>,
) -> Seq<EmissionView> {
    let station = EmissionView::Station(
        StationEventView::AttachmentAdded {
            phase_key,
            slot_id,
            name,
            path,
            mimetype,
            size_bytes: None,
            execution_id: Some(sink.router.execution_id),
        },
    );
    if sink.router.agent {
        attachment_for_agent(phase_key, slot_id, name, path, mimetype).push(station)
    } else {
        seq![station]
    }
}

/// The run data after a file was attached: kept for the upload where it has
/// a path.
pub open spec fn with_attachment(
    data: RunDataView,
    phase_key: Seq<char>,
    slot_id: Option<Seq<char>>,
    name: Seq<char>,
    path: Option<Seq<char>>,
    mimetype: Option<Seq<char>>,
) -> RunDataView {
    match path {
        Some(path) => RunDataView {
            attachments: data.attachments.push(
                SlotAttachmentView {
                    slot: slot_id,
                    attachment: QueuedAttachmentView {
                        name,
                        path,
                        mimetype: match mimetype {
                            Some(m) => m,
                            None => Seq::empty(),
                        },
                        phase_key,
                    },
                },
            ),
            ..data
        },
        None => data,
    }
}

// ---------------------------------------------------------------------------
// Prompts and units
// ---------------------------------------------------------------------------

/// What a prompt sends out: to the terminal form where there is one, to the
/// station, and then, without a terminal form, to the agent; without either,
/// a prompt that does not wait for the operator is answered at once.
pub open spec fn prompt_emissions(
    sink: CliEventSinkView,
    request: UiRequestDataView,
    now: Instant,
) -> Seq<EmissionView> {
    let station = EmissionView::Station(
        ui_request_event(
            sink.router.execution_id,
            request.request_id,
            request.phase_key,
            request.slot_id,
            request.components,
            request.requires_user_input,
            now,
        ),
    );
    if sink.terminal {
        seq![EmissionView::Terminal(request), station]
    } else if sink.router.agent {
        seq![station, EmissionView::Prompt(request)]
    } else if !request.requires_user_input {
        seq![station, EmissionView::Continue(request.request_id)]
    } else {
        seq![station]
    }
}

/// The slot of a prompt update; an empty or shared one is none.
pub open spec fn update_slot(slot_id: Seq<char>) -> Option<Seq<char>> {
    if slot_id == ""@ || slot_id == "<shared>"@ {
        None
    } else {
        Some(slot_id)
    }
}

/// The run after a unit became known: a slot's own update lands on that slot,
/// one of a shared stage on every slot.
pub open spec fn with_unit(
    sink: CliEventSinkView,
    slot_id: Option<Seq<char>>,
    info: EngineUnitView,
) -> CliEventSinkView {
    CliEventSinkView {
        data: match slot_id {
            Some(slot) => with_unit_info(sink.data, slot, info),
            None => with_unit_info_all(sink.data, sink.slots, info),
        },
        resolved_unit: Some(wire_unit(info)),
        resolved_units: match slot_id {
            Some(slot) => with_value::<KeyUnit>(
                sink.resolved_units,
                KeyUnitView { slot, unit: wire_unit(info) },
            ),
            None => sink.resolved_units,
        },
        ..sink
    }
}

// ---------------------------------------------------------------------------
// The sink
// ---------------------------------------------------------------------------

/// Whether an event is a sign of life after the submission.
pub open spec fn is_progress(event: ExecutionEventView) -> bool {
    !(event is Plan) && !(event is UnitIdentified)
}

/// The completed phase of an event.
pub open spec fn phase_of(event: ExecutionEventView) -> CompletedPhaseView
    recommends
        event is JobComplete,
{
    match event {
        ExecutionEventView::JobComplete {
            phase_key,
            phase_name,
            outcome,
            measurements,
            logs,
            started_at,
            completed_at,
            retry_count,
            error,
            slot_id,
            run_metadata,
            unit_metadata,
        } => CompletedPhaseView {
            name: phase_name,
            outcome,
            started_at,
            completed_at,
            retry_count,
            measurements,
            logs,
            error,
            slot_id,
        },
        _ => arbitrary(),
    }
}

/// The router after an event.
pub open spec fn routed(router: EventRouterView, event: ExecutionEventView) -> EventRouterView {
    if !router.agent {
        router
    } else {
        match event {
            ExecutionEventView::JobProgress {
                phase_key,
                phase_name,
                status,
                retry_count,
                outcome,
                error,
                slot_id,
                started_at,
            } => if status == JobStatus::Running {
                EventRouterView {
                    history: router.history.push(
                        started_attempt(phase_key, attempt_of(retry_count), slot_id),
                    ),
                    ..router
                }
            } else if status == JobStatus::Skipped {
                EventRouterView {
                    history: router.history.push(skipped_phase(phase_key, slot_id)),
                    ..router
                }
            } else {
                router
            },
            ExecutionEventView::JobComplete {
                phase_key,
                phase_name,
                outcome,
                measurements,
                logs,
                started_at,
                completed_at,
                retry_count,
                error,
                slot_id,
                run_metadata,
                unit_metadata,
            } => EventRouterView {
                history: with_finished(
                    router.history,
                    phase_key,
                    attempt_of(retry_count),
                    slot_id,
                    outcome_word(outcome),
                ),
                ..router
            },
            _ => router,
        }
    }
}

/// The run after an event, but for the sign of life and the router.
pub open spec fn absorbed(sink: CliEventSinkView, event: ExecutionEventView) -> CliEventSinkView {
    match event {
        ExecutionEventView::JobComplete {
            phase_key,
            phase_name,
            outcome,
            measurements,
            logs,
            started_at,
            completed_at,
            retry_count,
            error,
            slot_id,
            run_metadata,
            unit_metadata,
        } => CliEventSinkView {
            data: with_phase(sink.data, phase_key, phase_of(event), run_metadata, unit_metadata),
            ..sink
        },
        ExecutionEventView::Stats { start_time } => CliEventSinkView {
            data: RunDataView {
                start_time: if sink.data.start_time is Some {
                    sink.data.start_time
                } else {
                    start_time
                },
                ..sink.data
            },
            ..sink
        },
        ExecutionEventView::Complete { run_outcome, run_id, end_time, slot_outcomes } =>
            CliEventSinkView {
            data: RunDataView { run_outcome, run_id, end_time, slot_outcomes, ..sink.data },
            agent_slot_outcomes: if sink.router.agent && slot_words(slot_outcomes).len() > 0 {
                slot_words(slot_outcomes)
            } else {
                sink.agent_slot_outcomes
            },
            ..sink
        },
        ExecutionEventView::AttachmentAdded { phase_key, slot_id, name, path, mimetype } =>
            CliEventSinkView {
            data: with_attachment(sink.data, phase_key, slot_id, name, path, mimetype),
            ..sink
        },
        ExecutionEventView::UnitIdentified { slot_id, unit_info } => with_unit(
            sink,
            slot_id,
            unit_info,
        ),
        _ => sink,
    }
}

/// The run after an event.
pub open spec fn advanced(sink: CliEventSinkView, event: ExecutionEventView) -> CliEventSinkView {
    CliEventSinkView {
        router: routed(sink.router, event),
        progressed: sink.progressed || is_progress(event),
        ..absorbed(sink, event)
    }
}

/// What an event sends out.
pub open spec fn emitted(sink: CliEventSinkView, event: ExecutionEventView, now: Instant) -> Seq<
    EmissionView,
> {
    let agent = sink.router.agent;
    let execution_id = sink.router.execution_id;
    match event {
        ExecutionEventView::Plan { phases, plugs_all, plugs_each, slots } => plan_emissions(
            sink,
            phases,
            plugs_all,
            plugs_each,
            slots,
            now,
        ),
        ExecutionEventView::JobProgress {
            phase_key,
            phase_name,
            status,
            retry_count,
            outcome,
            error,
            slot_id,
            started_at,
        } => if status == JobStatus::Running {
            phase_started_emissions(
                sink.router,
                phase_key,
                phase_name,
                attempt_of(retry_count),
                slot_id,
                match started_at {
                    Some(at) => at,
                    None => now,
                },
            )
        } else if status == JobStatus::Skipped {
            phase_skipped_emissions(
                sink.router,
                phase_key,
                phase_name,
                slot_id,
                error,
                match outcome {
                    Some(outcome) => outcome_word(outcome),
                    None => SKIP@,
                },
                now,
            )
        } else {
            Seq::empty()
        },
        ExecutionEventView::JobComplete {
            phase_key,
            phase_name,
            outcome,
            measurements,
            logs,
            started_at,
            completed_at,
            retry_count,
            error,
            slot_id,
            run_metadata,
            unit_metadata,
        } => phase_finished_emissions(
            sink.router,
            finished_phase(phase_key, phase_name, phase_of(event)),
        ),
        ExecutionEventView::Stats { start_time } => Seq::empty(),
        ExecutionEventView::Complete { run_outcome, run_id, end_time, slot_outcomes } => seq![
            EmissionView::Station(
                run_complete_event(
                    run_word(run_outcome),
                    execution_id,
                    run_id,
                    slot_words(slot_outcomes),
                ),
            ),
        ],
        ExecutionEventView::PlugStatus { plug_key, plug_name, status, stage, scope, slot_id } =>
            to_both(
            agent,
            StationEventView::PlugStatus {
                plug_key,
                plug_name,
                stage: plug_stage_word(stage),
                status: plug_status_word(status),
                scope: plug_scope_word(scope),
                slot_id,
                execution_id: Some(execution_id),
            },
            CliEventView::PlugStatus {
                plug_key,
                plug_name,
                status: plug_status_word(status),
                stage: plug_stage_word(stage),
                scope: plug_scope_word(scope),
                slot_id,
            },
        ),
        ExecutionEventView::PlugLog {
            plug_key,
            plug_name,
            level,
            message,
            slot_id,
            stage,
            timestamp,
            line,
        } => {
            let stage_text = match stage {
                Some(stage) => Some(plug_stage_word(stage)),
                None => None,
            };
            to_both(
                agent,
                StationEventView::PlugLog {
                    plug_key,
                    plug_name,
                    level,
                    message,
                    slot_id,
                    stage: stage_text,
                    timestamp,
                    line,
                    execution_id: Some(execution_id),
                },
                CliEventView::PlugLog {
                    plug_key,
                    plug_name,
                    level,
                    message,
                    slot_id,
                    stage: stage_text,
                    timestamp,
                    line,
                },
            )
        },
        ExecutionEventView::UiRequest(request) => prompt_emissions(sink, request, now),
        ExecutionEventView::UiUpdate { phase_key, slot_id, job_id, action, data } => seq![
            EmissionView::Station(
                StationEventView::UiUpdate {
                    phase_key,
                    action,
                    data: Some(json_text(data)),
                    job_id: Some(job_id),
                    slot_id: update_slot(slot_id),
                    execution_id: Some(execution_id),
                },
            ),
        ],
        ExecutionEventView::PhaseLogLine {
            phase_key,
            slot_id,
            level,
            message,
            timestamp,
            file,
            line,
        } => to_both(
            agent,
            StationEventView::PhaseLog {
                phase_key,
                attempt: 1,
                slot_id,
                level,
                message,
                timestamp: Some(timestamp),
                file,
                line,
                execution_id: Some(execution_id),
            },
            CliEventView::PhaseLog { phase_key, level, message, timestamp, slot_id, file, line },
        ),
        ExecutionEventView::MeasurementRecorded { phase_key, slot_id, name, value, unit } =>
            measurement_emissions(sink, phase_key, slot_id, name, value, unit),
        ExecutionEventView::AttachmentAdded { phase_key, slot_id, name, path, mimetype } =>
            attachment_emissions(sink, phase_key, slot_id, name, path, mimetype),
        ExecutionEventView::UnitIdentified { slot_id, unit_info } => identify_resolved_emissions(
            sink.router,
            slot_id,
            wire_unit(unit_info),
            now,
        ),
    }
}

/// Run data of an execution of which nothing is known yet.
pub open spec fn no_data() -> RunDataView {
    RunDataView {
        phases: Seq::empty(),
        run_outcome: None,
        slot_outcomes: Seq::empty(),
        run_id: None,
        start_time: None,
        end_time: None,
        units: Seq::empty(),
        run_metadata_sources: Seq::empty(),
        unit_metadata_sources: Seq::empty(),
        attachments: Seq::empty(),
    }
}

impl RunData {
    /// Run data of an execution of which nothing is known yet.
    pub fn new() -> (data: Self)
        ensures
            data.deep_view() == no_data(),
    {
        let data = RunData {
            phases: Vec::new(),
            run_outcome: None,
            slot_outcomes: Vec::new(),
            run_id: None,
            start_time: None,
            end_time: None,
            units: Vec::new(),
            run_metadata_sources: Vec::new(),
            unit_metadata_sources: Vec::new(),
            attachments: Vec::new(),
        };
        assert(data.phases.deep_view() =~= Seq::empty());
        assert(data.slot_outcomes.deep_view() =~= Seq::empty());
        assert(data.units.deep_view() =~= Seq::empty());
        assert(data.run_metadata_sources.deep_view() =~= Seq::empty());
        assert(data.unit_metadata_sources.deep_view() =~= Seq::empty());
        assert(data.attachments.deep_view() =~= Seq::empty());
        data
    }
}

impl CliEventSink {
    /// A run that is about to be submitted.
    pub fn new(
        terminal: bool,
        agent: bool,
        procedure_name: String,
        procedure_id: String,
        execution_id: String,
        deployment_id: Option<String>,
        only_phase: Option<String>,
        slots: Vec<String>,
        slot_names: Vec<KeyText>,
    ) -> (sink: Self)
        ensures
            sink.deep_view() == (CliEventSinkView {
                router: EventRouterView {
                    execution_id: execution_id@,
                    agent,
                    history: Seq::empty(),
                },
                terminal,
                procedure_name: procedure_name@,
                procedure_id: procedure_id@,
                deployment_id: deployment_id.deep_view(),
                only_phase: only_phase.deep_view(),
                slots: slots.deep_view(),
                slot_names: slot_names.deep_view(),
                data: no_data(),
                resolved_unit: None,
                resolved_units: Seq::empty(),
                agent_slot_outcomes: Seq::empty(),
                progressed: false,
            }),
    {
        let sink = CliEventSink {
            router: EventRouter::new(execution_id, agent),
            terminal,
            procedure_name,
            procedure_id,
            deployment_id,
            only_phase,
            slots,
            slot_names,
            data: RunData::new(),
            resolved_unit: None,
            resolved_units: Vec::new(),
            agent_slot_outcomes: Vec::new(),
            progressed: false,
        };
        assert(sink.resolved_units.deep_view() =~= Seq::empty());
        assert(sink.agent_slot_outcomes.deep_view() =~= Seq::empty());
        sink
    }

    fn on_plan(
        &self,
        phases: &Vec<PlannedPhase>,
        plugs_all: &Vec<PlannedPlug>,
        plugs_each: &Vec<PlannedPlug>,
        slots: Vec<String>,
        now: Instant,
    ) -> (out: Vec<Emission>)
        ensures
            out.deep_view() == plan_emissions(
                self.deep_view(),
                phases.deep_view(),
                plugs_all.deep_view(),
                plugs_each.deep_view(),
                slots.deep_view(),
                now,
            ),
    {
        station_and_agent(
            self.router.agent,
            StationEvent::RunStarted {
                procedure_id: self.procedure_id.dup(),
                procedure_name: self.procedure_name.dup(),
                execution_id: self.router.execution_id.dup(),
                phases: announce_phases(phases),
                slots,
                slot_names: self.slot_names.dup(),
                slot_units: self.resolved_units.dup(),
                plugs: announce_plugs(plugs_all, plugs_each),
                timestamp: Some(stamp(now)),
                run_id: None,
                deployment_id: self.deployment_id.dup(),
                unit: self.resolved_unit.dup(),
                only_phase: self.only_phase.dup(),
            },
            CliEvent::Plan { phases: payload_phases(phases) },
        )
    }

    fn on_complete_phase(
        &mut self,
        phase_key: String,
        phase: CompletedPhase,
        run_metadata: Vec<JsonField>,
        unit_metadata: Vec<JsonField>,
    ) -> (out: Vec<Emission>)
        ensures
            out.deep_view() == phase_finished_emissions(
                old(self).router.deep_view(),
                finished_phase(phase_key@, phase.name@, phase.deep_view()),
            ),
            final(self).deep_view() == (CliEventSinkView {
                router: EventRouterView {
                    history: if old(self).router.agent {
                        with_finished(
                            old(self).router.history.deep_view(),
                            phase_key@,
                            attempt_of(phase.retry_count),
                            phase.slot_id.deep_view(),
                            outcome_word(phase.outcome),
                        )
                    } else {
                        old(self).router.history.deep_view()
                    },
                    ..old(self).router.deep_view()
                },
                data: with_phase(
                    old(self).data.deep_view(),
                    phase_key@,
                    phase.deep_view(),
                    run_metadata.deep_view(),
                    unit_metadata.deep_view(),
                ),
                ..old(self).deep_view()
            }),
    {
        let error = match &phase.error {
            Some(error) => Some(error.dup()),
            None => synthesize_measurement_error(phase.outcome, &phase.measurements),
        };
        let finished = PhaseFinished {
            phase_key: phase_key.dup(),
            phase_name: phase.name.dup(),
            outcome: from_execution_outcome(phase.outcome).to_string(),
            attempt: attempt_number(phase.retry_count),
            slot_id: phase.slot_id.dup(),
            error,
            started_at: Some(phase.started_at.dup()),
            ended_at: Some(phase.completed_at.dup()),
            duration_ms: duration_from_iso_pair(
                phase.started_at.as_str(),
                phase.completed_at.as_str(),
            ),
            station_measurements: build_run_measurements(&phase.measurements),
            station_logs: live_logs(&phase.logs),
        };
        let out = self.router.phase_finished(finished);
        upsert_metadata_source(
            &mut self.data.run_metadata_sources,
            &phase.slot_id,
            phase_key.as_str(),
            run_metadata,
        );
        upsert_metadata_source(
            &mut self.data.unit_metadata_sources,
            &phase.slot_id,
            phase_key.as_str(),
            unit_metadata,
        );
        push(&mut self.data.phases, phase);
        out
    }

    fn on_complete(
        &mut self,
        run_outcome: Option<Outcome>,
        run_id: Option<String>,
        end_time: Option<Instant>,
        slot_outcomes: Vec<SlotOutcome>,
    ) -> (out: Vec<Emission>)
        ensures
            out.deep_view() == seq![
                EmissionView::Station(
                    run_complete_event(
                        run_word(run_outcome),
                        old(self).router.execution_id@,
                        run_id.deep_view(),
                        slot_words(slot_outcomes.deep_view()),
                    ),
                ),
            ],
            final(self).deep_view() == absorbed(
                old(self).deep_view(),
                (ExecutionEventView::Complete {
                    run_outcome,
                    run_id: run_id.deep_view(),
                    end_time,
                    slot_outcomes: slot_outcomes.deep_view(),
                }),
            ),
    {
        let words = words_of_slots(&slot_outcomes);
        let outcome = match run_outcome {
            Some(outcome) => from_execution_outcome(outcome),
            None => "UNKNOWN",
        };
        let event = run_complete(
            outcome,
            self.router.execution_id.as_str(),
            run_id.dup(),
            words.dup(),
        );
        if words.len() > 0 && self.router.agent {
            self.agent_slot_outcomes = words;
        }
        self.data.run_outcome = run_outcome;
        self.data.slot_outcomes = slot_outcomes;
        self.data.run_id = run_id;
        self.data.end_time = end_time;
        one(Emission::Station(event))
    }

    fn on_prompt(&self, request: UiRequestData, now: Instant) -> (out: Vec<Emission>)
        ensures
            out.deep_view() == prompt_emissions(self.deep_view(), request.deep_view(), now),
    {
        let mut out: Vec<Emission> = Vec::new();
        let station = StationEvent::UiRequest {
            request_id: request.request_id.dup(),
            phase_key: request.phase_key.dup(),
            slot_id: request.slot_id.dup(),
            components: Some(request.components.dup()),
            requires_input: request.requires_user_input,
            timestamp: Some(stamp(now)),
            execution_id: Some(self.router.execution_id.dup()),
        };
        let ghost view = request.deep_view();
        if self.terminal {
            out.push(Emission::Terminal(request));
            out.push(Emission::Station(station));
        } else if self.router.agent {
            out.push(Emission::Station(station));
            out.push(Emission::Prompt(request));
        } else {
            out.push(Emission::Station(station));
            if !request.requires_user_input {
                out.push(Emission::Continue(request.request_id));
            }
        }
        assert(out.deep_view() =~= prompt_emissions(self.deep_view(), view, now));
        out
    }

    fn on_update(
        &self,
        phase_key: String,
        slot_id: String,
        job_id: String,
        action: String,
        data: Json,
    ) -> (out: Vec<Emission>)
        ensures
            out.deep_view() == seq![
                EmissionView::Station(
                    StationEventView::UiUpdate {
                        phase_key: phase_key@,
                        action: action@,
                        data: Some(json_text(data.deep_view())),
                        job_id: Some(job_id@),
                        slot_id: update_slot(slot_id@),
                        execution_id: Some(self.router.execution_id@),
                    },
                ),
            ],
    {
        let rendered = data.render();
        let slot = if text::same(slot_id.as_str(), "") || text::same(slot_id.as_str(), "<shared>") {
            None
        } else {
            Some(slot_id)
        };
        self.router.ui_update(
            phase_key.as_str(),
            slot,
            Some(job_id),
            action.as_str(),
            Some(rendered),
        )
    }

    fn on_measurement(
        &self,
        phase_key: String,
        slot_id: Option<String>,
        name: String,
        value: Json,
        unit: Option<String>,
    ) -> (out: Vec<Emission>)
        ensures
            out.deep_view() == measurement_emissions(
                self.deep_view(),
                phase_key@,
                slot_id.deep_view(),
                name@,
                value.deep_view(),
                unit.deep_view(),
            ),
    {
        let mut out: Vec<Emission> = if self.router.agent {
            agent_measurement(&phase_key, &slot_id, &name, &value, &unit)
        } else {
            Vec::new()
        };
        assert(!self.router.agent ==> out.deep_view() =~= Seq::empty());
        let validators: Vec<ValidatorResult> = Vec::new();
        let aggregations: Vec<AggregationResult> = Vec::new();
        assert(validators.deep_view() =~= Seq::empty());
        assert(aggregations.deep_view() =~= Seq::empty());
        push(
            &mut out,
            Emission::Station(
                StationEvent::MeasurementUpdate {
                    phase_key,
                    attempt: 1,
                    slot_id,
                    measurement: RunMeasurement {
                        name,
                        outcome: "UNSET".to_string(),
                        measured_value: Some(value),
                        units: unit,
                        validators,
                        aggregations,
                    },
                    execution_id: Some(self.router.execution_id.dup()),
                },
            ),
        );
        assert(out.deep_view() =~= measurement_emissions(
            self.deep_view(),
            phase_key@,
            slot_id.deep_view(),
            name@,
            value.deep_view(),
            unit.deep_view(),
        ));
        out
    }

    fn on_attachment(
        &mut self,
        phase_key: String,
        slot_id: Option<String>,
        name: String,
        path: Option<String>,
        mimetype: Option<String>,
    ) -> (out: Vec<Emission>)
        ensures
            out.deep_view() == attachment_emissions(
                old(self).deep_view(),
                phase_key@,
                slot_id.deep_view(),
                name@,
                path.deep_view(),
                mimetype.deep_view(),
            ),
            final(self).deep_view() == (CliEventSinkView {
                data: with_attachment(
                    old(self).data.deep_view(),
                    phase_key@,
                    slot_id.deep_view(),
                    name@,
                    path.deep_view(),
                    mimetype.deep_view(),
                ),
                ..old(self).deep_view()
            }),
    {
        let mut out: Vec<Emission> = if self.router.agent {
            agent_attachment(&phase_key, &slot_id, &name, &path, &mimetype)
        } else {
            Vec::new()
        };
        assert(!self.router.agent ==> out.deep_view() =~= Seq::empty());
        push(
            &mut out,
            Emission::Station(
                StationEvent::AttachmentAdded {
                    phase_key: phase_key.dup(),
                    slot_id: slot_id.dup(),
                    name: name.dup(),
                    path: path.dup(),
                    mimetype: mimetype.dup(),
                    size_bytes: None,
                    execution_id: Some(self.router.execution_id.dup()),
                },
            ),
        );
        assert(out.deep_view() =~= attachment_emissions(
            old(self).deep_view(),
            phase_key@,
            slot_id.deep_view(),
            name@,
            path.deep_view(),
            mimetype.deep_view(),
        ));
        match path {
            Some(stored) => {
                let media = match mimetype {
                    Some(m) => m,
                    None => String::new(),
                };
                push(
                    &mut self.data.attachments,
                    SlotAttachment {
                        slot: slot_id,
                        attachment: QueuedAttachment {
                            name,
                            path: stored,
                            mimetype: media,
                            phase_key,
                        },
                    },
                );
            },
            None => {},
        }
        out
    }

    fn on_unit(&mut self, slot_id: Option<String>, unit_info: &EngineUnit, now: Instant) -> (out:
        Vec<Emission>)
        ensures
            out.deep_view() == identify_resolved_emissions(
                old(self).router.deep_view(),
                slot_id.deep_view(),
                wire_unit(unit_info.deep_view()),
                now,
            ),
            final(self).deep_view() == with_unit(
                old(self).deep_view(),
                slot_id.deep_view(),
                unit_info.deep_view(),
            ),
    {
        let wire = unit_info_to_wire(unit_info);
        match &slot_id {
            Some(slot) => {
                apply_unit_info_to_run_data(&mut self.data, slot.as_str(), unit_info);
                assoc::put(
                    &mut self.resolved_units,
                    KeyUnit { slot: slot.dup(), unit: wire.dup() },
                );
            },
            None => {
                apply_unit_info_to_slots(&mut self.data, &self.slots, unit_info);
            },
        }
        self.resolved_unit = Some(wire.dup());
        self.router.identify_resolved(slot_id, &wire, now)
    }

    /// Takes an event of the engine: gives what it sends out, and keeps what
    /// it leaves for the upload.
    pub fn emit(&mut self, event: ExecutionEvent, now: Instant) -> (out: Vec<Emission>)
        ensures
            out.deep_view() == emitted(old(self).deep_view(), event.deep_view(), now),
            final(self).deep_view() == advanced(old(self).deep_view(), event.deep_view()),
    {
        match event {
            ExecutionEvent::Plan { phases, plugs_all, plugs_each, slots } => {
                return self.on_plan(&phases, &plugs_all, &plugs_each, slots, now);
            },
            ExecutionEvent::UnitIdentified { slot_id, unit_info } => {
                return self.on_unit(slot_id, &unit_info, now);
            },
            _ => {},
        }
        self.progressed = true;
        match event {
            ExecutionEvent::JobProgress {
                phase_key,
                phase_name,
                status,
                retry_count,
                outcome,
                error,
                slot_id,
                started_at,
            } => match status {
                JobStatus::Running => self.router.phase_started(
                    phase_key.as_str(),
                    phase_name.as_str(),
                    attempt_number(retry_count),
                    slot_id,
                    started_at,
                    now,
                ),
                JobStatus::Skipped => {
                    let word = match outcome {
                        Some(outcome) => from_execution_outcome(outcome),
                        None => SKIP,
                    };
                    self.router.phase_skipped(
                        phase_key.as_str(),
                        phase_name.as_str(),
                        slot_id,
                        error,
                        word,
                        now,
                    )
                },
                _ => nothing(),
            },
            ExecutionEvent::JobComplete {
                phase_key,
                phase_name,
                outcome,
                measurements,
                logs,
                started_at,
                completed_at,
                retry_count,
                error,
                slot_id,
                run_metadata,
                unit_metadata,
            } => self.on_complete_phase(
                phase_key,
                CompletedPhase {
                    name: phase_name,
                    outcome,
                    started_at,
                    completed_at,
                    retry_count,
                    measurements,
                    logs,
                    error,
                    slot_id,
                },
                run_metadata,
                unit_metadata,
            ),
            ExecutionEvent::Stats { start_time } => {
                if self.data.start_time.is_none() {
                    self.data.start_time = start_time;
                }
                nothing()
            },
            ExecutionEvent::Complete { run_outcome, run_id, end_time, slot_outcomes } =>
                self.on_complete(run_outcome, run_id, end_time, slot_outcomes),
            ExecutionEvent::PlugStatus { plug_key, plug_name, status, stage, scope, slot_id } =>
                station_and_agent(
                self.router.agent,
                StationEvent::PlugStatus {
                    plug_key: plug_key.dup(),
                    plug_name: plug_name.dup(),
                    stage: plug_stage_str(stage).to_string(),
                    status: plug_status_str(status).to_string(),
                    scope: plug_scope_str(scope).to_string(),
                    slot_id: slot_id.dup(),
                    execution_id: Some(self.router.execution_id.dup()),
                },
                CliEvent::PlugStatus {
                    plug_key,
                    plug_name,
                    status: plug_status_str(status).to_string(),
                    stage: plug_stage_str(stage).to_string(),
                    scope: plug_scope_str(scope).to_string(),
                    slot_id,
                },
            ),
            ExecutionEvent::PlugLog {
                plug_key,
                plug_name,
                level,
                message,
                slot_id,
                stage,
                timestamp,
                line,
            } => {
                let stage_text = match stage {
                    Some(stage) => Some(plug_stage_str(stage).to_string()),
                    None => None,
                };
                station_and_agent(
                    self.router.agent,
                    StationEvent::PlugLog {
                        plug_key: plug_key.dup(),
                        plug_name: plug_name.dup(),
                        level: level.dup(),
                        message: message.dup(),
                        slot_id: slot_id.dup(),
                        stage: stage_text.dup(),
                        timestamp: timestamp.dup(),
                        line,
                        execution_id: Some(self.router.execution_id.dup()),
                    },
                    CliEvent::PlugLog {
                        plug_key,
                        plug_name,
                        level,
                        message,
                        slot_id,
                        stage: stage_text,
                        timestamp,
                        line,
                    },
                )
            },
            ExecutionEvent::UiRequest(request) => self.on_prompt(request, now),
            ExecutionEvent::UiUpdate { phase_key, slot_id, job_id, action, data } =>
                self.on_update(phase_key, slot_id, job_id, action, data),
            ExecutionEvent::PhaseLogLine {
                phase_key,
                slot_id,
                level,
                message,
                timestamp,
                file,
                line,
            } => station_and_agent(
                self.router.agent,
                StationEvent::PhaseLog {
                    phase_key: phase_key.dup(),
                    attempt: 1,
                    slot_id: slot_id.dup(),
                    level: level.dup(),
                    message: message.dup(),
                    timestamp: Some(timestamp.dup()),
                    file: file.dup(),
                    line,
                    execution_id: Some(self.router.execution_id.dup()),
                },
                CliEvent::PhaseLog { phase_key, level, message, timestamp, slot_id, file, line },
            ),
            ExecutionEvent::MeasurementRecorded { phase_key, slot_id, name, value, unit } =>
                self.on_measurement(phase_key, slot_id, name, value, unit),
            ExecutionEvent::AttachmentAdded { phase_key, slot_id, name, path, mimetype } =>
                self.on_attachment(phase_key, slot_id, name, path, mimetype),
            ExecutionEvent::Plan { .. } => nothing(),
            ExecutionEvent::UnitIdentified { .. } => nothing(),
        }
    }
}

// ---------------------------------------------------------------------------
// Laws
// ---------------------------------------------------------------------------

/// The run after a list of events, in order.
pub open spec fn advanced_all(sink: CliEventSinkView, events: Seq<ExecutionEventView>) -> CliEventSinkView
    decreases events.len(),
{
    if events.len() == 0 {
        sink
    } else {
        advanced(advanced_all(sink, events.drop_last()), events.last())
    }
}

/// Neither the identity of a run nor what it was set up with ever changes.
pub proof fn law_identity_is_kept(sink: CliEventSinkView, events: Seq<ExecutionEventView>)
    ensures
        ({
            let after = advanced_all(sink, events);
            &&& after.router.execution_id == sink.router.execution_id
            &&& after.router.agent == sink.router.agent
            &&& after.terminal == sink.terminal
            &&& after.procedure_id == sink.procedure_id
            &&& after.procedure_name == sink.procedure_name
            &&& after.deployment_id == sink.deployment_id
            &&& after.only_phase == sink.only_phase
            &&& after.slots == sink.slots
            &&& after.slot_names == sink.slot_names
        }),
    decreases events.len(),
{
    if events.len() > 0 {
        law_identity_is_kept(sink, events.drop_last());
    }
}

/// The engine shows a sign of life exactly where an event other than the plan
/// and the identified units has come.
pub proof fn law_progress(sink: CliEventSinkView, events: Seq<ExecutionEventView>)
    ensures
        advanced_all(sink, events).progressed <==> sink.progressed || exists|i: int|
            0 <= i < events.len() && is_progress(#[trigger] events[i]),
    decreases events.len(),
{
    if events.len() > 0 {
        let front = events.drop_last();
        law_progress(sink, front);
        if advanced_all(sink, front).progressed && !sink.progressed {
            let i = choose|i: int| 0 <= i < front.len() && is_progress(#[trigger] front[i]);
            assert(is_progress(events[i]));
        }
        if is_progress(events.last()) {
            assert(is_progress(events[events.len() - 1]));
        }
        if exists|i: int| 0 <= i < events.len() && is_progress(#[trigger] events[i]) {
            let i = choose|i: int| 0 <= i < events.len() && is_progress(#[trigger] events[i]);
            if i < front.len() {
                assert(is_progress(front[i]));
            }
        }
    }
}

/// The start time of the execution is the first that the engine reports.
pub proof fn law_first_start_time_wins(
    sink: CliEventSinkView,
    events: Seq<ExecutionEventView>,
    at: Instant,
)
    requires
        sink.data.start_time == Some(at),
    ensures
        advanced_all(sink, events).data.start_time == Some(at),
    decreases events.len(),
{
    if events.len() > 0 {
        law_first_start_time_wins(sink, events.drop_last(), at);
        let before = advanced_all(sink, events.drop_last());
        match events.last() {
            ExecutionEventView::UnitIdentified { slot_id, unit_info } => {
                lemma_unit_info_keeps_start(before.data, before.slots, unit_info);
            },
            _ => {},
        }
    }
}

proof fn lemma_unit_info_keeps_start(
    data: RunDataView,
    slots: Seq<Seq<char>>,
    info: EngineUnitView,
)
    ensures
        with_unit_info_all(data, slots, info).start_time == data.start_time,
        with_unit_info_all(data, slots, info).phases == data.phases,
        with_unit_info_all(data, slots, info).attachments == data.attachments,
    decreases slots.len(),
{
    if slots.len() > 0 {
        lemma_unit_info_keeps_start(data, slots.drop_last(), info);
    }
}

/// No completed phase and no attached file is ever lost: later events only
/// add.
pub proof fn law_nothing_is_lost(sink: CliEventSinkView, events: Seq<ExecutionEventView>)
    ensures
        sink.data.phases.is_prefix_of(advanced_all(sink, events).data.phases),
        sink.data.attachments.is_prefix_of(advanced_all(sink, events).data.attachments),
    decreases events.len(),
{
    if events.len() > 0 {
        law_nothing_is_lost(sink, events.drop_last());
        let before = advanced_all(sink, events.drop_last());
        match events.last() {
            ExecutionEventView::UnitIdentified { slot_id, unit_info } => {
                lemma_unit_info_keeps_start(before.data, before.slots, unit_info);
            },
            _ => {},
        }
    }
}

/// Whatever a phase records, what the agent learns of it stays within the
/// bounds of the live stream.
pub proof fn law_live_measurement_is_bounded(
    phase_key: Seq<char>,
    slot_id: Option<Seq<char>>,
    name: Seq<char>,
    value: JsonView,
    unit: Option<Seq<char>>,
)
    ensures
        measurement_for_agent(phase_key, slot_id, name, value, unit).last() matches EmissionView::Agent(
            CliEventView::MeasurementRecorded { name: shown, value: live, unit: shown_unit, .. },
        ) && utf8_size(shown) <= MAX_LABEL_BYTES && (shown_unit is Some ==> utf8_size(shown_unit->0)
            <= MAX_LABEL_BYTES) && (json_size(value) <= MAX_MEASUREMENT_VALUE_BYTES ==> live
            == value),
{
    crate::engine::caps::law_cap_string(name, MAX_LABEL_BYTES as nat);
    if unit is Some {
        crate::engine::caps::law_cap_string(unit->0, MAX_LABEL_BYTES as nat);
    }
}

} // verus!
