//! What each event of the engine tells the station and the agent, and what it
//! leaves for the upload.

use vstd::prelude::*;
use crate::agent_proto::events::CliEventView;
use crate::assoc;
use crate::assoc::lookup;
use crate::engine::caps::{capped_detail, capped_value, logged_name};
use crate::engine::measurement::measurement_error;
use crate::engine::measurement_laws::{law_measurements_are_shown, shows_measurement};
use crate::engine::metadata::upserted;
use crate::engine::model::{
    EngineUnitView, JobStatus, LogEntryView, MeasurementView, Outcome, PlannedPhaseView,
    PlannedPlugView, PlugScope, PlugStage, PlugStatusValue, RunDataView, SlotOutcomeView, SlotUnit,
    StageScope, UnitSnapshotView,
};
use crate::engine::sink::{advanced, emitted, CliEventSinkView, ExecutionEventView};
use crate::engine::unit::{unit_of, with_unit_info_all};
use crate::event_router::{stamp_text, EmissionView};
use crate::json::{json_size, json_text, JsonFieldView, JsonView};
use crate::outcomes::{law_outcomes_are_said, says_outcome};
use crate::protocol::{KeyUnit, PhaseLogLineView, StationEventView, UnitInfoView};
use crate::text::{lemma_fitting_prefix, utf8_size};
use crate::time::{rfc3339_millis, Instant};
use crate::ui::UiRequestDataView;

verus! {

/// The number of emissions where each event goes to the station, and to the
/// agent where there is one.
pub open spec fn one_each(agent: bool) -> int {
    if agent {
        2
    } else {
        1
    }
}

/// Whether a word says a stage of a procedure.
pub open spec fn says_stage(word: Seq<char>, stage: StageScope) -> bool {
    match stage {
        StageScope::SetupAll => word == "setup_all"@,
        StageScope::SetupEach => word == "setup_each"@,
        StageScope::Main => word == "main"@,
        StageScope::TeardownEach => word == "teardown_each"@,
        StageScope::TeardownAll => word == "teardown_all"@,
    }
}

/// Whether a word says a stage of a plug.
pub open spec fn says_plug_stage(word: Seq<char>, stage: PlugStage) -> bool {
    match stage {
        PlugStage::Setup => word == "setup"@,
        PlugStage::Teardown => word == "teardown"@,
        PlugStage::Manual => word == "manual"@,
    }
}

/// Whether a word says the state of a plug.
pub open spec fn says_plug_status(word: Seq<char>, status: PlugStatusValue) -> bool {
    match status {
        PlugStatusValue::Idle => word == "idle"@,
        PlugStatusValue::Initializing => word == "initializing"@,
        PlugStatusValue::Active => word == "active"@,
        PlugStatusValue::Destructing => word == "destructing"@,
        PlugStatusValue::Error => word == "error"@,
        PlugStatusValue::Skipped => word == "skipped"@,
    }
}

/// Whether a word says the scope of a plug.
pub open spec fn says_plug_scope(word: Seq<char>, scope: PlugScope) -> bool {
    match scope {
        PlugScope::Execution => word == "execution"@,
        PlugScope::Slot => word == "slot"@,
        PlugScope::Station => word == "station"@,
    }
}

/// A plan is announced as the start of the run: with its phases in order, its
/// plugs, its slots, and what is known of the units.
pub proof fn law_plans_are_announced(
    sink: CliEventSinkView,
    phases: Seq<PlannedPhaseView>,
    plugs_all: Seq<PlannedPlugView>,
    plugs_each: Seq<PlannedPlugView>,
    slots: Seq<Seq<char>>,
    now: Instant,
)
    ensures
        ({
            let out = emitted(
                sink,
                ExecutionEventView::Plan { phases, plugs_all, plugs_each, slots },
                now,
            );
            let plugs = plugs_all + plugs_each;
            &&& out.len() == one_each(sink.router.agent)
            &&& out[0] matches EmissionView::Station(
                StationEventView::RunStarted {
                    procedure_id,
                    procedure_name,
                    execution_id,
                    phases: told,
                    slots: told_slots,
                    slot_names,
                    slot_units,
                    plugs: told_plugs,
                    timestamp,
                    run_id,
                    deployment_id,
                    unit,
                    only_phase,
                },
            ) && {
                &&& procedure_id == sink.procedure_id
                &&& procedure_name == sink.procedure_name
                &&& execution_id == sink.router.execution_id
                &&& told.len() == phases.len()
                &&& forall|i: int|
                    0 <= i < phases.len() ==> (#[trigger] told[i]).key == phases[i].phase_key
                        && told[i].name == phases[i].phase_name && says_stage(
                        told[i].stage,
                        phases[i].stage_scope,
                    )
                &&& told_slots == slots
                &&& slot_names == sink.slot_names
                &&& slot_units == sink.resolved_units
                &&& told_plugs.len() == plugs.len()
                &&& forall|i: int|
                    0 <= i < plugs.len() ==> (#[trigger] told_plugs[i]).key == plugs[i].plug_key
                        && told_plugs[i].name == plugs[i].plug_name && told_plugs[i].scope
                        == plugs[i].scope
                &&& timestamp == Some(stamp_text(now))
                &&& run_id is None
                &&& deployment_id == sink.deployment_id
                &&& unit == sink.resolved_unit
                &&& only_phase == sink.only_phase
            }
            &&& sink.router.agent ==> (out[1] matches EmissionView::Agent(
                CliEventView::Plan { phases: told },
            ) && told.len() == phases.len() && forall|i: int|
                0 <= i < phases.len() ==> (#[trigger] told[i]).key == phases[i].phase_key
                    && told[i].name == phases[i].phase_name)
        }),
{
}

/// The start of an attempt is announced: the first attempt of a phase, and one
/// more for each retry, from the time it started.
pub proof fn law_starts_are_announced(
    sink: CliEventSinkView,
    phase_key: Seq<char>,
    phase_name: Seq<char>,
    retry_count: u64,
    outcome: Option<Outcome>,
    error: Option<Seq<char>>,
    slot_id: Option<Seq<char>>,
    started_at: Option<Instant>,
    now: Instant,
)
    requires
        retry_count < u32::MAX,
    ensures
        ({
            let event = ExecutionEventView::JobProgress {
                phase_key,
                phase_name,
                status: JobStatus::Running,
                retry_count,
                outcome,
                error,
                slot_id,
                started_at,
            };
            let out = emitted(sink, event, now);
            let after = advanced(sink, event);
            let at = if started_at is Some {
                started_at->0
            } else {
                now
            };
            &&& out.len() == one_each(sink.router.agent)
            &&& out[0] matches EmissionView::Station(
                StationEventView::PhaseStarted {
                    phase_key: key,
                    name,
                    slot_id: slot,
                    attempt,
                    stage,
                    timestamp,
                    execution_id,
                },
            ) && key == phase_key && name == phase_name && slot == slot_id && attempt == retry_count
                + 1 && stage is None && timestamp == Some(stamp_text(at)) && execution_id == Some(
                sink.router.execution_id,
            )
            &&& sink.router.agent ==> (out[1] matches EmissionView::Agent(
                CliEventView::PhaseStarted { phase_key: key, attempt, slot_id: slot, started_at: told },
            ) && key == phase_key && attempt == retry_count + 1 && slot == slot_id && told
                == stamp_text(at))
            &&& sink.router.agent ==> {
                let n = sink.router.history.len() as int;
                &&& after.router.history.len() == n + 1
                &&& after.router.history.take(n) == sink.router.history
                &&& after.router.history[n].phase_key == phase_key
                &&& after.router.history[n].status == "started"@
                &&& after.router.history[n].attempt == retry_count + 1
                &&& after.router.history[n].slot_id == slot_id
                &&& after.router.history[n].outcome is None
            }
            &&& !sink.router.agent ==> after.router == sink.router
            &&& after.data == sink.data
        }),
{
    let event = ExecutionEventView::JobProgress {
        phase_key,
        phase_name,
        status: JobStatus::Running,
        retry_count,
        outcome,
        error,
        slot_id,
        started_at,
    };
    let after = advanced(sink, event);
    if sink.router.agent {
        assert(after.router.history.take(sink.router.history.len() as int) =~= sink.router.history);
    }
}

/// A phase that never ran starts and ends for the station, and is skipped for
/// the agent.
pub proof fn law_skips_are_announced(
    sink: CliEventSinkView,
    phase_key: Seq<char>,
    phase_name: Seq<char>,
    retry_count: u64,
    outcome: Option<Outcome>,
    error: Option<Seq<char>>,
    slot_id: Option<Seq<char>>,
    started_at: Option<Instant>,
    now: Instant,
)
    ensures
        ({
            let event = ExecutionEventView::JobProgress {
                phase_key,
                phase_name,
                status: JobStatus::Skipped,
                retry_count,
                outcome,
                error,
                slot_id,
                started_at,
            };
            let out = emitted(sink, event, now);
            let after = advanced(sink, event);
            &&& out.len() == 1 + one_each(sink.router.agent)
            &&& out[0] matches EmissionView::Station(
                StationEventView::PhaseStarted {
                    phase_key: key,
                    name,
                    slot_id: slot,
                    attempt,
                    stage,
                    timestamp,
                    execution_id,
                },
            ) && key == phase_key && name == phase_name && slot == slot_id && attempt == 1 && stage
                is None && timestamp == Some(stamp_text(now)) && execution_id == Some(
                sink.router.execution_id,
            )
            &&& out[1] matches EmissionView::Station(
                StationEventView::PhaseComplete {
                    phase_key: key,
                    name,
                    outcome: word,
                    measurements,
                    slot_id: slot,
                    attempt,
                    started_at: from,
                    ended_at,
                    duration_ms,
                    error: told,
                    logs,
                    execution_id,
                },
            ) && {
                &&& key == phase_key
                &&& name == phase_name
                &&& outcome is None ==> word == "SKIP"@
                &&& outcome is Some ==> says_outcome(word, outcome->0)
                &&& measurements.len() == 0
                &&& slot == slot_id
                &&& attempt == 1
                &&& from is None
                &&& ended_at is None
                &&& duration_ms is None
                &&& told == error
                &&& logs.len() == 0
                &&& execution_id == Some(sink.router.execution_id)
            }
            &&& sink.router.agent ==> out[2] == EmissionView::Agent(
                CliEventView::PhaseSkipped { phase_key, slot_id, reason: error },
            )
            &&& sink.router.agent ==> {
                let n = sink.router.history.len() as int;
                &&& after.router.history.len() == n + 1
                &&& after.router.history.take(n) == sink.router.history
                &&& after.router.history[n].phase_key == phase_key
                &&& after.router.history[n].status == "skipped"@
                &&& after.router.history[n].attempt == 1
                &&& after.router.history[n].slot_id == slot_id
                &&& after.router.history[n].outcome == Some("SKIP"@)
            }
            &&& !sink.router.agent ==> after.router == sink.router
            &&& after.data == sink.data
        }),
{
    let event = ExecutionEventView::JobProgress {
        phase_key,
        phase_name,
        status: JobStatus::Skipped,
        retry_count,
        outcome,
        error,
        slot_id,
        started_at,
    };
    if let Some(o) = outcome {
        law_outcomes_are_said(o);
    }
    let after = advanced(sink, event);
    if sink.router.agent {
        assert(after.router.history.take(sink.router.history.len() as int) =~= sink.router.history);
    }
}

/// Any other progress of a phase is not told, and leaves nothing.
pub proof fn law_other_progress_is_not_told(
    sink: CliEventSinkView,
    event: ExecutionEventView,
    now: Instant,
)
    requires
        event is JobProgress,
        event->JobProgress_status != JobStatus::Running,
        event->JobProgress_status != JobStatus::Skipped,
    ensures
        emitted(sink, event, now).len() == 0,
        advanced(sink, event) == (CliEventSinkView { progressed: true, ..sink }),
{
}

/// Whether a duration is the whole milliseconds between two times, where they
/// can be read and the second is not the first.
pub open spec fn is_duration(told: Option<u64>, start: Seq<char>, end: Seq<char>) -> bool {
    match rfc3339_millis(start, end) {
        Some(ms) => if ms >= 0 {
            told is Some && told->0 == ms
        } else {
            told is None
        },
        None => told is None,
    }
}

/// The end of a phase is announced with its outcome, its attempt, its error,
/// its times, its measurements and its log lines.
pub proof fn law_ends_are_announced(
    sink: CliEventSinkView,
    phase_key: Seq<char>,
    phase_name: Seq<char>,
    outcome: Outcome,
    measurements: Seq<MeasurementView>,
    logs: Seq<LogEntryView>,
    started_at: Seq<char>,
    completed_at: Seq<char>,
    retry_count: u64,
    error: Option<Seq<char>>,
    slot_id: Option<Seq<char>>,
    run_metadata: Seq<JsonFieldView>,
    unit_metadata: Seq<JsonFieldView>,
    now: Instant,
)
    requires
        retry_count < u32::MAX,
    ensures
        ({
            let out = emitted(
                sink,
                ExecutionEventView::JobComplete {
                    phase_key,
                    phase_name,
                    outcome,
                    measurements,
                    logs,
                    started_at,
                    completed_at,
                    retry_count,
                    error,
                    slot_id,
                    run_metadata,
                    unit_metadata,
                },
                now,
            );
            let reason = if error is Some {
                error
            } else {
                measurement_error(outcome, measurements)
            };
            &&& out.len() == one_each(sink.router.agent)
            &&& out[0] matches EmissionView::Station(
                StationEventView::PhaseComplete {
                    phase_key: key,
                    name,
                    outcome: word,
                    measurements: shown,
                    slot_id: slot,
                    attempt,
                    started_at: from,
                    ended_at,
                    duration_ms,
                    error: told,
                    logs: lines,
                    execution_id,
                },
            ) && {
                &&& key == phase_key
                &&& name == phase_name
                &&& says_outcome(word, outcome)
                &&& shown.len() == measurements.len()
                &&& forall|i: int|
                    0 <= i < measurements.len() ==> shows_measurement(
                        #[trigger] shown[i],
                        measurements[i],
                    )
                &&& slot == slot_id
                &&& attempt == retry_count + 1
                &&& from == Some(started_at)
                &&& ended_at == Some(completed_at)
                &&& rfc3339_millis(started_at, completed_at) matches Some(ms) ==> (0 <= ms
                    <= u32::MAX ==> duration_ms is Some && duration_ms->0 == ms) && (ms > u32::MAX
                    ==> duration_ms == Some(u32::MAX)) && (ms < 0 ==> duration_ms is None)
                &&& rfc3339_millis(started_at, completed_at) is None ==> duration_ms is None
                &&& told == reason
                &&& lines.len() == logs.len()
                &&& forall|i: int|
                    0 <= i < logs.len() ==> #[trigger] lines[i] == (PhaseLogLineView {
                        level: logs[i].level,
                        message: logs[i].message,
                        timestamp: Some(logs[i].timestamp),
                        file: logs[i].file,
                        line: logs[i].line,
                    })
                &&& execution_id == Some(sink.router.execution_id)
            }
            &&& sink.router.agent ==> (out[1] matches EmissionView::Agent(
                CliEventView::PhaseFinished {
                    phase_key: key,
                    outcome: word,
                    attempt,
                    slot_id: slot,
                    error: told,
                    started_at: from,
                    ended_at,
                    duration_ms,
                },
            ) && key == phase_key && says_outcome(word, outcome) && attempt == retry_count + 1
                && slot == slot_id && told == reason && from == Some(started_at) && ended_at
                == Some(completed_at) && is_duration(duration_ms, started_at, completed_at))
        }),
{
    law_outcomes_are_said(outcome);
    assert forall|i: int| 0 <= i < measurements.len() implies shows_measurement(
        #[trigger] crate::engine::measurement::live_measurements(measurements)[i],
        measurements[i],
    ) by {
        law_measurements_are_shown(measurements[i]);
    }
}

/// A phase that ended is kept for the upload as it was, and its metadata
/// replaces what its slot and key had.
pub proof fn law_ended_phases_are_kept(
    sink: CliEventSinkView,
    phase_key: Seq<char>,
    phase_name: Seq<char>,
    outcome: Outcome,
    measurements: Seq<MeasurementView>,
    logs: Seq<LogEntryView>,
    started_at: Seq<char>,
    completed_at: Seq<char>,
    retry_count: u64,
    error: Option<Seq<char>>,
    slot_id: Option<Seq<char>>,
    run_metadata: Seq<JsonFieldView>,
    unit_metadata: Seq<JsonFieldView>,
)
    ensures
        ({
            let after = advanced(
                sink,
                ExecutionEventView::JobComplete {
                    phase_key,
                    phase_name,
                    outcome,
                    measurements,
                    logs,
                    started_at,
                    completed_at,
                    retry_count,
                    error,
                    slot_id,
                    run_metadata,
                    unit_metadata,
                },
            );
            let n = sink.data.phases.len() as int;
            &&& after.data.phases.len() == n + 1
            &&& after.data.phases.take(n) == sink.data.phases
            &&& after.data.phases[n].name == phase_name
            &&& after.data.phases[n].outcome == outcome
            &&& after.data.phases[n].started_at == started_at
            &&& after.data.phases[n].completed_at == completed_at
            &&& after.data.phases[n].retry_count == retry_count
            &&& after.data.phases[n].measurements == measurements
            &&& after.data.phases[n].logs == logs
            &&& after.data.phases[n].error == error
            &&& after.data.phases[n].slot_id == slot_id
            &&& after.data.run_metadata_sources == upserted(
                sink.data.run_metadata_sources,
                slot_id,
                phase_key,
                run_metadata,
            )
            &&& after.data.unit_metadata_sources == upserted(
                sink.data.unit_metadata_sources,
                slot_id,
                phase_key,
                unit_metadata,
            )
            &&& after.data.attachments == sink.data.attachments
            &&& after.data.units == sink.data.units
            &&& after.data.run_outcome == sink.data.run_outcome
            &&& after.data.start_time == sink.data.start_time
            &&& after.data.end_time == sink.data.end_time
        }),
{
    let after = advanced(
        sink,
        ExecutionEventView::JobComplete {
            phase_key,
            phase_name,
            outcome,
            measurements,
            logs,
            started_at,
            completed_at,
            retry_count,
            error,
            slot_id,
            run_metadata,
            unit_metadata,
        },
    );
    assert(after.data.phases.take(sink.data.phases.len() as int) =~= sink.data.phases);
}

/// The end of a run is announced with its outcome, unknown where there is
/// none, and with those of its slots where there is more than one; it is
/// kept for the upload.
pub proof fn law_the_end_is_announced(
    sink: CliEventSinkView,
    run_outcome: Option<Outcome>,
    run_id: Option<Seq<char>>,
    end_time: Option<Instant>,
    slot_outcomes: Seq<SlotOutcomeView>,
    now: Instant,
)
    ensures
        ({
            let event = ExecutionEventView::Complete {
                run_outcome,
                run_id,
                end_time,
                slot_outcomes,
            };
            let out = emitted(sink, event, now);
            let after = advanced(sink, event);
            &&& out.len() == 1
            &&& out[0] matches EmissionView::Station(
                StationEventView::RunComplete {
                    outcome,
                    run_id: told,
                    execution_id,
                    slot_outcomes: words,
                },
            ) && {
                &&& run_outcome is None ==> outcome == "UNKNOWN"@
                &&& run_outcome is Some ==> says_outcome(outcome, run_outcome->0)
                &&& told == run_id
                &&& execution_id == Some(sink.router.execution_id)
                &&& slot_outcomes.len() <= 1 ==> words.len() == 0
                &&& slot_outcomes.len() > 1 ==> words.len() == slot_outcomes.len() && forall|i: int|
                    0 <= i < words.len() ==> (#[trigger] words[i]).key == slot_outcomes[i].slot
                        && says_outcome(words[i].text, slot_outcomes[i].outcome)
                &&& sink.router.agent && slot_outcomes.len() > 1 ==> after.agent_slot_outcomes
                    == words
                &&& !sink.router.agent || slot_outcomes.len() <= 1 ==> after.agent_slot_outcomes
                    == sink.agent_slot_outcomes
            }
            &&& after.data == (RunDataView {
                run_outcome,
                run_id,
                end_time,
                slot_outcomes,
                ..sink.data
            })
        }),
{
    if let Some(o) = run_outcome {
        law_outcomes_are_said(o);
    }
    assert forall|i: int| 0 <= i < slot_outcomes.len() implies says_outcome(
        crate::outcomes::outcome_word((#[trigger] slot_outcomes[i]).outcome),
        slot_outcomes[i].outcome,
    ) by {
        law_outcomes_are_said(slot_outcomes[i].outcome);
    }
}

/// The state of a plug is told in words.
pub proof fn law_plug_states_are_told(
    sink: CliEventSinkView,
    plug_key: Seq<char>,
    plug_name: Seq<char>,
    status: PlugStatusValue,
    stage: PlugStage,
    scope: PlugScope,
    slot_id: Option<Seq<char>>,
    now: Instant,
)
    ensures
        ({
            let out = emitted(
                sink,
                ExecutionEventView::PlugStatus {
                    plug_key,
                    plug_name,
                    status,
                    stage,
                    scope,
                    slot_id,
                },
                now,
            );
            &&& out.len() == one_each(sink.router.agent)
            &&& out[0] matches EmissionView::Station(
                StationEventView::PlugStatus {
                    plug_key: key,
                    plug_name: name,
                    stage: in_stage,
                    status: state,
                    scope: of_scope,
                    slot_id: slot,
                    execution_id,
                },
            ) && key == plug_key && name == plug_name && says_plug_stage(in_stage, stage)
                && says_plug_status(state, status) && says_plug_scope(of_scope, scope) && slot
                == slot_id && execution_id == Some(sink.router.execution_id)
            &&& sink.router.agent ==> (out[1] matches EmissionView::Agent(
                CliEventView::PlugStatus {
                    plug_key: key,
                    plug_name: name,
                    status: state,
                    stage: in_stage,
                    scope: of_scope,
                    slot_id: slot,
                },
            ) && key == plug_key && name == plug_name && says_plug_stage(in_stage, stage)
                && says_plug_status(state, status) && says_plug_scope(of_scope, scope) && slot
                == slot_id)
        }),
{
}

/// A log line of a plug is told as it is.
pub proof fn law_plug_logs_are_told(
    sink: CliEventSinkView,
    plug_key: Seq<char>,
    plug_name: Seq<char>,
    level: Seq<char>,
    message: Seq<char>,
    slot_id: Option<Seq<char>>,
    stage: Option<PlugStage>,
    timestamp: Option<Seq<char>>,
    line: Option<u32>,
    now: Instant,
)
    ensures
        ({
            let out = emitted(
                sink,
                ExecutionEventView::PlugLog {
                    plug_key,
                    plug_name,
                    level,
                    message,
                    slot_id,
                    stage,
                    timestamp,
                    line,
                },
                now,
            );
            &&& out.len() == one_each(sink.router.agent)
            &&& out[0] matches EmissionView::Station(
                StationEventView::PlugLog {
                    plug_key: key,
                    plug_name: name,
                    level: of_level,
                    message: text,
                    slot_id: slot,
                    stage: in_stage,
                    timestamp: at,
                    line: no,
                    execution_id,
                },
            ) && key == plug_key && name == plug_name && of_level == level && text == message && slot
                == slot_id && (stage is None <==> in_stage is None) && (stage is Some
                ==> says_plug_stage(in_stage->0, stage->0)) && at == timestamp && no == line
                && execution_id == Some(sink.router.execution_id)
            &&& sink.router.agent ==> (out[1] matches EmissionView::Agent(
                CliEventView::PlugLog {
                    plug_key: key,
                    plug_name: name,
                    level: of_level,
                    message: text,
                    slot_id: slot,
                    stage: in_stage,
                    timestamp: at,
                    line: no,
                },
            ) && key == plug_key && name == plug_name && of_level == level && text == message && slot
                == slot_id && (stage is None <==> in_stage is None) && (stage is Some
                ==> says_plug_stage(in_stage->0, stage->0)) && at == timestamp && no == line)
        }),
{
}

/// A log line of a phase is told as it is.
pub proof fn law_phase_logs_are_told(
    sink: CliEventSinkView,
    phase_key: Seq<char>,
    slot_id: Option<Seq<char>>,
    level: Seq<char>,
    message: Seq<char>,
    timestamp: Seq<char>,
    file: Option<Seq<char>>,
    line: Option<u32>,
    now: Instant,
)
    ensures
        ({
            let out = emitted(
                sink,
                ExecutionEventView::PhaseLogLine {
                    phase_key,
                    slot_id,
                    level,
                    message,
                    timestamp,
                    file,
                    line,
                },
                now,
            );
            &&& out.len() == one_each(sink.router.agent)
            &&& out[0] matches EmissionView::Station(
                StationEventView::PhaseLog {
                    phase_key: key,
                    attempt,
                    slot_id: slot,
                    level: of_level,
                    message: text,
                    timestamp: at,
                    file: in_file,
                    line: no,
                    execution_id,
                },
            ) && key == phase_key && attempt == 1 && slot == slot_id && of_level == level && text
                == message && at == Some(timestamp) && in_file == file && no == line
                && execution_id == Some(sink.router.execution_id)
            &&& sink.router.agent ==> out[1] == EmissionView::Agent(
                CliEventView::PhaseLog {
                    phase_key,
                    level,
                    message,
                    timestamp,
                    slot_id,
                    file,
                    line,
                },
            )
        }),
{
}

/// A prompt goes to the terminal form where there is one, always to the
/// station, and to the agent where it drives the run. Where nobody is asked,
/// a prompt that waits for nobody is answered at once.
pub proof fn law_prompts_are_put(sink: CliEventSinkView, request: UiRequestDataView, now: Instant)
    ensures
        ({
            let out = emitted(sink, ExecutionEventView::UiRequest(request), now);
            let at = if sink.terminal {
                1int
            } else {
                0
            };
            &&& out[at] matches EmissionView::Station(
                StationEventView::UiRequest {
                    request_id,
                    phase_key,
                    slot_id,
                    components,
                    requires_input,
                    timestamp,
                    execution_id,
                },
            ) && request_id == request.request_id && phase_key == request.phase_key && slot_id
                == request.slot_id && components == Some(request.components) && requires_input
                == request.requires_user_input && timestamp == Some(stamp_text(now))
                && execution_id == Some(sink.router.execution_id)
            &&& sink.terminal ==> out.len() == 2 && out[0] == EmissionView::Terminal(request)
            &&& !sink.terminal && sink.router.agent ==> out.len() == 2 && out[1]
                == EmissionView::Prompt(request)
            &&& !sink.terminal && !sink.router.agent && request.requires_user_input ==> out.len()
                == 1
            &&& !sink.terminal && !sink.router.agent && !request.requires_user_input ==> out.len()
                == 2 && out[1] == EmissionView::Continue(request.request_id)
        }),
{
}

/// An update of a prompt is told with its data as JSON text; it belongs to no
/// slot where its slot is empty or shared.
pub proof fn law_prompt_updates_are_told(
    sink: CliEventSinkView,
    phase_key: Seq<char>,
    slot_id: Seq<char>,
    job_id: Seq<char>,
    action: Seq<char>,
    data: JsonView,
    now: Instant,
)
    ensures
        ({
            let out = emitted(
                sink,
                ExecutionEventView::UiUpdate { phase_key, slot_id, job_id, action, data },
                now,
            );
            &&& out.len() == 1
            &&& out[0] matches EmissionView::Station(
                StationEventView::UiUpdate {
                    phase_key: key,
                    action: what,
                    data: text,
                    job_id: job,
                    slot_id: slot,
                    execution_id,
                },
            ) && key == phase_key && what == action && text == Some(json_text(data)) && job == Some(
                job_id,
            ) && execution_id == Some(sink.router.execution_id) && (slot is None
                <==> slot_id.len() == 0 || slot_id == "<shared>"@) && (slot is Some ==> slot->0
                == slot_id)
        }),
{
    reveal_strlit("");
    if slot_id.len() == 0 {
        assert(slot_id =~= ""@);
    }
}

/// Whether a text is another within some bytes: itself where it fits, and as
/// much of its beginning as fits where it does not.
pub open spec fn is_within(short: Seq<char>, text: Seq<char>, max: nat) -> bool {
    &&& short.is_prefix_of(text)
    &&& utf8_size(short) <= max
    &&& short.len() < text.len() ==> utf8_size(text.take(short.len() as int + 1)) > max
}

/// Whether an optional text is another within some bytes.
pub open spec fn is_option_within(
    short: Option<Seq<char>>,
    text: Option<Seq<char>>,
    max: nat,
) -> bool {
    &&& short is Some <==> text is Some
    &&& text is Some ==> is_within(short->0, text->0, max)
}

/// A recorded value is told to the station as it is, and to the agent within
/// the bounds of its stream, with a warning before it where a part was cut.
pub proof fn law_recorded_values_are_told(
    sink: CliEventSinkView,
    phase_key: Seq<char>,
    slot_id: Option<Seq<char>>,
    name: Seq<char>,
    value: JsonView,
    unit: Option<Seq<char>>,
    now: Instant,
)
    ensures
        ({
            let out = emitted(
                sink,
                ExecutionEventView::MeasurementRecorded { phase_key, slot_id, name, value, unit },
                now,
            );
            let cut = utf8_size(name) > 1024 || (unit is Some && utf8_size(unit->0) > 1024)
                || json_size(value) > 1_000_000;
            &&& out.last() matches EmissionView::Station(
                StationEventView::MeasurementUpdate {
                    phase_key: key,
                    attempt,
                    slot_id: slot,
                    measurement,
                    execution_id,
                },
            ) && key == phase_key && attempt == 1 && slot == slot_id && measurement.name == name
                && measurement.outcome == "UNSET"@ && measurement.measured_value == Some(value)
                && measurement.units == unit && measurement.validators.len() == 0
                && measurement.aggregations.len() == 0 && execution_id == Some(
                sink.router.execution_id,
            )
            &&& !sink.router.agent ==> out.len() == 1
            &&& sink.router.agent && !cut ==> out.len() == 2
            &&& sink.router.agent && cut ==> out.len() == 3
            &&& sink.router.agent ==> (out[out.len() - 2] matches EmissionView::Agent(
                CliEventView::MeasurementRecorded {
                    phase_key: key,
                    name: short,
                    value: live,
                    outcome,
                    unit: short_unit,
                    slot_id: slot,
                },
            ) && key == phase_key && is_within(short, name, 1024) && (json_size(value) <= 1_000_000
                ==> live == value) && (json_size(value) > 1_000_000 ==> live == capped_value(value)
                && live is Object) && outcome == "unset"@ && is_option_within(
                short_unit,
                unit,
                1024,
            ) && slot == slot_id)
            &&& sink.router.agent && cut ==> (out[0] matches EmissionView::Agent(
                CliEventView::InternalWarning { kind, message, detail },
            ) && kind == "measurement_truncated"@ && message == "measurement '"@ + logged_name(name)
                + "' exceeded payload caps; full record in phase_finished"@ && exists|
                fields: Seq<JsonFieldView>,
            |
                detail == Some(#[trigger] capped_detail(JsonView::Object(fields))) && fields.len()
                    == 5 && fields[0].key == "phase_key"@ && (fields[0].value matches JsonView::Text(
                    short,
                ) && is_within(short, phase_key, 1024)) && fields[1].key == "slot_id"@
                    && fields[2].key == "name_truncated"@ && fields[2].value == JsonView::Bool(
                    utf8_size(name) > 1024,
                ) && fields[3].key == "unit_truncated"@ && fields[3].value == JsonView::Bool(
                    unit is Some && utf8_size(unit->0) > 1024,
                ) && fields[4].key == "value_truncated"@ && fields[4].value == JsonView::Bool(
                    json_size(value) > 1_000_000,
                ))
        }),
{
    lemma_fitting_prefix(name, 1024);
    lemma_fitting_prefix(phase_key, 1024);
    if unit is Some {
        lemma_fitting_prefix(unit->0, 1024);
    }
}

/// An attached file is told to the station as it is, and to the agent within
/// the bounds of its stream; one that has a path is kept for the upload.
pub proof fn law_attached_files_are_told(
    sink: CliEventSinkView,
    phase_key: Seq<char>,
    slot_id: Option<Seq<char>>,
    name: Seq<char>,
    path: Option<Seq<char>>,
    mimetype: Option<Seq<char>>,
    now: Instant,
)
    ensures
        ({
            let event = ExecutionEventView::AttachmentAdded {
                phase_key,
                slot_id,
                name,
                path,
                mimetype,
            };
            let out = emitted(sink, event, now);
            let after = advanced(sink, event);
            let n = sink.data.attachments.len() as int;
            let cut = utf8_size(name) > 1024 || (path is Some && utf8_size(path->0) > 4096) || (
            mimetype is Some && utf8_size(mimetype->0) > 1024);
            &&& out.last() matches EmissionView::Station(
                StationEventView::AttachmentAdded {
                    phase_key: key,
                    slot_id: slot,
                    name: told,
                    path: at,
                    mimetype: mime,
                    size_bytes,
                    execution_id,
                },
            ) && key == phase_key && slot == slot_id && told == name && at == path && mime
                == mimetype && size_bytes is None && execution_id == Some(sink.router.execution_id)
            &&& !sink.router.agent ==> out.len() == 1
            &&& sink.router.agent && !cut ==> out.len() == 2
            &&& sink.router.agent && cut ==> out.len() == 3
            &&& sink.router.agent ==> (out[out.len() - 2] matches EmissionView::Agent(
                CliEventView::AttachmentAdded {
                    phase_key: key,
                    name: short,
                    path: at,
                    mimetype: mime,
                    slot_id: slot,
                },
            ) && key == phase_key && is_within(short, name, 1024) && is_option_within(
                at,
                path,
                4096,
            ) && is_option_within(mime, mimetype, 1024) && slot == slot_id)
            &&& sink.router.agent && cut ==> (out[0] matches EmissionView::Agent(
                CliEventView::InternalWarning { kind, message, detail },
            ) && kind == "attachment_truncated"@ && message == "attachment '"@ + logged_name(name)
                + "' exceeded payload caps"@ && exists|fields: Seq<JsonFieldView>|
                detail == Some(#[trigger] capped_detail(JsonView::Object(fields))) && fields.len()
                    == 4 && fields[0].key == "phase_key"@ && (fields[0].value matches JsonView::Text(
                    short,
                ) && is_within(short, phase_key, 1024)) && fields[1].key == "name_truncated"@
                    && fields[1].value == JsonView::Bool(utf8_size(name) > 1024) && fields[2].key
                    == "path_truncated"@ && fields[2].value == JsonView::Bool(
                    path is Some && utf8_size(path->0) > 4096,
                ) && fields[3].key == "mimetype_truncated"@ && fields[3].value == JsonView::Bool(
                    mimetype is Some && utf8_size(mimetype->0) > 1024,
                ))
            &&& path is None ==> after.data == sink.data
            &&& path is Some ==> {
                &&& after.data.attachments.len() == n + 1
                &&& after.data.attachments.take(n) == sink.data.attachments
                &&& after.data.attachments[n].slot == slot_id
                &&& after.data.attachments[n].attachment.name == name
                &&& after.data.attachments[n].attachment.path == path->0
                &&& after.data.attachments[n].attachment.phase_key == phase_key
                &&& mimetype is Some ==> after.data.attachments[n].attachment.mimetype
                    == mimetype->0
                &&& mimetype is None ==> after.data.attachments[n].attachment.mimetype.len() == 0
                &&& after.data == (RunDataView {
                    attachments: after.data.attachments,
                    ..sink.data
                })
            }
        }),
{
    lemma_fitting_prefix(name, 1024);
    lemma_fitting_prefix(phase_key, 1024);
    if path is Some {
        lemma_fitting_prefix(path->0, 4096);
        let event = ExecutionEventView::AttachmentAdded {
            phase_key,
            slot_id,
            name,
            path,
            mimetype,
        };
        assert(advanced(sink, event).data.attachments.take(sink.data.attachments.len() as int)
            =~= sink.data.attachments);
    }
    if mimetype is Some {
        lemma_fitting_prefix(mimetype->0, 1024);
    }
}

/// Whether a unit is told with its numbers and its sub-units.
pub open spec fn tells_unit(told: UnitInfoView, unit: EngineUnitView) -> bool {
    &&& told.serial_number == unit.serial_number
    &&& told.part_number == unit.part_number
    &&& told.revision_number == unit.revision_number
    &&& told.batch_number == unit.batch_number
    &&& unit.sub_units is Some ==> told.sub_units == unit.sub_units->0
    &&& unit.sub_units is None ==> told.sub_units.len() == 0
}

/// Whether a unit is what was known of it with what an update knows.
pub open spec fn is_updated(
    after: UnitSnapshotView,
    before: UnitSnapshotView,
    info: EngineUnitView,
) -> bool {
    &&& info.serial_number is Some ==> after.serial == info.serial_number
    &&& info.serial_number is None ==> after.serial == before.serial
    &&& info.part_number is Some ==> after.part == info.part_number
    &&& info.part_number is None ==> after.part == before.part
    &&& info.revision_number is Some ==> after.revision == info.revision_number
    &&& info.revision_number is None ==> after.revision == before.revision
    &&& info.batch_number is Some ==> after.batch == info.batch_number
    &&& info.batch_number is None ==> after.batch == before.batch
    &&& info.operated_by is Some ==> after.operated_by == info.operated_by
    &&& info.operated_by is None ==> after.operated_by == before.operated_by
    &&& info.sub_units is None ==> after.sub_units == before.sub_units
    &&& info.sub_units is Some ==> after.sub_units is Some && after.sub_units->0.len()
        == info.sub_units->0.len()
}

/// A unit that becomes known is told; the slot that it is of knows what the
/// update knows, and no other slot changes.
pub proof fn law_units_are_told(
    sink: CliEventSinkView,
    slot_id: Option<Seq<char>>,
    unit_info: EngineUnitView,
    other: Seq<char>,
    now: Instant,
)
    ensures
        ({
            let event = ExecutionEventView::UnitIdentified { slot_id, unit_info };
            let out = emitted(sink, event, now);
            let after = advanced(sink, event);
            &&& out.len() == one_each(sink.router.agent)
            &&& out[0] matches EmissionView::Station(
                StationEventView::IdentifyResolved { slot_id: slot, unit, timestamp, execution_id },
            ) && slot == slot_id && tells_unit(unit, unit_info) && timestamp == Some(
                stamp_text(now),
            ) && execution_id == Some(sink.router.execution_id)
            &&& sink.router.agent ==> (out[1] matches EmissionView::Agent(
                CliEventView::IdentifyResolved { slot_id: slot, unit },
            ) && slot == slot_id && unit.serial_number == unit_info.serial_number
                && unit.part_number == unit_info.part_number && unit.revision_number
                == unit_info.revision_number && unit.batch_number == unit_info.batch_number && (
            unit_info.sub_units is Some ==> unit.sub_units == unit_info.sub_units->0) && (
            unit_info.sub_units is None ==> unit.sub_units.len() == 0))
            &&& after.resolved_unit is Some
            &&& tells_unit(after.resolved_unit->0, unit_info)
            &&& slot_id is None ==> after.resolved_units == sink.resolved_units
            &&& slot_id matches Some(slot) ==> {
                &&& lookup::<KeyUnit>(after.resolved_units, slot) is Some
                &&& tells_unit(lookup::<KeyUnit>(after.resolved_units, slot)->0.unit, unit_info)
                &&& other != slot ==> lookup::<KeyUnit>(after.resolved_units, other) == lookup::<
                    KeyUnit,
                >(sink.resolved_units, other)
                &&& is_updated(
                    unit_of(after.data.units, slot),
                    unit_of(sink.data.units, slot),
                    unit_info,
                )
                &&& other != slot ==> unit_of(after.data.units, other) == unit_of(
                    sink.data.units,
                    other,
                )
            }
            &&& slot_id is None ==> {
                &&& sink.slots.contains(other) ==> unit_info.serial_number is Some ==> unit_of(
                    after.data.units,
                    other,
                ).serial == unit_info.serial_number
                &&& !sink.slots.contains(other) ==> unit_of(after.data.units, other) == unit_of(
                    sink.data.units,
                    other,
                )
            }
            &&& after.data.phases == sink.data.phases
            &&& after.data.attachments == sink.data.attachments
        }),
{
    let event = ExecutionEventView::UnitIdentified { slot_id, unit_info };
    match slot_id {
        Some(slot) => {
            let value = crate::protocol::KeyUnitView {
                slot,
                unit: crate::engine::unit::wire_unit(unit_info),
            };
            assoc::lemma_with_value::<KeyUnit>(sink.resolved_units, value, other);
            lemma_one_unit(sink.data, slot, other, unit_info);
        },
        None => {
            lemma_all_units(sink.data, sink.slots, other, unit_info);
        },
    }
}

proof fn lemma_one_unit(data: RunDataView, slot: Seq<char>, other: Seq<char>, info: EngineUnitView)
    ensures
        ({
            let after = crate::engine::unit::with_unit_info(data, slot, info);
            &&& is_updated(unit_of(after.units, slot), unit_of(data.units, slot), info)
            &&& other != slot ==> unit_of(after.units, other) == unit_of(data.units, other)
            &&& after.phases == data.phases
            &&& after.attachments == data.attachments
        }),
{
    let value = crate::engine::model::SlotUnitView {
        slot,
        unit: crate::engine::unit::updated_unit(unit_of(data.units, slot), info),
    };
    assoc::lemma_with_value::<SlotUnit>(data.units, value, other);
    if let Some(subs) = info.sub_units {
        crate::order::lemma_sorted::<crate::engine::model::KeyText>(subs);
    }
}

proof fn lemma_all_units(
    data: RunDataView,
    slots: Seq<Seq<char>>,
    other: Seq<char>,
    info: EngineUnitView,
)
    ensures
        ({
            let after = with_unit_info_all(data, slots, info);
            &&& slots.contains(other) ==> info.serial_number is Some ==> unit_of(
                after.units,
                other,
            ).serial == info.serial_number
            &&& !slots.contains(other) ==> unit_of(after.units, other) == unit_of(
                data.units,
                other,
            )
            &&& after.phases == data.phases
            &&& after.attachments == data.attachments
        }),
    decreases slots.len(),
{
    if slots.len() > 0 {
        let rest = slots.drop_last();
        lemma_all_units(data, rest, other, info);
        lemma_one_unit(with_unit_info_all(data, rest, info), slots.last(), other, info);
        assert(slots =~= rest.push(slots.last()));
        if slots.contains(other) && other != slots.last() {
            let k = choose|k: int| 0 <= k < slots.len() && slots[k] == other;
            assert(rest[k] == other);
        }
        if !slots.contains(other) {
            assert(slots[slots.len() - 1] == slots.last());
            if rest.contains(other) {
                let k = choose|k: int| 0 <= k < rest.len() && rest[k] == other;
                assert(slots[k] == other);
            }
        }
    }
}

/// The first start time that the engine tells is kept; nothing is told of it.
pub proof fn law_start_times_are_kept(
    sink: CliEventSinkView,
    start_time: Option<Instant>,
    now: Instant,
)
    ensures
        ({
            let event = ExecutionEventView::Stats { start_time };
            let after = advanced(sink, event);
            &&& emitted(sink, event, now).len() == 0
            &&& sink.data.start_time is Some ==> after.data == sink.data
            &&& sink.data.start_time is None ==> after.data == (RunDataView {
                start_time,
                ..sink.data
            })
        }),
{
}

/// Every event but the plan and an identified unit is a sign of life, and one
/// that was seen is not forgotten.
pub proof fn law_signs_of_life(sink: CliEventSinkView, event: ExecutionEventView)
    ensures
        advanced(sink, event).progressed <==> sink.progressed || !(event is Plan || event
            is UnitIdentified),
{
}

/// What is not an end, an attached file, a start time or a unit leaves nothing
/// for the upload.
pub proof fn law_other_events_leave_nothing(sink: CliEventSinkView, event: ExecutionEventView)
    requires
        !(event is JobComplete),
        !(event is Stats),
        !(event is Complete),
        !(event is AttachmentAdded),
        !(event is UnitIdentified),
    ensures
        advanced(sink, event).data == sink.data,
        advanced(sink, event).resolved_unit == sink.resolved_unit,
        advanced(sink, event).resolved_units == sink.resolved_units,
        advanced(sink, event).agent_slot_outcomes == sink.agent_slot_outcomes,
{
}

} // verus!
