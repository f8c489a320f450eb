//! The fan-out of a run: each lifecycle signal goes to the subscribers of the
//! station and, where an agent drives the run, to the agent.

use vstd::prelude::*;
use crate::agent_proto::ctx::{skipped_phase, started_attempt, with_finished, PhaseHistory};
use crate::agent_proto::events::{
    agent_component, to_agent_ui_component, AgentIdentifyUnit, AgentIdentifyUnitView,
    AgentUiComponent, AgentUiComponentView, CliEvent, CliEventView, PhaseSnapshotView,
};
use crate::dup::{push, Dup};
use crate::protocol::{
    PhaseLogLine, PhaseLogLineView, RunMeasurement, RunMeasurementView, StationEvent,
    StationEventView, UnitInfo, UnitInfoView,
};
use crate::time::{instant_text, render_rfc3339, Instant};
use crate::ui::{UiComponent, UiComponentView, UiRequestData, UiRequestDataView};

verus! {

/// One thing to send.
#[derive(Debug, PartialEq, Eq)]
pub enum Emission {
    /// To the subscribers of the station.
    Station(StationEvent),
    /// To the agent.
    Agent(CliEvent),
    /// To the terminal form.
    Terminal(UiRequestData),
    /// To the agent as a prompt to answer.
    Prompt(UiRequestData),
    /// An empty answer to a prompt.
    Continue(String),
}

/// View of [`Emission`].
pub enum EmissionView {
    Station(StationEventView),
    Agent(CliEventView),
    Terminal(UiRequestDataView),
    Prompt(UiRequestDataView),
    Continue(Seq<char>),
}

impl DeepView for Emission {
    type V = EmissionView;

    open spec fn deep_view(&self) -> EmissionView {
        match self {
            Emission::Station(v) => EmissionView::Station(v.deep_view()),
            Emission::Agent(v) => EmissionView::Agent(v.deep_view()),
            Emission::Terminal(v) => EmissionView::Terminal(v.deep_view()),
            Emission::Prompt(v) => EmissionView::Prompt(v.deep_view()),
            Emission::Continue(v) => EmissionView::Continue(v.deep_view()),
        }
    }
}

/// What is known of a phase that ended.
#[derive(Debug, PartialEq, Eq)]
pub struct PhaseFinished {
    pub phase_key: String,
    pub phase_name: String,
    pub outcome: String,
    pub attempt: u32,
    pub slot_id: Option<String>,
    pub error: Option<String>,
    pub started_at: Option<String>,
    pub ended_at: Option<String>,
    pub duration_ms: Option<u64>,
    pub station_measurements: Vec<RunMeasurement>,
    pub station_logs: Vec<PhaseLogLine>,
}

/// View of [`PhaseFinished`].
pub struct PhaseFinishedView {
    pub phase_key: Seq<char>,
    pub phase_name: Seq<char>,
    pub outcome: Seq<char>,
    pub attempt: u32,
    pub slot_id: Option<Seq<char>>,
    pub error: Option<Seq<char>>,
    pub started_at: Option<Seq<char>>,
    pub ended_at: Option<Seq<char>>,
    pub duration_ms: Option<u64>,
    pub station_measurements: Seq<RunMeasurementView>,
    pub station_logs: Seq<PhaseLogLineView>,
}

impl DeepView for PhaseFinished {
    type V = PhaseFinishedView;

    open spec fn deep_view(&self) -> PhaseFinishedView {
        PhaseFinishedView {
            phase_key: self.phase_key.deep_view(),
            phase_name: self.phase_name.deep_view(),
            outcome: self.outcome.deep_view(),
            attempt: self.attempt.deep_view(),
            slot_id: self.slot_id.deep_view(),
            error: self.error.deep_view(),
            started_at: self.started_at.deep_view(),
            ended_at: self.ended_at.deep_view(),
            duration_ms: self.duration_ms.deep_view(),
            station_measurements: self.station_measurements.deep_view(),
            station_logs: self.station_logs.deep_view(),
        }
    }
}

/// A point in time as the streams carry it; empty where it has no text.
pub open spec fn stamp_text(at: Instant) -> Seq<char> {
    match instant_text(at) {
        Some(text) => text,
        None => Seq::empty(),
    }
}

/// A point in time as the streams carry it.
pub fn stamp(at: Instant) -> (text: String)
    ensures
        text@ == stamp_text(at),
{
    match render_rfc3339(at) {
        Some(text) => text,
        None => String::new(),
    }
}

/// The fan-out of one run.
pub struct EventRouter {
    /// The identity of the run, on every event.
    pub execution_id: String,
    /// Whether an agent drives the run.
    pub agent: bool,
    /// The phase attempts so far; kept for the agent only.
    pub history: PhaseHistory,
}

/// View of [`EventRouter`].
pub struct EventRouterView {
    pub execution_id: Seq<char>,
    pub agent: bool,
    pub history: Seq<PhaseSnapshotView>,
}

impl DeepView for EventRouter {
    type V = EventRouterView;

    open spec fn deep_view(&self) -> EventRouterView {
        EventRouterView {
            execution_id: self.execution_id@,
            agent: self.agent,
            history: self.history.deep_view(),
        }
    }
}

/// What is sent to the station, and to the agent where there is one.
pub open spec fn to_both(agent: bool, station: StationEventView, cli: CliEventView) -> Seq<
    EmissionView,
> {
    if agent {
        seq![EmissionView::Station(station), EmissionView::Agent(cli)]
    } else {
        seq![EmissionView::Station(station)]
    }
}

fn both(agent: bool, station: StationEvent, cli: CliEvent) -> (out: Vec<Emission>)
    ensures
        out.deep_view() == to_both(agent, station.deep_view(), cli.deep_view()),
{
    let mut out: Vec<Emission> = Vec::new();
    out.push(Emission::Station(station));
    if agent {
        out.push(Emission::Agent(cli));
    }
    assert(out.deep_view() =~= to_both(agent, station.deep_view(), cli.deep_view()));
    out
}

fn alone(station: StationEvent) -> (out: Vec<Emission>)
    ensures
        out.deep_view() == seq![EmissionView::Station(station.deep_view())],
{
    let mut out: Vec<Emission> = Vec::new();
    out.push(Emission::Station(station));
    assert(out.deep_view() =~= seq![EmissionView::Station(station.deep_view())]);
    out
}

/// The start of a phase attempt for the station.
pub open spec fn phase_started_event(
    execution_id: Seq<char>,
    phase_key: Seq<char>,
    name: Seq<char>,
    attempt: u32,
    slot_id: Option<Seq<char>>,
    at: Instant,
) -> StationEventView {
    StationEventView::PhaseStarted {
        phase_key,
        name,
        slot_id,
        attempt,
        stage: None,
        timestamp: Some(stamp_text(at)),
        execution_id: Some(execution_id),
    }
}

/// What goes out when a phase attempt starts.
pub open spec fn phase_started_emissions(
    router: EventRouterView,
    phase_key: Seq<char>,
    name: Seq<char>,
    attempt: u32,
    slot_id: Option<Seq<char>>,
    at: Instant,
) -> Seq<EmissionView> {
    to_both(
        router.agent,
        phase_started_event(router.execution_id, phase_key, name, attempt, slot_id, at),
        CliEventView::PhaseStarted { phase_key, attempt, slot_id, started_at: stamp_text(at) },
    )
}

/// A duration within 32 bits.
pub open spec fn short_duration(millis: Option<u64>) -> Option<u32> {
    match millis {
        Some(ms) => if ms > u32::MAX {
            Some(u32::MAX)
        } else {
            Some(ms as u32)
        },
        None => None,
    }
}

fn clamp_duration(millis: Option<u64>) -> (out: Option<u32>)
    ensures
        out == short_duration(millis),
{
    match millis {
        Some(ms) => if ms > u32::MAX as u64 {
            Some(u32::MAX)
        } else {
            Some(ms as u32)
        },
        None => None,
    }
}

/// What goes out when a phase ends.
pub open spec fn phase_finished_emissions(router: EventRouterView, f: PhaseFinishedView) -> Seq<
    EmissionView,
> {
    to_both(
        router.agent,
        StationEventView::PhaseComplete {
            phase_key: f.phase_key,
            name: f.phase_name,
            outcome: f.outcome,
            measurements: f.station_measurements,
            slot_id: f.slot_id,
            attempt: f.attempt,
            started_at: f.started_at,
            ended_at: f.ended_at,
            duration_ms: short_duration(f.duration_ms),
            error: f.error,
            logs: f.station_logs,
            execution_id: Some(router.execution_id),
        },
        CliEventView::PhaseFinished {
            phase_key: f.phase_key,
            outcome: f.outcome,
            attempt: f.attempt,
            slot_id: f.slot_id,
            error: f.error,
            started_at: f.started_at,
            ended_at: f.ended_at,
            duration_ms: f.duration_ms,
        },
    )
}

/// What goes out for a phase that never ran: to the station a start and an
/// end, to the agent a skip.
pub open spec fn phase_skipped_emissions(
    router: EventRouterView,
    phase_key: Seq<char>,
    name: Seq<char>,
    slot_id: Option<Seq<char>>,
    reason: Option<Seq<char>>,
    outcome: Seq<char>,
    now: Instant,
) -> Seq<EmissionView> {
    seq![
        EmissionView::Station(
            phase_started_event(router.execution_id, phase_key, name, 1, slot_id, now),
        ),
    ] + to_both(
        router.agent,
        StationEventView::PhaseComplete {
            phase_key,
            name,
            outcome,
            measurements: Seq::empty(),
            slot_id,
            attempt: 1,
            started_at: None,
            ended_at: None,
            duration_ms: None,
            error: reason,
            logs: Seq::empty(),
            execution_id: Some(router.execution_id),
        },
        CliEventView::PhaseSkipped { phase_key, slot_id, reason },
    )
}

/// Components as agents see them.
pub open spec fn agent_components(components: Seq<UiComponentView>) -> Seq<AgentUiComponentView> {
    components.map_values(|c: UiComponentView| agent_component(c))
}

/// Converts components for agents.
pub fn to_agent_components(components: &Vec<UiComponent>) -> (out: Vec<AgentUiComponent>)
    ensures
        out.deep_view() == agent_components(components.deep_view()),
{
    let mut out: Vec<AgentUiComponent> = Vec::new();
    let mut i: usize = 0;
    while i < components.len()
        invariant
            i <= components@.len(),
            out@.len() == i,
            forall|k: int|
                0 <= k < i ==> (#[trigger] out@[k]).deep_view() == agent_component(
                    components@[k].deep_view(),
                ),
        decreases components@.len() - i,
    {
        out.push(to_agent_ui_component(&components[i]));
        i += 1;
    }
    assert(out.deep_view() =~= agent_components(components.deep_view()));
    out
}

/// A unit as agents see it.
pub open spec fn agent_unit(unit: UnitInfoView) -> AgentIdentifyUnitView {
    AgentIdentifyUnitView {
        serial_number: unit.serial_number,
        part_number: unit.part_number,
        revision_number: unit.revision_number,
        batch_number: unit.batch_number,
        sub_units: unit.sub_units,
    }
}

/// Converts a unit for agents.
pub fn to_agent_unit(unit: &UnitInfo) -> (out: AgentIdentifyUnit)
    ensures
        out.deep_view() == agent_unit(unit.deep_view()),
{
    AgentIdentifyUnit {
        serial_number: unit.serial_number.dup(),
        part_number: unit.part_number.dup(),
        revision_number: unit.revision_number.dup(),
        batch_number: unit.batch_number.dup(),
        sub_units: unit.sub_units.dup(),
    }
}

/// What goes out when a unit, or part of it, becomes known.
pub open spec fn identify_resolved_emissions(
    router: EventRouterView,
    slot_id: Option<Seq<char>>,
    unit: UnitInfoView,
    now: Instant,
) -> Seq<EmissionView> {
    to_both(
        router.agent,
        StationEventView::IdentifyResolved {
            slot_id,
            unit,
            timestamp: Some(stamp_text(now)),
            execution_id: Some(router.execution_id),
        },
        CliEventView::IdentifyResolved { slot_id, unit: agent_unit(unit) },
    )
}

/// The prompt of a phase for the station.
pub open spec fn ui_request_event(
    execution_id: Seq<char>,
    request_id: Seq<char>,
    phase_key: Seq<char>,
    slot_id: Option<Seq<char>>,
    components: Seq<UiComponentView>,
    requires_input: bool,
    now: Instant,
) -> StationEventView {
    StationEventView::UiRequest {
        request_id,
        phase_key,
        slot_id,
        components: Some(components),
        requires_input,
        timestamp: Some(stamp_text(now)),
        execution_id: Some(execution_id),
    }
}

impl EventRouter {
    /// The fan-out of a run that has just begun.
    pub fn new(execution_id: String, agent: bool) -> (router: Self)
        ensures
            router.deep_view() == (EventRouterView {
                execution_id: execution_id@,
                agent,
                history: Seq::empty(),
            }),
    {
        EventRouter { execution_id, agent, history: PhaseHistory::default() }
    }

    /// A phase attempt starts. The engine's own start time is used where it
    /// is known, so that it agrees with what the end of the phase reports.
    pub fn phase_started(
        &mut self,
        phase_key: &str,
        phase_name: &str,
        attempt: u32,
        slot_id: Option<String>,
        started_at: Option<Instant>,
        now: Instant,
    ) -> (out: Vec<Emission>)
        ensures
            out.deep_view() == phase_started_emissions(
                old(self).deep_view(),
                phase_key@,
                phase_name@,
                attempt,
                slot_id.deep_view(),
                match started_at {
                    Some(at) => at,
                    None => now,
                },
            ),
            final(self).deep_view() == (EventRouterView {
                history: if old(self).agent {
                    old(self).history.deep_view().push(
                        started_attempt(phase_key@, attempt, slot_id.deep_view()),
                    )
                } else {
                    old(self).history.deep_view()
                },
                ..old(self).deep_view()
            }),
    {
        let at = match started_at {
            Some(at) => at,
            None => now,
        };
        let started = stamp(at);
        if self.agent {
            self.history.started(phase_key, attempt, slot_id.dup());
        }
        both(
            self.agent,
            StationEvent::PhaseStarted {
                phase_key: phase_key.to_string(),
                name: phase_name.to_string(),
                slot_id: slot_id.dup(),
                attempt,
                stage: None,
                timestamp: Some(started.dup()),
                execution_id: Some(self.execution_id.dup()),
            },
            CliEvent::PhaseStarted {
                phase_key: phase_key.to_string(),
                attempt,
                slot_id,
                started_at: started,
            },
        )
    }

    /// A phase ends.
    pub fn phase_finished(&mut self, finished: PhaseFinished) -> (out: Vec<Emission>)
        ensures
            out.deep_view() == phase_finished_emissions(
                old(self).deep_view(),
                finished.deep_view(),
            ),
            final(self).deep_view() == (EventRouterView {
                history: if old(self).agent {
                    with_finished(
                        old(self).history.deep_view(),
                        finished.phase_key@,
                        finished.attempt,
                        finished.slot_id.deep_view(),
                        finished.outcome@,
                    )
                } else {
                    old(self).history.deep_view()
                },
                ..old(self).deep_view()
            }),
    {
        if self.agent {
            self.history.finished(
                finished.phase_key.as_str(),
                finished.attempt,
                &finished.slot_id,
                finished.outcome.as_str(),
            );
        }
        both(
            self.agent,
            StationEvent::PhaseComplete {
                phase_key: finished.phase_key.dup(),
                name: finished.phase_name,
                outcome: finished.outcome.dup(),
                measurements: finished.station_measurements,
                slot_id: finished.slot_id.dup(),
                attempt: finished.attempt,
                started_at: finished.started_at.dup(),
                ended_at: finished.ended_at.dup(),
                duration_ms: clamp_duration(finished.duration_ms),
                error: finished.error.dup(),
                logs: finished.station_logs,
                execution_id: Some(self.execution_id.dup()),
            },
            CliEvent::PhaseFinished {
                phase_key: finished.phase_key,
                outcome: finished.outcome,
                attempt: finished.attempt,
                slot_id: finished.slot_id,
                error: finished.error,
                started_at: finished.started_at,
                ended_at: finished.ended_at,
                duration_ms: finished.duration_ms,
            },
        )
    }

    /// A phase never ran.
    pub fn phase_skipped(
        &mut self,
        phase_key: &str,
        phase_name: &str,
        slot_id: Option<String>,
        reason: Option<String>,
        outcome: &str,
        now: Instant,
    ) -> (out: Vec<Emission>)
        ensures
            out.deep_view() == phase_skipped_emissions(
                old(self).deep_view(),
                phase_key@,
                phase_name@,
                slot_id.deep_view(),
                reason.deep_view(),
                outcome@,
                now,
            ),
            final(self).deep_view() == (EventRouterView {
                history: if old(self).agent {
                    old(self).history.deep_view().push(
                        skipped_phase(phase_key@, slot_id.deep_view()),
                    )
                } else {
                    old(self).history.deep_view()
                },
                ..old(self).deep_view()
            }),
    {
        if self.agent {
            self.history.skipped(phase_key, slot_id.dup());
        }
        let mut out: Vec<Emission> = Vec::new();
        out.push(
            Emission::Station(
                StationEvent::PhaseStarted {
                    phase_key: phase_key.to_string(),
                    name: phase_name.to_string(),
                    slot_id: slot_id.dup(),
                    attempt: 1,
                    stage: None,
                    timestamp: Some(stamp(now)),
                    execution_id: Some(self.execution_id.dup()),
                },
            ),
        );
        let measurements: Vec<RunMeasurement> = Vec::new();
        let logs: Vec<PhaseLogLine> = Vec::new();
        assert(measurements.deep_view() =~= Seq::empty());
        assert(logs.deep_view() =~= Seq::empty());
        out.push(
            Emission::Station(
                StationEvent::PhaseComplete {
                    phase_key: phase_key.to_string(),
                    name: phase_name.to_string(),
                    outcome: outcome.to_string(),
                    measurements,
                    slot_id: slot_id.dup(),
                    attempt: 1,
                    started_at: None,
                    ended_at: None,
                    duration_ms: None,
                    error: reason.dup(),
                    logs,
                    execution_id: Some(self.execution_id.dup()),
                },
            ),
        );
        if self.agent {
            out.push(
                Emission::Agent(
                    CliEvent::PhaseSkipped { phase_key: phase_key.to_string(), slot_id, reason },
                ),
            );
        }
        assert(out.deep_view() =~= phase_skipped_emissions(
            old(self).deep_view(),
            phase_key@,
            phase_name@,
            slot_id.deep_view(),
            reason.deep_view(),
            outcome@,
            now,
        ));
        out
    }

    /// A phase asks the operator. Whether it waits for an answer is the
    /// caller's to say.
    pub fn ui_request(
        &self,
        request_id: &str,
        phase_key: &str,
        slot_id: Option<String>,
        components: &Vec<UiComponent>,
        requires_input: bool,
        now: Instant,
    ) -> (out: Vec<Emission>)
        ensures
            out.deep_view() == seq![
                EmissionView::Station(
                    ui_request_event(
                        self.execution_id@,
                        request_id@,
                        phase_key@,
                        slot_id.deep_view(),
                        components.deep_view(),
                        requires_input,
                        now,
                    ),
                ),
            ],
    {
        alone(
            StationEvent::UiRequest {
                request_id: request_id.to_string(),
                phase_key: phase_key.to_string(),
                slot_id,
                components: Some(components.dup()),
                requires_input,
                timestamp: Some(stamp(now)),
                execution_id: Some(self.execution_id.dup()),
            },
        )
    }

    /// A phase changes a prompt that is open.
    pub fn ui_update(
        &self,
        phase_key: &str,
        slot_id: Option<String>,
        job_id: Option<String>,
        action: &str,
        data: Option<String>,
    ) -> (out: Vec<Emission>)
        ensures
            out.deep_view() == seq![
                EmissionView::Station(
                    StationEventView::UiUpdate {
                        phase_key: phase_key@,
                        action: action@,
                        data: data.deep_view(),
                        job_id: job_id.deep_view(),
                        slot_id: slot_id.deep_view(),
                        execution_id: Some(self.execution_id@),
                    },
                ),
            ],
    {
        alone(
            StationEvent::UiUpdate {
                phase_key: phase_key.to_string(),
                action: action.to_string(),
                data,
                job_id,
                slot_id,
                execution_id: Some(self.execution_id.dup()),
            },
        )
    }

    /// The operator must identify a unit before the run.
    pub fn identify_request(
        &self,
        request_id: &str,
        procedure_id: &str,
        slot_id: Option<String>,
        components: &Vec<UiComponent>,
        now: Instant,
    ) -> (out: Vec<Emission>)
        ensures
            out.deep_view() == to_both(
                self.agent,
                StationEventView::IdentifyRequest {
                    request_id: request_id@,
                    procedure_id: Some(procedure_id@),
                    slot_id: slot_id.deep_view(),
                    components: Some(components.deep_view()),
                    timestamp: Some(stamp_text(now)),
                    execution_id: Some(self.execution_id@),
                },
                CliEventView::IdentifyRequest {
                    request_id: request_id@,
                    slot_id: slot_id.deep_view(),
                    components: agent_components(components.deep_view()),
                },
            ),
    {
        both(
            self.agent,
            StationEvent::IdentifyRequest {
                request_id: request_id.to_string(),
                procedure_id: Some(procedure_id.to_string()),
                slot_id: slot_id.dup(),
                components: Some(components.dup()),
                timestamp: Some(stamp(now)),
                execution_id: Some(self.execution_id.dup()),
            },
            CliEvent::IdentifyRequest {
                request_id: request_id.to_string(),
                slot_id,
                components: to_agent_components(components),
            },
        )
    }

    /// A unit, or part of it, has become known.
    pub fn identify_resolved(&self, slot_id: Option<String>, unit: &UnitInfo, now: Instant) -> (out:
        Vec<Emission>)
        ensures
            out.deep_view() == identify_resolved_emissions(
                self.deep_view(),
                slot_id.deep_view(),
                unit.deep_view(),
                now,
            ),
    {
        both(
            self.agent,
            StationEvent::IdentifyResolved {
                slot_id: slot_id.dup(),
                unit: unit.dup(),
                timestamp: Some(stamp(now)),
                execution_id: Some(self.execution_id.dup()),
            },
            CliEvent::IdentifyResolved { slot_id, unit: to_agent_unit(unit) },
        )
    }

    /// Nobody identified the unit in time.
    pub fn identify_timeout(&self, request_id: &str) -> (out: Vec<Emission>)
        ensures
            out.deep_view() == to_both(
                self.agent,
                StationEventView::IdentifyTimeout {
                    request_id: request_id@,
                    execution_id: Some(self.execution_id@),
                },
                CliEventView::IdentifyTimeout { request_id: request_id@ },
            ),
    {
        both(
            self.agent,
            StationEvent::IdentifyTimeout {
                request_id: request_id.to_string(),
                execution_id: Some(self.execution_id.dup()),
            },
            CliEvent::IdentifyTimeout { request_id: request_id.to_string() },
        )
    }
}

/// Every signal reaches the station; the agent hears of it exactly where one
/// drives the run.
pub proof fn law_station_always_hears(agent: bool, station: StationEventView, cli: CliEventView)
    ensures
        to_both(agent, station, cli)[0] == EmissionView::Station(station),
        to_both(agent, station, cli).contains(EmissionView::Agent(cli)) <==> agent,
{
    if agent {
        assert(to_both(agent, station, cli)[1] == EmissionView::Agent(cli));
    }
}

} // verus!
