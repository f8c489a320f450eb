//! The state machine behind a Python connector.
//!
//! The connector writes one event a line. Each event changes the state and
//! leads to things to send and, where the connector waits for it, a reply.
//! What only the outside can do, to identify a unit or to ask the operator,
//! is an action; its result comes back through [`Pump::identified`] and
//! [`Pump::answered`].

use vstd::prelude::*;
use vstd::string::*;
use crate::agent_proto::ctx::{started_attempt, with_finished};
use crate::agent_proto::events::{CliEvent, CliEventView, PhasePlanPayload, PhasePlanPayloadView};
use crate::assoc;
use crate::assoc::{lookup, with_value};
use crate::connector::events::{event_of, PythonEvent, PythonEventView};
use crate::connector::request::{
    build_request, extract_run_measurements, live_measurements_in, request_of, serials, serials_of,
    text_or, Connector, ResolvedUnit, ResolvedUnitView, RunContext, RunContextView,
};
use crate::connector::unit_config::{
    build_unit_config_from_kwargs, config_of, UnitConfig, UnitConfigView,
};
use crate::double::{double_less, is_less};
use crate::dup::{push, Dup};
use crate::emit::{run_complete, run_complete_event, run_crashed, run_crashed_emissions};
use crate::engine::caps::{field, member};
use crate::engine::model::{EngineUnit, EngineUnitView, KeyText, KeyTextView};
use crate::engine::unit::{engine_unit, unit_info_to_wire, wire_unit, wire_unit_to_engine};
use crate::event_router::{
    agent_components, identify_resolved_emissions, phase_finished_emissions,
    phase_started_emissions, stamp, stamp_text, to_agent_components, ui_request_event, Emission,
    EmissionView, EventRouter, EventRouterView, PhaseFinished, PhaseFinishedView,
};
use crate::json::{
    int_number, json_of_text, json_size, json_text, member_text, Json, JsonField, JsonView,
};
use crate::order::Keyed;
use crate::outcomes::{ABORTED, ERROR, PASS};
use crate::protocol::{
    KeyUnit, PhaseLogLine, PhasePlan, PhasePlanView, PlugDefinition, StationEvent,
    StationEventView, UnitInfo, UnitInfoView,
};
use crate::queue::{QueuedAttachment, QueuedAttachmentView, QueuedRun, QueuedRunView};
use crate::sdk::{RunCreateRequest, RunCreateRequestView};
use crate::text;
use crate::text::decimal;
use crate::time::{from_millis, millis_instant, Instant};
use crate::ui::{
    bare_component, ComponentType, ComponentValue, ComponentValueView, UiComponent, UiComponentView,
    UiRequestData, UiRequestDataView,
};

verus! {

/// Largest JSON text of an unknown event that is passed on, in bytes.
pub const MAX_UNKNOWN_EVENT_BYTES: usize = 4_096;

/// How often a phase has begun.
#[derive(Debug, PartialEq, Eq)]
pub struct NameAttempt {
    pub name: String,
    pub count: u32,
}

/// View of [`NameAttempt`].
pub struct NameAttemptView {
    pub name: Seq<char>,
    pub count: u32,
}

impl DeepView for NameAttempt {
    type V = NameAttemptView;

    open spec fn deep_view(&self) -> NameAttemptView {
        NameAttemptView {
            name: self.name.deep_view(),
            count: self.count.deep_view(),
        }
    }
}

impl Dup for NameAttempt {
    fn dup(&self) -> (copy: Self) {
        NameAttempt {
            name: self.name.dup(),
            count: self.count.dup(),
        }
    }
}

/// A phase attempt whose start was announced.
#[derive(Debug, PartialEq, Eq)]
pub struct StartedAttempt {
    pub phase_key: String,
    pub attempt: u32,
}

/// View of [`StartedAttempt`].
pub struct StartedAttemptView {
    pub phase_key: Seq<char>,
    pub attempt: u32,
}

impl DeepView for StartedAttempt {
    type V = StartedAttemptView;

    open spec fn deep_view(&self) -> StartedAttemptView {
        StartedAttemptView {
            phase_key: self.phase_key.deep_view(),
            attempt: self.attempt.deep_view(),
        }
    }
}

impl Dup for StartedAttempt {
    fn dup(&self) -> (copy: Self) {
        StartedAttempt {
            phase_key: self.phase_key.dup(),
            attempt: self.attempt.dup(),
        }
    }
}

/// What the connector waits for before it goes on.
#[derive(Debug, PartialEq, Eq)]
pub enum Waiting {
    Nothing,
    Unit {
        /// The event that started the test.
        event: Json,
        /// Whether the unit of an earlier run is checked.
        reused: bool,
    },
    Answer {
        prompt_id: String,
        phase_key: String,
    },
}

/// View of [`Waiting`].
pub enum WaitingView {
    Nothing,
    Unit {
        event: JsonView,
        reused: bool,
    },
    Answer {
        prompt_id: Seq<char>,
        phase_key: Seq<char>,
    },
}

impl DeepView for Waiting {
    type V = WaitingView;

    open spec fn deep_view(&self) -> WaitingView {
        match self {
            Waiting::Nothing => WaitingView::Nothing,
            Waiting::Unit { event, reused } => WaitingView::Unit {
                event: event.deep_view(),
                reused: reused.deep_view(),
            },
            Waiting::Answer { prompt_id, phase_key } => WaitingView::Answer {
                prompt_id: prompt_id.deep_view(),
                phase_key: phase_key.deep_view(),
            },
        }
    }
}

/// How long a prompt waits.
#[derive(Debug, PartialEq, Eq)]
pub enum PromptTimeout {
    Never,
    Millis(u64),
    /// Seconds, as the bit pattern of a double.
    Seconds(u64),
}

/// View of [`PromptTimeout`].
pub enum PromptTimeoutView {
    Never,
    Millis(u64),
    Seconds(u64),
}

impl DeepView for PromptTimeout {
    type V = PromptTimeoutView;

    open spec fn deep_view(&self) -> PromptTimeoutView {
        match self {
            PromptTimeout::Never => PromptTimeoutView::Never,
            PromptTimeout::Millis(v) => PromptTimeoutView::Millis(v.deep_view()),
            PromptTimeout::Seconds(v) => PromptTimeoutView::Seconds(v.deep_view()),
        }
    }
}

/// What to do after an event.
#[allow(inconsistent_fields)]
#[derive(Debug, PartialEq, Eq)]
pub enum PumpAction {
    /// Go on with the next line.
    Next,
    /// Read no more.
    Stop,
    /// Check the unit of an earlier run against what the test declares.
    Validate {
        unit: EngineUnit,
        config: UnitConfig,
    },
    /// Identify the unit.
    Identify {
        config: UnitConfig,
    },
    /// Register the prompt, then wait for its answer.
    Ask {
        request: UiRequestData,
        timeout: PromptTimeout,
    },
}

/// View of [`PumpAction`].
#[allow(inconsistent_fields)]
pub enum PumpActionView {
    Next,
    Stop,
    Validate {
        unit: EngineUnitView,
        config: UnitConfigView,
    },
    Identify {
        config: UnitConfigView,
    },
    Ask {
        request: UiRequestDataView,
        timeout: PromptTimeoutView,
    },
}

impl DeepView for PumpAction {
    type V = PumpActionView;

    open spec fn deep_view(&self) -> PumpActionView {
        match self {
            PumpAction::Next => PumpActionView::Next,
            PumpAction::Stop => PumpActionView::Stop,
            PumpAction::Validate { unit, config } => PumpActionView::Validate {
                unit: unit.deep_view(),
                config: config.deep_view(),
            },
            PumpAction::Identify { config } => PumpActionView::Identify {
                config: config.deep_view(),
            },
            PumpAction::Ask { request, timeout } => PumpActionView::Ask {
                request: request.deep_view(),
                timeout: timeout.deep_view(),
            },
        }
    }
}

/// What an event leads to.
#[derive(Debug, PartialEq, Eq)]
pub struct Step {
    /// What to send first.
    pub emissions: Vec<Emission>,
    /// What to write to the connector.
    pub reply: Option<String>,
    /// What to send after the reply.
    pub later: Vec<Emission>,
    pub action: PumpAction,
}

/// View of [`Step`].
pub struct StepView {
    pub emissions: Seq<EmissionView>,
    pub reply: Option<Seq<char>>,
    pub later: Seq<EmissionView>,
    pub action: PumpActionView,
}

impl DeepView for Step {
    type V = StepView;

    open spec fn deep_view(&self) -> StepView {
        StepView {
            emissions: self.emissions.deep_view(),
            reply: self.reply.deep_view(),
            later: self.later.deep_view(),
            action: self.action.deep_view(),
        }
    }
}

/// What came of a prompt.
#[derive(Debug, PartialEq, Eq)]
pub enum Answer {
    Values(Vec<KeyText>),
    /// Nobody can answer any more.
    Closed,
    TimedOut,
}

/// View of [`Answer`].
pub enum AnswerView {
    Values(Seq<KeyTextView>),
    Closed,
    TimedOut,
}

impl DeepView for Answer {
    type V = AnswerView;

    open spec fn deep_view(&self) -> AnswerView {
        match self {
            Answer::Values(v) => AnswerView::Values(v.deep_view()),
            Answer::Closed => AnswerView::Closed,
            Answer::TimedOut => AnswerView::TimedOut,
        }
    }
}

/// What came of identifying the unit.
#[derive(Debug, PartialEq, Eq)]
pub enum Identification {
    Resolved(EngineUnit),
    Failed(String),
}

/// View of [`Identification`].
pub enum IdentificationView {
    Resolved(EngineUnitView),
    Failed(Seq<char>),
}

impl DeepView for Identification {
    type V = IdentificationView;

    open spec fn deep_view(&self) -> IdentificationView {
        match self {
            Identification::Resolved(v) => IdentificationView::Resolved(v.deep_view()),
            Identification::Failed(v) => IdentificationView::Failed(v.deep_view()),
        }
    }
}

/// How a run ends.
#[derive(Debug, PartialEq, Eq)]
pub struct Conclusion {
    pub emissions: Vec<Emission>,
    pub exit_code: i32,
    /// The run to upload, where there is one.
    pub queued: Option<QueuedRun>,
}

/// View of [`Conclusion`].
pub struct ConclusionView {
    pub emissions: Seq<EmissionView>,
    pub exit_code: i32,
    pub queued: Option<QueuedRunView>,
}

impl DeepView for Conclusion {
    type V = ConclusionView;

    open spec fn deep_view(&self) -> ConclusionView {
        ConclusionView {
            emissions: self.emissions.deep_view(),
            exit_code: self.exit_code.deep_view(),
            queued: self.queued.deep_view(),
        }
    }
}

/// The state of a connector run.
pub struct Pump {
    pub connector: Connector,
    pub procedure_name: String,
    /// The deployment that is announced with the run.
    pub deployment_id: Option<String>,
    /// Whether a terminal form can show prompts.
    pub has_terminal: bool,
    pub json_mode: bool,
    /// How long prompts wait by default, in milliseconds.
    pub agent_timeout: Option<u64>,
    /// The unit of an earlier run that is to be tested again.
    pub reuse_unit: Option<UnitInfo>,
    pub procedure_id: String,
    pub router: EventRouter,
    /// The phases as they were reported.
    pub phases: Vec<Json>,
    pub test_end: Option<Json>,
    pub test_start: Option<Json>,
    pub attachments: Vec<QueuedAttachment>,
    pub unit: ResolvedUnit,
    pub identify_error: Option<String>,
    pub plan: Vec<PhasePlanPayload>,
    pub attempts: Vec<NameAttempt>,
    pub started: Vec<StartedAttempt>,
    /// The phase that ran last, as far as it is known.
    pub current: String,
    pub waiting: Waiting,
}

/// View of [`Pump`].
pub struct PumpView {
    pub connector: Connector,
    pub procedure_name: Seq<char>,
    pub deployment_id: Option<Seq<char>>,
    pub has_terminal: bool,
    pub json_mode: bool,
    pub agent_timeout: Option<u64>,
    pub reuse_unit: Option<UnitInfoView>,
    pub procedure_id: Seq<char>,
    pub router: EventRouterView,
    pub phases: Seq<JsonView>,
    pub test_end: Option<JsonView>,
    pub test_start: Option<JsonView>,
    pub attachments: Seq<QueuedAttachmentView>,
    pub unit: ResolvedUnitView,
    pub identify_error: Option<Seq<char>>,
    pub plan: Seq<PhasePlanPayloadView>,
    pub attempts: Seq<NameAttemptView>,
    pub started: Seq<StartedAttemptView>,
    pub current: Seq<char>,
    pub waiting: WaitingView,
}

impl DeepView for Pump {
    type V = PumpView;

    open spec fn deep_view(&self) -> PumpView {
        PumpView {
            connector: self.connector.deep_view(),
            procedure_name: self.procedure_name.deep_view(),
            deployment_id: self.deployment_id.deep_view(),
            has_terminal: self.has_terminal.deep_view(),
            json_mode: self.json_mode.deep_view(),
            agent_timeout: self.agent_timeout.deep_view(),
            reuse_unit: self.reuse_unit.deep_view(),
            procedure_id: self.procedure_id.deep_view(),
            router: self.router.deep_view(),
            phases: self.phases.deep_view(),
            test_end: self.test_end.deep_view(),
            test_start: self.test_start.deep_view(),
            attachments: self.attachments.deep_view(),
            unit: self.unit.deep_view(),
            identify_error: self.identify_error.deep_view(),
            plan: self.plan.deep_view(),
            attempts: self.attempts.deep_view(),
            started: self.started.deep_view(),
            current: self.current.deep_view(),
            waiting: self.waiting.deep_view(),
        }
    }
}

impl Keyed for NameAttempt {
    open spec fn sort_key(value: NameAttemptView) -> Seq<char> {
        value.name
    }

    fn key_text(&self) -> (key: &str) {
        self.name.as_str()
    }
}

impl Keyed for PhasePlanPayload {
    open spec fn sort_key(value: PhasePlanPayloadView) -> Seq<char> {
        value.name
    }

    fn key_text(&self) -> (key: &str) {
        self.name.as_str()
    }
}

/// A state and what an event leads to.
pub struct Progress {
    pub pump: PumpView,
    pub step: StepView,
}

/// A step that only sends.
pub open spec fn sends(emissions: Seq<EmissionView>) -> StepView {
    StepView { emissions, reply: None, later: Seq::empty(), action: PumpActionView::Next }
}

fn no_emissions() -> (out: Vec<Emission>)
    ensures
        out.deep_view() == Seq::<EmissionView>::empty(),
{
    let out: Vec<Emission> = Vec::new();
    assert(out.deep_view() =~= Seq::empty());
    out
}

fn sending(emissions: Vec<Emission>) -> (step: Step)
    ensures
        step.deep_view() == sends(emissions.deep_view()),
{
    Step { emissions, reply: None, later: no_emissions(), action: PumpAction::Next }
}

fn one(emission: Emission) -> (out: Vec<Emission>)
    ensures
        out.deep_view() == seq![emission.deep_view()],
{
    let mut out: Vec<Emission> = Vec::new();
    out.push(emission);
    assert(out.deep_view() =~= seq![emission.deep_view()]);
    out
}

/// What goes to the agent, where there is one.
pub open spec fn to_agent(agent: bool, event: CliEventView) -> Seq<EmissionView> {
    if agent {
        seq![EmissionView::Agent(event)]
    } else {
        Seq::empty()
    }
}

fn agent_only(agent: bool, event: CliEvent) -> (out: Vec<Emission>)
    ensures
        out.deep_view() == to_agent(agent, event.deep_view()),
{
    if agent {
        one(Emission::Agent(event))
    } else {
        no_emissions()
    }
}

// ---------------------------------------------------------------------------
// Phases
// ---------------------------------------------------------------------------

/// The plan of a test: its phases by their names, with keys that tell phases
/// of the same name apart.
pub open spec fn plan_of(names: Seq<Seq<char>>) -> Seq<PhasePlanPayloadView> {
    Seq::new(
        names.len(),
        |i: int| PhasePlanPayloadView { key: decimal(i as nat) + "_"@ + names[i], name: names[i] },
    )
}

fn make_plan(names: &Vec<String>) -> (plan: Vec<PhasePlanPayload>)
    ensures
        plan.deep_view() == plan_of(names.deep_view()),
{
    let mut plan: Vec<PhasePlanPayload> = Vec::new();
    let mut i: usize = 0;
    while i < names.len()
        invariant
            i <= names@.len(),
            plan@.len() == i,
            forall|k: int|
                0 <= k < i ==> (#[trigger] plan@[k]).deep_view() == plan_of(names.deep_view())[k],
        decreases names@.len() - i,
    {
        let n = text::decimal_text(i as u64);
        plan.push(
            PhasePlanPayload {
                key: text::concat3(n.as_str(), "_", names[i].as_str()),
                name: names[i].dup(),
            },
        );
        i += 1;
    }
    assert(plan.deep_view() =~= plan_of(names.deep_view()));
    plan
}

/// The plan as the station sees it.
pub open spec fn station_plan(plan: Seq<PhasePlanPayloadView>) -> Seq<PhasePlanView> {
    plan.map_values(
        |p: PhasePlanPayloadView| PhasePlanView { key: p.key, name: p.name, stage: Seq::empty() },
    )
}

fn make_station_plan(plan: &Vec<PhasePlanPayload>) -> (out: Vec<PhasePlan>)
    ensures
        out.deep_view() == station_plan(plan.deep_view()),
{
    let mut out: Vec<PhasePlan> = Vec::new();
    let mut i: usize = 0;
    while i < plan.len()
        invariant
            i <= plan@.len(),
            out@.len() == i,
            forall|k: int|
                0 <= k < i ==> (#[trigger] out@[k]).deep_view() == (PhasePlanView {
                    key: plan@[k].key@,
                    name: plan@[k].name@,
                    stage: Seq::empty(),
                }),
        decreases plan@.len() - i,
    {
        out.push(
            PhasePlan { key: plan[i].key.dup(), name: plan[i].name.dup(), stage: String::new() },
        );
        i += 1;
    }
    assert(out.deep_view() =~= station_plan(plan.deep_view()));
    out
}

/// The key of a phase: that of the first phase of its name in the plan, or its
/// name where the plan does not list it.
pub open spec fn canonical_key(plan: Seq<PhasePlanPayloadView>, name: Seq<char>) -> Seq<char> {
    match lookup::<PhasePlanPayload>(plan, name) {
        Some(p) => p.key,
        None => name,
    }
}

/// The key of a phase.
pub fn canonical_phase_key(plan: &Vec<PhasePlanPayload>, name: &str) -> (key: String)
    ensures
        key@ == canonical_key(plan.deep_view(), name@),
{
    match assoc::get(plan, name) {
        Some(p) => p.key.dup(),
        None => name.to_string(),
    }
}

/// The key of the phase that an event belongs to: the one that it names, or
/// the current one.
pub open spec fn attributed_key(p: PumpView, phase_name: Option<Seq<char>>) -> Seq<char> {
    match phase_name {
        Some(name) => {
            let key = canonical_key(p.plan, name);
            if key.len() > 0 {
                key
            } else {
                p.current
            }
        },
        None => p.current,
    }
}

/// Whether the start of a phase attempt was announced.
pub open spec fn has_started(p: PumpView, phase_key: Seq<char>, attempt: u32) -> bool {
    p.started.contains(StartedAttemptView { phase_key, attempt })
}

/// The state after the start of a phase attempt is announced, at most once.
pub open spec fn with_started(p: PumpView, phase_key: Seq<char>, attempt: u32) -> PumpView {
    if has_started(p, phase_key, attempt) {
        p
    } else {
        PumpView {
            started: p.started.push(StartedAttemptView { phase_key, attempt }),
            router: EventRouterView {
                history: if p.router.agent {
                    p.router.history.push(started_attempt(phase_key, attempt, None))
                } else {
                    p.router.history
                },
                ..p.router
            },
            ..p
        }
    }
}

/// What goes out when a phase attempt starts: nothing where its start was
/// announced.
pub open spec fn start_emissions(
    p: PumpView,
    phase_key: Seq<char>,
    name: Seq<char>,
    attempt: u32,
    now: Instant,
) -> Seq<EmissionView> {
    if has_started(p, phase_key, attempt) {
        Seq::empty()
    } else {
        phase_started_emissions(p.router, phase_key, name, attempt, None, now)
    }
}

/// How often a phase has begun.
pub open spec fn begun(p: PumpView, name: Seq<char>) -> Option<u32> {
    match lookup::<NameAttempt>(p.attempts, name) {
        Some(a) => Some(a.count),
        None => None,
    }
}

/// The next attempt of a phase.
pub open spec fn next_attempt(p: PumpView, name: Seq<char>) -> u32 {
    match begun(p, name) {
        Some(n) => if n < u32::MAX {
            (n + 1) as u32
        } else {
            u32::MAX
        },
        None => 1,
    }
}

/// The state with a count of attempts.
pub open spec fn with_attempt(p: PumpView, name: Seq<char>, count: u32) -> PumpView {
    PumpView {
        attempts: with_value::<NameAttempt>(p.attempts, NameAttemptView { name, count }),
        ..p
    }
}

/// A phase begins. OpenHTF repeats phases, so its attempts are counted; Robot
/// Framework runs each once.
pub open spec fn phase_begun(p: PumpView, name: Seq<char>, now: Instant) -> Progress {
    let key = canonical_key(p.plan, name);
    match p.connector {
        Connector::OpenHtf => {
            let attempt = next_attempt(p, name);
            let counted = with_attempt(p, name, attempt);
            Progress {
                pump: with_started(counted, key, attempt),
                step: sends(start_emissions(counted, key, name, attempt, now)),
            }
        },
        Connector::Robot => Progress {
            pump: PumpView { current: key, ..with_started(p, key, 1) },
            step: sends(start_emissions(p, key, name, 1, now)),
        },
    }
}

/// The attempt that a count of retries stands for.
pub open spec fn attempt_of_retries(retries: u64) -> u32 {
    if retries < u32::MAX {
        (retries + 1) as u32
    } else {
        u32::MAX
    }
}

/// A point in time in milliseconds, as the streams carry it.
pub open spec fn millis_text(millis: Option<i64>) -> Option<Seq<char>> {
    match millis {
        Some(ms) => Some(
            match millis_instant(ms) {
                Some(at) => stamp_text(at),
                None => Seq::empty(),
            },
        ),
        None => None,
    }
}

fn render_millis(millis: Option<i64>) -> (out: Option<String>)
    ensures
        out.deep_view() == millis_text(millis),
{
    match millis {
        Some(ms) => Some(
            match from_millis(ms) {
                Some(at) => stamp(at),
                None => String::new(),
            },
        ),
        None => None,
    }
}

/// The time between two points in milliseconds, where the second is not the
/// earlier.
pub open spec fn span_millis(start: Option<i64>, end: Option<i64>) -> Option<u64> {
    match (start, end) {
        (Some(s), Some(e)) => if e >= s {
            Some((e - s) as u64)
        } else {
            None
        },
        _ => None,
    }
}

fn span_of(start: Option<i64>, end: Option<i64>) -> (out: Option<u64>)
    ensures
        out == span_millis(start, end),
{
    match (start, end) {
        (Some(s), Some(e)) => if e >= s {
            let wide: i128 = e as i128 - s as i128;
            Some(wide as u64)
        } else {
            None
        },
        _ => None,
    }
}

/// What the end of a phase reports.
pub open spec fn finished_phase(p: PumpView, event: JsonView, typed: PythonEventView) -> PhaseFinishedView {
    match typed {
        PythonEventView::PhaseEnd {
            name,
            outcome,
            retry_count,
            start_time_millis,
            end_time_millis,
            error,
        } => PhaseFinishedView {
            phase_key: canonical_key(p.plan, name),
            phase_name: name,
            outcome,
            attempt: attempt_of_retries(retry_count),
            slot_id: None,
            error,
            started_at: millis_text(start_time_millis),
            ended_at: millis_text(end_time_millis),
            duration_ms: span_millis(start_time_millis, end_time_millis),
            station_measurements: live_measurements_in(event),
            station_logs: Seq::empty(),
        },
        _ => arbitrary(),
    }
}

/// A phase ends: its start is announced where it was not, then its end.
pub open spec fn phase_ended(
    p: PumpView,
    event: JsonView,
    typed: PythonEventView,
    now: Instant,
) -> Progress {
    let f = finished_phase(p, event, typed);
    let started = with_started(p, f.phase_key, f.attempt);
    Progress {
        pump: PumpView {
            phases: started.phases.push(event),
            router: EventRouterView {
                history: if started.router.agent {
                    with_finished(
                        started.router.history,
                        f.phase_key,
                        f.attempt,
                        None,
                        f.outcome,
                    )
                } else {
                    started.router.history
                },
                ..started.router
            },
            ..started
        },
        step: sends(
            start_emissions(p, f.phase_key, f.phase_name, f.attempt, now)
                + phase_finished_emissions(started.router, f),
        ),
    }
}

// ---------------------------------------------------------------------------
// The start of a test
// ---------------------------------------------------------------------------

/// A text in JSON, or null.
pub open spec fn text_json(s: Option<Seq<char>>) -> JsonView {
    match s {
        Some(s) => JsonView::Text(s),
        None => JsonView::Null,
    }
}

fn json_of_text_option(s: &Option<String>) -> (json: Json)
    ensures
        json.deep_view() == text_json(s.deep_view()),
{
    match s {
        Some(s) => Json::Text(s.dup()),
        None => Json::Null,
    }
}

/// The serial numbers of sub-units in JSON, or null where there are none.
pub open spec fn subs_json(subs: Option<Seq<KeyTextView>>) -> JsonView {
    match subs {
        Some(subs) => if subs.len() > 0 {
            JsonView::Array(serials(subs).map_values(|s: Seq<char>| JsonView::Text(s)))
        } else {
            JsonView::Null
        },
        None => JsonView::Null,
    }
}

fn json_of_subs(subs: &Option<Vec<KeyText>>) -> (json: Json)
    ensures
        json.deep_view() == subs_json(subs.deep_view()),
{
    match subs {
        Some(subs) => {
            if subs.len() == 0 {
                return Json::Null;
            }
            let list = serials_of(subs);
            let mut items: Vec<Json> = Vec::new();
            let mut i: usize = 0;
            while i < list.len()
                invariant
                    i <= list@.len(),
                    items@.len() == i,
                    forall|k: int|
                        0 <= k < i ==> (#[trigger] items@[k]).deep_view() == JsonView::Text(
                            list@[k]@,
                        ),
                decreases list@.len() - i,
            {
                items.push(Json::Text(list[i].dup()));
                i += 1;
            }
            assert(items.deep_view() =~= list.deep_view().map_values(
                |s: Seq<char>| JsonView::Text(s),
            ));
            Json::array(items)
        },
        None => Json::Null,
    }
}

/// The line that tells the connector which unit is tested; all null where none
/// was identified.
pub open spec fn unit_reply(unit: Option<EngineUnitView>) -> Seq<char> {
    let fields = match unit {
        Some(u) => seq![
            member("type"@, JsonView::Text("set_unit_resolved"@)),
            member("serial_number"@, text_json(u.serial_number)),
            member("part_number"@, text_json(u.part_number)),
            member("revision_number"@, text_json(u.revision_number)),
            member("batch_number"@, text_json(u.batch_number)),
            member("sub_units"@, subs_json(u.sub_units)),
        ],
        None => seq![
            member("type"@, JsonView::Text("set_unit_resolved"@)),
            member("serial_number"@, JsonView::Null),
            member("part_number"@, JsonView::Null),
            member("revision_number"@, JsonView::Null),
            member("batch_number"@, JsonView::Null),
            member("sub_units"@, JsonView::Null),
        ],
    };
    json_text(JsonView::Object(fields)) + "\n"@
}

fn make_unit_reply(unit: &Option<EngineUnit>) -> (line: String)
    ensures
        line@ == unit_reply(unit.deep_view()),
{
    let mut fields: Vec<JsonField> = Vec::new();
    push(&mut fields, field("type", Json::Text("set_unit_resolved".to_string())));
    match unit {
        Some(u) => {
            push(&mut fields, field("serial_number", json_of_text_option(&u.serial_number)));
            push(&mut fields, field("part_number", json_of_text_option(&u.part_number)));
            push(&mut fields, field("revision_number", json_of_text_option(&u.revision_number)));
            push(&mut fields, field("batch_number", json_of_text_option(&u.batch_number)));
            push(&mut fields, field("sub_units", json_of_subs(&u.sub_units)));
            assert(fields.deep_view() =~= seq![
                member("type"@, JsonView::Text("set_unit_resolved"@)),
                member("serial_number"@, text_json(u.deep_view().serial_number)),
                member("part_number"@, text_json(u.deep_view().part_number)),
                member("revision_number"@, text_json(u.deep_view().revision_number)),
                member("batch_number"@, text_json(u.deep_view().batch_number)),
                member("sub_units"@, subs_json(u.deep_view().sub_units)),
            ]);
        },
        None => {
            push(&mut fields, field("serial_number", Json::Null));
            push(&mut fields, field("part_number", Json::Null));
            push(&mut fields, field("revision_number", Json::Null));
            push(&mut fields, field("batch_number", Json::Null));
            push(&mut fields, field("sub_units", Json::Null));
            assert(fields.deep_view() =~= seq![
                member("type"@, JsonView::Text("set_unit_resolved"@)),
                member("serial_number"@, JsonView::Null),
                member("part_number"@, JsonView::Null),
                member("revision_number"@, JsonView::Null),
                member("batch_number"@, JsonView::Null),
                member("sub_units"@, JsonView::Null),
            ]);
        },
    }
    let mut line = Json::object(fields).render();
    line.append("\n");
    line
}

/// The start of a run for the station.
pub open spec fn run_started_event(
    p: PumpView,
    unit: Option<EngineUnitView>,
    now: Instant,
) -> StationEventView {
    StationEventView::RunStarted {
        procedure_id: p.procedure_id,
        procedure_name: p.procedure_name,
        execution_id: p.router.execution_id,
        phases: station_plan(p.plan),
        slots: Seq::empty(),
        slot_names: Seq::empty(),
        slot_units: Seq::empty(),
        plugs: Seq::empty(),
        timestamp: Some(stamp_text(now)),
        run_id: None,
        deployment_id: p.deployment_id,
        unit: match unit {
            Some(u) => Some(wire_unit(u)),
            None => None,
        },
        only_phase: None,
    }
}

/// What goes out when the run starts.
pub open spec fn run_started_emissions(
    p: PumpView,
    unit: Option<EngineUnitView>,
    now: Instant,
) -> Seq<EmissionView> {
    seq![EmissionView::Station(run_started_event(p, unit, now))] + to_agent(
        p.router.agent,
        CliEventView::Plan { phases: p.plan },
    )
}

/// The run starts: the connector is told the unit, then the run is announced.
pub open spec fn run_begun(
    p: PumpView,
    event: JsonView,
    unit: Option<EngineUnitView>,
    emissions: Seq<EmissionView>,
    now: Instant,
) -> Progress {
    Progress {
        pump: PumpView { test_start: Some(event), waiting: WaitingView::Nothing, ..p },
        step: StepView {
            emissions,
            reply: Some(unit_reply(unit)),
            later: run_started_emissions(p, unit, now),
            action: PumpActionView::Next,
        },
    }
}

/// A test starts. Its unit is identified first, unless the test does not want
/// it; the unit of an earlier run is checked instead, where there is one.
pub open spec fn test_started(
    p: PumpView,
    event: JsonView,
    typed: PythonEventView,
    now: Instant,
) -> Progress {
    match typed {
        PythonEventView::TestStart { test_name, phases, identify, auto_identify, unit_kwargs } => {
            let planned = PumpView { plan: plan_of(phases), ..p };
            let config = config_of(unit_kwargs, auto_identify);
            if !identify {
                run_begun(planned, event, None, Seq::empty(), now)
            } else {
                Progress {
                    pump: PumpView {
                        waiting: WaitingView::Unit { event, reused: p.reuse_unit is Some },
                        ..planned
                    },
                    step: StepView {
                        emissions: Seq::empty(),
                        reply: None,
                        later: Seq::empty(),
                        action: match p.reuse_unit {
                            Some(wire) => PumpActionView::Validate {
                                unit: engine_unit(wire),
                                config,
                            },
                            None => PumpActionView::Identify { config },
                        },
                    },
                }
            }
        },
        _ => arbitrary(),
    }
}

/// The unit as the upload takes it.
pub open spec fn resolved(unit: EngineUnitView) -> ResolvedUnitView {
    ResolvedUnitView {
        serial_number: unit.serial_number,
        part_number: unit.part_number,
        revision_number: unit.revision_number,
        batch_number: unit.batch_number,
        sub_units: match unit.sub_units {
            Some(subs) => subs,
            None => Seq::empty(),
        },
    }
}

fn resolve(unit: &EngineUnit) -> (out: ResolvedUnit)
    ensures
        out.deep_view() == resolved(unit.deep_view()),
{
    let sub_units = match &unit.sub_units {
        Some(subs) => subs.dup(),
        None => {
            let none: Vec<KeyText> = Vec::new();
            assert(none.deep_view() =~= Seq::empty());
            none
        },
    };
    ResolvedUnit {
        serial_number: unit.serial_number.dup(),
        part_number: unit.part_number.dup(),
        revision_number: unit.revision_number.dup(),
        batch_number: unit.batch_number.dup(),
        sub_units,
    }
}

/// The error of a unit that could not be identified.
pub open spec fn identify_failure(reused: bool, error: Seq<char>) -> Seq<char> {
    if reused {
        "reuse_unit failed validation: "@ + error
    } else {
        error
    }
}

/// The unit is identified, or could not be: then the run crashes, the
/// connector is told of no unit, and nothing more is read.
pub open spec fn unit_identified(p: PumpView, outcome: IdentificationView, now: Instant) -> Progress {
    match p.waiting {
        WaitingView::Unit { event, reused } => match outcome {
            IdentificationView::Resolved(unit) => run_begun(
                PumpView { unit: resolved(unit), ..p },
                event,
                Some(unit),
                identify_resolved_emissions(p.router, None, wire_unit(unit), now),
                now,
            ),
            IdentificationView::Failed(error) => {
                let message = identify_failure(reused, error);
                Progress {
                    pump: PumpView {
                        identify_error: Some(message),
                        waiting: WaitingView::Nothing,
                        ..p
                    },
                    step: StepView {
                        emissions: run_crashed_emissions(
                            false,
                            p.procedure_id,
                            p.router.execution_id,
                            "identify_unit_failed"@,
                            message,
                            1,
                        ),
                        reply: Some(unit_reply(None)),
                        later: Seq::empty(),
                        action: PumpActionView::Stop,
                    },
                }
            },
        },
        _ => Progress { pump: p, step: sends(Seq::empty()) },
    }
}

// ---------------------------------------------------------------------------
// Prompts
// ---------------------------------------------------------------------------

/// A component of a prompt.
pub open spec fn prompt_component(
    key: Seq<char>,
    t: ComponentType,
    required: bool,
    label: Option<Seq<char>>,
    default_value: Option<ComponentValueView>,
) -> UiComponentView {
    UiComponentView { key, label, required, default_value, ..bare_component(t) }
}

fn make_component(
    key: &str,
    component_type: ComponentType,
    required: bool,
    label: Option<String>,
    default_value: Option<ComponentValue>,
) -> (component: UiComponent)
    ensures
        component.deep_view() == prompt_component(
            key@,
            component_type,
            required,
            label.deep_view(),
            default_value.deep_view(),
        ),
{
    let mut component = UiComponent::new(component_type);
    component.key = key.to_string();
    component.label = label;
    component.required = required;
    component.default_value = default_value;
    component
}

/// The components of a prompt: the image and the message, where there are any,
/// then what the operator answers with.
pub open spec fn prompt_components(
    message: Seq<char>,
    text_input: bool,
    image_url: Option<Seq<char>>,
) -> Seq<UiComponentView> {
    let image = match image_url {
        Some(url) => seq![
            prompt_component(
                "image"@,
                ComponentType::Image,
                false,
                None,
                Some(ComponentValueView::String(url)),
            ),
        ],
        None => Seq::empty(),
    };
    let shown = if message.len() > 0 {
        image.push(
            prompt_component(
                "message"@,
                ComponentType::Text,
                false,
                None,
                Some(ComponentValueView::String(message)),
            ),
        )
    } else {
        image
    };
    shown.push(
        if text_input {
            prompt_component("response"@, ComponentType::TextInput, true, Some("Response"@), None)
        } else {
            prompt_component("acknowledge"@, ComponentType::Switch, true, Some("Acknowledge"@), None)
        },
    )
}

fn make_prompt_components(
    message: &str,
    text_input: bool,
    image_url: &Option<String>,
) -> (out: Vec<UiComponent>)
    ensures
        out.deep_view() == prompt_components(message@, text_input, image_url.deep_view()),
{
    let mut out: Vec<UiComponent> = Vec::new();
    assert(out.deep_view() =~= Seq::empty());
    match image_url {
        Some(url) => {
            push(
                &mut out,
                make_component(
                    "image",
                    ComponentType::Image,
                    false,
                    None,
                    Some(ComponentValue::String(url.dup())),
                ),
            );
            assert(out.deep_view() =~= seq![
                prompt_component(
                    "image"@,
                    ComponentType::Image,
                    false,
                    None,
                    Some(ComponentValueView::String(url@)),
                ),
            ]);
        },
        None => {},
    }
    if !message.is_empty() {
        push(
            &mut out,
            make_component(
                "message",
                ComponentType::Text,
                false,
                None,
                Some(ComponentValue::String(message.to_string())),
            ),
        );
    }
    if text_input {
        push(
            &mut out,
            make_component(
                "response",
                ComponentType::TextInput,
                true,
                Some("Response".to_string()),
                None,
            ),
        );
    } else {
        push(
            &mut out,
            make_component(
                "acknowledge",
                ComponentType::Switch,
                true,
                Some("Acknowledge".to_string()),
                None,
            ),
        );
    }
    out
}

/// How long a prompt waits: as long as it says itself, or as long as prompts
/// wait by default.
pub open spec fn prompt_timeout(own: Option<u64>, default: Option<u64>) -> PromptTimeoutView {
    match own {
        Some(bits) => if double_less(0, bits) {
            PromptTimeoutView::Seconds(bits)
        } else {
            default_timeout(default)
        },
        None => default_timeout(default),
    }
}

/// How long prompts wait by default.
pub open spec fn default_timeout(default: Option<u64>) -> PromptTimeoutView {
    match default {
        Some(ms) => PromptTimeoutView::Millis(ms),
        None => PromptTimeoutView::Never,
    }
}

fn choose_timeout(own: Option<u64>, default: Option<u64>) -> (out: PromptTimeout)
    ensures
        out.deep_view() == prompt_timeout(own, default),
{
    match own {
        Some(bits) => {
            if is_less(0, bits) {
                return PromptTimeout::Seconds(bits);
            }
        },
        None => {},
    }
    match default {
        Some(ms) => PromptTimeout::Millis(ms),
        None => PromptTimeout::Never,
    }
}

/// The prompt as the surfaces see it.
pub open spec fn prompt_request(
    prompt_id: Seq<char>,
    phase_key: Seq<char>,
    components: Seq<UiComponentView>,
) -> UiRequestDataView {
    UiRequestDataView {
        request_id: prompt_id,
        job_id: Seq::empty(),
        pipe_path: Seq::empty(),
        components,
        requires_input: Some(true),
        requires_user_input: true,
        phase_key,
        slot_id: None,
    }
}

/// What goes out with a prompt: to the station, to the terminal form and to
/// the agent, where there are such.
pub open spec fn prompt_emissions(
    p: PumpView,
    request: UiRequestDataView,
    message: Seq<char>,
    now: Instant,
) -> Seq<EmissionView> {
    let station = seq![
        EmissionView::Station(
            ui_request_event(
                p.router.execution_id,
                request.request_id,
                request.phase_key,
                None,
                request.components,
                true,
                now,
            ),
        ),
    ];
    let shown = if p.has_terminal {
        station.push(EmissionView::Terminal(request))
    } else {
        station
    };
    shown + to_agent(
        p.router.agent,
        CliEventView::UiRequest {
            request_id: request.request_id,
            phase_key: request.phase_key,
            phase_description: Some(message),
            requires_input: true,
            components: agent_components(request.components),
        },
    )
}

/// The state when a prompt names its phase: the phase is the current one, and
/// its start is announced where it was not.
pub open spec fn prompt_phase(p: PumpView, phase_name: Option<Seq<char>>) -> PumpView {
    match phase_name {
        Some(name) => {
            let key = canonical_key(p.plan, name);
            let attempt = match begun(p, name) {
                Some(n) => n,
                None => 1,
            };
            PumpView {
                current: key,
                ..with_started(with_attempt(p, name, attempt), key, attempt)
            }
        },
        None => p,
    }
}

/// What goes out when a prompt names its phase.
pub open spec fn prompt_phase_emissions(
    p: PumpView,
    phase_name: Option<Seq<char>>,
    now: Instant,
) -> Seq<EmissionView> {
    match phase_name {
        Some(name) => start_emissions(
            p,
            canonical_key(p.plan, name),
            name,
            match begun(p, name) {
                Some(n) => n,
                None => 1,
            },
            now,
        ),
        None => Seq::empty(),
    }
}

/// A test asks the operator. Robot Framework has no prompts.
pub open spec fn prompted(p: PumpView, typed: PythonEventView, now: Instant) -> Progress {
    match typed {
        PythonEventView::Prompt {
            prompt_id,
            phase_name,
            message,
            text_input,
            image_url,
            timeout_s,
        } => if p.connector == Connector::Robot {
            Progress { pump: p, step: sends(Seq::empty()) }
        } else {
            let at = prompt_phase(p, phase_name);
            let request = prompt_request(
                prompt_id,
                at.current,
                prompt_components(message, text_input, image_url),
            );
            Progress {
                pump: PumpView {
                    waiting: WaitingView::Answer { prompt_id, phase_key: at.current },
                    ..at
                },
                step: StepView {
                    emissions: prompt_phase_emissions(p, phase_name, now) + prompt_emissions(
                        at,
                        request,
                        message,
                        now,
                    ),
                    reply: None,
                    later: Seq::empty(),
                    action: PumpActionView::Ask {
                        request,
                        timeout: prompt_timeout(timeout_s, p.agent_timeout),
                    },
                },
            }
        },
        _ => arbitrary(),
    }
}

/// The answer of an operator, as prompts of the framework take it.
pub open spec fn response_of(values: Seq<KeyTextView>) -> Seq<char> {
    match lookup::<KeyText>(values, "response"@) {
        Some(entry) => entry.text,
        None => Seq::empty(),
    }
}

/// The answer of an operator.
pub fn response_value(values: &Vec<KeyText>) -> (out: String)
    ensures
        out@ == response_of(values.deep_view()),
{
    match assoc::get(values, "response") {
        Some(entry) => entry.text.dup(),
        None => String::new(),
    }
}

/// The line that tells the connector the answer to a prompt.
pub open spec fn answer_reply(response: Seq<char>) -> Seq<char> {
    json_text(JsonView::Object(seq![member("response"@, JsonView::Text(response))])) + "\n"@
}

fn make_answer_reply(response: String) -> (line: String)
    ensures
        line@ == answer_reply(response@),
{
    let mut fields: Vec<JsonField> = Vec::new();
    push(&mut fields, field("response", Json::Text(response)));
    assert(fields.deep_view() =~= seq![member("response"@, JsonView::Text(response@))]);
    let mut line = Json::object(fields).render();
    line.append("\n");
    line
}

/// A prompt is answered, or will not be: then the answer is empty, and the
/// agent hears of a prompt that timed out.
pub open spec fn prompt_answered(p: PumpView, answer: AnswerView) -> Progress {
    match p.waiting {
        WaitingView::Answer { prompt_id, phase_key } => Progress {
            pump: PumpView { waiting: WaitingView::Nothing, ..p },
            step: StepView {
                emissions: if answer is TimedOut {
                    to_agent(
                        p.router.agent,
                        CliEventView::UiTimeout { request_id: prompt_id, phase_key },
                    )
                } else {
                    Seq::empty()
                },
                reply: Some(
                    answer_reply(
                        match answer {
                            AnswerView::Values(values) => response_of(values),
                            _ => Seq::empty(),
                        },
                    ),
                ),
                later: Seq::empty(),
                action: PumpActionView::Next,
            },
        },
        _ => Progress { pump: p, step: sends(Seq::empty()) },
    }
}

// ---------------------------------------------------------------------------
// Other events
// ---------------------------------------------------------------------------

/// What stands for an unknown event that is too large to pass on.
pub open spec fn unknown_marker(size: nat, kind: Seq<char>) -> JsonView {
    JsonView::Object(
        seq![
            member("truncated"@, JsonView::Bool(true)),
            member("original_size_bytes"@, JsonView::Number(int_number(size))),
            member("type"@, JsonView::Text(kind)),
        ],
    )
}

/// The warning that an event of an unknown type and of some size gives.
pub open spec fn unknown_event(event: JsonView, size: nat) -> CliEventView {
    let kind = text_or(member_text(event, "type"@), "?"@);
    CliEventView::InternalWarning {
        kind: "unknown_python_event"@,
        message: "python connector emitted event type '"@ + kind
            + "' with no matching Rust variant (CLI/connector version mismatch)"@,
        detail: Some(
            if size <= MAX_UNKNOWN_EVENT_BYTES {
                event
            } else {
                unknown_marker(size, kind)
            },
        ),
    }
}

/// The warning that an event of an unknown type gives.
pub open spec fn unknown_warning(event: JsonView) -> CliEventView {
    unknown_event(event, json_size(event))
}

/// What the terminal is told of an event: what a warning says, and that an
/// event is of an unknown type or not one at all.
pub open spec fn notice(line: Seq<char>, event: JsonView, typed: Option<PythonEventView>) -> Option<
    Seq<char>,
> {
    match typed {
        None => Some("[tofupilot] unparseable connector event: "@ + line),
        Some(PythonEventView::Warning { message }) => Some("[tofupilot-connector] "@ + message),
        Some(PythonEventView::Unknown) => Some(
            "[tofupilot] unknown connector event type (rust lacks a variant): "@ + text_or(
                member_text(event, "type"@),
                "?"@,
            ),
        ),
        _ => None,
    }
}

/// What the terminal is told of a line; nothing where it is not JSON.
pub open spec fn line_notice(line: Seq<char>) -> Option<Seq<char>> {
    match json_of_text(line) {
        Some(event) => notice(line, event, event_of(event)),
        None => None,
    }
}

/// What the terminal is told of an event.
pub fn notice_of(line: &str, event: &Json, typed: &Option<PythonEvent>) -> (told: Option<String>)
    ensures
        told.deep_view() == notice(line@, event.deep_view(), typed.deep_view()),
{
    match typed {
        None => Some(text::concat2("[tofupilot] unparseable connector event: ", line)),
        Some(PythonEvent::Warning { message }) => Some(
            text::concat2("[tofupilot-connector] ", message.as_str()),
        ),
        Some(PythonEvent::Unknown) => {
            let kind = match event.get_text("type") {
                Some(s) => s.as_str(),
                None => "?",
            };
            Some(
                text::concat2(
                    "[tofupilot] unknown connector event type (rust lacks a variant): ",
                    kind,
                ),
            )
        },
        _ => None,
    }
}

/// Warns of an event of an unknown type and of some size.
pub fn warn_of_unknown(event: &Json, size: usize) -> (out: CliEvent)
    ensures
        out.deep_view() == unknown_event(event.deep_view(), size as nat),
{
    let kind = match event.get_text("type") {
        Some(s) => s.dup(),
        None => "?".to_string(),
    };
    let message = text::concat3(
        "python connector emitted event type '",
        kind.as_str(),
        "' with no matching Rust variant (CLI/connector version mismatch)",
    );
    let detail = if size <= MAX_UNKNOWN_EVENT_BYTES {
        event.dup()
    } else {
        let mut fields: Vec<JsonField> = Vec::new();
        push(&mut fields, field("truncated", Json::Bool(true)));
        push(&mut fields, field("original_size_bytes", Json::integer(size as u64)));
        push(&mut fields, field("type", Json::Text(kind)));
        assert(fields.deep_view() =~= seq![
            member("truncated"@, JsonView::Bool(true)),
            member("original_size_bytes"@, JsonView::Number(int_number(size as nat))),
            member("type"@, JsonView::Text(kind@)),
        ]);
        Json::object(fields)
    };
    CliEvent::InternalWarning {
        kind: "unknown_python_event".to_string(),
        message,
        detail: Some(detail),
    }
}

fn make_unknown_warning(event: &Json) -> (out: CliEvent)
    ensures
        out.deep_view() == unknown_warning(event.deep_view()),
{
    warn_of_unknown(event, event.size())
}

/// A file is attached: while its phase runs the agent hears of it, after the
/// test it joins the upload.
pub open spec fn attached(p: PumpView, typed: PythonEventView) -> Progress {
    match typed {
        PythonEventView::Attachment { name, path, mimetype, live, phase_name } => if live {
            Progress {
                pump: p,
                step: sends(
                    to_agent(
                        p.router.agent,
                        CliEventView::AttachmentAdded {
                            phase_key: attributed_key(p, phase_name),
                            name,
                            path: Some(path),
                            mimetype: Some(mimetype),
                            slot_id: None,
                        },
                    ),
                ),
            }
        } else {
            Progress {
                pump: PumpView {
                    attachments: p.attachments.push(
                        QueuedAttachmentView {
                            name,
                            path,
                            mimetype,
                            phase_key: match p.connector {
                                Connector::OpenHtf => Seq::empty(),
                                Connector::Robot => attributed_key(p, phase_name),
                            },
                        },
                    ),
                    ..p
                },
                step: sends(Seq::empty()),
            }
        },
        _ => arbitrary(),
    }
}

/// The state and what an event leads to.
pub open spec fn handled(
    p: PumpView,
    event: JsonView,
    typed: PythonEventView,
    now: Instant,
) -> Progress {
    match typed {
        PythonEventView::BridgeReady => Progress { pump: p, step: sends(Seq::empty()) },
        PythonEventView::Warning { .. } => Progress { pump: p, step: sends(Seq::empty()) },
        PythonEventView::Unknown => Progress {
            pump: p,
            step: sends(
                to_agent(
                    p.router.agent && p.connector == Connector::OpenHtf,
                    unknown_warning(event),
                ),
            ),
        },
        PythonEventView::TestStart { .. } => test_started(p, event, typed, now),
        PythonEventView::PhaseBegin { name } => phase_begun(p, name, now),
        PythonEventView::PhaseEnd { .. } => phase_ended(p, event, typed, now),
        PythonEventView::TestEnd { outcome } => Progress {
            pump: PumpView { test_end: Some(event), ..p },
            step: sends(
                seq![
                    EmissionView::Station(
                        run_complete_event(outcome, p.router.execution_id, None, Seq::empty()),
                    ),
                ],
            ),
        },
        PythonEventView::Prompt { .. } => prompted(p, typed, now),
        PythonEventView::Attachment { .. } => attached(p, typed),
        PythonEventView::Measurement { name, value, phase_name, unit } => Progress {
            pump: p,
            step: sends(
                to_agent(
                    p.router.agent,
                    CliEventView::MeasurementRecorded {
                        phase_key: attributed_key(p, phase_name),
                        name,
                        value,
                        outcome: "unset"@,
                        unit,
                        slot_id: None,
                    },
                ),
            ),
        },
        PythonEventView::PhaseLog {
            level,
            message,
            timestamp,
            phase_name,
            file,
            line,
        } => Progress {
            pump: p,
            step: sends(
                to_agent(
                    p.router.agent,
                    CliEventView::PhaseLog {
                        phase_key: attributed_key(p, phase_name),
                        level,
                        message,
                        timestamp,
                        slot_id: None,
                        file,
                        line,
                    },
                ),
            ),
        },
    }
}

/// How a run ends.
pub open spec fn concluded(
    p: PumpView,
    ctx: RunContextView,
    cancelled: bool,
    exit_code: i32,
    stderr_tail: Seq<char>,
    now: Instant,
) -> ConclusionView {
    if cancelled {
        ConclusionView {
            emissions: seq![
                EmissionView::Station(
                    run_complete_event(ABORTED@, p.router.execution_id, None, Seq::empty()),
                ),
            ] + to_agent(
                p.router.agent,
                CliEventView::RunCrashed { exit_code, stderr_tail: Seq::empty() },
            ),
            exit_code,
            queued: None,
        }
    } else if p.identify_error is Some {
        ConclusionView {
            emissions: to_agent(
                p.router.agent,
                CliEventView::RunCrashed { exit_code: 1, stderr_tail: p.identify_error->0 },
            ),
            exit_code: 1,
            queued: None,
        }
    } else if p.test_end is None {
        ConclusionView {
            emissions: run_crashed_emissions(
                p.router.agent,
                p.procedure_id,
                p.router.execution_id,
                "subprocess_crash"@,
                stderr_tail,
                exit_code,
            ),
            exit_code,
            queued: None,
        }
    } else {
        ConclusionView {
            emissions: Seq::empty(),
            exit_code: outcome_exit_code(
                p.connector,
                text_or(member_text(p.test_end->0, "outcome"@), ERROR@),
            ),
            queued: Some(
                fresh_run(
                    request_of(
                        p.connector,
                        p.test_end->0,
                        p.test_start,
                        p.phases,
                        p.unit,
                        ctx,
                        now,
                    ),
                    p.attachments,
                ),
            ),
        }
    }
}

/// The exit code of a test by its outcome. The frameworks' own exit codes do
/// not tell.
pub open spec fn outcome_exit_code(connector: Connector, outcome: Seq<char>) -> i32 {
    if outcome == PASS@ {
        0
    } else if connector == Connector::Robot && outcome == ERROR@ {
        5
    } else {
        1
    }
}

/// A run that is not uploaded yet.
pub open spec fn fresh_run(
    request: RunCreateRequestView,
    attachments: Seq<QueuedAttachmentView>,
) -> QueuedRunView {
    QueuedRunView {
        request,
        attachments,
        run_id: None,
        attempt_count: 0,
        last_attempt_at: None,
        next_retry_at: None,
        parked: false,
        last_error: None,
        queued_at: None,
    }
}

/// Builds a run that is not uploaded yet.
pub fn new_run(request: RunCreateRequest, attachments: Vec<QueuedAttachment>) -> (run: QueuedRun)
    ensures
        run.deep_view() == fresh_run(request.deep_view(), attachments.deep_view()),
{
    QueuedRun {
        request,
        attachments,
        run_id: None,
        attempt_count: 0,
        last_attempt_at: None,
        next_retry_at: None,
        parked: false,
        last_error: None,
        queued_at: None,
    }
}

impl Pump {
    /// The state before the first line.
    pub fn new(
        connector: Connector,
        procedure_id: String,
        procedure_name: String,
        execution_id: String,
        agent: bool,
        agent_timeout: Option<u64>,
        has_terminal: bool,
        json_mode: bool,
        reuse_unit: Option<UnitInfo>,
        deployment_id: Option<String>,
    ) -> (pump: Self)
        ensures
            pump.deep_view() == (PumpView {
                connector,
                procedure_name: procedure_name@,
                deployment_id: match connector {
                    Connector::OpenHtf => None,
                    Connector::Robot => deployment_id.deep_view(),
                },
                has_terminal,
                json_mode,
                agent_timeout,
                reuse_unit: reuse_unit.deep_view(),
                procedure_id: procedure_id@,
                router: EventRouterView {
                    execution_id: execution_id@,
                    agent,
                    history: Seq::empty(),
                },
                phases: Seq::empty(),
                test_end: None,
                test_start: None,
                attachments: Seq::empty(),
                unit: ResolvedUnitView {
                    serial_number: None,
                    part_number: None,
                    revision_number: None,
                    batch_number: None,
                    sub_units: Seq::empty(),
                },
                identify_error: None,
                plan: Seq::empty(),
                attempts: Seq::empty(),
                started: Seq::empty(),
                current: Seq::empty(),
                waiting: WaitingView::Nothing,
            }),
    {
        let announced = match connector {
            Connector::OpenHtf => None,
            Connector::Robot => deployment_id,
        };
        let pump = Pump {
            connector,
            procedure_name,
            deployment_id: announced,
            has_terminal,
            json_mode,
            agent_timeout,
            reuse_unit,
            procedure_id,
            router: EventRouter::new(execution_id, agent),
            phases: Vec::new(),
            test_end: None,
            test_start: None,
            attachments: Vec::new(),
            unit: ResolvedUnit {
                serial_number: None,
                part_number: None,
                revision_number: None,
                batch_number: None,
                sub_units: Vec::new(),
            },
            identify_error: None,
            plan: Vec::new(),
            attempts: Vec::new(),
            started: Vec::new(),
            current: String::new(),
            waiting: Waiting::Nothing,
        };
        assert(pump.phases.deep_view() =~= Seq::empty());
        assert(pump.attachments.deep_view() =~= Seq::empty());
        assert(pump.unit.sub_units.deep_view() =~= Seq::empty());
        assert(pump.plan.deep_view() =~= Seq::empty());
        assert(pump.attempts.deep_view() =~= Seq::empty());
        assert(pump.started.deep_view() =~= Seq::empty());
        pump
    }

    fn knows_started(&self, phase_key: &str, attempt: u32) -> (yes: bool)
        ensures
            yes == has_started(self.deep_view(), phase_key@, attempt),
    {
        let ghost wanted = StartedAttemptView { phase_key: phase_key@, attempt };
        let mut i: usize = 0;
        while i < self.started.len()
            invariant
                i <= self.started@.len(),
                wanted == (StartedAttemptView { phase_key: phase_key@, attempt }),
                forall|k: int| 0 <= k < i ==> (#[trigger] self.started.deep_view()[k]) != wanted,
            decreases self.started@.len() - i,
        {
            assert(self.started.deep_view()[i as int] == self.started@[i as int].deep_view());
            if self.started[i].attempt == attempt && text::same(
                self.started[i].phase_key.as_str(),
                phase_key,
            ) {
                assert(self.started.deep_view()[i as int] == wanted);
                return true;
            }
            i += 1;
        }
        false
    }

    fn emit_phase_started(
        &mut self,
        phase_key: &str,
        phase_name: &str,
        attempt: u32,
        now: Instant,
    ) -> (out: Vec<Emission>)
        ensures
            out.deep_view() == start_emissions(
                old(self).deep_view(),
                phase_key@,
                phase_name@,
                attempt,
                now,
            ),
            final(self).deep_view() == with_started(old(self).deep_view(), phase_key@, attempt),
    {
        if self.knows_started(phase_key, attempt) {
            return no_emissions();
        }
        push(
            &mut self.started,
            StartedAttempt { phase_key: phase_key.to_string(), attempt },
        );
        self.router.phase_started(phase_key, phase_name, attempt, None, None, now)
    }

    fn attribute(&self, phase_name: &Option<String>) -> (key: String)
        ensures
            key@ == attributed_key(self.deep_view(), phase_name.deep_view()),
    {
        match phase_name {
            Some(name) => {
                let key = canonical_phase_key(&self.plan, name.as_str());
                if key.as_str().is_empty() {
                    self.current.dup()
                } else {
                    key
                }
            },
            None => self.current.dup(),
        }
    }

    fn count_of(&self, name: &str) -> (count: Option<u32>)
        ensures
            count == begun(self.deep_view(), name@),
    {
        match assoc::get(&self.attempts, name) {
            Some(a) => Some(a.count),
            None => None,
        }
    }

    fn set_count(&mut self, name: &str, count: u32)
        ensures
            final(self).deep_view() == with_attempt(old(self).deep_view(), name@, count),
    {
        assoc::put(&mut self.attempts, NameAttempt { name: name.to_string(), count });
    }

    fn begin_phase(&mut self, name: String, now: Instant) -> (step: Step)
        ensures
            (Progress { pump: final(self).deep_view(), step: step.deep_view() }) == phase_begun(
                old(self).deep_view(),
                name@,
                now,
            ),
    {
        let key = canonical_phase_key(&self.plan, name.as_str());
        match self.connector {
            Connector::OpenHtf => {
                let attempt: u32 = match self.count_of(name.as_str()) {
                    Some(n) => if n < u32::MAX {
                        n + 1
                    } else {
                        u32::MAX
                    },
                    None => 1,
                };
                self.set_count(name.as_str(), attempt);
                let out = self.emit_phase_started(key.as_str(), name.as_str(), attempt, now);
                sending(out)
            },
            Connector::Robot => {
                let out = self.emit_phase_started(key.as_str(), name.as_str(), 1, now);
                self.current = key;
                sending(out)
            },
        }
    }

    fn end_phase(&mut self, event: Json, typed: PythonEvent, now: Instant) -> (step: Step)
        requires
            typed is PhaseEnd,
        ensures
            (Progress { pump: final(self).deep_view(), step: step.deep_view() }) == phase_ended(
                old(self).deep_view(),
                event.deep_view(),
                typed.deep_view(),
                now,
            ),
    {
        match typed {
            PythonEvent::PhaseEnd {
                name,
                outcome,
                retry_count,
                start_time_millis,
                end_time_millis,
                error,
            } => {
                let key = canonical_phase_key(&self.plan, name.as_str());
                let attempt: u32 = if retry_count < u32::MAX as u64 {
                    retry_count as u32 + 1
                } else {
                    u32::MAX
                };
                let measurements = extract_run_measurements(&event);
                let logs: Vec<PhaseLogLine> = Vec::new();
                assert(logs.deep_view() =~= Seq::empty());
                let mut out = self.emit_phase_started(key.as_str(), name.as_str(), attempt, now);
                let ghost first = out.deep_view();
                let mut more = self.router.phase_finished(
                    PhaseFinished {
                        phase_key: key,
                        phase_name: name,
                        outcome,
                        attempt,
                        slot_id: None,
                        error,
                        started_at: render_millis(start_time_millis),
                        ended_at: render_millis(end_time_millis),
                        duration_ms: span_of(start_time_millis, end_time_millis),
                        station_measurements: measurements,
                        station_logs: logs,
                    },
                );
                let ghost second = more.deep_view();
                out.append(&mut more);
                assert(out.deep_view() =~= first + second);
                push(&mut self.phases, event);
                sending(out)
            },
            _ => sending(no_emissions()),
        }
    }

    fn begin_run(
        &mut self,
        event: Json,
        unit: Option<EngineUnit>,
        emissions: Vec<Emission>,
        now: Instant,
    ) -> (step: Step)
        ensures
            (Progress { pump: final(self).deep_view(), step: step.deep_view() }) == run_begun(
                old(self).deep_view(),
                event.deep_view(),
                unit.deep_view(),
                emissions.deep_view(),
                now,
            ),
    {
        let slots: Vec<String> = Vec::new();
        let slot_names: Vec<KeyText> = Vec::new();
        let slot_units: Vec<KeyUnit> = Vec::new();
        let plugs: Vec<PlugDefinition> = Vec::new();
        assert(slots.deep_view() =~= Seq::empty());
        assert(slot_names.deep_view() =~= Seq::empty());
        assert(slot_units.deep_view() =~= Seq::empty());
        assert(plugs.deep_view() =~= Seq::empty());
        let wire = match &unit {
            Some(u) => Some(unit_info_to_wire(u)),
            None => None,
        };
        let mut later = one(
            Emission::Station(
                StationEvent::RunStarted {
                    procedure_id: self.procedure_id.dup(),
                    procedure_name: self.procedure_name.dup(),
                    execution_id: self.router.execution_id.dup(),
                    phases: make_station_plan(&self.plan),
                    slots,
                    slot_names,
                    slot_units,
                    plugs,
                    timestamp: Some(stamp(now)),
                    run_id: None,
                    deployment_id: self.deployment_id.dup(),
                    unit: wire,
                    only_phase: None,
                },
            ),
        );
        let ghost first = later.deep_view();
        let mut plan = agent_only(self.router.agent, CliEvent::Plan { phases: self.plan.dup() });
        let ghost second = plan.deep_view();
        later.append(&mut plan);
        assert(later.deep_view() =~= first + second);
        let reply = make_unit_reply(&unit);
        self.test_start = Some(event);
        self.waiting = Waiting::Nothing;
        Step { emissions, reply: Some(reply), later, action: PumpAction::Next }
    }

    fn start_test(&mut self, event: Json, typed: PythonEvent, now: Instant) -> (step: Step)
        requires
            typed is TestStart,
        ensures
            (Progress { pump: final(self).deep_view(), step: step.deep_view() }) == test_started(
                old(self).deep_view(),
                event.deep_view(),
                typed.deep_view(),
                now,
            ),
    {
        match typed {
            PythonEvent::TestStart { test_name, phases, identify, auto_identify, unit_kwargs } => {
                self.plan = make_plan(&phases);
                if !identify {
                    return self.begin_run(event, None, no_emissions(), now);
                }
                let config = build_unit_config_from_kwargs(&unit_kwargs, auto_identify);
                let reused = self.reuse_unit.is_some();
                let action = match &self.reuse_unit {
                    Some(wire) => PumpAction::Validate {
                        unit: wire_unit_to_engine(wire.dup()),
                        config,
                    },
                    None => PumpAction::Identify { config },
                };
                self.waiting = Waiting::Unit { event, reused };
                Step { emissions: no_emissions(), reply: None, later: no_emissions(), action }
            },
            _ => sending(no_emissions()),
        }
    }

    /// The unit is identified, or could not be.
    pub fn identified(&mut self, outcome: Identification, now: Instant) -> (step: Step)
        ensures
            (Progress { pump: final(self).deep_view(), step: step.deep_view() })
                == unit_identified(old(self).deep_view(), outcome.deep_view(), now),
    {
        let mut waiting = Waiting::Nothing;
        std::mem::swap(&mut waiting, &mut self.waiting);
        match waiting {
            Waiting::Unit { event, reused } => match outcome {
                Identification::Resolved(unit) => {
                    let wire = unit_info_to_wire(&unit);
                    let out = self.router.identify_resolved(None, &wire, now);
                    self.unit = resolve(&unit);
                    self.begin_run(event, Some(unit), out, now)
                },
                Identification::Failed(error) => {
                    let message = if reused {
                        text::concat2("reuse_unit failed validation: ", error.as_str())
                    } else {
                        error
                    };
                    let out = run_crashed(
                        false,
                        self.procedure_id.as_str(),
                        self.router.execution_id.as_str(),
                        "identify_unit_failed",
                        message.as_str(),
                        1,
                    );
                    self.identify_error = Some(message);
                    Step {
                        emissions: out,
                        reply: Some(make_unit_reply(&None)),
                        later: no_emissions(),
                        action: PumpAction::Stop,
                    }
                },
            },
            other => {
                self.waiting = other;
                sending(no_emissions())
            },
        }
    }

    fn prompt(&mut self, typed: PythonEvent, now: Instant) -> (step: Step)
        requires
            typed is Prompt,
        ensures
            (Progress { pump: final(self).deep_view(), step: step.deep_view() }) == prompted(
                old(self).deep_view(),
                typed.deep_view(),
                now,
            ),
    {
        match typed {
            PythonEvent::Prompt {
                prompt_id,
                phase_name,
                message,
                text_input,
                image_url,
                timeout_s,
            } => {
                match self.connector {
                    Connector::Robot => {
                        return sending(no_emissions());
                    },
                    Connector::OpenHtf => {},
                }
                let mut out = self.enter_prompt_phase(&phase_name, now);
                let ghost first = out.deep_view();
                let components = make_prompt_components(message.as_str(), text_input, &image_url);
                let request = UiRequestData {
                    request_id: prompt_id.dup(),
                    job_id: String::new(),
                    pipe_path: String::new(),
                    components,
                    requires_input: Some(true),
                    requires_user_input: true,
                    phase_key: self.current.dup(),
                    slot_id: None,
                };
                let mut more = self.announce_prompt(&request, message, now);
                let ghost second = more.deep_view();
                out.append(&mut more);
                assert(out.deep_view() =~= first + second);
                self.waiting = Waiting::Answer { prompt_id, phase_key: self.current.dup() };
                Step {
                    emissions: out,
                    reply: None,
                    later: no_emissions(),
                    action: PumpAction::Ask {
                        request,
                        timeout: choose_timeout(timeout_s, self.agent_timeout),
                    },
                }
            },
            _ => sending(no_emissions()),
        }
    }

    fn enter_prompt_phase(&mut self, phase_name: &Option<String>, now: Instant) -> (out: Vec<
        Emission,
    >)
        ensures
            out.deep_view() == prompt_phase_emissions(
                old(self).deep_view(),
                phase_name.deep_view(),
                now,
            ),
            final(self).deep_view() == prompt_phase(old(self).deep_view(), phase_name.deep_view()),
    {
        match phase_name {
            Some(name) => {
                let key = canonical_phase_key(&self.plan, name.as_str());
                let attempt: u32 = match self.count_of(name.as_str()) {
                    Some(n) => n,
                    None => 1,
                };
                self.set_count(name.as_str(), attempt);
                let out = self.emit_phase_started(key.as_str(), name.as_str(), attempt, now);
                self.current = key;
                out
            },
            None => no_emissions(),
        }
    }

    fn announce_prompt(&self, request: &UiRequestData, message: String, now: Instant) -> (out: Vec<
        Emission,
    >)
        ensures
            out.deep_view() == prompt_emissions(
                self.deep_view(),
                request.deep_view(),
                message@,
                now,
            ),
    {
        let mut out = self.router.ui_request(
            request.request_id.as_str(),
            request.phase_key.as_str(),
            None,
            &request.components,
            true,
            now,
        );
        if self.has_terminal {
            push(&mut out, Emission::Terminal(request.dup()));
        }
        let ghost first = out.deep_view();
        let mut more = agent_only(
            self.router.agent,
            CliEvent::UiRequest {
                request_id: request.request_id.dup(),
                phase_key: request.phase_key.dup(),
                phase_description: Some(message),
                requires_input: true,
                components: to_agent_components(&request.components),
            },
        );
        let ghost second = more.deep_view();
        out.append(&mut more);
        assert(out.deep_view() =~= first + second);
        out
    }

    /// A prompt is answered, or will not be.
    pub fn answered(&mut self, answer: Answer) -> (step: Step)
        ensures
            (Progress { pump: final(self).deep_view(), step: step.deep_view() })
                == prompt_answered(old(self).deep_view(), answer.deep_view()),
    {
        let mut waiting = Waiting::Nothing;
        std::mem::swap(&mut waiting, &mut self.waiting);
        match waiting {
            Waiting::Answer { prompt_id, phase_key } => {
                let (response, out) = match answer {
                    Answer::Values(values) => (response_value(&values), no_emissions()),
                    Answer::Closed => (String::new(), no_emissions()),
                    Answer::TimedOut => (
                        String::new(),
                        agent_only(
                            self.router.agent,
                            CliEvent::UiTimeout { request_id: prompt_id, phase_key },
                        ),
                    ),
                };
                Step {
                    emissions: out,
                    reply: Some(make_answer_reply(response)),
                    later: no_emissions(),
                    action: PumpAction::Next,
                }
            },
            other => {
                self.waiting = other;
                sending(no_emissions())
            },
        }
    }

    fn attach(&mut self, typed: PythonEvent) -> (step: Step)
        requires
            typed is Attachment,
        ensures
            (Progress { pump: final(self).deep_view(), step: step.deep_view() }) == attached(
                old(self).deep_view(),
                typed.deep_view(),
            ),
    {
        match typed {
            PythonEvent::Attachment { name, path, mimetype, live, phase_name } => {
                if live {
                    sending(
                        agent_only(
                            self.router.agent,
                            CliEvent::AttachmentAdded {
                                phase_key: self.attribute(&phase_name),
                                name,
                                path: Some(path),
                                mimetype: Some(mimetype),
                                slot_id: None,
                            },
                        ),
                    )
                } else {
                    let phase_key = match self.connector {
                        Connector::OpenHtf => String::new(),
                        Connector::Robot => self.attribute(&phase_name),
                    };
                    push(
                        &mut self.attachments,
                        QueuedAttachment { name, path, mimetype, phase_key },
                    );
                    sending(no_emissions())
                }
            },
            _ => sending(no_emissions()),
        }
    }

    /// Takes an event in, both as it was written and as it was read.
    pub fn handle(&mut self, event: Json, typed: PythonEvent, now: Instant) -> (step: Step)
        ensures
            (Progress { pump: final(self).deep_view(), step: step.deep_view() }) == handled(
                old(self).deep_view(),
                event.deep_view(),
                typed.deep_view(),
                now,
            ),
    {
        match typed {
            PythonEvent::BridgeReady => sending(no_emissions()),
            PythonEvent::Warning { .. } => sending(no_emissions()),
            PythonEvent::Unknown => {
                let heard = self.router.agent && self.connector == Connector::OpenHtf;
                sending(agent_only(heard, make_unknown_warning(&event)))
            },
            PythonEvent::TestStart { .. } => self.start_test(event, typed, now),
            PythonEvent::PhaseBegin { name } => self.begin_phase(name, now),
            PythonEvent::PhaseEnd { .. } => self.end_phase(event, typed, now),
            PythonEvent::TestEnd { outcome } => {
                let none: Vec<KeyText> = Vec::new();
                assert(none.deep_view() =~= Seq::empty());
                let done = run_complete(
                    outcome.as_str(),
                    self.router.execution_id.as_str(),
                    None,
                    none,
                );
                self.test_end = Some(event);
                sending(one(Emission::Station(done)))
            },
            PythonEvent::Prompt { .. } => self.prompt(typed, now),
            PythonEvent::Attachment { .. } => self.attach(typed),
            PythonEvent::Measurement { name, value, phase_name, unit } => sending(
                agent_only(
                    self.router.agent,
                    CliEvent::MeasurementRecorded {
                        phase_key: self.attribute(&phase_name),
                        name,
                        value,
                        outcome: "unset".to_string(),
                        unit,
                        slot_id: None,
                    },
                ),
            ),
            PythonEvent::PhaseLog { level, message, timestamp, phase_name, file, line } => sending(
                agent_only(
                    self.router.agent,
                    CliEvent::PhaseLog {
                        phase_key: self.attribute(&phase_name),
                        level,
                        message,
                        timestamp,
                        slot_id: None,
                        file,
                        line,
                    },
                ),
            ),
        }
    }

    /// Takes a line in, and says what the terminal is told of it. No step
    /// follows from a line that is not an event, and nothing changes.
    pub fn line(&mut self, line: &str, now: Instant) -> (out: (Option<String>, Option<Step>))
        ensures
            out.0.deep_view() == line_notice(line@),
            match json_of_text(line@) {
                Some(event) => match event_of(event) {
                    Some(typed) => out.1 is Some && (Progress {
                        pump: final(self).deep_view(),
                        step: out.1->0.deep_view(),
                    }) == handled(old(self).deep_view(), event, typed, now),
                    None => out.1 is None && final(self).deep_view() == old(self).deep_view(),
                },
                None => out.1 is None && final(self).deep_view() == old(self).deep_view(),
            },
    {
        match Json::parse(line) {
            Some(event) => {
                let typed = PythonEvent::from_value(&event);
                let notice = notice_of(line, &event, &typed);
                match typed {
                    Some(typed) => (notice, Some(self.handle(event, typed, now))),
                    None => (notice, None),
                }
            },
            None => (None, None),
        }
    }

    /// Whether lines are passed on as they are: in JSON mode, where no agent
    /// has a stream of its own.
    pub fn echoes(&self) -> (yes: bool)
        ensures
            yes == (self.json_mode && !self.router.agent),
    {
        self.json_mode && !self.router.agent
    }

    /// Ends the run: by a stop, by a unit that could not be identified, by a
    /// process that died before the test ended, or with its outcome and a run
    /// to upload.
    pub fn conclude(
        &self,
        ctx: &RunContext,
        cancelled: bool,
        exit_code: i32,
        stderr_tail: &str,
        now: Instant,
    ) -> (end: Conclusion)
        ensures
            end.deep_view() == concluded(
                self.deep_view(),
                ctx.deep_view(),
                cancelled,
                exit_code,
                stderr_tail@,
                now,
            ),
    {
        if cancelled {
            let none: Vec<KeyText> = Vec::new();
            assert(none.deep_view() =~= Seq::empty());
            let mut out = one(
                Emission::Station(
                    run_complete(ABORTED, self.router.execution_id.as_str(), None, none),
                ),
            );
            let ghost first = out.deep_view();
            let mut more = agent_only(
                self.router.agent,
                CliEvent::RunCrashed { exit_code, stderr_tail: String::new() },
            );
            let ghost second = more.deep_view();
            out.append(&mut more);
            assert(out.deep_view() =~= first + second);
            return Conclusion { emissions: out, exit_code, queued: None };
        }
        match &self.identify_error {
            Some(error) => {
                return Conclusion {
                    emissions: agent_only(
                        self.router.agent,
                        CliEvent::RunCrashed { exit_code: 1, stderr_tail: error.dup() },
                    ),
                    exit_code: 1,
                    queued: None,
                };
            },
            None => {},
        }
        match &self.test_end {
            None => Conclusion {
                emissions: run_crashed(
                    self.router.agent,
                    self.procedure_id.as_str(),
                    self.router.execution_id.as_str(),
                    "subprocess_crash",
                    stderr_tail,
                    exit_code,
                ),
                exit_code,
                queued: None,
            },
            Some(test_end) => {
                let outcome = match test_end.get_text("outcome") {
                    Some(s) => s.dup(),
                    None => ERROR.to_string(),
                };
                let code: i32 = if text::same(outcome.as_str(), PASS) {
                    0
                } else if self.connector == Connector::Robot && text::same(
                    outcome.as_str(),
                    ERROR,
                ) {
                    5
                } else {
                    1
                };
                let request = build_request(
                    self.connector,
                    test_end,
                    &self.test_start,
                    &self.phases,
                    &self.unit,
                    ctx,
                    now,
                );
                Conclusion {
                    emissions: no_emissions(),
                    exit_code: code,
                    queued: Some(new_run(request, self.attachments.dup())),
                }
            },
        }
    }
}

/// Announces that a connector could not be set up.
pub fn setup_failed(agent: bool, procedure_id: &str, execution_id: &str, error: &str) -> (out: Vec<
    Emission,
>)
    ensures
        out.deep_view() == run_crashed_emissions(
            agent,
            procedure_id@,
            execution_id@,
            "spawn_failed"@,
            error@,
            1,
        ),
{
    run_crashed(agent, procedure_id, execution_id, "spawn_failed", error, 1)
}

} // verus!
