//! A run from its start to its end: its surfaces, who could answer its
//! prompts, and what is said when it never starts or is over.

use vstd::prelude::*;
use vstd::string::*;
use crate::agent_proto::events::{CliEvent, CliEventView};
use crate::dup::{push, Dup};
use crate::emit::{run_crashed, run_crashed_emissions};
use crate::engine::caps::{field, member};
use crate::event_router::{Emission, EmissionView};
use crate::framework::{Framework, FrameworkView, PrepareFail, PrepareFailView, Prepared, PreparedView};
use crate::json::{json_text, Json, JsonField, JsonView};
use crate::paths::{PathParts, PathPartsView};
use crate::outcomes::{exit_code_word, from_exit_code, ERROR};
use crate::protocol::{StationEvent, StationEventView};
use crate::queue::upload::{outcome_label, outcome_text};
use crate::queue::{QueuedRun, QueuedRunView};
use crate::text;

verus! {

/// How the events of a run reach the stream.
#[derive(Debug, PartialEq, Eq)]
pub enum EventPublisher<C, P> {
    /// A connection of its own.
    Standalone { creds: C },
    /// That of the station.
    Managed { publish: P },
}

impl<C, P> EventPublisher<C, P> {
    /// Whether the end of a run that never started is published: no connection
    /// is opened for it alone.
    pub fn publishes_synthetic_end(&self) -> (yes: bool)
        ensures
            yes <==> self is Managed,
    {
        match self {
            EventPublisher::Standalone { .. } => false,
            EventPublisher::Managed { .. } => true,
        }
    }
}

/// Who stands at the terminal of a station.
#[derive(Debug, PartialEq, Eq)]
pub struct TuiPresenceIdentity {
    pub user_id: String,
    pub display_name: String,
    pub color: String,
}

/// View of [`TuiPresenceIdentity`].
pub struct TuiPresenceIdentityView {
    pub user_id: Seq<char>,
    pub display_name: Seq<char>,
    pub color: Seq<char>,
}

impl DeepView for TuiPresenceIdentity {
    type V = TuiPresenceIdentityView;

    open spec fn deep_view(&self) -> TuiPresenceIdentityView {
        TuiPresenceIdentityView {
            user_id: self.user_id.deep_view(),
            display_name: self.display_name.deep_view(),
            color: self.color.deep_view(),
        }
    }
}

impl Dup for TuiPresenceIdentity {
    fn dup(&self) -> (copy: Self) {
        TuiPresenceIdentity {
            user_id: self.user_id.dup(),
            display_name: self.display_name.dup(),
            color: self.color.dup(),
        }
    }
}

/// What decides which surfaces a run has.
#[derive(Debug, PartialEq, Eq)]
pub struct UiFlags {
    pub json_mode: bool,
    /// Whether the input is a terminal.
    pub terminal: bool,
    pub tui_override: Option<bool>,
    pub kiosk_override: Option<bool>,
    pub tui_config: Option<String>,
    pub kiosk_config: Option<String>,
}

/// View of [`UiFlags`].
pub struct UiFlagsView {
    pub json_mode: bool,
    pub terminal: bool,
    pub tui_override: Option<bool>,
    pub kiosk_override: Option<bool>,
    pub tui_config: Option<Seq<char>>,
    pub kiosk_config: Option<Seq<char>>,
}

impl DeepView for UiFlags {
    type V = UiFlagsView;

    open spec fn deep_view(&self) -> UiFlagsView {
        UiFlagsView {
            json_mode: self.json_mode.deep_view(),
            terminal: self.terminal.deep_view(),
            tui_override: self.tui_override.deep_view(),
            kiosk_override: self.kiosk_override.deep_view(),
            tui_config: self.tui_config.deep_view(),
            kiosk_config: self.kiosk_config.deep_view(),
        }
    }
}

/// The surfaces of a run.
#[derive(Debug, PartialEq, Eq)]
pub struct Surfaces {
    pub tui: bool,
    pub kiosk: bool,
}

/// View of [`Surfaces`].
pub struct SurfacesView {
    pub tui: bool,
    pub kiosk: bool,
}

impl DeepView for Surfaces {
    type V = SurfacesView;

    open spec fn deep_view(&self) -> SurfacesView {
        SurfacesView {
            tui: self.tui.deep_view(),
            kiosk: self.kiosk.deep_view(),
        }
    }
}

/// What becomes of the lines for a person.
#[derive(Debug, Clone, Copy, PartialEq, Eq, Structural)]
pub enum ConsoleMode {
    Off,
    /// Shown once the terminal is free again.
    Buffered,
    Live,
}

impl DeepView for ConsoleMode {
    type V = ConsoleMode;

    open spec fn deep_view(&self) -> ConsoleMode {
        *self
    }
}

impl Dup for ConsoleMode {
    fn dup(&self) -> (copy: Self) {
        *self
    }
}

/// Who could answer a prompt.
#[derive(Debug, PartialEq, Eq)]
pub struct Responders {
    pub tui: bool,
    pub agent: bool,
    pub kiosk: bool,
    pub local_server: bool,
    pub publisher: bool,
    /// The unit is known, so nobody is asked.
    pub reused_unit: bool,
}

/// View of [`Responders`].
pub struct RespondersView {
    pub tui: bool,
    pub agent: bool,
    pub kiosk: bool,
    pub local_server: bool,
    pub publisher: bool,
    pub reused_unit: bool,
}

impl DeepView for Responders {
    type V = RespondersView;

    open spec fn deep_view(&self) -> RespondersView {
        RespondersView {
            tui: self.tui.deep_view(),
            agent: self.agent.deep_view(),
            kiosk: self.kiosk.deep_view(),
            local_server: self.local_server.deep_view(),
            publisher: self.publisher.deep_view(),
            reused_unit: self.reused_unit.deep_view(),
        }
    }
}

/// What a run is started with.
#[derive(Debug, PartialEq, Eq)]
pub struct StartRequest {
    pub procedure_id: String,
    pub execution_id: String,
    pub flags: UiFlags,
    /// Whether its events are published.
    pub publisher: bool,
    /// Whether the local server of a station is up.
    pub station_server: bool,
    /// Whether the unit of the last run is used again.
    pub reused_unit: bool,
}

/// View of [`StartRequest`].
pub struct StartRequestView {
    pub procedure_id: Seq<char>,
    pub execution_id: Seq<char>,
    pub flags: UiFlagsView,
    pub publisher: bool,
    pub station_server: bool,
    pub reused_unit: bool,
}

impl DeepView for StartRequest {
    type V = StartRequestView;

    open spec fn deep_view(&self) -> StartRequestView {
        StartRequestView {
            procedure_id: self.procedure_id.deep_view(),
            execution_id: self.execution_id.deep_view(),
            flags: self.flags.deep_view(),
            publisher: self.publisher.deep_view(),
            station_server: self.station_server.deep_view(),
            reused_unit: self.reused_unit.deep_view(),
        }
    }
}

/// How a run goes on once it is prepared.
#[derive(Debug, PartialEq, Eq)]
pub struct RunPlan {
    pub surfaces: Surfaces,
    pub console: ConsoleMode,
    /// Whether anybody could answer a prompt.
    pub has_ui: bool,
    /// Whether an agent hears of uploads.
    pub relay_uploads: bool,
}

/// View of [`RunPlan`].
pub struct RunPlanView {
    pub surfaces: SurfacesView,
    pub console: ConsoleMode,
    pub has_ui: bool,
    pub relay_uploads: bool,
}

impl DeepView for RunPlan {
    type V = RunPlanView;

    open spec fn deep_view(&self) -> RunPlanView {
        RunPlanView {
            surfaces: self.surfaces.deep_view(),
            console: self.console.deep_view(),
            has_ui: self.has_ui.deep_view(),
            relay_uploads: self.relay_uploads.deep_view(),
        }
    }
}

/// What to do next for a run that starts.
#[derive(Debug, PartialEq, Eq)]
pub enum StartStep {
    Over(SyntheticEnd),
    /// Start the agent protocol, where an agent drives the run.
    InitAgent {
        surfaces: Surfaces,
    },
    Run(RunPlan),
}

/// View of [`StartStep`].
pub enum StartStepView {
    Over(SyntheticEndView),
    InitAgent {
        surfaces: SurfacesView,
    },
    Run(RunPlanView),
}

impl DeepView for StartStep {
    type V = StartStepView;

    open spec fn deep_view(&self) -> StartStepView {
        match self {
            StartStep::Over(v) => StartStepView::Over(v.deep_view()),
            StartStep::InitAgent { surfaces } => StartStepView::InitAgent {
                surfaces: surfaces.deep_view(),
            },
            StartStep::Run(v) => StartStepView::Run(v.deep_view()),
        }
    }
}

/// What runs a procedure.
#[derive(Debug, PartialEq, Eq)]
pub enum Driver {
    /// The engine; its run is uploaded afterwards where that is so.
    Engine {
        procedure: PathParts,
        upload_after: bool,
    },
    Openhtf,
    Pytest,
    Robot,
    Script,
}

/// View of [`Driver`].
pub enum DriverView {
    Engine {
        procedure: PathPartsView,
        upload_after: bool,
    },
    Openhtf,
    Pytest,
    Robot,
    Script,
}

impl DeepView for Driver {
    type V = DriverView;

    open spec fn deep_view(&self) -> DriverView {
        match self {
            Driver::Engine { procedure, upload_after } => DriverView::Engine {
                procedure: procedure.deep_view(),
                upload_after: upload_after.deep_view(),
            },
            Driver::Openhtf => DriverView::Openhtf,
            Driver::Pytest => DriverView::Pytest,
            Driver::Robot => DriverView::Robot,
            Driver::Script => DriverView::Script,
        }
    }
}

/// What came of the start of the agent protocol.
#[derive(Debug, PartialEq, Eq)]
pub enum AgentInit {
    Off,
    Ready,
    Failed(i32),
}

/// View of [`AgentInit`].
pub enum AgentInitView {
    Off,
    Ready,
    Failed(i32),
}

impl DeepView for AgentInit {
    type V = AgentInitView;

    open spec fn deep_view(&self) -> AgentInitView {
        match self {
            AgentInit::Off => AgentInitView::Off,
            AgentInit::Ready => AgentInitView::Ready,
            AgentInit::Failed(v) => AgentInitView::Failed(v.deep_view()),
        }
    }
}

/// The end of a run that never started.
#[derive(Debug, PartialEq, Eq)]
pub struct SyntheticEnd {
    pub emissions: Vec<Emission>,
    pub exit_code: i32,
}

/// View of [`SyntheticEnd`].
pub struct SyntheticEndView {
    pub emissions: Seq<EmissionView>,
    pub exit_code: i32,
}

impl DeepView for SyntheticEnd {
    type V = SyntheticEndView;

    open spec fn deep_view(&self) -> SyntheticEndView {
        SyntheticEndView {
            emissions: self.emissions.deep_view(),
            exit_code: self.exit_code.deep_view(),
        }
    }
}

/// What is said of a run that was queued.
#[derive(Debug, PartialEq, Eq)]
pub struct UploadQueued {
    /// For the output.
    pub line: Option<String>,
    pub agent_event: CliEvent,
}

/// View of [`UploadQueued`].
pub struct UploadQueuedView {
    pub line: Option<Seq<char>>,
    pub agent_event: CliEventView,
}

impl DeepView for UploadQueued {
    type V = UploadQueuedView;

    open spec fn deep_view(&self) -> UploadQueuedView {
        UploadQueuedView {
            line: self.line.deep_view(),
            agent_event: self.agent_event.deep_view(),
        }
    }
}

// ---------------------------------------------------------------------------
// Surfaces
// ---------------------------------------------------------------------------

/// A preference: what was asked for, or what the station is set to, or the
/// default.
pub open spec fn preference(
    config: Option<Seq<char>>,
    cli_override: Option<bool>,
    default_on: bool,
) -> bool {
    match cli_override {
        Some(v) => v,
        None => match config {
            Some(v) => v == "on"@,
            None => default_on,
        },
    }
}

/// A preference of the operator.
pub fn resolve_ui_pref(
    config: &Option<String>,
    cli_override: Option<bool>,
    default_on: bool,
) -> (on: bool)
    ensures
        on == preference(config.deep_view(), cli_override, default_on),
{
    match cli_override {
        Some(v) => v,
        None => match config {
            Some(v) => text::same(v.as_str(), "on"),
            None => default_on,
        },
    }
}

/// The surfaces of a run. The terminal is drawn on only where there is one and
/// its output is not that of an agent.
pub open spec fn surfaces_of(flags: UiFlagsView) -> SurfacesView {
    SurfacesView {
        tui: !flags.json_mode && flags.terminal && preference(
            flags.tui_config,
            flags.tui_override,
            true,
        ),
        kiosk: preference(flags.kiosk_config, flags.kiosk_override, false),
    }
}

/// Decides the surfaces of a run.
pub fn surfaces(flags: &UiFlags) -> (out: Surfaces)
    ensures
        out.deep_view() == surfaces_of(flags.deep_view()),
{
    Surfaces {
        tui: !flags.json_mode && flags.terminal && resolve_ui_pref(
            &flags.tui_config,
            flags.tui_override,
            true,
        ),
        kiosk: resolve_ui_pref(&flags.kiosk_config, flags.kiosk_override, false),
    }
}

/// What becomes of the lines for a person: an agent has its own, and a
/// terminal that is drawn on shows them once it is free again.
pub open spec fn mode_of(json_mode: bool, tui: bool) -> ConsoleMode {
    if json_mode {
        ConsoleMode::Off
    } else if tui {
        ConsoleMode::Buffered
    } else {
        ConsoleMode::Live
    }
}

/// What becomes of the lines for a person.
pub fn console_mode(json_mode: bool, tui: bool) -> (mode: ConsoleMode)
    ensures
        mode == mode_of(json_mode, tui),
{
    if json_mode {
        ConsoleMode::Off
    } else if tui {
        ConsoleMode::Buffered
    } else {
        ConsoleMode::Live
    }
}

/// Whether anybody could answer a prompt, or none is needed.
pub open spec fn answerable(r: RespondersView) -> bool {
    r.tui || r.agent || r.kiosk || r.local_server || r.publisher || r.reused_unit
}

/// Whether anybody could answer a prompt, or none is needed.
pub fn has_ui(r: &Responders) -> (yes: bool)
    ensures
        yes == answerable(r.deep_view()),
{
    r.tui || r.agent || r.kiosk || r.local_server || r.publisher || r.reused_unit
}

/// The name of a procedure for the kiosk: the one that it declares, or that of
/// its directory.
pub open spec fn kiosk_name(declared: Option<Seq<char>>, dir_name: Option<Seq<char>>) -> Seq<char> {
    match declared {
        Some(name) => name,
        None => match dir_name {
            Some(name) => name,
            None => "Procedure"@,
        },
    }
}

/// The name of a procedure for the kiosk.
pub fn kiosk_procedure_name(declared: Option<String>, dir_name: Option<String>) -> (name: String)
    ensures
        name@ == kiosk_name(declared.deep_view(), dir_name.deep_view()),
{
    match declared {
        Some(name) => name,
        None => match dir_name {
            Some(name) => name,
            None => "Procedure".to_string(),
        },
    }
}

/// The word under which a run is attached to the local server.
pub fn attach_mode(station_server: bool) -> (word: &'static str)
    ensures
        word@ == (if station_server {
            "station"@
        } else {
            "local"@
        }),
{
    if station_server {
        "station"
    } else {
        "local"
    }
}

// ---------------------------------------------------------------------------
// Runs that never start
// ---------------------------------------------------------------------------

/// The end of a run that never started: a crash, and the end as an error.
pub open spec fn synthetic_end(
    agent: bool,
    procedure_id: Seq<char>,
    execution_id: Seq<char>,
    kind: Seq<char>,
    message: Seq<char>,
    exit_code: i32,
) -> SyntheticEndView {
    SyntheticEndView {
        emissions: run_crashed_emissions(
            agent,
            procedure_id,
            execution_id,
            kind,
            message,
            exit_code,
        ),
        exit_code,
    }
}

/// Ends a run that never started; an agent hears of the crash where there is
/// one.
pub fn synthetic_fail(
    agent: bool,
    procedure_id: &str,
    execution_id: &str,
    kind: &str,
    message: &str,
    exit_code: i32,
) -> (end: SyntheticEnd)
    ensures
        end.deep_view() == synthetic_end(
            agent,
            procedure_id@,
            execution_id@,
            kind@,
            message@,
            exit_code,
        ),
{
    SyntheticEnd {
        emissions: run_crashed(agent, procedure_id, execution_id, kind, message, exit_code),
        exit_code,
    }
}

/// Ends a run that could not be prepared.
pub fn prepare_failed(procedure_id: &str, execution_id: &str, fail: &PrepareFail) -> (end:
    SyntheticEnd)
    ensures
        end.deep_view() == synthetic_end(
            false,
            procedure_id@,
            execution_id@,
            fail.kind@,
            fail.message@,
            1,
        ),
{
    synthetic_fail(false, procedure_id, execution_id, fail.kind.as_str(), fail.message.as_str(), 1)
}

/// Ends a run whose agent protocol could not start; `None` where it goes on.
pub fn agent_started(procedure_id: &str, execution_id: &str, init: &AgentInit) -> (end: Option<
    SyntheticEnd,
>)
    ensures
        end.deep_view() == (match init.deep_view() {
            AgentInitView::Failed(code) => Some(
                synthetic_end(
                    false,
                    procedure_id@,
                    execution_id@,
                    "agent_init_error"@,
                    "agent protocol initialization failed"@,
                    code,
                ),
            ),
            _ => None,
        }),
{
    match init {
        AgentInit::Failed(code) => Some(
            synthetic_fail(
                false,
                procedure_id,
                execution_id,
                "agent_init_error",
                "agent protocol initialization failed",
                *code,
            ),
        ),
        _ => None,
    }
}

// ---------------------------------------------------------------------------
// Starting
// ---------------------------------------------------------------------------

/// What to do for a run that was prepared, or was not.
pub open spec fn started(
    request: StartRequestView,
    prepared: Result<PreparedView, PrepareFailView>,
) -> StartStepView {
    match prepared {
        Ok(_) => StartStepView::InitAgent { surfaces: surfaces_of(request.flags) },
        Err(fail) => StartStepView::Over(
            synthetic_end(
                false,
                request.procedure_id,
                request.execution_id,
                fail.kind,
                fail.message,
                1,
            ),
        ),
    }
}

/// A prepared run, by its view.
pub open spec fn prepared_view(p: Result<Prepared, PrepareFail>) -> Result<
    PreparedView,
    PrepareFailView,
> {
    match p {
        Ok(prepared) => Ok(prepared.deep_view()),
        Err(fail) => Err(fail.deep_view()),
    }
}

/// Starts a run: it goes on to the agent protocol where it could be prepared,
/// and is over where it could not.
pub fn start(request: &StartRequest, prepared: &Result<Prepared, PrepareFail>) -> (step: StartStep)
    ensures
        step.deep_view() == started(request.deep_view(), prepared_view(*prepared)),
{
    match prepared {
        Ok(_) => StartStep::InitAgent { surfaces: surfaces(&request.flags) },
        Err(fail) => StartStep::Over(
            prepare_failed(request.procedure_id.as_str(), request.execution_id.as_str(), fail),
        ),
    }
}

/// How a run goes on once the agent protocol has started.
pub open spec fn run_plan(request: StartRequestView, agent: bool) -> RunPlanView {
    let shown = surfaces_of(request.flags);
    RunPlanView {
        surfaces: shown,
        console: mode_of(request.flags.json_mode, shown.tui),
        has_ui: answerable(
            RespondersView {
                tui: shown.tui,
                agent,
                kiosk: shown.kiosk,
                local_server: request.station_server,
                publisher: request.publisher,
                reused_unit: request.reused_unit,
            },
        ),
        relay_uploads: agent,
    }
}

/// Goes on with a run once the agent protocol has started, or failed to.
pub fn start_run(request: &StartRequest, init: &AgentInit) -> (step: StartStep)
    ensures
        step.deep_view() == (match init.deep_view() {
            AgentInitView::Failed(code) => StartStepView::Over(
                synthetic_end(
                    false,
                    request.procedure_id@,
                    request.execution_id@,
                    "agent_init_error"@,
                    "agent protocol initialization failed"@,
                    code,
                ),
            ),
            AgentInitView::Ready => StartStepView::Run(run_plan(request.deep_view(), true)),
            AgentInitView::Off => StartStepView::Run(run_plan(request.deep_view(), false)),
        }),
{
    match agent_started(request.procedure_id.as_str(), request.execution_id.as_str(), init) {
        Some(end) => {
            return StartStep::Over(end);
        },
        None => {},
    }
    let agent = match init {
        AgentInit::Ready => true,
        _ => false,
    };
    let shown = surfaces(&request.flags);
    let responders = Responders {
        tui: shown.tui,
        agent,
        kiosk: shown.kiosk,
        local_server: request.station_server,
        publisher: request.publisher,
        reused_unit: request.reused_unit,
    };
    StartStep::Run(
        RunPlan {
            console: console_mode(request.flags.json_mode, shown.tui),
            has_ui: has_ui(&responders),
            relay_uploads: agent,
            surfaces: shown,
        },
    )
}

/// What runs a procedure.
pub open spec fn driver_of(framework: FrameworkView, upload: bool, has_creds: bool) -> DriverView {
    match framework {
        FrameworkView::Yaml(procedure) => DriverView::Engine {
            procedure,
            upload_after: upload && has_creds,
        },
        FrameworkView::Openhtf => DriverView::Openhtf,
        FrameworkView::Pytest => DriverView::Pytest,
        FrameworkView::Robot => DriverView::Robot,
        FrameworkView::Plain => DriverView::Script,
    }
}

/// Decides what runs a procedure. The connectors upload for themselves; the
/// run of the engine is uploaded where that was asked for and there are
/// credentials.
pub fn run_test(framework: &Framework, upload: bool, has_creds: bool) -> (driver: Driver)
    ensures
        driver.deep_view() == driver_of(framework.deep_view(), upload, has_creds),
{
    match framework {
        Framework::Yaml(procedure) => Driver::Engine {
            procedure: procedure.dup(),
            upload_after: upload && has_creds,
        },
        Framework::Openhtf => Driver::Openhtf,
        Framework::Pytest => Driver::Pytest,
        Framework::Robot => Driver::Robot,
        Framework::Plain => Driver::Script,
    }
}

// ---------------------------------------------------------------------------
// Uploads
// ---------------------------------------------------------------------------

/// An event of the upload queue as an agent hears it.
pub open spec fn relayed(event: StationEventView) -> Option<CliEventView> {
    match event {
        StationEventView::RunUploadStarted { queue_id, attempt } => Some(
            CliEventView::RunUploadStarted { queue_id, attempt },
        ),
        StationEventView::RunUploadSucceeded { queue_id, run_id, dashboard_url } => Some(
            CliEventView::RunUploadSucceeded { queue_id, run_id, dashboard_url },
        ),
        StationEventView::RunUploadFailed {
            queue_id,
            attempt,
            kind,
            status,
            error,
            next_retry_at,
        } => Some(
            CliEventView::RunUploadFailed {
                queue_id,
                attempt,
                kind,
                status,
                error,
                next_retry_at,
            },
        ),
        StationEventView::RunUploadDropped { queue_id, reason } => Some(
            CliEventView::RunUploadDropped { queue_id, reason },
        ),
        _ => None,
    }
}

/// Relays an event of the upload queue to an agent. Everything else reaches
/// it where it happens.
pub fn relay_upload_event(event: &StationEvent) -> (out: Option<CliEvent>)
    ensures
        out.deep_view() == relayed(event.deep_view()),
{
    match event {
        StationEvent::RunUploadStarted { queue_id, attempt } => Some(
            CliEvent::RunUploadStarted { queue_id: queue_id.dup(), attempt: *attempt },
        ),
        StationEvent::RunUploadSucceeded { queue_id, run_id, dashboard_url } => Some(
            CliEvent::RunUploadSucceeded {
                queue_id: queue_id.dup(),
                run_id: run_id.dup(),
                dashboard_url: dashboard_url.dup(),
            },
        ),
        StationEvent::RunUploadFailed { queue_id, attempt, kind, status, error, next_retry_at } =>
            Some(
            CliEvent::RunUploadFailed {
                queue_id: queue_id.dup(),
                attempt: *attempt,
                kind: kind.dup(),
                status: *status,
                error: error.dup(),
                next_retry_at: next_retry_at.dup(),
            },
        ),
        StationEvent::RunUploadDropped { queue_id, reason } => Some(
            CliEvent::RunUploadDropped { queue_id: queue_id.dup(), reason: reason.dup() },
        ),
        _ => None,
    }
}

/// What is said of a run that was queued.
pub open spec fn upload_queued(queue_id: Seq<char>, q: QueuedRunView, json_mode: bool) -> UploadQueuedView {
    UploadQueuedView {
        line: if json_mode {
            Some(
                json_text(
                    JsonView::Object(
                        seq![
                            member("type"@, JsonView::Text("upload_queued"@)),
                            member("queue_id"@, JsonView::Text(queue_id)),
                        ],
                    ),
                ),
            )
        } else {
            None
        },
        agent_event: CliEventView::RunUploadQueued {
            queue_id,
            procedure_id: Some(q.request.procedure_id),
            outcome: Some(outcome_label(q.request.outcome)),
            serial_number: Some(q.request.serial_number),
            attachment_count: Some(q.attachments.len() as u32),
            queued_at: q.queued_at,
        },
    }
}

/// What is said of a run that was queued: a line for the output of an agent,
/// and an event where one listens.
pub fn spawn_upload(queue_id: &str, queued: &QueuedRun, json_mode: bool) -> (out: UploadQueued)
    ensures
        out.deep_view() == upload_queued(queue_id@, queued.deep_view(), json_mode),
{
    let line = if json_mode {
        let mut fields: Vec<JsonField> = Vec::new();
        push(&mut fields, field("type", Json::Text("upload_queued".to_string())));
        push(&mut fields, field("queue_id", Json::Text(queue_id.to_string())));
        assert(fields.deep_view() =~= seq![
            member("type"@, JsonView::Text("upload_queued"@)),
            member("queue_id"@, JsonView::Text(queue_id@)),
        ]);
        Some(Json::object(fields).render())
    } else {
        None
    };
    UploadQueued {
        line,
        agent_event: CliEvent::RunUploadQueued {
            queue_id: queue_id.to_string(),
            procedure_id: Some(queued.request.procedure_id.dup()),
            outcome: Some(outcome_text(queued.request.outcome).to_string()),
            serial_number: Some(queued.request.serial_number.dup()),
            attachment_count: Some(
                #[verifier::truncate]
                (queued.attachments.len() as u32),
            ),
            queued_at: queued.queued_at.dup(),
        },
    }
}

// ---------------------------------------------------------------------------
// The end
// ---------------------------------------------------------------------------

/// What an agent hears last.
pub fn run_finished(exit_code: i32) -> (event: CliEvent)
    ensures
        event.deep_view() == (CliEventView::RunFinished {
            outcome: exit_code_word(exit_code),
            exit_code,
        }),
{
    CliEvent::RunFinished { outcome: from_exit_code(exit_code).to_string(), exit_code }
}

/// The exit code of a run that was waited for: one where its task is gone, or
/// ended without a word.
pub fn joined_exit_code(task_present: bool, done: Option<i32>) -> (code: i32)
    ensures
        code == (if task_present && done is Some {
            done->Some_0
        } else {
            1
        }),
{
    match done {
        Some(code) => if task_present {
            code
        } else {
            1
        },
        None => 1,
    }
}

/// What an operator is told of a link that was not used.
pub fn link_message(link_hint: &Option<String>, json_mode: bool) -> (message: Option<String>)
    ensures
        message.deep_view() == (match link_hint.deep_view() {
            Some(label) => if json_mode {
                None
            } else {
                Some(
                    "Linked to "@ + label
                        + ". Run with --upload to sync this run to the dashboard."@,
                )
            },
            None => None,
        }),
{
    match link_hint {
        Some(label) => if json_mode {
            None
        } else {
            Some(
                text::concat3(
                    "Linked to ",
                    label.as_str(),
                    ". Run with --upload to sync this run to the dashboard.",
                ),
            )
        },
        None => None,
    }
}

// ---------------------------------------------------------------------------
// Laws
// ---------------------------------------------------------------------------

/// The terminal and an agent never share the output.
pub proof fn law_one_owner_of_the_output(flags: UiFlagsView)
    ensures
        !(flags.json_mode && surfaces_of(flags).tui),
        !flags.terminal ==> !surfaces_of(flags).tui,
{
}

/// What was asked for wins over what the station is set to, and that over the
/// default.
pub proof fn law_preferences_in_order(config: Option<Seq<char>>, asked: bool, default_on: bool)
    ensures
        preference(config, Some(asked), default_on) == asked,
        config is Some ==> preference(config, None, true) == preference(config, None, false),
        preference(None, None, default_on) == default_on,
{
}

/// A run that never started ends for everybody who waits for it: with an
/// error, under its own identity.
pub proof fn law_never_started_still_ends(
    agent: bool,
    procedure_id: Seq<char>,
    execution_id: Seq<char>,
    kind: Seq<char>,
    message: Seq<char>,
    exit_code: i32,
)
    ensures
        ({
            let end = synthetic_end(agent, procedure_id, execution_id, kind, message, exit_code);
            &&& end.emissions.len() == (if agent {
                3int
            } else {
                2int
            })
            &&& end.emissions[1] matches EmissionView::Station(
                StationEventView::RunComplete { execution_id: id, outcome, .. },
            )
            &&& id == Some(execution_id)
            &&& outcome == ERROR@
        }),
{
}

/// A run that could not be prepared is over with exit code one, and one whose
/// agent protocol failed with the code of that; every other one runs.
pub proof fn law_every_start_is_decided(
    request: StartRequestView,
    prepared: Result<PreparedView, PrepareFailView>,
)
    ensures
        started(request, prepared) is Over <==> prepared is Err,
        started(request, prepared) matches StartStepView::Over(end) ==> end.exit_code == 1,
        !(started(request, prepared) is Run),
{
}

/// A run without any surface, publisher or known unit has nobody to answer
/// its prompts.
pub proof fn law_headless_runs_are_known(request: StartRequestView)
    requires
        !surfaces_of(request.flags).tui,
        !surfaces_of(request.flags).kiosk,
        !request.station_server,
        !request.publisher,
        !request.reused_unit,
    ensures
        !run_plan(request, false).has_ui,
        run_plan(request, true).has_ui,
{
}

/// An agent hears of an upload that begins, succeeds, fails or is dropped, and
/// of nothing else by way of the queue.
pub proof fn law_what_is_relayed(event: StationEventView)
    ensures
        relayed(event) is Some <==> event is RunUploadStarted || event is RunUploadSucceeded
            || event is RunUploadFailed || event is RunUploadDropped,
{
}

} // verus!
