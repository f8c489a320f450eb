//! What holds of the start of a run, of what a person is shown of it, and of
//! how it is stopped.

use vstd::prelude::*;
use crate::agent_proto::events::CliEventView;
use crate::cancel::{awaited, stronger, CancelSignal, Receiver};
use crate::connector::pump::AnswerView;
use crate::console::{console_lines, log_level_of, outcome_level};
use crate::emit::run_crashed_emissions;
use crate::engine::model::KeyTextView;
use crate::event_router::{agent_components, stamp_text, EmissionView, EventRouterView};
use crate::framework::{FrameworkView, PrepareFailView, PreparedView};
use crate::identify_host::{ask_emissions, ask_ended, IdentifyResultView, PromptRequestView};
use crate::json::{json_text, JsonFieldView, JsonView};
use crate::protocol::{RunMeasurementView, StationEventView};
use crate::queue::command_laws::{holds, says};
use crate::queue::QueuedRunView;
use crate::session::{
    driver_of, kiosk_name, relayed, run_plan, started, surfaces_of, synthetic_end, upload_queued,
    ConsoleMode, DriverView, StartRequestView, StartStepView, UiFlagsView,
};
use crate::text::same_ignoring_case;
use crate::time::Instant;

verus! {

/// Whether a preference holds: what was asked for, else whether the station is
/// set to `on`, else a default.
pub open spec fn is_preferred(
    on: bool,
    asked: Option<bool>,
    set_to: Option<Seq<char>>,
    default_on: bool,
) -> bool {
    &&& asked is Some ==> on == asked->0
    &&& asked is None && set_to is Some ==> (on <==> set_to->0 == "on"@)
    &&& asked is None && set_to is None ==> on == default_on
}

/// The terminal is drawn on by default, but only where there is one and no
/// agent owns the output; the kiosk is opened only where that is preferred.
pub proof fn law_surfaces(flags: UiFlagsView)
    ensures
        surfaces_of(flags).tui ==> !flags.json_mode && flags.terminal,
        !flags.json_mode && flags.terminal ==> is_preferred(
            surfaces_of(flags).tui,
            flags.tui_override,
            flags.tui_config,
            true,
        ),
        is_preferred(surfaces_of(flags).kiosk, flags.kiosk_override, flags.kiosk_config, false),
{
}

/// A run goes on with its surfaces: its lines are off for an agent, held back
/// where the terminal is drawn on, and shown at once where it is not; somebody
/// can answer a prompt where there is a surface, an agent, a server or a
/// publisher, and none is needed for a unit that is tested again.
pub proof fn law_runs_are_planned(request: StartRequestView, agent: bool)
    ensures
        ({
            let plan = run_plan(request, agent);
            let shown = surfaces_of(request.flags);
            &&& plan.surfaces == shown
            &&& plan.console == ConsoleMode::Off <==> request.flags.json_mode
            &&& plan.console == ConsoleMode::Buffered <==> !request.flags.json_mode && shown.tui
            &&& plan.console == ConsoleMode::Live <==> !request.flags.json_mode && !shown.tui
            &&& plan.has_ui <==> shown.tui || shown.kiosk || agent || request.station_server
                || request.publisher || request.reused_unit
            &&& plan.relay_uploads == agent
        }),
{
}

/// A run that was prepared starts its agent; one that was not is over, as a
/// crash of the kind and for the reason that its preparation gave.
pub proof fn law_starts(
    request: StartRequestView,
    prepared: Result<PreparedView, PrepareFailView>,
)
    ensures
        prepared is Ok ==> started(request, prepared) == (StartStepView::InitAgent {
            surfaces: surfaces_of(request.flags),
        }),
        prepared matches Err(fail) ==> (started(request, prepared) matches StartStepView::Over(end)
            && end.exit_code == 1 && end.emissions.len() == 2 && end.emissions[0]
            == EmissionView::Station(
            StationEventView::RunCrashed {
                procedure_id: request.procedure_id,
                error: fail.message,
                error_kind: fail.kind,
                execution_id: Some(request.execution_id),
            },
        )),
{
}

/// A crash is told to the station, with the end of the run as an error, and to
/// the agent where there is one.
pub proof fn law_crashes_are_told(
    agent: bool,
    procedure_id: Seq<char>,
    execution_id: Seq<char>,
    kind: Seq<char>,
    message: Seq<char>,
    exit_code: i32,
)
    ensures
        ({
            let out = run_crashed_emissions(
                agent,
                procedure_id,
                execution_id,
                kind,
                message,
                exit_code,
            );
            &&& out.len() == if agent {
                3int
            } else {
                2
            }
            &&& out[0] == EmissionView::Station(
                StationEventView::RunCrashed {
                    procedure_id,
                    error: message,
                    error_kind: kind,
                    execution_id: Some(execution_id),
                },
            )
            &&& out[1] matches EmissionView::Station(
                StationEventView::RunComplete { outcome, run_id, execution_id: id, slot_outcomes },
            ) && outcome == "ERROR"@ && run_id is None && id == Some(execution_id)
                && slot_outcomes.len() == 0
            &&& agent ==> out[2] == EmissionView::Agent(
                CliEventView::RunCrashed { exit_code, stderr_tail: message },
            )
        }),
        ({
            let end = synthetic_end(agent, procedure_id, execution_id, kind, message, exit_code);
            &&& end.exit_code == exit_code
            &&& end.emissions == run_crashed_emissions(
                agent,
                procedure_id,
                execution_id,
                kind,
                message,
                exit_code,
            )
        }),
{
}

/// A procedure file is run by the engine, and uploaded afterwards only where
/// that is wanted and there are credentials; every framework has its own
/// driver.
pub proof fn law_drivers(framework: FrameworkView, upload: bool, has_creds: bool)
    ensures
        framework matches FrameworkView::Yaml(file) ==> (driver_of(framework, upload, has_creds)
            matches DriverView::Engine { procedure, upload_after } && procedure == file
            && upload_after == (upload && has_creds)),
        driver_of(framework, upload, has_creds) is Openhtf <==> framework is Openhtf,
        driver_of(framework, upload, has_creds) is Pytest <==> framework is Pytest,
        driver_of(framework, upload, has_creds) is Robot <==> framework is Robot,
        driver_of(framework, upload, has_creds) is Script <==> framework is Plain,
{
}

/// A procedure is named on the kiosk as it names itself, else as its directory
/// is named.
pub proof fn law_kiosk_names(declared: Option<Seq<char>>, dir_name: Option<Seq<char>>)
    ensures
        declared is Some ==> kiosk_name(declared, dir_name) == declared->0,
        declared is None && dir_name is Some ==> kiosk_name(declared, dir_name) == dir_name->0,
        declared is None && dir_name is None ==> kiosk_name(declared, dir_name) == "Procedure"@,
{
}

/// What the queue tells of an upload is passed on to the agent as it is.
pub proof fn law_uploads_are_relayed(
    queue_id: Seq<char>,
    attempt: u32,
    run_id: Seq<char>,
    url: Option<Seq<char>>,
    kind: Seq<char>,
    status: Option<u16>,
    error: Seq<char>,
    next: Option<Seq<char>>,
    reason: Seq<char>,
)
    ensures
        relayed(StationEventView::RunUploadStarted { queue_id, attempt }) == Some(
            CliEventView::RunUploadStarted { queue_id, attempt },
        ),
        relayed(StationEventView::RunUploadSucceeded { queue_id, run_id, dashboard_url: url })
            == Some(CliEventView::RunUploadSucceeded { queue_id, run_id, dashboard_url: url }),
        relayed(
            StationEventView::RunUploadFailed {
                queue_id,
                attempt,
                kind,
                status,
                error,
                next_retry_at: next,
            },
        ) == Some(
            CliEventView::RunUploadFailed {
                queue_id,
                attempt,
                kind,
                status,
                error,
                next_retry_at: next,
            },
        ),
        relayed(StationEventView::RunUploadDropped { queue_id, reason }) == Some(
            CliEventView::RunUploadDropped { queue_id, reason },
        ),
{
}

/// A run that was queued is said to be: in a line of JSON for an agent's
/// output, and to the agent with what it is.
pub proof fn law_queued_runs_are_said(queue_id: Seq<char>, q: QueuedRunView, json_mode: bool)
    requires
        q.attachments.len() <= u32::MAX,
    ensures
        ({
            let said = upload_queued(queue_id, q, json_mode);
            &&& said.line is Some <==> json_mode
            &&& json_mode ==> exists|fields: Seq<JsonFieldView>|
                said.line == Some(#[trigger] json_text(JsonView::Object(fields))) && fields.len()
                    == 2 && holds(fields[0], "type"@, Some("upload_queued"@)) && holds(
                    fields[1],
                    "queue_id"@,
                    Some(queue_id),
                )
            &&& said.agent_event matches CliEventView::RunUploadQueued {
                queue_id: id,
                procedure_id,
                outcome,
                serial_number,
                attachment_count,
                queued_at,
            } && id == queue_id && procedure_id == Some(q.request.procedure_id) && outcome is Some
                && says(outcome->0, q.request.outcome) && serial_number == Some(
                q.request.serial_number,
            ) && attachment_count is Some && attachment_count->0 == q.attachments.len() && queued_at
                == q.queued_at
        }),
{
    if json_mode {
        let fields = seq![
            crate::engine::caps::member("type"@, JsonView::Text("upload_queued"@)),
            crate::engine::caps::member("queue_id"@, JsonView::Text(queue_id)),
        ];
        assert(upload_queued(queue_id, q, json_mode).line == Some(
            json_text(JsonView::Object(fields)),
        ));
    }
}

/// A log line is shown as an error, as a warning or as information, by the word
/// of its level in whatever case.
pub proof fn law_levels_of_lines(level: Seq<char>)
    ensures
        log_level_of(level) is Error <==> same_ignoring_case(level, "ERROR"@) || same_ignoring_case(
            level,
            "CRITICAL"@,
        ),
        log_level_of(level) is Warn <==> !(log_level_of(level) is Error) && (same_ignoring_case(
            level,
            "WARNING"@,
        ) || same_ignoring_case(level, "WARN"@)),
        !(log_level_of(level) is Success),
{
}

/// An outcome is shown as a success, as information, as a warning or as an
/// error, by its word.
pub proof fn law_levels_of_outcomes(outcome: Seq<char>)
    ensures
        outcome_level(outcome) is Success <==> outcome == "PASS"@ || outcome == "XPASS"@,
        outcome_level(outcome) is Info <==> outcome == "SKIP"@,
        outcome_level(outcome) is Warn <==> outcome == "RETRY"@,
{
    reveal_strlit("PASS");
    reveal_strlit("XPASS");
    reveal_strlit("SKIP");
    reveal_strlit("RETRY");
    assert("PASS"@[0] == 'P' && "XPASS"@[0] == 'X' && "SKIP"@[0] == 'S' && "RETRY"@[0] == 'R');
}

/// Whether a slot is worth showing: one that is named, and not the one of a
/// procedure that declares none.
pub open spec fn shows_slot(slot_id: Option<Seq<char>>) -> bool {
    slot_id is Some && slot_id->0.len() > 0 && slot_id->0 != "default"@
}

/// The start of a phase is a line of information, with its slot behind it.
pub proof fn law_starts_are_shown(
    phase_key: Seq<char>,
    name: Seq<char>,
    slot_id: Option<Seq<char>>,
    attempt: u32,
    stage: Option<Seq<char>>,
    timestamp: Option<Seq<char>>,
    execution_id: Option<Seq<char>>,
)
    ensures
        ({
            let lines = console_lines(
                StationEventView::PhaseStarted {
                    phase_key,
                    name,
                    slot_id,
                    attempt,
                    stage,
                    timestamp,
                    execution_id,
                },
            );
            &&& lines.len() == 1
            &&& lines[0].level is Info
            &&& shows_slot(slot_id) ==> lines[0].text == "Phase: "@ + name + (" (slot "@
                + slot_id->0 + ")"@)
            &&& !shows_slot(slot_id) ==> lines[0].text == "Phase: "@ + name
        }),
{
    if !shows_slot(slot_id) {
        assert("Phase: "@ + name + Seq::<char>::empty() =~= "Phase: "@ + name);
    }
}

/// A log line of a phase is shown at its level, with its slot before it.
pub proof fn law_logs_are_shown(
    phase_key: Seq<char>,
    attempt: u32,
    slot_id: Option<Seq<char>>,
    level: Seq<char>,
    message: Seq<char>,
    timestamp: Option<Seq<char>>,
    file: Option<Seq<char>>,
    line: Option<u32>,
    execution_id: Option<Seq<char>>,
)
    ensures
        ({
            let lines = console_lines(
                StationEventView::PhaseLog {
                    phase_key,
                    attempt,
                    slot_id,
                    level,
                    message,
                    timestamp,
                    file,
                    line,
                    execution_id,
                },
            );
            &&& lines.len() == 1
            &&& lines[0].level == log_level_of(level)
            &&& shows_slot(slot_id) ==> lines[0].text == "[slot "@ + slot_id->0 + "] "@ + message
            &&& !shows_slot(slot_id) ==> lines[0].text == message
        }),
{
    if !shows_slot(slot_id) {
        assert(Seq::<char>::empty() + message =~= message);
    }
}

/// A log line of a plug is shown where it is a warning or an error, with its
/// slot and its plug before it.
pub proof fn law_plug_logs_are_shown(
    plug_key: Seq<char>,
    plug_name: Seq<char>,
    level: Seq<char>,
    message: Seq<char>,
    slot_id: Option<Seq<char>>,
    stage: Option<Seq<char>>,
    timestamp: Option<Seq<char>>,
    line: Option<u32>,
    execution_id: Option<Seq<char>>,
)
    ensures
        ({
            let lines = console_lines(
                StationEventView::PlugLog {
                    plug_key,
                    plug_name,
                    level,
                    message,
                    slot_id,
                    stage,
                    timestamp,
                    line,
                    execution_id,
                },
            );
            let shown = log_level_of(level) is Warn || log_level_of(level) is Error;
            &&& !shown ==> lines.len() == 0
            &&& shown ==> {
                &&& lines.len() == 1
                &&& lines[0].level == log_level_of(level)
                &&& shows_slot(slot_id) ==> lines[0].text == "[slot "@ + slot_id->0 + "] "@ + "["@
                    + plug_name + "] "@ + message
                &&& !shows_slot(slot_id) ==> lines[0].text == "["@ + plug_name + "] "@ + message
            }
        }),
{
    if !shows_slot(slot_id) {
        assert(Seq::<char>::empty() + "["@ + plug_name + "] "@ + message =~= "["@ + plug_name
            + "] "@ + message);
    }
}

/// Whether a value is shown: a text as it is, nothing as a dash, anything else
/// as JSON.
pub open spec fn shows_value(shown: Seq<char>, value: Option<JsonView>) -> bool {
    match value {
        None => shown == "—"@,
        Some(JsonView::Null) => shown == "—"@,
        Some(JsonView::Text(s)) => shown == s,
        Some(other) => shown == json_text(other),
    }
}

/// Whether a line shows a measurement: its name, its value, its unit where it
/// has one, and its outcome.
pub open spec fn shows_measurement(line: Seq<char>, m: RunMeasurementView) -> bool {
    exists|shown: Seq<char>| #[trigger]
        shows_value(shown, m.measured_value) && (m.units is None ==> line == "  "@ + (m.name
            + " = "@ + shown + " ["@ + m.outcome + "]"@)) && (m.units is Some ==> line == "  "@ + (
        m.name + " = "@ + shown + (" "@ + m.units->0) + " ["@ + m.outcome + "]"@))
}

/// Whether lines show an error: it has one, without the white space at its
/// end, where anything is left.
pub open spec fn shows_error(
    lines: Seq<crate::console::ConsoleLineView>,
    error: Option<Seq<char>>,
) -> bool {
    let kept = if error is Some {
        crate::text::drop_end_while(error->0, crate::text::is_space())
    } else {
        Seq::<char>::empty()
    };
    &&& kept.len() == 0 ==> lines.len() == 0
    &&& kept.len() > 0 ==> lines.len() == 1 && lines[0].level is Error && lines[0].text == kept
}

/// The end of a phase is shown by its outcome, then each of its measurements,
/// then its error.
pub proof fn law_ends_are_shown(
    phase_key: Seq<char>,
    name: Seq<char>,
    outcome: Seq<char>,
    measurements: Seq<RunMeasurementView>,
    slot_id: Option<Seq<char>>,
    attempt: u32,
    started_at: Option<Seq<char>>,
    ended_at: Option<Seq<char>>,
    duration_ms: Option<u32>,
    error: Option<Seq<char>>,
    logs: Seq<crate::protocol::PhaseLogLineView>,
    execution_id: Option<Seq<char>>,
)
    ensures
        ({
            let lines = console_lines(
                StationEventView::PhaseComplete {
                    phase_key,
                    name,
                    outcome,
                    measurements,
                    slot_id,
                    attempt,
                    started_at,
                    ended_at,
                    duration_ms,
                    error,
                    logs,
                    execution_id,
                },
            );
            let n = measurements.len() as int;
            &&& lines.len() >= n + 1
            &&& lines[0].level == outcome_level(outcome)
            &&& shows_slot(slot_id) ==> lines[0].text == "Phase "@ + name + ": "@ + outcome
                + (" (slot "@ + slot_id->0 + ")"@)
            &&& !shows_slot(slot_id) ==> lines[0].text == "Phase "@ + name + ": "@ + outcome
            &&& forall|i: int|
                0 <= i < n ==> (#[trigger] lines[i + 1]).level is Info && shows_measurement(
                    lines[i + 1].text,
                    measurements[i],
                )
            &&& shows_error(lines.skip(n + 1), error)
        }),
{
    let lines = console_lines(
        StationEventView::PhaseComplete {
            phase_key,
            name,
            outcome,
            measurements,
            slot_id,
            attempt,
            started_at,
            ended_at,
            duration_ms,
            error,
            logs,
            execution_id,
        },
    );
    let n = measurements.len() as int;
    if !shows_slot(slot_id) {
        assert("Phase "@ + name + ": "@ + outcome + Seq::<char>::empty() =~= "Phase "@ + name
            + ": "@ + outcome);
    }
    assert forall|i: int| 0 <= i < n implies (#[trigger] lines[i + 1]).level is Info
        && shows_measurement(lines[i + 1].text, measurements[i]) by {
        let m = measurements[i];
        let shown = crate::console::shown_value(m.measured_value);
        assert(shows_value(shown, m.measured_value));
        if m.units is None {
            assert(m.name + " = "@ + shown + Seq::<char>::empty() + " ["@ + m.outcome + "]"@
                =~= m.name + " = "@ + shown + " ["@ + m.outcome + "]"@);
        }
    }
    let tail = match error {
        Some(e) => crate::console::error_lines(e),
        None => Seq::empty(),
    };
    assert(lines.skip(n + 1) =~= tail);
}

/// A crash, an upload, a failed upload and the end of a run are each shown in a
/// line.
pub proof fn law_the_rest_is_shown(
    procedure_id: Seq<char>,
    error: Seq<char>,
    error_kind: Seq<char>,
    execution_id: Option<Seq<char>>,
    run_id: Seq<char>,
    url: Option<Seq<char>>,
    queue_id: Seq<char>,
    attempt: u32,
    status: Option<u16>,
    next: Option<Seq<char>>,
    outcome: Seq<char>,
    known: Option<Seq<char>>,
    slot_outcomes: Seq<KeyTextView>,
)
    ensures
        shows_error(
            console_lines(
                StationEventView::RunCrashed { procedure_id, error, error_kind, execution_id },
            ),
            Some(error),
        ),
        ({
            let lines = console_lines(
                StationEventView::RunUploaded { procedure_id, run_id, dashboard_url: url },
            );
            &&& lines.len() == 1
            &&& lines[0].level is Success
            &&& url is None ==> lines[0].text == "Uploaded to dashboard"@
            &&& url is Some ==> lines[0].text == "Uploaded to dashboard"@ + (" — "@ + url->0)
        }),
        ({
            let lines = console_lines(
                StationEventView::RunUploadFailed {
                    queue_id,
                    attempt,
                    kind: error_kind,
                    status,
                    error,
                    next_retry_at: next,
                },
            );
            &&& lines.len() == 1
            &&& lines[0].level is Error
            &&& lines[0].text == "Upload failed: "@ + error
        }),
        ({
            let lines = console_lines(
                StationEventView::RunComplete {
                    outcome,
                    run_id: known,
                    execution_id,
                    slot_outcomes,
                },
            );
            &&& lines.len() == 1
            &&& lines[0].level == outcome_level(outcome)
            &&& lines[0].text == "Run complete: "@ + outcome
        }),
{
    if url is None {
        assert("Uploaded to dashboard"@ + Seq::<char>::empty() =~= "Uploaded to dashboard"@);
    }
}

/// What is not about a phase, a plug's warning, a crash, an upload or the end
/// is not shown.
pub proof fn law_nothing_else_is_shown(event: StationEventView)
    requires
        !(event is PhaseStarted),
        !(event is PhaseLog),
        !(event is PlugLog),
        !(event is PhaseComplete),
        !(event is RunCrashed),
        !(event is RunUploaded),
        !(event is RunUploadFailed),
        !(event is RunComplete),
    ensures
        console_lines(event).len() == 0,
{
}

/// A stop is weaker than an interrupt, and that than a force kill; the stronger
/// of two signals is the one that counts.
pub proof fn law_stronger_signals_count(a: CancelSignal)
    ensures
        stronger(CancelSignal::Idle, a) == a,
        stronger(a, CancelSignal::Idle) == a,
        stronger(CancelSignal::Graceful, CancelSignal::Interrupt) is Interrupt,
        stronger(CancelSignal::Interrupt, CancelSignal::Graceful) is Interrupt,
        stronger(CancelSignal::Force, a) is Force,
        stronger(a, CancelSignal::Force) is Force,
        stronger(a, a) == a,
{
}

/// Who waits for a signal gets it once it is as strong as was waited for; a
/// force kill where nobody can ask any more; and else waits on.
pub proof fn law_signals_are_awaited(r: Receiver, least: CancelSignal)
    ensures
        ({
            let reached = stronger(r.signal, least) == r.signal;
            &&& reached ==> awaited(r, least) == Some(r.signal)
            &&& !reached && r.abandoned ==> awaited(r, least) == Some(CancelSignal::Force)
            &&& !reached && !r.abandoned ==> awaited(r, least) is None
        }),
{
}

/// A unit is asked for at the station, at the agent and at the terminal form,
/// where there are such.
pub proof fn law_units_are_asked_for(
    router: EventRouterView,
    has_terminal: bool,
    procedure_id: Seq<char>,
    req: PromptRequestView,
    now: Instant,
)
    ensures
        ({
            let out = ask_emissions(router, has_terminal, procedure_id, req, now);
            &&& out.len() == 1 + (if router.agent {
                1int
            } else {
                0
            }) + (if has_terminal {
                1int
            } else {
                0
            })
            &&& out[0] matches EmissionView::Station(
                StationEventView::IdentifyRequest {
                    request_id,
                    procedure_id: procedure,
                    slot_id,
                    components,
                    timestamp,
                    execution_id,
                },
            ) && request_id == req.request_id && procedure == Some(procedure_id) && slot_id
                == req.slot_id && components == Some(req.components) && timestamp == Some(
                stamp_text(now),
            ) && execution_id == Some(router.execution_id)
            &&& router.agent ==> (out[1] matches EmissionView::Agent(
                CliEventView::IdentifyRequest { request_id, slot_id, components },
            ) && request_id == req.request_id && slot_id == req.slot_id && components
                == agent_components(req.components))
            &&& has_terminal ==> (out.last() matches EmissionView::Terminal(form)
                && form.request_id == req.request_id && form.components == req.components
                && form.phase_key == req.phase_key && form.slot_id == req.slot_id
                && form.requires_user_input && form.requires_input == Some(true))
        }),
{
}

/// What was answered is the unit; a prompt that was closed or timed out gives
/// none, says why and is taken back, and one that timed out is announced.
pub proof fn law_answers_for_units(
    router: EventRouterView,
    request_id: Seq<char>,
    values: Seq<KeyTextView>,
)
    ensures
        ({
            let answered = ask_ended(router, request_id, AnswerView::Values(values));
            let closed = ask_ended(router, request_id, AnswerView::Closed);
            let late = ask_ended(router, request_id, AnswerView::TimedOut);
            &&& answered.result == IdentifyResultView::Values(values)
            &&& answered.emissions.len() == 0
            &&& !answered.cleanup
            &&& closed.result == IdentifyResultView::Cancelled(
                "operator UI channel closed before responding"@,
            )
            &&& closed.emissions.len() == 0
            &&& closed.cleanup
            &&& late.result == IdentifyResultView::Cancelled("identify-unit prompt timed out"@)
            &&& late.cleanup
            &&& late.emissions.len() == if router.agent {
                2int
            } else {
                1
            }
            &&& late.emissions[0] == EmissionView::Station(
                StationEventView::IdentifyTimeout {
                    request_id,
                    execution_id: Some(router.execution_id),
                },
            )
            &&& router.agent ==> late.emissions[1] == EmissionView::Agent(
                CliEventView::IdentifyTimeout { request_id },
            )
        }),
{
}

} // verus!
