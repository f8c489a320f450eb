//! The Python side of a run: which interpreter, which file, how the process is
//! started and what its end means.

use vstd::prelude::*;
use vstd::string::*;
use crate::dup::{push, Dup};
use crate::emit::{run_complete, run_complete_event, run_crashed, run_crashed_emissions};
use crate::engine::caps::{field, member};
use crate::engine::model::KeyText;
use crate::event_router::{stamp, stamp_text, Emission, EmissionView};
use crate::json::{json_text, Json, JsonField, JsonView};
use crate::outcomes::{exit_code_word, from_exit_code};
use crate::paths::{under, PathParts, PathPartsView};
use crate::protocol::{StationEvent, StationEventView};
use crate::text;
use crate::text::{fitting_suffix, lemma_fitting_suffix, utf8_size};
use crate::time::Instant;

verus! {

/// A variable of the environment.
#[derive(Debug, PartialEq, Eq)]
pub struct EnvVar {
    pub name: String,
    pub value: String,
}

/// View of [`EnvVar`].
pub struct EnvVarView {
    pub name: Seq<char>,
    pub value: Seq<char>,
}

impl DeepView for EnvVar {
    type V = EnvVarView;

    open spec fn deep_view(&self) -> EnvVarView {
        EnvVarView {
            name: self.name.deep_view(),
            value: self.value.deep_view(),
        }
    }
}

impl Dup for EnvVar {
    fn dup(&self) -> (copy: Self) {
        EnvVar {
            name: self.name.dup(),
            value: self.value.dup(),
        }
    }
}

/// How a Python process is started.
#[derive(Debug, PartialEq, Eq)]
pub struct CommandPlan {
    pub program: PathParts,
    pub args: Vec<PathParts>,
    pub working_dir: PathParts,
    /// The variables that it does not inherit.
    pub removed: Vec<String>,
    pub set: Vec<EnvVar>,
}

/// View of [`CommandPlan`].
pub struct CommandPlanView {
    pub program: PathPartsView,
    pub args: Seq<PathPartsView>,
    pub working_dir: PathPartsView,
    pub removed: Seq<Seq<char>>,
    pub set: Seq<EnvVarView>,
}

impl DeepView for CommandPlan {
    type V = CommandPlanView;

    open spec fn deep_view(&self) -> CommandPlanView {
        CommandPlanView {
            program: self.program.deep_view(),
            args: self.args.deep_view(),
            working_dir: self.working_dir.deep_view(),
            removed: self.removed.deep_view(),
            set: self.set.deep_view(),
        }
    }
}

/// What came of the wait for a process that was told to stop.
#[derive(Debug, PartialEq, Eq)]
pub enum ShutdownWait {
    /// Its exit code, where it has one.
    Exited {
        code: Option<i32>,
    },
    Failed,
    TimedOut,
}

/// View of [`ShutdownWait`].
pub enum ShutdownWaitView {
    Exited {
        code: Option<i32>,
    },
    Failed,
    TimedOut,
}

impl DeepView for ShutdownWait {
    type V = ShutdownWaitView;

    open spec fn deep_view(&self) -> ShutdownWaitView {
        match self {
            ShutdownWait::Exited { code } => ShutdownWaitView::Exited {
                code: code.deep_view(),
            },
            ShutdownWait::Failed => ShutdownWaitView::Failed,
            ShutdownWait::TimedOut => ShutdownWaitView::TimedOut,
        }
    }
}

/// How a process was stopped.
#[derive(Debug, PartialEq, Eq)]
pub struct Shutdown {
    /// Whether it has to be killed.
    pub kill: bool,
    pub exit_code: i32,
}

/// View of [`Shutdown`].
pub struct ShutdownView {
    pub kill: bool,
    pub exit_code: i32,
}

impl DeepView for Shutdown {
    type V = ShutdownView;

    open spec fn deep_view(&self) -> ShutdownView {
        ShutdownView {
            kill: self.kill.deep_view(),
            exit_code: self.exit_code.deep_view(),
        }
    }
}

/// The identity of a run without phases.
#[derive(Debug, PartialEq, Eq)]
pub struct PlainRunContext {
    pub procedure_id: String,
    pub procedure_name: String,
    pub execution_id: String,
}

/// View of [`PlainRunContext`].
pub struct PlainRunContextView {
    pub procedure_id: Seq<char>,
    pub procedure_name: Seq<char>,
    pub execution_id: Seq<char>,
}

impl DeepView for PlainRunContext {
    type V = PlainRunContextView;

    open spec fn deep_view(&self) -> PlainRunContextView {
        PlainRunContextView {
            procedure_id: self.procedure_id.deep_view(),
            procedure_name: self.procedure_name.deep_view(),
            execution_id: self.execution_id.deep_view(),
        }
    }
}

/// What happens to a process without a connector.
#[derive(Debug, PartialEq, Eq)]
#[allow(inconsistent_fields)]
pub enum PlainEvent {
    /// It is about to be started.
    Begun {
        at: Instant,
    },
    SpawnFailed {
        message: String,
    },
    NoStdout,
    NoStderr,
    Exited {
        code: Option<i32>,
    },
    WaitFailed {
        error: String,
    },
    /// It was told to stop.
    Stopped {
        wait: Shutdown,
    },
}

/// View of [`PlainEvent`].
#[allow(inconsistent_fields)]
pub enum PlainEventView {
    Begun {
        at: Instant,
    },
    SpawnFailed {
        message: Seq<char>,
    },
    NoStdout,
    NoStderr,
    Exited {
        code: Option<i32>,
    },
    WaitFailed {
        error: Seq<char>,
    },
    Stopped {
        wait: ShutdownView,
    },
}

impl DeepView for PlainEvent {
    type V = PlainEventView;

    open spec fn deep_view(&self) -> PlainEventView {
        match self {
            PlainEvent::Begun { at } => PlainEventView::Begun {
                at: at.deep_view(),
            },
            PlainEvent::SpawnFailed { message } => PlainEventView::SpawnFailed {
                message: message.deep_view(),
            },
            PlainEvent::NoStdout => PlainEventView::NoStdout,
            PlainEvent::NoStderr => PlainEventView::NoStderr,
            PlainEvent::Exited { code } => PlainEventView::Exited {
                code: code.deep_view(),
            },
            PlainEvent::WaitFailed { error } => PlainEventView::WaitFailed {
                error: error.deep_view(),
            },
            PlainEvent::Stopped { wait } => PlainEventView::Stopped {
                wait: wait.deep_view(),
            },
        }
    }
}

/// What to do about it.
#[derive(Debug, PartialEq, Eq)]
pub struct PlainStep {
    pub emissions: Vec<Emission>,
    /// For the operator.
    pub complaint: Option<String>,
    /// Where the run is over.
    pub exit_code: Option<i32>,
}

/// View of [`PlainStep`].
pub struct PlainStepView {
    pub emissions: Seq<EmissionView>,
    pub complaint: Option<Seq<char>>,
    pub exit_code: Option<i32>,
}

impl DeepView for PlainStep {
    type V = PlainStepView;

    open spec fn deep_view(&self) -> PlainStepView {
        PlainStepView {
            emissions: self.emissions.deep_view(),
            complaint: self.complaint.deep_view(),
            exit_code: self.exit_code.deep_view(),
        }
    }
}

/// The file that a Python project starts from.
pub const ENTRY_FILE: &'static str = "main.py";

/// The directory of the virtual environment of a project.
pub const VENV_DIR: &'static str = "venv";

/// The file that a project starts from, by whether it is there.
pub fn find_entry_point(dir: &PathParts, exists: bool) -> (entry: Option<PathParts>)
    ensures
        entry.deep_view() == (if exists {
            Some(under(dir.deep_view(), ENTRY_FILE@))
        } else {
            None
        }),
{
    if exists {
        Some(dir.join(ENTRY_FILE))
    } else {
        None
    }
}

/// The interpreter of a virtual environment.
pub open spec fn interpreter(venv: PathPartsView, windows: bool) -> PathPartsView {
    if windows {
        under(under(venv, "Scripts"@), "python.exe"@)
    } else {
        under(under(venv, "bin"@), "python"@)
    }
}

/// The interpreter of the virtual environment of that name in a directory.
pub fn venv_python_path(dir: &PathParts, name: &str, windows: bool) -> (python: PathParts)
    ensures
        python.deep_view() == interpreter(under(dir.deep_view(), name@), windows),
{
    let venv = dir.join(name);
    if windows {
        venv.join("Scripts").join("python.exe")
    } else {
        venv.join("bin").join("python")
    }
}

/// The interpreter of a pulled deployment, by whether it is there; `shown` is
/// its path as the platform writes it.
pub fn deployment_python(
    package_dir: &PathParts,
    windows: bool,
    exists: bool,
    shown: &str,
) -> (python: Result<PathParts, String>)
    ensures
        python is Ok <==> exists,
        python matches Ok(p) ==> p.deep_view() == interpreter(
            under(package_dir.deep_view(), VENV_DIR@),
            windows,
        ),
        python matches Err(e) ==> e@ == "No Python venv found at "@ + shown@
            + ". Run `tofupilot pull` to provision the deployment."@,
{
    if exists {
        Ok(venv_python_path(package_dir, VENV_DIR, windows))
    } else {
        Err(
            text::concat3(
                "No Python venv found at ",
                shown,
                ". Run `tofupilot pull` to provision the deployment.",
            ),
        )
    }
}

// ---------------------------------------------------------------------------
// Starting a process
// ---------------------------------------------------------------------------

/// The variables that a process does not inherit.
pub open spec fn withheld() -> Seq<Seq<char>> {
    seq!["PYTHONHOME"@, "PYTHONPATH"@, "TOFUPILOT_API_KEY"@, "TOFUPILOT_URL"@]
}

/// The variables that a process is given.
pub open spec fn given(queue_id: Seq<char>) -> Seq<EnvVarView> {
    seq![
        EnvVarView { name: "PYTHONUNBUFFERED"@, value: "1"@ },
        EnvVarView { name: "PYTHONIOENCODING"@, value: "utf-8"@ },
        EnvVarView { name: "TOFUPILOT_QUEUE_ID"@, value: queue_id },
    ]
}

/// How a Python process is started: without credentials, and with the
/// identity under which it may leave files.
pub fn build_command(
    python_path: PathParts,
    args: Vec<PathParts>,
    working_dir: PathParts,
    queue_id: &str,
) -> (plan: CommandPlan)
    ensures
        plan.deep_view() == (CommandPlanView {
            program: python_path.deep_view(),
            args: args.deep_view(),
            working_dir: working_dir.deep_view(),
            removed: withheld(),
            set: given(queue_id@),
        }),
{
    let mut removed: Vec<String> = Vec::new();
    push(&mut removed, "PYTHONHOME".to_string());
    push(&mut removed, "PYTHONPATH".to_string());
    push(&mut removed, "TOFUPILOT_API_KEY".to_string());
    push(&mut removed, "TOFUPILOT_URL".to_string());
    assert(removed.deep_view() =~= withheld());
    let mut set: Vec<EnvVar> = Vec::new();
    push(&mut set, EnvVar { name: "PYTHONUNBUFFERED".to_string(), value: "1".to_string() });
    push(&mut set, EnvVar { name: "PYTHONIOENCODING".to_string(), value: "utf-8".to_string() });
    push(
        &mut set,
        EnvVar { name: "TOFUPILOT_QUEUE_ID".to_string(), value: queue_id.to_string() },
    );
    assert(set.deep_view() =~= given(queue_id@));
    CommandPlan { program: python_path, args, working_dir, removed, set }
}

/// Why a process could not be started.
pub open spec fn spawn_error(source: Seq<char>, diagnosis: Option<Seq<char>>) -> Seq<char> {
    "Failed to spawn Python: "@ + source + (match diagnosis {
        Some(d) => " — "@ + d,
        None => ""@,
    })
}

/// Why a process could not be started, with what is wrong with the
/// interpreter where that is known.
pub fn spawn_error_message(source: &str, diagnosis: &Option<String>) -> (message: String)
    ensures
        message@ == spawn_error(source@, diagnosis.deep_view()),
{
    let mut message = text::concat2("Failed to spawn Python: ", source);
    match diagnosis {
        Some(d) => {
            message.append(" — ");
            message.append(d.as_str());
        },
        None => {
            message.append("");
        },
    }
    assert(message@ =~= spawn_error(source@, diagnosis.deep_view()));
    message
}

/// The exit code of a process that was stopped.
pub const STOPPED_EXIT: i32 = 130;

/// How a process ends that was told to stop: it has to be killed where it did
/// not exit in time.
pub open spec fn shut_down(wait: ShutdownWaitView) -> ShutdownView {
    match wait {
        ShutdownWaitView::Exited { code } => ShutdownView {
            kill: false,
            exit_code: match code {
                Some(c) => c,
                None => STOPPED_EXIT,
            },
        },
        _ => ShutdownView { kill: true, exit_code: STOPPED_EXIT },
    }
}

/// Decides how a process ends that was told to stop.
pub fn graceful_shutdown(wait: &ShutdownWait) -> (out: Shutdown)
    ensures
        out.deep_view() == shut_down(wait.deep_view()),
{
    match wait {
        ShutdownWait::Exited { code } => Shutdown {
            kill: false,
            exit_code: match code {
                Some(c) => *c,
                None => STOPPED_EXIT,
            },
        },
        _ => Shutdown { kill: true, exit_code: STOPPED_EXIT },
    }
}

// ---------------------------------------------------------------------------
// The last lines of the error stream
// ---------------------------------------------------------------------------

/// How many bytes of the error stream are kept.
pub const MAX_TAIL_BYTES: usize = 4096;

/// What the tail becomes with one more line: whole characters, and no more
/// bytes than are kept.
pub open spec fn tail_after(tail: Seq<char>, line: Seq<char>) -> Seq<char> {
    fitting_suffix(tail + line + "\n"@, MAX_TAIL_BYTES as nat)
}

/// Keeps the tail of the error stream, line by line.
pub fn keep_tail(tail: &mut String, line: &str)
    ensures
        final(tail)@ == tail_after(old(tail)@, line@),
{
    let all = text::concat3(tail.as_str(), line, "\n");
    *tail = text::suffix_within(all.as_str(), MAX_TAIL_BYTES);
}

/// A line of a process for the output: as it is, or as a JSON line.
pub open spec fn shown_line(line: Seq<char>, json_mode: bool) -> Seq<char> {
    if json_mode {
        json_text(
            JsonView::Object(
                seq![
                    member("type"@, JsonView::Text("stdout"@)),
                    member("line"@, JsonView::Text(line)),
                ],
            ),
        )
    } else {
        line
    }
}

/// A line of a process for the output.
pub fn stdout_line(line: &str, json_mode: bool) -> (out: String)
    ensures
        out@ == shown_line(line@, json_mode),
{
    if json_mode {
        let mut fields: Vec<JsonField> = Vec::new();
        push(&mut fields, field("type", Json::Text("stdout".to_string())));
        push(&mut fields, field("line", Json::Text(line.to_string())));
        assert(fields.deep_view() =~= seq![
            member("type"@, JsonView::Text("stdout"@)),
            member("line"@, JsonView::Text(line@)),
        ]);
        Json::object(fields).render()
    } else {
        line.to_string()
    }
}

// ---------------------------------------------------------------------------
// A process without a connector
// ---------------------------------------------------------------------------

/// The word for a process that could not be started.
pub const SPAWN_FAILED: &'static str = "spawn_failed";

/// The crash of a run without phases, where somebody listens.
pub open spec fn plain_crash(ctx: Option<PlainRunContextView>, message: Seq<char>) -> Seq<
    EmissionView,
> {
    match ctx {
        Some(c) => run_crashed_emissions(
            false,
            c.procedure_id,
            c.execution_id,
            SPAWN_FAILED@,
            message,
            1,
        ),
        None => Seq::empty(),
    }
}

/// The end of a run without phases, where somebody listens.
pub open spec fn plain_end(ctx: Option<PlainRunContextView>, code: i32) -> Seq<EmissionView> {
    match ctx {
        Some(c) => seq![
            EmissionView::Station(
                run_complete_event(exit_code_word(code), c.execution_id, None, Seq::empty()),
            ),
        ],
        None => Seq::empty(),
    }
}

/// The begin of a run without phases, where somebody listens.
pub open spec fn plain_begin(ctx: Option<PlainRunContextView>, at: Instant) -> Seq<EmissionView> {
    match ctx {
        Some(c) => seq![
            EmissionView::Station(
                StationEventView::RunStarted {
                    procedure_id: c.procedure_id,
                    procedure_name: c.procedure_name,
                    execution_id: c.execution_id,
                    phases: Seq::empty(),
                    slots: Seq::empty(),
                    slot_names: Seq::empty(),
                    slot_units: Seq::empty(),
                    plugs: Seq::empty(),
                    timestamp: Some(stamp_text(at)),
                    run_id: None,
                    deployment_id: None,
                    unit: None,
                    only_phase: None,
                },
            ),
        ],
        None => Seq::empty(),
    }
}

/// A run without phases that is over.
pub open spec fn plain_over(
    ctx: Option<PlainRunContextView>,
    code: i32,
    complaint: Option<Seq<char>>,
) -> PlainStepView {
    PlainStepView { emissions: plain_end(ctx, code), complaint, exit_code: Some(code) }
}

/// What to do about what happens to a process without a connector.
pub open spec fn plain_step(ctx: Option<PlainRunContextView>, event: PlainEventView) -> PlainStepView {
    match event {
        PlainEventView::Begun { at } => PlainStepView {
            emissions: plain_begin(ctx, at),
            complaint: None,
            exit_code: None,
        },
        PlainEventView::SpawnFailed { message } => PlainStepView {
            emissions: plain_crash(ctx, message),
            complaint: Some(message),
            exit_code: Some(1),
        },
        PlainEventView::NoStdout => PlainStepView {
            emissions: plain_crash(ctx, "Failed to capture stdout from Python child"@),
            complaint: Some("Failed to capture stdout"@),
            exit_code: Some(1),
        },
        PlainEventView::NoStderr => PlainStepView {
            emissions: plain_crash(ctx, "Failed to capture stderr from Python child"@),
            complaint: Some("Failed to capture stderr"@),
            exit_code: Some(1),
        },
        PlainEventView::Exited { code } => plain_over(
            ctx,
            match code {
                Some(c) => c,
                None => 1,
            },
            None,
        ),
        PlainEventView::WaitFailed { error } => plain_over(ctx, 1, Some("Process error: "@ + error)),
        PlainEventView::Stopped { wait } => plain_over(ctx, wait.exit_code, None),
    }
}

fn crash(ctx: &Option<PlainRunContext>, message: &str) -> (out: Vec<Emission>)
    ensures
        out.deep_view() == plain_crash(ctx.deep_view(), message@),
{
    match ctx {
        Some(c) => run_crashed(
            false,
            c.procedure_id.as_str(),
            c.execution_id.as_str(),
            SPAWN_FAILED,
            message,
            1,
        ),
        None => {
            let none: Vec<Emission> = Vec::new();
            assert(none.deep_view() =~= Seq::empty());
            none
        },
    }
}

fn over(ctx: &Option<PlainRunContext>, code: i32, complaint: Option<String>) -> (step: PlainStep)
    ensures
        step.deep_view() == plain_over(ctx.deep_view(), code, complaint.deep_view()),
{
    let mut emissions: Vec<Emission> = Vec::new();
    match ctx {
        Some(c) => {
            let none: Vec<KeyText> = Vec::new();
            assert(none.deep_view() =~= Seq::empty());
            push(
                &mut emissions,
                Emission::Station(
                    run_complete(from_exit_code(code), c.execution_id.as_str(), None, none),
                ),
            );
        },
        None => {},
    }
    assert(emissions.deep_view() =~= plain_end(ctx.deep_view(), code));
    PlainStep { emissions, complaint, exit_code: Some(code) }
}

fn begin(ctx: &Option<PlainRunContext>, at: Instant) -> (emissions: Vec<Emission>)
    ensures
        emissions.deep_view() == plain_begin(ctx.deep_view(), at),
{
    let mut emissions: Vec<Emission> = Vec::new();
    match ctx {
        Some(c) => {
            let event = StationEvent::RunStarted {
                procedure_id: c.procedure_id.dup(),
                procedure_name: c.procedure_name.dup(),
                execution_id: c.execution_id.dup(),
                phases: Vec::new(),
                slots: Vec::new(),
                slot_names: Vec::new(),
                slot_units: Vec::new(),
                plugs: Vec::new(),
                timestamp: Some(stamp(at)),
                run_id: None,
                deployment_id: None,
                unit: None,
                only_phase: None,
            };
            assert(event->RunStarted_phases.deep_view() =~= Seq::empty());
            assert(event->RunStarted_slots.deep_view() =~= Seq::empty());
            assert(event->RunStarted_slot_names.deep_view() =~= Seq::empty());
            assert(event->RunStarted_slot_units.deep_view() =~= Seq::empty());
            assert(event->RunStarted_plugs.deep_view() =~= Seq::empty());
            push(&mut emissions, Emission::Station(event));
        },
        None => {},
    }
    assert(emissions.deep_view() =~= plain_begin(ctx.deep_view(), at));
    emissions
}

/// Takes in what happens to a process without a connector. Somebody listens
/// where there is a context.
pub fn execute(ctx: &Option<PlainRunContext>, event: PlainEvent) -> (step: PlainStep)
    ensures
        step.deep_view() == plain_step(ctx.deep_view(), event.deep_view()),
{
    match event {
        PlainEvent::Begun { at } => PlainStep {
            emissions: begin(ctx, at),
            complaint: None,
            exit_code: None,
        },
        PlainEvent::SpawnFailed { message } => PlainStep {
            emissions: crash(ctx, message.as_str()),
            complaint: Some(message),
            exit_code: Some(1),
        },
        PlainEvent::NoStdout => PlainStep {
            emissions: crash(ctx, "Failed to capture stdout from Python child"),
            complaint: Some("Failed to capture stdout".to_string()),
            exit_code: Some(1),
        },
        PlainEvent::NoStderr => PlainStep {
            emissions: crash(ctx, "Failed to capture stderr from Python child"),
            complaint: Some("Failed to capture stderr".to_string()),
            exit_code: Some(1),
        },
        PlainEvent::Exited { code } => over(
            ctx,
            match code {
                Some(c) => c,
                None => 1,
            },
            None,
        ),
        PlainEvent::WaitFailed { error } => over(
            ctx,
            1,
            Some(text::concat2("Process error: ", error.as_str())),
        ),
        PlainEvent::Stopped { wait } => over(ctx, wait.exit_code, None),
    }
}

// ---------------------------------------------------------------------------
// Laws
// ---------------------------------------------------------------------------

/// No process is given a variable that is withheld from it, the credentials
/// among them.
pub proof fn law_credentials_are_withheld(queue_id: Seq<char>, i: int, k: int)
    requires
        0 <= i < given(queue_id).len(),
        0 <= k < withheld().len(),
    ensures
        given(queue_id)[i].name != withheld()[k],
        withheld().contains("TOFUPILOT_API_KEY"@),
        withheld().contains("TOFUPILOT_URL"@),
{
    reveal_strlit("PYTHONHOME");
    reveal_strlit("PYTHONPATH");
    reveal_strlit("TOFUPILOT_API_KEY");
    reveal_strlit("TOFUPILOT_URL");
    reveal_strlit("PYTHONUNBUFFERED");
    reveal_strlit("PYTHONIOENCODING");
    reveal_strlit("TOFUPILOT_QUEUE_ID");
    assert(withheld()[2] == "TOFUPILOT_API_KEY"@);
    assert(withheld()[3] == "TOFUPILOT_URL"@);
    assert("PYTHONUNBUFFERED"@.len() == 16);
    assert("PYTHONIOENCODING"@.len() == 16);
    assert("TOFUPILOT_QUEUE_ID"@.len() == 18);
    assert("PYTHONHOME"@.len() == 10);
    assert("PYTHONPATH"@.len() == 10);
    assert("TOFUPILOT_API_KEY"@.len() == 17);
    assert("TOFUPILOT_URL"@.len() == 13);
}

/// The tail of the error stream stays within its bound, and ends as the
/// stream does.
pub proof fn law_tail_is_bounded(tail: Seq<char>, line: Seq<char>)
    ensures
        utf8_size(tail_after(tail, line)) <= MAX_TAIL_BYTES,
        tail_after(tail, line).is_suffix_of(tail + line + "\n"@),
{
    lemma_fitting_suffix(tail + line + "\n"@, MAX_TAIL_BYTES as nat);
}

/// Everything that ends a run without phases is announced as its end, exactly
/// once, where somebody listens.
pub proof fn law_plain_runs_end_once(ctx: PlainRunContextView, event: PlainEventView)
    ensures
        ({
            let step = plain_step(Some(ctx), event);
            let ends = |e: EmissionView|
                e matches EmissionView::Station(StationEventView::RunComplete { .. });
            &&& step.exit_code is Some ==> exists|i: int|
                0 <= i < step.emissions.len() && ends(#[trigger] step.emissions[i])
            &&& step.exit_code is None ==> forall|i: int|
                0 <= i < step.emissions.len() ==> !ends(#[trigger] step.emissions[i])
            &&& forall|i: int, k: int|
                0 <= i < k < step.emissions.len() && ends(#[trigger] step.emissions[i])
                    ==> !ends(#[trigger] step.emissions[k])
        }),
{
    let step = plain_step(Some(ctx), event);
    let ends = |e: EmissionView|
        e matches EmissionView::Station(StationEventView::RunComplete { .. });
    if step.exit_code is Some {
        if event is SpawnFailed || event is NoStdout || event is NoStderr {
            assert(ends(step.emissions[1]));
        } else {
            assert(ends(step.emissions[0]));
        }
    }
}

/// Where nobody listens, nothing is announced.
pub proof fn law_nobody_listens(event: PlainEventView)
    ensures
        plain_step(None, event).emissions.len() == 0,
{
}

} // verus!
