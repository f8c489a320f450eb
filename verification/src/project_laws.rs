//! What holds of projects: what drives them, what they need, and where they
//! come from.

use vstd::prelude::*;
use crate::bootstrap::{
    confirmation, deps_of, first_version, hint_of, planned, provisioning, requested_runtime,
    runtime_of, sha256_hex, stamp_of, venv_decision, version_signs, ConfirmationView,
    DepsSourceView, ProbedDirView, ProvisionStepView, UvArgView, VenvPlanView,
};
use crate::connector::detect::{any_requires, any_robot_file, manifest_names};
use crate::deployment_id::{deployment_of, lookup_warning, PullLookupView};
use crate::engine::run::DeploymentLayoutView;
use crate::event_router::{stamp_text, EmissionView};
use crate::framework::{
    chosen_framework, entry_of, framework_of, interpreter_source, names_yaml, prepared_entry,
    FrameworkView, Interpreter, ProjectFilesView,
};
use crate::json::{json_member, json_of_toml, json_text, JsonFieldView, JsonView};
use crate::order::{ascending, lemma_sorted, sorted};
use crate::outcomes::exit_code_word;
use crate::paths::{extension_of, name_of, PathPartsView};
use crate::procedure_version::project_version;
use crate::protocol::StationEventView;
use crate::python::{
    given, interpreter, plain_step, shown_line, shut_down, spawn_error, tail_after, withheld,
    PlainEventView, PlainRunContextView, ShutdownView, ShutdownWaitView,
};
use crate::queue::command_laws::holds;
use crate::run_log::{line_of, log_name, logs_under, pruned, run_logs, by_time, LogFileView};
use crate::source::{
    deployed_ids, link_needed, local_place, local_source, picker_label, selection_of, valid_id,
    DeploymentEntryView, LinkView, LocalPlaceView, PathKindView, SelectionView,
};
use crate::text::{one_of, same_ignoring_case, skip_while, split_on, trimmed, utf8_size, whitespace};
use crate::text_laws::{law_skipping, law_trimming};
use crate::time::Instant;

verus! {

/// Whether a path is a name below a directory.
pub open spec fn is_below(path: PathPartsView, dir: PathPartsView, name: Seq<char>) -> bool {
    path.base == dir.base && path.parts == dir.parts.push(name)
}

/// A procedure file is known by the extension of its name, in whatever case.
pub proof fn law_procedure_files(rel: Seq<char>, windows: bool)
    ensures
        names_yaml(rel, windows) <==> name_of(rel, windows) is Some && extension_of(
            name_of(rel, windows)->0,
        ) is Some && ({
            let ext = extension_of(name_of(rel, windows)->0)->0;
            same_ignoring_case(ext, "yaml"@) || same_ignoring_case(ext, "yml"@)
        }),
{
}

/// What drives a procedure: an entry point that is a procedure file, a
/// procedure file that lies there, OpenHTF, pytest, Robot Framework, or the
/// script alone, in this order.
pub proof fn law_frameworks_in_order(
    dir: PathPartsView,
    entry: Option<Seq<char>>,
    files: ProjectFilesView,
    windows: bool,
)
    ensures
        ({
            let chosen = framework_of(dir, entry, files, windows);
            let named = entry is Some && names_yaml(entry->0, windows);
            let yaml = named || files.has_yaml || files.has_yml;
            let openhtf = manifest_names(files.manifest, "openhtf"@) || any_requires(
                files.dependency_files,
                "openhtf"@,
            );
            let robot = manifest_names(files.manifest, "robot"@) || any_requires(
                files.dependency_files,
                "robotframework"@,
            ) || any_robot_file(files.names);
            &&& chosen is Yaml <==> yaml
            &&& named ==> is_below(chosen->0, dir, entry->0)
            &&& !named && files.has_yaml ==> is_below(chosen->0, dir, "procedure.yaml"@)
            &&& !named && !files.has_yaml && files.has_yml ==> is_below(
                chosen->0,
                dir,
                "procedure.yml"@,
            )
            &&& chosen is Openhtf <==> !yaml && openhtf
            &&& chosen is Pytest <==> !yaml && !openhtf && files.pytest
            &&& chosen is Robot <==> !yaml && !openhtf && !files.pytest && robot
            &&& chosen is Plain <==> !yaml && !openhtf && !files.pytest && !robot
        }),
{
}

/// A procedure file that was named drives the run, before what the directory
/// holds.
pub proof fn law_named_files_drive(
    layout: DeploymentLayoutView,
    yaml_hint: Option<Seq<char>>,
    files: ProjectFilesView,
    windows: bool,
)
    ensures
        ({
            let chosen = chosen_framework(layout, yaml_hint, files, windows);
            let named = yaml_hint is Some && names_yaml(yaml_hint->0, windows);
            &&& named ==> chosen is Yaml && chosen->0.base == yaml_hint->0 && chosen->0.parts.len()
                == 0
            &&& !named ==> chosen == framework_of(
                layout.package_dir,
                layout.entry_point,
                files,
                windows,
            )
        }),
{
}

/// A run starts from the entry point that the deployment names; else from the
/// script for OpenHTF and for a script alone, and from the directory for
/// anything else.
pub proof fn law_entries(
    entry: Option<Seq<char>>,
    framework: FrameworkView,
    dir: PathPartsView,
    main_py: bool,
)
    ensures
        ({
            let from = entry_of(entry, framework, dir, main_py);
            let script = framework is Openhtf || framework is Plain;
            &&& entry matches Some(rel) ==> from is Some && (rel == seq!['.'] ==> from->0 == dir)
                && (rel != seq!['.'] ==> is_below(from->0, dir, rel))
            &&& entry is None && !script ==> from == Some(dir)
            &&& entry is None && script && main_py ==> from is Some && is_below(
                from->0,
                dir,
                "main.py"@,
            )
            &&& entry is None && script && !main_py ==> from is None
        }),
{
    reveal_strlit(".");
    assert("."@ =~= seq!['.']);
}

/// A run that has an entry is prepared with it; one that has none is refused,
/// and the operator is told what was looked for.
pub proof fn law_runs_are_prepared(
    layout: DeploymentLayoutView,
    yaml_hint: Option<Seq<char>>,
    files: ProjectFilesView,
    windows: bool,
    shown_dir: Seq<char>,
)
    ensures
        ({
            let framework = chosen_framework(layout, yaml_hint, files, windows);
            let from = entry_of(layout.entry_point, framework, layout.package_dir, files.main_py);
            match prepared_entry(layout, yaml_hint, files, windows, shown_dir) {
                Ok(p) => {
                    &&& from == Some(p.entry_file)
                    &&& p.framework == framework
                    &&& p.package_dir == layout.package_dir
                    &&& p.manifest_present == layout.manifest_present
                },
                Err(fail) => {
                    &&& from is None
                    &&& fail.kind == "load_error"@
                    &&& fail.message == "No procedure found in "@ + shown_dir
                        + ". Expected a procedure.yaml or a Python entry point (main.py)."@
                },
            }
        }),
        interpreter_source(true) == Interpreter::Deployment,
        interpreter_source(false) == Interpreter::Project,
{
}

/// The interpreter of an environment lies where its platform puts it.
pub proof fn law_interpreters(venv: PathPartsView)
    ensures
        interpreter(venv, true).base == venv.base,
        interpreter(venv, true).parts == venv.parts.push("Scripts"@).push("python.exe"@),
        interpreter(venv, false).base == venv.base,
        interpreter(venv, false).parts == venv.parts.push("bin"@).push("python"@),
{
}

/// A process inherits neither the paths of another Python nor the credentials,
/// and is given what makes its output readable at once, and the queue entry of
/// its run.
pub proof fn law_environments(queue_id: Seq<char>)
    ensures
        withheld() == seq![
            "PYTHONHOME"@,
            "PYTHONPATH"@,
            "TOFUPILOT_API_KEY"@,
            "TOFUPILOT_URL"@,
        ],
        given(queue_id).len() == 3,
        given(queue_id)[0].name == "PYTHONUNBUFFERED"@,
        given(queue_id)[0].value == "1"@,
        given(queue_id)[1].name == "PYTHONIOENCODING"@,
        given(queue_id)[1].value == "utf-8"@,
        given(queue_id)[2].name == "TOFUPILOT_QUEUE_ID"@,
        given(queue_id)[2].value == queue_id,
{
}

/// A process that could not be started is said to be, with why.
pub proof fn law_failed_spawns_are_said(source: Seq<char>, diagnosis: Option<Seq<char>>)
    ensures
        diagnosis is None ==> spawn_error(source, diagnosis) == "Failed to spawn Python: "@
            + source,
        diagnosis matches Some(d) ==> spawn_error(source, diagnosis) == "Failed to spawn Python: "@
            + source + (" — "@ + d),
{
    reveal_strlit("");
    if diagnosis is None {
        assert("Failed to spawn Python: "@ + source + ""@ =~= "Failed to spawn Python: "@ + source);
    }
}

/// A process that exits when it is told to gives its code; one that gives none,
/// or does not exit in time, is counted as interrupted, and killed in the
/// second case.
pub proof fn law_shutdowns(code: i32)
    ensures
        shut_down(ShutdownWaitView::Exited { code: Some(code) }) == (ShutdownView {
            kill: false,
            exit_code: code,
        }),
        shut_down(ShutdownWaitView::Exited { code: None }) == (ShutdownView {
            kill: false,
            exit_code: 130,
        }),
        shut_down(ShutdownWaitView::Failed) == (ShutdownView { kill: true, exit_code: 130 }),
        shut_down(ShutdownWaitView::TimedOut) == (ShutdownView { kill: true, exit_code: 130 }),
{
}

/// The tail of the error stream is as much of its end as four kibibytes hold.
pub proof fn law_error_tails(tail: Seq<char>, line: Seq<char>)
    ensures
        ({
            let all = tail + line + seq!['\n'];
            let kept = tail_after(tail, line);
            &&& kept.is_suffix_of(all)
            &&& utf8_size(kept) <= 4096
            &&& utf8_size(all) <= 4096 ==> kept == all
            &&& kept.len() < all.len() ==> utf8_size(all.skip(all.len() - kept.len() - 1)) > 4096
        }),
{
    reveal_strlit("\n");
    assert("\n"@ =~= seq!['\n']);
    crate::text_laws::law_tails(tail + line + seq!['\n'], 4096);
}

/// A line of a process is shown as it is, or as a line of JSON for an agent's
/// output.
pub proof fn law_process_lines(line: Seq<char>)
    ensures
        shown_line(line, false) == line,
        exists|fields: Seq<JsonFieldView>|
            shown_line(line, true) == #[trigger] json_text(JsonView::Object(fields))
                && fields.len() == 2 && holds(fields[0], "type"@, Some("stdout"@)) && holds(
                fields[1],
                "line"@,
                Some(line),
            ),
{
    let fields = seq![
        crate::engine::caps::member("type"@, JsonView::Text("stdout"@)),
        crate::engine::caps::member("line"@, JsonView::Text(line)),
    ];
    assert(shown_line(line, true) == json_text(JsonView::Object(fields)));
}

/// Whether emissions tell that a process could not be started.
pub open spec fn tells_spawn_failure(
    out: Seq<EmissionView>,
    c: PlainRunContextView,
    message: Seq<char>,
) -> bool {
    &&& out.len() == 2
    &&& out[0] == EmissionView::Station(
        StationEventView::RunCrashed {
            procedure_id: c.procedure_id,
            error: message,
            error_kind: "spawn_failed"@,
            execution_id: Some(c.execution_id),
        },
    )
    &&& out[1] matches EmissionView::Station(
        StationEventView::RunComplete { outcome, run_id, execution_id, slot_outcomes },
    ) && outcome == "ERROR"@ && run_id is None && execution_id == Some(c.execution_id)
        && slot_outcomes.len() == 0
}

/// Whether emissions tell that a run is over, by its exit code.
pub open spec fn tells_over(out: Seq<EmissionView>, c: PlainRunContextView, code: i32) -> bool {
    &&& out.len() == 1
    &&& out[0] matches EmissionView::Station(
        StationEventView::RunComplete { outcome, run_id, execution_id, slot_outcomes },
    ) && outcome == exit_code_word(code) && run_id is None && execution_id == Some(c.execution_id)
        && slot_outcomes.len() == 0
}

/// A process without phases begins, fails to start, exits or is stopped, and
/// each is told as such.
pub proof fn law_plain_runs(
    c: PlainRunContextView,
    at: Instant,
    message: Seq<char>,
    error: Seq<char>,
    code: i32,
    wait: ShutdownView,
)
    ensures
        ({
            let begun = plain_step(Some(c), PlainEventView::Begun { at });
            &&& begun.complaint is None
            &&& begun.exit_code is None
            &&& begun.emissions.len() == 1
            &&& begun.emissions[0] matches EmissionView::Station(
                StationEventView::RunStarted {
                    procedure_id,
                    procedure_name,
                    execution_id,
                    phases,
                    timestamp,
                    run_id,
                    ..
                },
            ) && procedure_id == c.procedure_id && procedure_name == c.procedure_name
                && execution_id == c.execution_id && phases.len() == 0 && timestamp == Some(
                stamp_text(at),
            ) && run_id is None
        }),
        ({
            let failed = plain_step(Some(c), PlainEventView::SpawnFailed { message });
            &&& failed.exit_code == Some(1i32)
            &&& failed.complaint == Some(message)
            &&& tells_spawn_failure(failed.emissions, c, message)
        }),
        ({
            let mute = plain_step(Some(c), PlainEventView::NoStdout);
            &&& mute.exit_code == Some(1i32)
            &&& mute.complaint == Some("Failed to capture stdout"@)
            &&& tells_spawn_failure(
                mute.emissions,
                c,
                "Failed to capture stdout from Python child"@,
            )
        }),
        ({
            let mute = plain_step(Some(c), PlainEventView::NoStderr);
            &&& mute.exit_code == Some(1i32)
            &&& mute.complaint == Some("Failed to capture stderr"@)
            &&& tells_spawn_failure(
                mute.emissions,
                c,
                "Failed to capture stderr from Python child"@,
            )
        }),
        ({
            let exited = plain_step(Some(c), PlainEventView::Exited { code: Some(code) });
            &&& exited.exit_code == Some(code)
            &&& exited.complaint is None
            &&& tells_over(exited.emissions, c, code)
        }),
        ({
            let exited = plain_step(Some(c), PlainEventView::Exited { code: None });
            &&& exited.exit_code == Some(1i32)
            &&& exited.complaint is None
            &&& tells_over(exited.emissions, c, 1)
        }),
        ({
            let lost = plain_step(Some(c), PlainEventView::WaitFailed { error });
            &&& lost.exit_code == Some(1i32)
            &&& lost.complaint == Some("Process error: "@ + error)
            &&& tells_over(lost.emissions, c, 1)
        }),
        ({
            let stopped = plain_step(Some(c), PlainEventView::Stopped { wait });
            &&& stopped.exit_code == Some(wait.exit_code)
            &&& stopped.complaint is None
            &&& tells_over(stopped.emissions, c, wait.exit_code)
        }),
{
}

/// Where the dependencies of a project stand: in the project file of the
/// nearest of eight directories, else in the requirements of the project.
pub proof fn law_dependencies(
    project_dir: Seq<char>,
    dirs: Seq<ProbedDirView>,
    has_requirements: bool,
    k: int,
)
    requires
        0 <= k,
        k < dirs.len() && k < 8 ==> dirs[k].has_pyproject,
        forall|j: int| 0 <= j < k && j < dirs.len() && j < 8 ==> !(#[trigger] dirs[j]).has_pyproject,
        k >= dirs.len() || k >= 8 || dirs[k].has_pyproject,
    ensures
        ({
            let deps = deps_of(project_dir, dirs, has_requirements);
            let found = k < dirs.len() && k < 8;
            &&& found ==> (deps matches DepsSourceView::Pyproject { pyproject, root } && root
                == dirs[k].dir && pyproject.base == dirs[k].dir && pyproject.parts == seq![
                "pyproject.toml"@,
            ])
            &&& !found && has_requirements ==> (deps matches DepsSourceView::Requirements(file)
                && file.base == project_dir && file.parts == seq!["requirements.txt"@])
            &&& !found && !has_requirements ==> deps is Nowhere
        }),
{
    let seen = crate::bootstrap::searched(dirs);
    let at = if k < seen.len() {
        k
    } else {
        seen.len() as int
    };
    assert forall|j: int| 0 <= j < at implies !(#[trigger] seen[j]).has_pyproject by {
        assert(seen[j] == dirs[j]);
    }
    if at < seen.len() {
        assert(seen[at] == dirs[at]);
    }
    lemma_nearest_at(seen, at);
}

proof fn lemma_nearest_at(dirs: Seq<ProbedDirView>, k: int)
    requires
        0 <= k <= dirs.len(),
        k < dirs.len() ==> dirs[k].has_pyproject,
        forall|j: int| 0 <= j < k ==> !(#[trigger] dirs[j]).has_pyproject,
    ensures
        k < dirs.len() ==> crate::bootstrap::nearest(dirs) == Some(dirs[k].dir),
        k == dirs.len() ==> crate::bootstrap::nearest(dirs) is None,
    decreases dirs.len(),
{
    if dirs.len() > 0 && k > 0 {
        assert(!dirs[0].has_pyproject);
        let rest = dirs.drop_first();
        assert forall|j: int| 0 <= j < k - 1 implies !(#[trigger] rest[j]).has_pyproject by {
            assert(rest[j] == dirs[j + 1]);
        }
        lemma_nearest_at(rest, k - 1);
    }
}

/// The stamp of an environment is the digest of its version, a zero byte and
/// what the file of its dependencies holds.
pub proof fn law_stamps(version: Seq<char>, contents: Option<Seq<u8>>)
    ensures
        contents is None ==> stamp_of(version, contents) == sha256_hex(
            vstd::utf8::encode_utf8(version).push(0u8),
        ),
        contents matches Some(bytes) ==> stamp_of(version, contents) == sha256_hex(
            vstd::utf8::encode_utf8(version).push(0u8) + bytes,
        ),
{
    let v = vstd::utf8::encode_utf8(version);
    assert(v + seq![0u8] + Seq::<u8>::empty() =~= v.push(0u8));
    if let Some(bytes) = contents {
        assert(v + seq![0u8] + bytes =~= v.push(0u8) + bytes);
    }
}

/// Whether a character is a sign before a version.
pub open spec fn is_sign(c: char) -> bool {
    c == ' ' || c == '>' || c == '=' || c == '<' || c == '~' || c == '^' || c == '!'
}

proof fn lemma_signs(c: char)
    ensures
        one_of(version_signs())(c) <==> is_sign(c),
{
    let s = version_signs();
    assert(s[0] == ' ' && s[1] == '>' && s[2] == '=' && s[3] == '<' && s[4] == '~' && s[5] == '^'
        && s[6] == '!');
    if s.contains(c) {
        let k = choose|k: int| 0 <= k < s.len() && s[k] == c;
        assert(k == 0 || k == 1 || k == 2 || k == 3 || k == 4 || k == 5 || k == 6);
    }
}

proof fn lemma_first_part(s: Seq<char>, rest: Seq<char>, sep: char)
    requires
        forall|i: int| 0 <= i < s.len() ==> #[trigger] s[i] != sep,
    ensures
        split_on(s, sep)[0] == s,
        split_on(s.push(sep) + rest, sep)[0] == s,
        split_on(s.push(sep) + rest, sep).len() >= 2,
        split_on(s, sep).len() == 1,
    decreases s.len() + rest.len(),
{
    if rest.len() > 0 {
        let whole = s.push(sep) + rest;
        assert(whole.drop_last() =~= s.push(sep) + rest.drop_last());
        lemma_first_part(s, rest.drop_last(), sep);
    } else {
        if s.len() > 0 {
            let front = s.drop_last();
            lemma_first_part(front, Seq::empty(), sep);
            assert(s[s.len() - 1] != sep);
            assert(split_on(front, sep).last() == front);
            assert(front.push(s.last()) =~= s);
            assert(split_on(s, sep) =~= seq![s]);
        }
        let whole = s.push(sep) + rest;
        assert(whole =~= s.push(sep));
        assert(whole.drop_last() =~= s);
    }
}

/// The version that a requirement asks for first: what follows its signs, up to
/// the first comma.
pub proof fn law_first_versions(signs: Seq<char>, version: Seq<char>, more: Seq<char>)
    requires
        forall|i: int| 0 <= i < signs.len() ==> is_sign(#[trigger] signs[i]),
        version.len() > 0,
        !is_sign(version[0]),
        !whitespace(version[0]),
        !whitespace(version.last()),
        forall|i: int| 0 <= i < version.len() ==> #[trigger] version[i] != ',',
    ensures
        first_version(signs + version) == version,
        first_version((signs + version).push(',') + more) == version,
{
    let s = signs + version;
    assert forall|i: int| 0 <= i < s.len() implies #[trigger] s[i] != ',' by {
        if i < signs.len() {
            assert(is_sign(signs[i]));
        } else {
            assert(version[i - signs.len()] != ',');
        }
    }
    lemma_first_part(s, more, ',');
    law_trimming(s);
    let (a, b) = choose|a: int, b: int|
        0 <= a <= b <= s.len() && trimmed(s) == #[trigger] s.subrange(a, b) && (forall|i: int|
            0 <= i < a || b <= i < s.len() ==> whitespace(#[trigger] s[i]));
    let n = signs.len() as int;
    assert(s[n] == version[0]);
    assert(s[s.len() - 1] == version.last());
    assert(a <= n);
    assert(b == s.len());
    let kept = trimmed(s);
    let p = one_of(version_signs());
    law_skipping(kept, p);
    let rest = skip_while(kept, p);
    let m = kept.len() - rest.len();
    lemma_signs(version[0]);
    assert(kept[n - a] == version[0]);
    if m > n - a {
        assert(kept.take(m)[n - a] == version[0]);
        assert(p(kept.take(m)[n - a]));
    }
    if m < n - a {
        assert(rest[0] == kept[m]);
        assert(kept[m] == signs[m + a]);
        lemma_signs(signs[m + a]);
    }
    assert(rest =~= version);
}

/// The Python version of a project is the one that its project file requires
/// first, and 3.11 where it requires none or cannot be read.
pub proof fn law_runtimes(deps: DepsSourceView, text: Seq<char>, project: JsonView, table: JsonView)
    ensures
        !(deps is Pyproject) ==> runtime_of(deps, Some(text)) == "3.11"@,
        runtime_of(deps, None) == "3.11"@,
        json_of_toml(text) is None ==> runtime_of(deps, Some(text)) == "3.11"@,
        deps is Pyproject && json_of_toml(text) == Some(project) ==> runtime_of(deps, Some(text))
            == requested_runtime(project),
        json_member(project, "project"@) is None ==> requested_runtime(project) == "3.11"@,
        json_member(project, "project"@) == Some(table) ==> match json_member(
            table,
            "requires-python"@,
        ) {
            Some(JsonView::Text(requirement)) => requested_runtime(project) == (if first_version(
                requirement,
            ).len() > 0 {
                first_version(requirement)
            } else {
                "3.11"@
            }),
            _ => requested_runtime(project) == "3.11"@,
        },
{
}

/// The command that builds an environment by hand.
pub proof fn law_hints(version: Seq<char>, deps: DepsSourceView)
    ensures
        deps matches DepsSourceView::Pyproject { pyproject, root } ==> hint_of(version, deps)
            == "cd "@ + root + " && UV_PROJECT_ENVIRONMENT=venv uv sync --python "@ + version,
        deps is Requirements ==> hint_of(version, deps) == "uv venv venv --python "@ + version
            + " && uv pip install -r requirements.txt"@,
        deps is Nowhere ==> hint_of(version, deps) == "uv venv venv --python "@ + version,
{
}

/// The operator is asked before an environment is built, but only at a
/// terminal.
pub proof fn law_confirmations(dir: Seq<char>, version: Seq<char>)
    ensures
        confirmation(dir, version, true) == (ConfirmationView::Ask {
            prompt: "No Python venv at "@ + dir + ". Bootstrap one (uv venv --python "@ + version
                + ")?"@,
        }),
        confirmation(dir, version, false) == (ConfirmationView::Automatic {
            warning: "No venv at "@ + dir
                + " and stdin is not a tty; bootstrapping automatically."@,
        }),
{
}

/// The environment of a project lies beside its project file, or else in the
/// project, under `venv`.
pub proof fn law_environments_are_planned(
    project_dir: Seq<char>,
    deps: DepsSourceView,
    project: Option<Seq<char>>,
    contents: Option<Seq<u8>>,
    windows: bool,
)
    ensures
        ({
            let plan = planned(project_dir, deps, project, contents, windows);
            &&& plan.deps == deps
            &&& plan.venv_dir.parts.len() == 0
            &&& deps matches DepsSourceView::Pyproject { pyproject, root } ==> plan.venv_dir.base
                == root
            &&& !(deps is Pyproject) ==> plan.venv_dir.base == project_dir
            &&& is_below(plan.venv, plan.venv_dir, "venv"@)
            &&& plan.python == interpreter(plan.venv, windows)
            &&& plan.runtime_version == runtime_of(deps, project)
            &&& plan.stamp == stamp_of(plan.runtime_version, contents)
        }),
{
}

/// How an environment is built: synced from a project file after the old one is
/// gone, made and filled from requirements, or made without anything and with
/// a warning.
pub proof fn law_provisioning(
    venv_dir: PathPartsView,
    version: Seq<char>,
    deps: DepsSourceView,
    windows: bool,
    venv: PathPartsView,
)
    requires
        is_below(venv, venv_dir, "venv"@),
    ensures
        ({
            let steps = provisioning(venv_dir, version, deps, windows);
            let create = ProvisionStepView::Create {
                venv,
                runtime_version: version,
                working_dir: venv_dir,
            };
            &&& steps.len() == 2
            &&& deps matches DepsSourceView::Pyproject { pyproject, root } ==> {
                &&& steps[0] == (ProvisionStepView::Remove { venv })
                &&& steps[1] matches ProvisionStepView::Uv { args, cwd, project_environment, label }
                    && args == seq![
                    UvArgView::Word("sync"@),
                    UvArgView::Word("--python"@),
                    UvArgView::Word(version),
                ] && cwd.base == root && cwd.parts.len() == 0 && project_environment == Some(venv)
                    && label == "uv sync (pyproject)"@
            }
            &&& deps matches DepsSourceView::Requirements(file) ==> {
                &&& steps[0] == create
                &&& steps[1] matches ProvisionStepView::Uv { args, cwd, project_environment, label }
                    && args == seq![
                    UvArgView::Word("pip"@),
                    UvArgView::Word("install"@),
                    UvArgView::Word("--python"@),
                    UvArgView::At(interpreter(venv, windows)),
                    UvArgView::Word("-r"@),
                    UvArgView::At(file),
                ] && cwd == venv_dir && project_environment is None && label
                    == "uv pip install (requirements.txt)"@
            }
            &&& deps is Nowhere ==> steps[0] == create && steps[1] == ProvisionStepView::Warn(
                "No pyproject.toml or requirements.txt found; venv created without deps. Procedure imports will fail unless the stdlib covers them."@,
            )
        }),
{
    assert(venv == crate::paths::under(venv_dir, "venv"@));
}

/// What becomes of an environment: one that is there is used, and stamped where
/// it has no stamp; it is built anew where its stamp is another and building
/// is allowed; one that is missing is built after asking, or refused where
/// building is not allowed.
pub proof fn law_environment_decisions(
    plan: VenvPlanView,
    exists: bool,
    stamp: Option<Seq<char>>,
    allowed: bool,
    shown: Seq<char>,
)
    ensures
        ({
            let decided = venv_decision(plan, exists, stamp, allowed, shown);
            &&& decided is Confirm <==> !exists && allowed
            &&& decided is Refuse <==> !exists && !allowed
            &&& decided is Build <==> exists && stamp is Some && stamp->0 != plan.stamp && allowed
            &&& decided is Build ==> decided->rebuilding
            &&& decided is Ready ==> (decided->write_stamp <==> stamp is None)
            &&& decided is Refuse ==> decided->Refuse_0 == "No Python venv at "@ + shown
                + " and --no-bootstrap was passed. Rerun without --no-bootstrap to provision one automatically, or create the venv manually: `"@
                + hint_of(plan.runtime_version, plan.deps) + "`."@
        }),
{
}

/// A local procedure lies in the directory that was named, or in that of the
/// file that was named; what is not there is said.
pub proof fn law_local_places(path: Seq<char>, canonical: Seq<char>, dir: Seq<char>)
    ensures
        local_place(path, canonical, PathKindView::Directory) matches Ok(p) && p.dir == canonical
            && p.yaml_hint is None,
        local_place(path, canonical, PathKindView::File { parent: Some(dir) }) matches Ok(p)
            && p.dir == dir && p.yaml_hint == Some(canonical),
        local_place(path, canonical, PathKindView::File { parent: None }) == Err::<
            LocalPlaceView,
            Seq<char>,
        >("Cannot determine parent dir of "@ + canonical),
        local_place(path, canonical, PathKindView::Missing) == Err::<LocalPlaceView, Seq<char>>(
            "Path does not exist: "@ + path,
        ),
{
}

/// A run of a local procedure is uploaded to the procedure that the environment
/// names, else to the one that the directory is linked to, else not at all; a
/// run that is not uploaded goes by the name of its directory, and the operator
/// is told of the link.
pub proof fn law_local_sources(
    place: LocalPlaceView,
    dir_name: Option<Seq<char>>,
    env_id: Option<Seq<char>>,
    link: Option<LinkView>,
)
    ensures
        ({
            let named = env_id is Some && env_id->0.len() > 0;
            let up = local_source(place, dir_name, true, env_id, link);
            let down = local_source(place, dir_name, false, env_id, link);
            &&& up is None <==> !named && link is None
            &&& up matches Some(s) ==> {
                &&& named ==> s.id == env_id->0
                &&& !named ==> s.id == link->0.procedure_id
                &&& s.upload
                &&& s.link_hint is None
                &&& s.dir.base == place.dir
                &&& s.dir.parts.len() == 0
                &&& s.yaml_hint == place.yaml_hint
            }
            &&& down matches Some(s) && {
                &&& dir_name is Some ==> s.id == dir_name->0
                &&& dir_name is None ==> s.id == "local"@
                &&& !s.upload
                &&& s.dir.base == place.dir
                &&& s.dir.parts.len() == 0
                &&& s.yaml_hint == place.yaml_hint
                &&& link is None ==> s.link_hint is None
                &&& link matches Some(l) ==> s.link_hint is Some && (l.procedure_name is None
                    ==> s.link_hint->0 == l.procedure_id) && (l.procedure_name is Some
                    ==> s.link_hint->0 == l.procedure_name->0 + " ("@ + l.procedure_id + ")"@)
            }
            &&& link_needed(false, env_id)
            &&& link_needed(true, env_id) <==> !named
        }),
{
}

/// An identity names a directory where it is not empty, does not go up and has
/// no separator in it.
pub proof fn law_identities(id: Seq<char>)
    ensures
        valid_id(id) <==> id.len() > 0 && id != seq!['.'] && id != seq!['.', '.'] && forall|i: int|
            0 <= i < id.len() ==> #[trigger] id[i] != '/' && id[i] != '\\',
{
    reveal_strlit(".");
    reveal_strlit("..");
    assert("."@ =~= seq!['.']);
    assert(".."@ =~= seq!['.', '.']);
    if id.contains('/') {
        let i = choose|i: int| 0 <= i < id.len() && id[i] == '/';
        assert(id[i] == '/');
    }
    if id.contains('\\') {
        let i = choose|i: int| 0 <= i < id.len() && id[i] == '\\';
        assert(id[i] == '\\');
    }
    if !id.contains('/') && !id.contains('\\') {
        assert forall|i: int| 0 <= i < id.len() implies #[trigger] id[i] != '/' && id[i] != '\\' by {
            if id[i] == '/' {
                assert(id.contains('/'));
            }
            if id[i] == '\\' {
                assert(id.contains('\\'));
            }
        }
    }
}

/// A deployment is a directory with a name that does not end as one that is
/// being pulled, was replaced or is staged.
pub proof fn law_deployments(entries: Seq<DeploymentEntryView>, e: DeploymentEntryView)
    ensures
        deployed_ids(Seq::empty()).len() == 0,
        ({
            let counts = e.is_dir && e.name is Some && !".tmp"@.is_suffix_of(e.name->0)
                && !".old"@.is_suffix_of(e.name->0) && !".staging"@.is_suffix_of(e.name->0);
            &&& counts ==> deployed_ids(entries.push(e)) == deployed_ids(entries).push(e.name->0)
            &&& !counts ==> deployed_ids(entries.push(e)) == deployed_ids(entries)
        }),
{
    assert(entries.push(e).drop_last() =~= entries);
}

/// The procedure that was named is run; else the only one there is; else the
/// operator picks among them in order, and an agent is told them.
pub proof fn law_selections(
    id: Seq<char>,
    entries: Seq<DeploymentEntryView>,
    json_mode: bool,
)
    ensures
        selection_of(Some(id), entries, json_mode) == SelectionView::Chosen(id),
        ({
            let ids = sorted::<String>(deployed_ids(entries));
            let chosen = selection_of(None, entries, json_mode);
            &&& ascending::<String>(ids)
            &&& ids.to_multiset() == deployed_ids(entries).to_multiset()
            &&& ids.len() == 0 ==> (chosen matches SelectionView::Fail { message, lines } && message
                == "No deployments found. Run `tofupilot pull` first."@ && lines.len() == 0)
            &&& ids.len() == 1 ==> chosen == SelectionView::Chosen(ids[0])
            &&& ids.len() > 1 && !json_mode ==> chosen == SelectionView::Pick(ids)
            &&& ids.len() > 1 && json_mode ==> (chosen matches SelectionView::Fail { message, lines }
                && message == "Multiple deployments found. Use --procedure to select one."@
                && lines.len() == ids.len() && forall|i: int|
                0 <= i < ids.len() ==> offers(#[trigger] lines[i], ids[i]))
        }),
{
    lemma_sorted::<String>(deployed_ids(entries));
    let ids = sorted::<String>(deployed_ids(entries));
    assert forall|i: int| 0 <= i < ids.len() implies offers(
        crate::source::offer_line(#[trigger] ids[i]),
        ids[i],
    ) by {
        let fields = seq![
            crate::engine::caps::member("type"@, JsonView::Text("procedure"@)),
            crate::engine::caps::member("procedure_id"@, JsonView::Text(ids[i])),
        ];
        assert(crate::source::offer_line(ids[i]) == json_text(JsonView::Object(fields)));
    }
}

/// Whether a line offers a procedure.
pub open spec fn offers(line: Seq<char>, id: Seq<char>) -> bool {
    exists|fields: Seq<JsonFieldView>|
        line == #[trigger] json_text(JsonView::Object(fields)) && fields.len() == 2 && holds(
            fields[0],
            "type"@,
            Some("procedure"@),
        ) && holds(fields[1], "procedure_id"@, Some(id))
}

/// A procedure is offered with the beginning of its commit, where that is
/// known.
pub proof fn law_picker_labels(id: Seq<char>, sha: Seq<char>)
    ensures
        picker_label(id, None) == id,
        exists|short: Seq<char>| #[trigger]
            crate::engine::sink_laws::is_within(short, sha, 7) && picker_label(id, Some(sha)) == id
                + " ("@ + short + ")"@,
{
    crate::text::lemma_fitting_prefix(sha, 7);
    let short = crate::text::fitting_prefix(sha, 7);
    assert(crate::engine::sink_laws::is_within(short, sha, 7));
}

/// The version of a project is the standard one, or that of Poetry, without the
/// white space around it; a blank one is none.
pub proof fn law_project_versions(value: JsonView, table: JsonView, tool: JsonView, poetry: JsonView)
    ensures
        ({
            let standard = json_member(value, "project"@) == Some(table) && json_member(
                table,
                "version"@,
            ) is Some && json_member(table, "version"@)->0 is Text;
            &&& standard ==> says_version(
                project_version(value),
                json_member(table, "version"@)->0->Text_0,
            )
            &&& json_member(value, "project"@) is None && json_member(value, "tool"@) == Some(tool)
                && json_member(tool, "poetry"@) == Some(poetry) && (json_member(poetry, "version"@)
                matches Some(JsonView::Text(_))) ==> says_version(
                project_version(value),
                json_member(poetry, "version"@)->0->Text_0,
            )
            &&& json_member(value, "project"@) is None && json_member(value, "tool"@) is None
                ==> project_version(value) is None
        }),
{
}

/// Whether a version is a text without the white space around it.
pub open spec fn says_version(told: Option<Seq<char>>, text: Seq<char>) -> bool {
    &&& trimmed(text).len() > 0 ==> told == Some(trimmed(text))
    &&& trimmed(text).len() == 0 ==> told is None
}

/// A run comes from the deployment that was found; where that could not be
/// found out it comes from none, and that is logged.
pub proof fn law_deployment_ids(id: Option<Seq<char>>, procedure_id: Seq<char>, e: Seq<char>)
    ensures
        deployment_of(PullLookupView::Found(id)) == id,
        deployment_of(PullLookupView::Unavailable(e)) is None,
        deployment_of(PullLookupView::Failed(e)) is None,
        lookup_warning(procedure_id, PullLookupView::Found(id)) is None,
        lookup_warning(procedure_id, PullLookupView::Unavailable(e)) == Some(
            "deployment_id lookup: state db unavailable ("@ + e
                + "); run will not be linked to a deployment"@,
        ),
        lookup_warning(procedure_id, PullLookupView::Failed(e)) == Some(
            "deployment_id lookup: failed to read pull state for "@ + procedure_id + " ("@ + e
                + "); run will not be linked to a deployment"@,
        ),
{
}

/// The log of a run lies below the home directory under its identity, and has
/// a line of JSON for each event, with the time.
pub proof fn law_run_logs(home: Seq<char>, id: Seq<char>, event: Seq<char>, now: Instant)
    ensures
        logs_under(home).base == home,
        logs_under(home).parts == seq![".tofupilot"@, "logs"@],
        log_name(id) == "run-"@ + id + ".log"@,
        line_of(event, now) == "{\"logged_at\":\""@ + stamp_text(now) + "\",\"event\":"@ + event
            + "}\n"@,
{
    assert(logs_under(home).parts =~= seq![".tofupilot"@, "logs"@]);
}

/// Before a log is written, as many of the oldest go as leave no more than two
/// hundred with it; files that are not logs of runs are never touched.
pub proof fn law_old_logs_go(files: Seq<LogFileView>)
    ensures
        ({
            let logs = files.filter(
                |f: LogFileView| "run-"@.is_prefix_of(f.name) && ".log"@.is_suffix_of(f.name),
            );
            &&& logs.len() < 200 ==> pruned(files).len() == 0
            &&& logs.len() >= 200 ==> pruned(files).len() == logs.len() - 199 && pruned(files)
                == by_time(logs).take(logs.len() - 199)
        }),
{
    let p = |f: LogFileView| "run-"@.is_prefix_of(f.name) && ".log"@.is_suffix_of(f.name);
    let q = |f: LogFileView| crate::run_log::is_run_log(f.name);
    assert(p =~= q);
    crate::run_log::law_by_time(run_logs(files));
}

} // verus!
