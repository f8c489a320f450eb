//! The virtual environment of a run from a local path: what it is built from,
//! when it is built, and when it is left alone.
//!
//! A stamp beside the environment says what it was built from. Where the stamp
//! is another, the environment is built anew; where there is none, somebody
//! built it by hand and it is only stamped.

use sha2::Digest;
use vstd::prelude::*;
use vstd::string::*;
use vstd::utf8::encode_utf8;
use crate::dup::{push, Dup};
use crate::json::{json_of_toml, Json, JsonView};
use crate::paths::{path_of, under, PathParts, PathPartsView};
use crate::procedure_version::{read_text_at, text_at};
use crate::python::{interpreter, venv_python_path, VENV_DIR};
use crate::text;
use crate::text::{one_of, skip_while, split_on, trimmed};

verus! {

/// The virtual environment of a run.
#[derive(Debug, PartialEq, Eq)]
pub struct EnsuredVenv {
    /// Its interpreter.
    pub python: PathParts,
}

/// View of [`EnsuredVenv`].
pub struct EnsuredVenvView {
    pub python: PathPartsView,
}

impl DeepView for EnsuredVenv {
    type V = EnsuredVenvView;

    open spec fn deep_view(&self) -> EnsuredVenvView {
        EnsuredVenvView {
            python: self.python.deep_view(),
        }
    }
}

/// A directory, and whether a project file lies in it.
#[derive(Debug, PartialEq, Eq)]
pub struct ProbedDir {
    pub dir: String,
    pub has_pyproject: bool,
}

/// View of [`ProbedDir`].
pub struct ProbedDirView {
    pub dir: Seq<char>,
    pub has_pyproject: bool,
}

impl DeepView for ProbedDir {
    type V = ProbedDirView;

    open spec fn deep_view(&self) -> ProbedDirView {
        ProbedDirView {
            dir: self.dir.deep_view(),
            has_pyproject: self.has_pyproject.deep_view(),
        }
    }
}

/// Where the dependencies of a project stand.
#[derive(Debug, PartialEq, Eq)]
pub enum DepsSource {
    /// A project file, and the directory that it lies in.
    Pyproject {
        pyproject: PathParts,
        root: String,
    },
    Requirements(PathParts),
    Nowhere,
}

/// View of [`DepsSource`].
pub enum DepsSourceView {
    Pyproject {
        pyproject: PathPartsView,
        root: Seq<char>,
    },
    Requirements(PathPartsView),
    Nowhere,
}

impl DeepView for DepsSource {
    type V = DepsSourceView;

    open spec fn deep_view(&self) -> DepsSourceView {
        match self {
            DepsSource::Pyproject { pyproject, root } => DepsSourceView::Pyproject {
                pyproject: pyproject.deep_view(),
                root: root.deep_view(),
            },
            DepsSource::Requirements(v) => DepsSourceView::Requirements(v.deep_view()),
            DepsSource::Nowhere => DepsSourceView::Nowhere,
        }
    }
}

impl Dup for DepsSource {
    fn dup(&self) -> (copy: Self) {
        match self {
            DepsSource::Pyproject { pyproject, root } => DepsSource::Pyproject {
                pyproject: pyproject.dup(),
                root: root.dup(),
            },
            DepsSource::Requirements(v) => DepsSource::Requirements(v.dup()),
            DepsSource::Nowhere => DepsSource::Nowhere,
        }
    }
}

/// An argument of `uv`.
#[derive(Debug, PartialEq, Eq)]
pub enum UvArg {
    Word(String),
    At(PathParts),
}

/// View of [`UvArg`].
pub enum UvArgView {
    Word(Seq<char>),
    At(PathPartsView),
}

impl DeepView for UvArg {
    type V = UvArgView;

    open spec fn deep_view(&self) -> UvArgView {
        match self {
            UvArg::Word(v) => UvArgView::Word(v.deep_view()),
            UvArg::At(v) => UvArgView::At(v.deep_view()),
        }
    }
}

/// A step of building a virtual environment.
#[derive(Debug, PartialEq, Eq)]
#[allow(inconsistent_fields)]
pub enum ProvisionStep {
    /// Remove the old one, where there is one.
    Remove {
        venv: PathParts,
    },
    /// Create an empty one.
    Create {
        venv: PathParts,
        runtime_version: String,
        working_dir: PathParts,
    },
    /// Call `uv`, with the environment as its project environment where that is
    /// given.
    Uv {
        args: Vec<UvArg>,
        cwd: PathParts,
        project_environment: Option<PathParts>,
        label: String,
    },
    Warn(String),
}

/// View of [`ProvisionStep`].
#[allow(inconsistent_fields)]
pub enum ProvisionStepView {
    Remove {
        venv: PathPartsView,
    },
    Create {
        venv: PathPartsView,
        runtime_version: Seq<char>,
        working_dir: PathPartsView,
    },
    Uv {
        args: Seq<UvArgView>,
        cwd: PathPartsView,
        project_environment: Option<PathPartsView>,
        label: Seq<char>,
    },
    Warn(Seq<char>),
}

impl DeepView for ProvisionStep {
    type V = ProvisionStepView;

    open spec fn deep_view(&self) -> ProvisionStepView {
        match self {
            ProvisionStep::Remove { venv } => ProvisionStepView::Remove {
                venv: venv.deep_view(),
            },
            ProvisionStep::Create {
                venv,
                runtime_version,
                working_dir,
            } => ProvisionStepView::Create {
                venv: venv.deep_view(),
                runtime_version: runtime_version.deep_view(),
                working_dir: working_dir.deep_view(),
            },
            ProvisionStep::Uv { args, cwd, project_environment, label } => ProvisionStepView::Uv {
                args: args.deep_view(),
                cwd: cwd.deep_view(),
                project_environment: project_environment.deep_view(),
                label: label.deep_view(),
            },
            ProvisionStep::Warn(v) => ProvisionStepView::Warn(v.deep_view()),
        }
    }
}

/// Whether the operator is asked.
#[derive(Debug, PartialEq, Eq)]
pub enum Confirmation {
    Automatic {
        warning: String,
    },
    Ask {
        prompt: String,
    },
}

/// View of [`Confirmation`].
pub enum ConfirmationView {
    Automatic {
        warning: Seq<char>,
    },
    Ask {
        prompt: Seq<char>,
    },
}

impl DeepView for Confirmation {
    type V = ConfirmationView;

    open spec fn deep_view(&self) -> ConfirmationView {
        match self {
            Confirmation::Automatic { warning } => ConfirmationView::Automatic {
                warning: warning.deep_view(),
            },
            Confirmation::Ask { prompt } => ConfirmationView::Ask {
                prompt: prompt.deep_view(),
            },
        }
    }
}

/// The virtual environment that a project should have.
#[derive(Debug, PartialEq, Eq)]
pub struct VenvPlan {
    pub deps: DepsSource,
    /// The directory that it lies in.
    pub venv_dir: PathParts,
    pub venv: PathParts,
    /// Its interpreter.
    pub python: PathParts,
    pub runtime_version: String,
    /// What it is built from.
    pub stamp: String,
}

/// View of [`VenvPlan`].
pub struct VenvPlanView {
    pub deps: DepsSourceView,
    pub venv_dir: PathPartsView,
    pub venv: PathPartsView,
    pub python: PathPartsView,
    pub runtime_version: Seq<char>,
    pub stamp: Seq<char>,
}

impl DeepView for VenvPlan {
    type V = VenvPlanView;

    open spec fn deep_view(&self) -> VenvPlanView {
        VenvPlanView {
            deps: self.deps.deep_view(),
            venv_dir: self.venv_dir.deep_view(),
            venv: self.venv.deep_view(),
            python: self.python.deep_view(),
            runtime_version: self.runtime_version.deep_view(),
            stamp: self.stamp.deep_view(),
        }
    }
}

/// What becomes of the virtual environment.
#[derive(Debug, PartialEq, Eq)]
pub enum VenvDecision {
    /// It can be used.
    Ready {
        /// Whether it has yet to be stamped.
        write_stamp: bool,
    },
    Refuse(String),
    /// The operator is asked first.
    Confirm,
    Build {
        rebuilding: bool,
    },
}

/// View of [`VenvDecision`].
pub enum VenvDecisionView {
    Ready {
        write_stamp: bool,
    },
    Refuse(Seq<char>),
    Confirm,
    Build {
        rebuilding: bool,
    },
}

impl DeepView for VenvDecision {
    type V = VenvDecisionView;

    open spec fn deep_view(&self) -> VenvDecisionView {
        match self {
            VenvDecision::Ready { write_stamp } => VenvDecisionView::Ready {
                write_stamp: write_stamp.deep_view(),
            },
            VenvDecision::Refuse(v) => VenvDecisionView::Refuse(v.deep_view()),
            VenvDecision::Confirm => VenvDecisionView::Confirm,
            VenvDecision::Build { rebuilding } => VenvDecisionView::Build {
                rebuilding: rebuilding.deep_view(),
            },
        }
    }
}

// ---------------------------------------------------------------------------
// Dependencies
// ---------------------------------------------------------------------------

/// How many directories are searched for a project file, from the project
/// upwards.
pub const SEARCHED_DIRS: usize = 8;

/// The first directory with a project file.
pub open spec fn nearest(dirs: Seq<ProbedDirView>) -> Option<Seq<char>>
    decreases dirs.len(),
{
    if dirs.len() == 0 {
        None
    } else if dirs[0].has_pyproject {
        Some(dirs[0].dir)
    } else {
        nearest(dirs.drop_first())
    }
}

/// The directories that are searched.
pub open spec fn searched(dirs: Seq<ProbedDirView>) -> Seq<ProbedDirView> {
    if dirs.len() <= SEARCHED_DIRS {
        dirs
    } else {
        dirs.take(SEARCHED_DIRS as int)
    }
}

/// Where the dependencies of a project stand: in the nearest project file, or
/// else in the requirements of the project itself.
pub open spec fn deps_of(
    project_dir: Seq<char>,
    dirs: Seq<ProbedDirView>,
    has_requirements: bool,
) -> DepsSourceView {
    match nearest(searched(dirs)) {
        Some(root) => DepsSourceView::Pyproject {
            pyproject: under(path_of(root), "pyproject.toml"@),
            root,
        },
        None => if has_requirements {
            DepsSourceView::Requirements(under(path_of(project_dir), "requirements.txt"@))
        } else {
            DepsSourceView::Nowhere
        },
    }
}

impl DepsSource {
    /// Where the dependencies of a project stand; `dirs` holds the project
    /// directory and those above it, nearest first.
    pub fn detect(project_dir: &str, dirs: &Vec<ProbedDir>, has_requirements: bool) -> (deps: Self)
        ensures
            deps.deep_view() == deps_of(project_dir@, dirs.deep_view(), has_requirements),
    {
        let limit: usize = if dirs.len() <= SEARCHED_DIRS {
            dirs.len()
        } else {
            SEARCHED_DIRS
        };
        let ghost all = searched(dirs.deep_view());
        let mut i: usize = 0;
        assert(all.skip(0) =~= all);
        while i < limit
            invariant
                i <= limit <= dirs@.len(),
                all == searched(dirs.deep_view()),
                all.len() == limit,
                forall|k: int| 0 <= k < limit ==> #[trigger] all[k] == dirs@[k].deep_view(),
                nearest(all) == nearest(all.skip(i as int)),
            decreases limit - i,
        {
            assert(all.skip(i as int)[0] == dirs@[i as int].deep_view());
            if dirs[i].has_pyproject {
                let root = dirs[i].dir.dup();
                assert(nearest(all) == Some(root@));
                return DepsSource::Pyproject {
                    pyproject: PathParts::new(root.as_str()).join("pyproject.toml"),
                    root,
                };
            }
            assert(all.skip(i as int).drop_first() =~= all.skip(i + 1));
            i += 1;
        }
        assert(all.skip(limit as int) =~= Seq::empty());
        if has_requirements {
            DepsSource::Requirements(PathParts::new(project_dir).join("requirements.txt"))
        } else {
            DepsSource::Nowhere
        }
    }

    /// The file that the dependencies stand in.
    pub fn path(&self) -> (path: Option<&PathParts>)
        ensures
            path.deep_view() == (match self.deep_view() {
                DepsSourceView::Pyproject { pyproject, .. } => Some(pyproject),
                DepsSourceView::Requirements(p) => Some(p),
                DepsSourceView::Nowhere => None,
            }),
    {
        match self {
            DepsSource::Pyproject { pyproject, .. } => Some(pyproject),
            DepsSource::Requirements(p) => Some(p),
            DepsSource::Nowhere => None,
        }
    }
}

// ---------------------------------------------------------------------------
// Stamps
// ---------------------------------------------------------------------------

/// The SHA-256 digest that `sha2` gives some bytes, in lower-case hexadecimal.
pub uninterp spec fn sha256_hex(bytes: Seq<u8>) -> Seq<char>;

/// The SHA-256 digest of some bytes, in lower-case hexadecimal.
///
/// Trusted: `sha2::Sha256::digest` depends on the bytes alone, and so does the
/// text that `{:x}` gives it.
#[verifier::external_body]
fn digest(bytes: &Vec<u8>) -> (hex: String)
    ensures
        hex@ == sha256_hex(bytes@),
{
    format!("{:x}", sha2::Sha256::digest(bytes))
}

/// What is hashed for a stamp: the version, a zero byte and what the file of
/// the dependencies holds.
pub open spec fn stamp_input(runtime_version: Seq<u8>, contents: Seq<u8>) -> Seq<u8> {
    runtime_version + seq![0u8] + contents
}

/// The stamp of a virtual environment.
pub open spec fn stamp_of(runtime_version: Seq<char>, contents: Option<Seq<u8>>) -> Seq<char> {
    sha256_hex(
        stamp_input(
            encode_utf8(runtime_version),
            match contents {
                Some(bytes) => bytes,
                None => Seq::empty(),
            },
        ),
    )
}

fn stamp_bytes(runtime_version: &str, contents: &Option<Vec<u8>>) -> (bytes: Vec<u8>)
    ensures
        bytes@ == stamp_input(
            encode_utf8(runtime_version@),
            match contents {
                Some(b) => b@,
                None => Seq::empty(),
            },
        ),
{
    let mut bytes = runtime_version.as_bytes_vec();
    bytes.push(0);
    let ghost head = bytes@;
    assert(head =~= encode_utf8(runtime_version@) + seq![0u8]);
    match contents {
        Some(more) => {
            let mut i: usize = 0;
            assert(head + more@.take(0) =~= head);
            while i < more.len()
                invariant
                    i <= more@.len(),
                    bytes@ == head + more@.take(i as int),
                decreases more@.len() - i,
            {
                bytes.push(more[i]);
                assert(more@.take(i + 1) =~= more@.take(i as int).push(more@[i as int]));
                i += 1;
            }
            assert(more@.take(more@.len() as int) =~= more@);
        },
        None => {
            assert(head + Seq::<u8>::empty() =~= head);
        },
    }
    bytes
}

/// The stamp of a virtual environment: of its version, and of what the file of
/// the dependencies holds where it could be read.
pub fn compute_stamp(runtime_version: &str, contents: &Option<Vec<u8>>) -> (stamp: String)
    ensures
        stamp@ == stamp_of(
            runtime_version@,
            match contents {
                Some(b) => Some(b@),
                None => None,
            },
        ),
{
    let bytes = stamp_bytes(runtime_version, contents);
    digest(&bytes)
}

/// Where the stamp of a virtual environment stands.
pub fn stamp_path(venv: &PathParts) -> (path: PathParts)
    ensures
        path.deep_view() == under(venv.deep_view(), ".tofupilot-stamp"@),
{
    venv.join(".tofupilot-stamp")
}

// ---------------------------------------------------------------------------
// The Python version
// ---------------------------------------------------------------------------

/// The Python version of a project that asks for none.
pub const DEFAULT_RUNTIME: &'static str = "3.11";

/// The signs before a version.
pub open spec fn version_signs() -> Seq<char> {
    seq![' ', '>', '=', '<', '~', '^', '!']
}

/// The version of the first of the requirements, which commas part.
pub open spec fn first_version(requirement: Seq<char>) -> Seq<char> {
    skip_while(trimmed(split_on(requirement, ',')[0]), one_of(version_signs()))
}

/// The Python version that a project file asks for.
pub open spec fn requested_runtime(project: JsonView) -> Seq<char> {
    match text_at(project, "project"@, "requires-python"@) {
        Some(requirement) => if first_version(requirement).len() > 0 {
            first_version(requirement)
        } else {
            DEFAULT_RUNTIME@
        },
        None => DEFAULT_RUNTIME@,
    }
}

/// The Python version that a project file asks for: the first of its
/// requirements, without the signs before it.
pub fn runtime_of_project(project: &Json) -> (version: String)
    ensures
        version@ == requested_runtime(project.deep_view()),
{
    match read_text_at(project, "project", "requires-python") {
        Some(requirement) => {
            let parts = text::split(requirement.as_str(), ',');
            let first = text::trim(parts[0].as_str());
            assert(parts.deep_view()[0] == parts@[0]@);
            let set: [char; 7] = [' ', '>', '=', '<', '~', '^', '!'];
            assert(set@ =~= version_signs());
            let version = text::trim_start_matches(first.as_str(), set.as_slice());
            if version.as_str().is_empty() {
                DEFAULT_RUNTIME.to_string()
            } else {
                version
            }
        },
        None => DEFAULT_RUNTIME.to_string(),
    }
}

/// The Python version of a project, by what its project file holds where it
/// could be read.
pub open spec fn runtime_of(deps: DepsSourceView, project: Option<Seq<char>>) -> Seq<char> {
    if deps is Pyproject && project is Some {
        match json_of_toml(project->Some_0) {
            Some(value) => requested_runtime(value),
            None => DEFAULT_RUNTIME@,
        }
    } else {
        DEFAULT_RUNTIME@
    }
}

/// The Python version of a project, and whether its project file could not be
/// understood.
pub fn resolve_runtime_version(deps: &DepsSource, project: &Option<String>) -> (out: (
    String,
    bool,
))
    ensures
        out.0@ == runtime_of(deps.deep_view(), project.deep_view()),
        out.1 == (deps.deep_view() is Pyproject && match project.deep_view() {
            Some(text) => json_of_toml(text) is None,
            None => false,
        }),
{
    match deps {
        DepsSource::Pyproject { .. } => match project {
            Some(text) => match Json::parse_toml(text.as_str()) {
                Some(value) => (runtime_of_project(&value), false),
                None => (DEFAULT_RUNTIME.to_string(), true),
            },
            None => (DEFAULT_RUNTIME.to_string(), false),
        },
        _ => (DEFAULT_RUNTIME.to_string(), false),
    }
}

// ---------------------------------------------------------------------------
// Words for the operator
// ---------------------------------------------------------------------------

/// The command with which an operator builds the environment by hand.
pub open spec fn hint_of(runtime_version: Seq<char>, deps: DepsSourceView) -> Seq<char> {
    match deps {
        DepsSourceView::Pyproject { root, .. } => "cd "@ + root
            + " && UV_PROJECT_ENVIRONMENT=venv uv sync --python "@ + runtime_version,
        DepsSourceView::Requirements(_) => "uv venv venv --python "@ + runtime_version
            + " && uv pip install -r requirements.txt"@,
        DepsSourceView::Nowhere => "uv venv venv --python "@ + runtime_version,
    }
}

/// The command with which an operator builds the environment by hand.
pub fn manual_bootstrap_hint(runtime_version: &str, deps: &DepsSource) -> (hint: String)
    ensures
        hint@ == hint_of(runtime_version@, deps.deep_view()),
{
    match deps {
        DepsSource::Pyproject { root, .. } => {
            let mut hint = text::concat3(
                "cd ",
                root.as_str(),
                " && UV_PROJECT_ENVIRONMENT=venv uv sync --python ",
            );
            hint.append(runtime_version);
            hint
        },
        DepsSource::Requirements(_) => text::concat3(
            "uv venv venv --python ",
            runtime_version,
            " && uv pip install -r requirements.txt",
        ),
        DepsSource::Nowhere => text::concat2("uv venv venv --python ", runtime_version),
    }
}

/// Whether the operator is asked: only at a terminal.
pub open spec fn confirmation(
    shown_dir: Seq<char>,
    runtime_version: Seq<char>,
    terminal: bool,
) -> ConfirmationView {
    if terminal {
        ConfirmationView::Ask {
            prompt: "No Python venv at "@ + shown_dir + ". Bootstrap one (uv venv --python "@
                + runtime_version + ")?"@,
        }
    } else {
        ConfirmationView::Automatic {
            warning: "No venv at "@ + shown_dir
                + " and stdin is not a tty; bootstrapping automatically."@,
        }
    }
}

/// Whether and how the operator is asked; `shown_dir` is the directory as the
/// platform writes it.
pub fn confirm_bootstrap(shown_dir: &str, runtime_version: &str, terminal: bool) -> (out:
    Confirmation)
    ensures
        out.deep_view() == confirmation(shown_dir@, runtime_version@, terminal),
{
    if terminal {
        let mut prompt = text::concat3(
            "No Python venv at ",
            shown_dir,
            ". Bootstrap one (uv venv --python ",
        );
        prompt.append(runtime_version);
        prompt.append(")?");
        Confirmation::Ask { prompt }
    } else {
        Confirmation::Automatic {
            warning: text::concat3(
                "No venv at ",
                shown_dir,
                " and stdin is not a tty; bootstrapping automatically.",
            ),
        }
    }
}

/// What a call of `uv` means by its exit: `None` where it succeeded.
pub fn uv_failure(label: &str, success: bool, code: Option<i32>) -> (failure: Option<String>)
    ensures
        failure.deep_view() == (if success {
            None
        } else {
            Some(
                label@ + " exited with status "@ + text::decimal_int(
                    match code {
                        Some(c) => c as int,
                        None => -1int,
                    },
                ),
            )
        }),
{
    if success {
        None
    } else {
        let shown: i32 = match code {
            Some(c) => c,
            None => -1,
        };
        let digits = text::decimal_int_text(shown as i64);
        Some(text::concat3(label, " exited with status ", digits.as_str()))
    }
}

// ---------------------------------------------------------------------------
// Building
// ---------------------------------------------------------------------------

/// What an operator is told of an environment without dependencies.
pub const NO_DEPS_WARNING: &'static str =
    "No pyproject.toml or requirements.txt found; venv created without deps. Procedure imports will fail unless the stdlib covers them.";

/// How a virtual environment is built.
pub open spec fn provisioning(
    venv_dir: PathPartsView,
    runtime_version: Seq<char>,
    deps: DepsSourceView,
    windows: bool,
) -> Seq<ProvisionStepView> {
    let venv = under(venv_dir, VENV_DIR@);
    let create = ProvisionStepView::Create { venv, runtime_version, working_dir: venv_dir };
    match deps {
        DepsSourceView::Pyproject { root, .. } => seq![
            ProvisionStepView::Remove { venv },
            ProvisionStepView::Uv {
                args: seq![
                    UvArgView::Word("sync"@),
                    UvArgView::Word("--python"@),
                    UvArgView::Word(runtime_version),
                ],
                cwd: path_of(root),
                project_environment: Some(venv),
                label: "uv sync (pyproject)"@,
            },
        ],
        DepsSourceView::Requirements(req) => seq![
            create,
            ProvisionStepView::Uv {
                args: seq![
                    UvArgView::Word("pip"@),
                    UvArgView::Word("install"@),
                    UvArgView::Word("--python"@),
                    UvArgView::At(interpreter(venv, windows)),
                    UvArgView::Word("-r"@),
                    UvArgView::At(req),
                ],
                cwd: venv_dir,
                project_environment: None,
                label: "uv pip install (requirements.txt)"@,
            },
        ],
        DepsSourceView::Nowhere => seq![create, ProvisionStepView::Warn(NO_DEPS_WARNING@)],
    }
}

/// Plans how a virtual environment is built.
pub fn provision(
    venv_dir: &PathParts,
    runtime_version: &str,
    deps: &DepsSource,
    windows: bool,
) -> (steps: Vec<ProvisionStep>)
    ensures
        steps.deep_view() == provisioning(
            venv_dir.deep_view(),
            runtime_version@,
            deps.deep_view(),
            windows,
        ),
{
    let venv = venv_dir.join(VENV_DIR);
    let mut steps: Vec<ProvisionStep> = Vec::new();
    let mut args: Vec<UvArg> = Vec::new();
    match deps {
        DepsSource::Pyproject { root, .. } => {
            push(&mut steps, ProvisionStep::Remove { venv: venv.dup() });
            push(&mut args, UvArg::Word("sync".to_string()));
            push(&mut args, UvArg::Word("--python".to_string()));
            push(&mut args, UvArg::Word(runtime_version.to_string()));
            assert(args.deep_view() =~= seq![
                UvArgView::Word("sync"@),
                UvArgView::Word("--python"@),
                UvArgView::Word(runtime_version@),
            ]);
            push(
                &mut steps,
                ProvisionStep::Uv {
                    args,
                    cwd: PathParts::new(root.as_str()),
                    project_environment: Some(venv),
                    label: "uv sync (pyproject)".to_string(),
                },
            );
        },
        DepsSource::Requirements(req) => {
            push(
                &mut steps,
                ProvisionStep::Create {
                    venv: venv.dup(),
                    runtime_version: runtime_version.to_string(),
                    working_dir: venv_dir.dup(),
                },
            );
            push(&mut args, UvArg::Word("pip".to_string()));
            push(&mut args, UvArg::Word("install".to_string()));
            push(&mut args, UvArg::Word("--python".to_string()));
            push(&mut args, UvArg::At(venv_python_path(venv_dir, VENV_DIR, windows)));
            push(&mut args, UvArg::Word("-r".to_string()));
            push(&mut args, UvArg::At(req.dup()));
            assert(args.deep_view() =~= seq![
                UvArgView::Word("pip"@),
                UvArgView::Word("install"@),
                UvArgView::Word("--python"@),
                UvArgView::At(interpreter(venv.deep_view(), windows)),
                UvArgView::Word("-r"@),
                UvArgView::At(req.deep_view()),
            ]);
            push(
                &mut steps,
                ProvisionStep::Uv {
                    args,
                    cwd: venv_dir.dup(),
                    project_environment: None,
                    label: "uv pip install (requirements.txt)".to_string(),
                },
            );
        },
        DepsSource::Nowhere => {
            push(
                &mut steps,
                ProvisionStep::Create {
                    venv,
                    runtime_version: runtime_version.to_string(),
                    working_dir: venv_dir.dup(),
                },
            );
            push(&mut steps, ProvisionStep::Warn(NO_DEPS_WARNING.to_string()));
        },
    }
    assert(steps.deep_view() =~= provisioning(
        venv_dir.deep_view(),
        runtime_version@,
        deps.deep_view(),
        windows,
    ));
    steps
}

// ---------------------------------------------------------------------------
// Deciding
// ---------------------------------------------------------------------------

/// The directory that the virtual environment lies in: beside the project
/// file, or else in the project.
pub open spec fn venv_dir_of(project_dir: Seq<char>, deps: DepsSourceView) -> PathPartsView {
    match deps {
        DepsSourceView::Pyproject { root, .. } => path_of(root),
        _ => path_of(project_dir),
    }
}

/// The virtual environment that a project should have.
pub open spec fn planned(
    project_dir: Seq<char>,
    deps: DepsSourceView,
    project: Option<Seq<char>>,
    contents: Option<Seq<u8>>,
    windows: bool,
) -> VenvPlanView {
    let venv_dir = venv_dir_of(project_dir, deps);
    let runtime_version = runtime_of(deps, project);
    VenvPlanView {
        deps,
        venv_dir,
        venv: under(venv_dir, VENV_DIR@),
        python: interpreter(under(venv_dir, VENV_DIR@), windows),
        runtime_version,
        stamp: stamp_of(runtime_version, contents),
    }
}

/// Plans the virtual environment of a project: `project` is the text of its
/// project file, `contents` what the file of the dependencies holds.
pub fn plan_venv(
    project_dir: &str,
    deps: DepsSource,
    project: &Option<String>,
    contents: &Option<Vec<u8>>,
    windows: bool,
) -> (plan: VenvPlan)
    ensures
        plan.deep_view() == planned(
            project_dir@,
            deps.deep_view(),
            project.deep_view(),
            match contents {
                Some(b) => Some(b@),
                None => None,
            },
            windows,
        ),
{
    let venv_dir = match &deps {
        DepsSource::Pyproject { root, .. } => PathParts::new(root.as_str()),
        _ => PathParts::new(project_dir),
    };
    let (runtime_version, _) = resolve_runtime_version(&deps, project);
    let stamp = compute_stamp(runtime_version.as_str(), contents);
    let venv = venv_dir.join(VENV_DIR);
    let python = venv_python_path(&venv_dir, VENV_DIR, windows);
    VenvPlan { deps, venv_dir, venv, python, runtime_version, stamp }
}

/// Why a missing environment is not built.
pub open spec fn disabled_message(
    shown_python: Seq<char>,
    runtime_version: Seq<char>,
    deps: DepsSourceView,
) -> Seq<char> {
    "No Python venv at "@ + shown_python
        + " and --no-bootstrap was passed. Rerun without --no-bootstrap to provision one automatically, or create the venv manually: `"@
        + hint_of(runtime_version, deps) + "`."@
}

/// What becomes of the virtual environment. `python_exists` says whether its
/// interpreter is there and `stamp` what its stamp says.
pub open spec fn venv_decision(
    plan: VenvPlanView,
    python_exists: bool,
    stamp: Option<Seq<char>>,
    bootstrap_enabled: bool,
    shown_python: Seq<char>,
) -> VenvDecisionView {
    if python_exists {
        match stamp {
            Some(actual) => if actual == plan.stamp || !bootstrap_enabled {
                VenvDecisionView::Ready { write_stamp: false }
            } else {
                VenvDecisionView::Build { rebuilding: true }
            },
            None => VenvDecisionView::Ready { write_stamp: true },
        }
    } else if bootstrap_enabled {
        VenvDecisionView::Confirm
    } else {
        VenvDecisionView::Refuse(disabled_message(shown_python, plan.runtime_version, plan.deps))
    }
}

/// Decides what becomes of the virtual environment; `shown_python` is the
/// interpreter as the platform writes it.
pub fn ensure_venv(
    plan: &VenvPlan,
    python_exists: bool,
    stamp: &Option<String>,
    bootstrap_enabled: bool,
    shown_python: &str,
) -> (decision: VenvDecision)
    ensures
        decision.deep_view() == venv_decision(
            plan.deep_view(),
            python_exists,
            stamp.deep_view(),
            bootstrap_enabled,
            shown_python@,
        ),
{
    if python_exists {
        match stamp {
            Some(actual) => if text::same(actual.as_str(), plan.stamp.as_str())
                || !bootstrap_enabled {
                VenvDecision::Ready { write_stamp: false }
            } else {
                VenvDecision::Build { rebuilding: true }
            },
            None => VenvDecision::Ready { write_stamp: true },
        }
    } else if bootstrap_enabled {
        VenvDecision::Confirm
    } else {
        let hint = manual_bootstrap_hint(plan.runtime_version.as_str(), &plan.deps);
        let mut message = text::concat3(
            "No Python venv at ",
            shown_python,
            " and --no-bootstrap was passed. Rerun without --no-bootstrap to provision one automatically, or create the venv manually: `",
        );
        message.append(hint.as_str());
        message.append("`.");
        VenvDecision::Refuse(message)
    }
}

/// What becomes of a missing virtual environment once the operator was asked.
pub fn after_confirmation(agreed: bool, shown_venv: &str) -> (decision: VenvDecision)
    ensures
        decision.deep_view() == (if agreed {
            VenvDecisionView::Build { rebuilding: false }
        } else {
            VenvDecisionView::Refuse(
                "Operator declined to bootstrap venv at "@ + shown_venv@
                    + ". Rerun with --no-bootstrap to skip the prompt, or create the venv manually before invoking `tofupilot run`."@,
            )
        }),
{
    if agreed {
        VenvDecision::Build { rebuilding: false }
    } else {
        VenvDecision::Refuse(
            text::concat3(
                "Operator declined to bootstrap venv at ",
                shown_venv,
                ". Rerun with --no-bootstrap to skip the prompt, or create the venv manually before invoking `tofupilot run`.",
            ),
        )
    }
}

/// The environment that a plan gives once it is ready or built.
pub fn ensured(plan: VenvPlan) -> (venv: EnsuredVenv)
    ensures
        venv.deep_view() == (EnsuredVenvView { python: plan.deep_view().python }),
{
    EnsuredVenv { python: plan.python }
}

// ---------------------------------------------------------------------------
// Laws
// ---------------------------------------------------------------------------

/// A project file that is near wins over one further up, and any that is
/// found wins over requirements.
pub proof fn law_nearest_project_wins(
    project_dir: Seq<char>,
    dirs: Seq<ProbedDirView>,
    has_requirements: bool,
    i: int,
)
    requires
        0 <= i < searched(dirs).len(),
        dirs[i].has_pyproject,
        forall|k: int| 0 <= k < i ==> !(#[trigger] dirs[k]).has_pyproject,
    ensures
        deps_of(project_dir, dirs, has_requirements) == (DepsSourceView::Pyproject {
            pyproject: under(path_of(dirs[i].dir), "pyproject.toml"@),
            root: dirs[i].dir,
        }),
{
    lemma_nearest(searched(dirs), i);
}

proof fn lemma_nearest(dirs: Seq<ProbedDirView>, i: int)
    requires
        0 <= i < dirs.len(),
        dirs[i].has_pyproject,
        forall|k: int| 0 <= k < i ==> !(#[trigger] dirs[k]).has_pyproject,
    ensures
        nearest(dirs) == Some(dirs[i].dir),
    decreases i,
{
    if i > 0 {
        assert(!dirs[0].has_pyproject);
        assert forall|k: int| 0 <= k < i - 1 implies !(
        #[trigger] dirs.drop_first()[k]).has_pyproject by {
            assert(!dirs[k + 1].has_pyproject);
        }
        lemma_nearest(dirs.drop_first(), i - 1);
    }
}

/// What is hashed for a stamp tells versions and contents apart: no two
/// versions without a zero byte, with whatever contents, give the same.
pub proof fn law_stamp_input_tells_apart(v: Seq<u8>, c: Seq<u8>, w: Seq<u8>, d: Seq<u8>)
    requires
        !v.contains(0u8),
        !w.contains(0u8),
        stamp_input(v, c) == stamp_input(w, d),
    ensures
        v == w,
        c == d,
{
    let x = stamp_input(v, c);
    let y = stamp_input(w, d);
    assert(x[v.len() as int] == 0);
    assert(y[w.len() as int] == 0);
    if v.len() < w.len() {
        assert(y[v.len() as int] == w[v.len() as int]);
        assert(w.contains(0u8));
    }
    if w.len() < v.len() {
        assert(x[w.len() as int] == v[w.len() as int]);
        assert(v.contains(0u8));
    }
    assert(v =~= x.take(v.len() as int));
    assert(w =~= y.take(w.len() as int));
    assert(c =~= x.skip(v.len() as int + 1));
    assert(d =~= y.skip(w.len() as int + 1));
}

/// An environment without a stamp is never built anew: somebody built it by
/// hand.
pub proof fn law_hand_built_is_kept(
    plan: VenvPlanView,
    bootstrap_enabled: bool,
    shown_python: Seq<char>,
)
    ensures
        venv_decision(plan, true, None, bootstrap_enabled, shown_python)
            == (VenvDecisionView::Ready { write_stamp: true }),
{
}

/// Where building is switched off nothing is built, nobody is asked, and no
/// stamp that is there is overwritten.
pub proof fn law_no_bootstrap_builds_nothing(
    plan: VenvPlanView,
    python_exists: bool,
    stamp: Option<Seq<char>>,
    shown_python: Seq<char>,
)
    ensures
        ({
            let d = venv_decision(plan, python_exists, stamp, false, shown_python);
            &&& !(d is Build)
            &&& !(d is Confirm)
            &&& stamp is Some ==> d != (VenvDecisionView::Ready { write_stamp: true })
            &&& d is Refuse <==> !python_exists
        }),
{
}

/// The operator is asked only where there is no environment: one whose
/// dependencies changed is built anew without asking.
pub proof fn law_rebuilding_does_not_ask(
    plan: VenvPlanView,
    stamp: Seq<char>,
    shown_python: Seq<char>,
)
    ensures
        !(venv_decision(plan, true, Some(stamp), true, shown_python) is Confirm),
        stamp != plan.stamp ==> venv_decision(plan, true, Some(stamp), true, shown_python)
            == (VenvDecisionView::Build { rebuilding: true }),
        stamp == plan.stamp ==> venv_decision(plan, true, Some(stamp), true, shown_python)
            == (VenvDecisionView::Ready { write_stamp: false }),
{
}

} // verus!
