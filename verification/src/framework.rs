//! Which framework drives a procedure, and what a run needs before it starts.

use vstd::prelude::*;
use vstd::string::*;
use crate::connector::detect;
use crate::connector::detect::{
    any_requires, any_robot_file, manifest_names, OPENHTF_PACKAGE, ROBOT_PACKAGE,
};
use crate::dup::Dup;
use crate::engine::run::{
    find_procedure_yaml, DeploymentLayout, DeploymentLayoutView, PROCEDURE_YAML, PROCEDURE_YML,
};
use crate::paths;
use crate::paths::{extension_of, name_of, path_of, under, PathParts, PathPartsView};
use crate::python::{find_entry_point, ENTRY_FILE};
use crate::text;
use crate::text::same_ignoring_case;

verus! {

/// What drives a procedure.
#[derive(Debug, PartialEq, Eq)]
pub enum Framework {
    /// A procedure file.
    Yaml(PathParts),
    Openhtf,
    Pytest,
    Robot,
    /// A plain Python script.
    Plain,
}

/// View of [`Framework`].
pub enum FrameworkView {
    Yaml(PathPartsView),
    Openhtf,
    Pytest,
    Robot,
    Plain,
}

impl DeepView for Framework {
    type V = FrameworkView;

    open spec fn deep_view(&self) -> FrameworkView {
        match self {
            Framework::Yaml(v) => FrameworkView::Yaml(v.deep_view()),
            Framework::Openhtf => FrameworkView::Openhtf,
            Framework::Pytest => FrameworkView::Pytest,
            Framework::Robot => FrameworkView::Robot,
            Framework::Plain => FrameworkView::Plain,
        }
    }
}

impl Dup for Framework {
    fn dup(&self) -> (copy: Self) {
        match self {
            Framework::Yaml(v) => Framework::Yaml(v.dup()),
            Framework::Openhtf => Framework::Openhtf,
            Framework::Pytest => Framework::Pytest,
            Framework::Robot => Framework::Robot,
            Framework::Plain => Framework::Plain,
        }
    }
}

/// What a connector is pointed at.
#[derive(Debug, Clone, Copy, PartialEq, Eq, Structural)]
pub enum EntrySurface {
    /// The file that the project starts from.
    MainPy,
    /// The directory, in which it finds what to run.
    PackageDir,
}

impl DeepView for EntrySurface {
    type V = EntrySurface;

    open spec fn deep_view(&self) -> EntrySurface {
        *self
    }
}

impl Dup for EntrySurface {
    fn dup(&self) -> (copy: Self) {
        *self
    }
}

/// What was found in the directory of a procedure.
#[derive(Debug, PartialEq, Eq)]
pub struct ProjectFiles {
    pub has_yaml: bool,
    pub has_yml: bool,
    /// The text of the project manifest.
    pub manifest: Option<String>,
    /// The texts of the files that name dependencies.
    pub dependency_files: Vec<Option<String>>,
    /// Whether it is a pytest project.
    pub pytest: bool,
    /// The names of the files in it.
    pub names: Vec<String>,
    pub main_py: bool,
}

/// View of [`ProjectFiles`].
pub struct ProjectFilesView {
    pub has_yaml: bool,
    pub has_yml: bool,
    pub manifest: Option<Seq<char>>,
    pub dependency_files: Seq<Option<Seq<char>>>,
    pub pytest: bool,
    pub names: Seq<Seq<char>>,
    pub main_py: bool,
}

impl DeepView for ProjectFiles {
    type V = ProjectFilesView;

    open spec fn deep_view(&self) -> ProjectFilesView {
        ProjectFilesView {
            has_yaml: self.has_yaml.deep_view(),
            has_yml: self.has_yml.deep_view(),
            manifest: self.manifest.deep_view(),
            dependency_files: self.dependency_files.deep_view(),
            pytest: self.pytest.deep_view(),
            names: self.names.deep_view(),
            main_py: self.main_py.deep_view(),
        }
    }
}

/// Everything that a run needs before it starts.
#[derive(Debug, PartialEq, Eq)]
pub struct Prepared {
    pub package_dir: PathParts,
    pub framework: Framework,
    pub entry_file: PathParts,
    pub python_path: PathParts,
}

/// View of [`Prepared`].
pub struct PreparedView {
    pub package_dir: PathPartsView,
    pub framework: FrameworkView,
    pub entry_file: PathPartsView,
    pub python_path: PathPartsView,
}

impl DeepView for Prepared {
    type V = PreparedView;

    open spec fn deep_view(&self) -> PreparedView {
        PreparedView {
            package_dir: self.package_dir.deep_view(),
            framework: self.framework.deep_view(),
            entry_file: self.entry_file.deep_view(),
            python_path: self.python_path.deep_view(),
        }
    }
}

/// What a run needs but for its interpreter.
#[derive(Debug, PartialEq, Eq)]
pub struct PreparedEntry {
    pub package_dir: PathParts,
    pub framework: Framework,
    pub entry_file: PathParts,
    /// Whether the interpreter is that of a deployment.
    pub manifest_present: bool,
}

/// View of [`PreparedEntry`].
pub struct PreparedEntryView {
    pub package_dir: PathPartsView,
    pub framework: FrameworkView,
    pub entry_file: PathPartsView,
    pub manifest_present: bool,
}

impl DeepView for PreparedEntry {
    type V = PreparedEntryView;

    open spec fn deep_view(&self) -> PreparedEntryView {
        PreparedEntryView {
            package_dir: self.package_dir.deep_view(),
            framework: self.framework.deep_view(),
            entry_file: self.entry_file.deep_view(),
            manifest_present: self.manifest_present.deep_view(),
        }
    }
}

/// Why a run cannot start.
#[derive(Debug, PartialEq, Eq)]
pub struct PrepareFail {
    pub kind: String,
    pub message: String,
}

/// View of [`PrepareFail`].
pub struct PrepareFailView {
    pub kind: Seq<char>,
    pub message: Seq<char>,
}

impl DeepView for PrepareFail {
    type V = PrepareFailView;

    open spec fn deep_view(&self) -> PrepareFailView {
        PrepareFailView {
            kind: self.kind.deep_view(),
            message: self.message.deep_view(),
        }
    }
}

impl Dup for PrepareFail {
    fn dup(&self) -> (copy: Self) {
        PrepareFail {
            kind: self.kind.dup(),
            message: self.message.dup(),
        }
    }
}

/// Whether a path ends in the extension of a YAML file, in whatever case.
pub open spec fn names_yaml(rel: Seq<char>, windows: bool) -> bool {
    match name_of(rel, windows) {
        Some(name) => match extension_of(name) {
            Some(ext) => same_ignoring_case(ext, "yaml"@) || same_ignoring_case(ext, "yml"@),
            None => false,
        },
        None => false,
    }
}

/// Whether a path ends in the extension of a YAML file, in whatever case.
pub fn has_yaml_extension(rel: &str, windows: bool) -> (yes: bool)
    ensures
        yes == names_yaml(rel@, windows),
{
    match paths::file_name(rel, windows) {
        Some(name) => match paths::extension(name.as_str()) {
            Some(ext) => text::eq_ignore_ascii_case(ext.as_str(), "yaml")
                || text::eq_ignore_ascii_case(ext.as_str(), "yml"),
            None => false,
        },
        None => false,
    }
}

/// What drives the procedure of a directory: an entry point that is a
/// procedure file, a procedure file, then the frameworks in turn.
pub open spec fn framework_of(
    package_dir: PathPartsView,
    entry: Option<Seq<char>>,
    files: ProjectFilesView,
    windows: bool,
) -> FrameworkView {
    if entry is Some && names_yaml(entry->Some_0, windows) {
        FrameworkView::Yaml(under(package_dir, entry->Some_0))
    } else if files.has_yaml {
        FrameworkView::Yaml(under(package_dir, PROCEDURE_YAML@))
    } else if files.has_yml {
        FrameworkView::Yaml(under(package_dir, PROCEDURE_YML@))
    } else if manifest_names(files.manifest, "openhtf"@) || any_requires(
        files.dependency_files,
        OPENHTF_PACKAGE@,
    ) {
        FrameworkView::Openhtf
    } else if files.pytest {
        FrameworkView::Pytest
    } else if manifest_names(files.manifest, "robot"@) || any_requires(
        files.dependency_files,
        ROBOT_PACKAGE@,
    ) || any_robot_file(files.names) {
        FrameworkView::Robot
    } else {
        FrameworkView::Plain
    }
}

/// What a framework is pointed at.
pub open spec fn surface_of(framework: FrameworkView) -> EntrySurface {
    match framework {
        FrameworkView::Openhtf | FrameworkView::Plain => EntrySurface::MainPy,
        _ => EntrySurface::PackageDir,
    }
}

impl Framework {
    /// What drives the procedure of a directory.
    pub fn detect(
        package_dir: &PathParts,
        manifest_entry: &Option<String>,
        files: &ProjectFiles,
        windows: bool,
    ) -> (framework: Self)
        ensures
            framework.deep_view() == framework_of(
                package_dir.deep_view(),
                manifest_entry.deep_view(),
                files.deep_view(),
                windows,
            ),
    {
        match manifest_entry {
            Some(rel) => {
                if has_yaml_extension(rel.as_str(), windows) {
                    return Framework::Yaml(package_dir.join(rel.as_str()));
                }
            },
            None => {},
        }
        match find_procedure_yaml(files.has_yaml, files.has_yml) {
            Some(name) => {
                return Framework::Yaml(package_dir.join(name));
            },
            None => {},
        }
        if detect::has_openhtf(&files.manifest, &files.dependency_files) {
            return Framework::Openhtf;
        }
        if files.pytest {
            return Framework::Pytest;
        }
        if detect::has_robot(&files.manifest, &files.dependency_files, &files.names) {
            return Framework::Robot;
        }
        Framework::Plain
    }

    /// What the framework is pointed at.
    pub fn entry_surface(&self) -> (surface: EntrySurface)
        ensures
            surface == surface_of(self.deep_view()),
    {
        match self {
            Framework::Openhtf | Framework::Plain => EntrySurface::MainPy,
            _ => EntrySurface::PackageDir,
        }
    }
}

// ---------------------------------------------------------------------------
// Before a run starts
// ---------------------------------------------------------------------------

/// The word for a procedure that cannot be loaded.
pub const LOAD_ERROR: &'static str = "load_error";

/// The word for an environment that is not there.
pub const ENV_ERROR: &'static str = "env_error";

/// What an operator is told where there is no procedure.
pub open spec fn no_procedure(shown_dir: Seq<char>) -> PrepareFailView {
    PrepareFailView {
        kind: LOAD_ERROR@,
        message: "No procedure found in "@ + shown_dir
            + ". Expected a procedure.yaml or a Python entry point (main.py)."@,
    }
}

/// What a run starts from: the entry point of the manifest, or else what the
/// framework is pointed at.
pub open spec fn entry_of(
    entry: Option<Seq<char>>,
    framework: FrameworkView,
    package_dir: PathPartsView,
    main_py: bool,
) -> Option<PathPartsView> {
    match entry {
        Some(rel) => if rel == "."@ {
            Some(package_dir)
        } else {
            Some(under(package_dir, rel))
        },
        None => if surface_of(framework) is PackageDir {
            Some(package_dir)
        } else if main_py {
            Some(under(package_dir, ENTRY_FILE@))
        } else {
            None
        },
    }
}

/// What a run starts from; `shown_dir` is the directory as the platform
/// writes it.
pub fn resolve_entry_file(
    manifest_entry: &Option<String>,
    framework: &Framework,
    package_dir: &PathParts,
    main_py: bool,
    shown_dir: &str,
) -> (entry: Result<PathParts, PrepareFail>)
    ensures
        match entry_of(
            manifest_entry.deep_view(),
            framework.deep_view(),
            package_dir.deep_view(),
            main_py,
        ) {
            Some(path) => entry is Ok && entry->Ok_0.deep_view() == path,
            None => entry is Err && entry->Err_0.deep_view() == no_procedure(shown_dir@),
        },
{
    match manifest_entry {
        Some(rel) => {
            if text::same(rel.as_str(), ".") {
                return Ok(package_dir.dup());
            }
            return Ok(package_dir.join(rel.as_str()));
        },
        None => {},
    }
    match framework.entry_surface() {
        EntrySurface::MainPy => match find_entry_point(package_dir, main_py) {
            Some(path) => Ok(path),
            None => Err(
                PrepareFail {
                    kind: LOAD_ERROR.to_string(),
                    message: text::concat3(
                        "No procedure found in ",
                        shown_dir,
                        ". Expected a procedure.yaml or a Python entry point (main.py).",
                    ),
                },
            ),
        },
        EntrySurface::PackageDir => Ok(package_dir.dup()),
    }
}

/// What drives a run: a procedure file that was named, or else what the
/// directory holds.
pub open spec fn chosen_framework(
    layout: DeploymentLayoutView,
    yaml_hint: Option<Seq<char>>,
    files: ProjectFilesView,
    windows: bool,
) -> FrameworkView {
    if yaml_hint is Some && names_yaml(yaml_hint->Some_0, windows) {
        FrameworkView::Yaml(path_of(yaml_hint->Some_0))
    } else {
        framework_of(layout.package_dir, layout.entry_point, files, windows)
    }
}

/// Everything that a run needs but for its interpreter, or why it cannot
/// start.
pub open spec fn prepared_entry(
    layout: DeploymentLayoutView,
    yaml_hint: Option<Seq<char>>,
    files: ProjectFilesView,
    windows: bool,
    shown_dir: Seq<char>,
) -> Result<PreparedEntryView, PrepareFailView> {
    let framework = chosen_framework(layout, yaml_hint, files, windows);
    match entry_of(layout.entry_point, framework, layout.package_dir, files.main_py) {
        Some(entry_file) => Ok(
            PreparedEntryView {
                package_dir: layout.package_dir,
                framework,
                entry_file,
                manifest_present: layout.manifest_present,
            },
        ),
        None => Err(no_procedure(shown_dir)),
    }
}

/// Why a run cannot start whose manifest is not one.
pub fn bad_manifest(error: &str) -> (fail: PrepareFail)
    ensures
        fail.deep_view() == (PrepareFailView {
            kind: LOAD_ERROR@,
            message: "Bad deployment manifest: "@ + error@,
        }),
{
    PrepareFail {
        kind: LOAD_ERROR.to_string(),
        message: text::concat2("Bad deployment manifest: ", error),
    }
}

/// Where the interpreter of a run comes from.
#[derive(Debug, Clone, Copy, PartialEq, Eq, Structural)]
pub enum Interpreter {
    /// The environment that was installed with the deployment, as it is.
    Deployment,
    /// The environment of the project, which is built where it is missing or
    /// out of date.
    Project,
}

/// Where the interpreter of a run comes from: a deployment brings its own.
pub open spec fn interpreter_source(manifest_present: bool) -> Interpreter {
    if manifest_present {
        Interpreter::Deployment
    } else {
        Interpreter::Project
    }
}

/// Decides where the interpreter of a run comes from.
pub fn choose_interpreter(manifest_present: bool) -> (source: Interpreter)
    ensures
        source == interpreter_source(manifest_present),
{
    if manifest_present {
        Interpreter::Deployment
    } else {
        Interpreter::Project
    }
}

/// Resolves everything that a run needs but for its interpreter.
pub fn prepare_run(
    layout: DeploymentLayout,
    yaml_hint: &Option<String>,
    files: &ProjectFiles,
    windows: bool,
    shown_dir: &str,
) -> (out: Result<PreparedEntry, PrepareFail>)
    ensures
        match prepared_entry(
            layout.deep_view(),
            yaml_hint.deep_view(),
            files.deep_view(),
            windows,
            shown_dir@,
        ) {
            Ok(entry) => out is Ok && out->Ok_0.deep_view() == entry,
            Err(fail) => out is Err && out->Err_0.deep_view() == fail,
        },
{
    let hinted = match yaml_hint {
        Some(hint) => if has_yaml_extension(hint.as_str(), windows) {
            Some(Framework::Yaml(PathParts::new(hint.as_str())))
        } else {
            None
        },
        None => None,
    };
    let framework = match hinted {
        Some(framework) => framework,
        None => Framework::detect(&layout.package_dir, &layout.entry_point, files, windows),
    };
    match resolve_entry_file(
        &layout.entry_point,
        &framework,
        &layout.package_dir,
        files.main_py,
        shown_dir,
    ) {
        Ok(entry_file) => Ok(
            PreparedEntry {
                package_dir: layout.package_dir,
                framework,
                entry_file,
                manifest_present: layout.manifest_present,
            },
        ),
        Err(fail) => Err(fail),
    }
}

/// Adds the interpreter, or says why there is none.
pub fn with_python(entry: PreparedEntry, python: Result<PathParts, String>) -> (out: Result<
    Prepared,
    PrepareFail,
>)
    ensures
        match python {
            Ok(p) => out is Ok && out->Ok_0.deep_view() == (PreparedView {
                package_dir: entry.deep_view().package_dir,
                framework: entry.deep_view().framework,
                entry_file: entry.deep_view().entry_file,
                python_path: p.deep_view(),
            }),
            Err(e) => out is Err && out->Err_0.deep_view() == (PrepareFailView {
                kind: ENV_ERROR@,
                message: "Python environment error: "@ + e@,
            }),
        },
{
    match python {
        Ok(python_path) => Ok(
            Prepared {
                package_dir: entry.package_dir,
                framework: entry.framework,
                entry_file: entry.entry_file,
                python_path,
            },
        ),
        Err(e) => Err(
            PrepareFail {
                kind: ENV_ERROR.to_string(),
                message: text::concat2("Python environment error: ", e.as_str()),
            },
        ),
    }
}

// ---------------------------------------------------------------------------
// Laws
// ---------------------------------------------------------------------------

/// An entry point that is a procedure file decides, whatever else lies in the
/// directory.
pub proof fn law_yaml_entry_decides(
    package_dir: PathPartsView,
    entry: Seq<char>,
    files: ProjectFilesView,
    windows: bool,
)
    requires
        names_yaml(entry, windows),
    ensures
        framework_of(package_dir, Some(entry), files, windows) == FrameworkView::Yaml(
            under(package_dir, entry),
        ),
{
}

/// Without a procedure file nothing is driven by one: other entry points do
/// not count.
pub proof fn law_other_entries_are_not_yaml(
    package_dir: PathPartsView,
    entry: Option<Seq<char>>,
    files: ProjectFilesView,
    windows: bool,
)
    requires
        !(entry is Some && names_yaml(entry->Some_0, windows)),
        !files.has_yaml,
        !files.has_yml,
    ensures
        !(framework_of(package_dir, entry, files, windows) is Yaml),
        framework_of(package_dir, entry, files, windows) == framework_of(
            package_dir,
            None,
            files,
            windows,
        ),
{
}

/// A run is refused for want of a procedure exactly where nothing names an
/// entry, the framework wants a script and there is none.
pub proof fn law_when_no_procedure(
    layout: DeploymentLayoutView,
    yaml_hint: Option<Seq<char>>,
    files: ProjectFilesView,
    windows: bool,
    shown_dir: Seq<char>,
)
    ensures
        prepared_entry(layout, yaml_hint, files, windows, shown_dir) is Err <==> (
        layout.entry_point is None && !files.main_py && surface_of(
            chosen_framework(layout, yaml_hint, files, windows),
        ) is MainPy),
{
}

/// A script that only stands by is not taken for the entry of a framework
/// that searches the directory.
pub proof fn law_sentinel_script_does_not_win(
    framework: FrameworkView,
    package_dir: PathPartsView,
    main_py: bool,
)
    requires
        framework is Pytest || framework is Robot,
    ensures
        entry_of(None, framework, package_dir, main_py) == Some(package_dir),
{
}

} // verus!
