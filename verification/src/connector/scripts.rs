//! The Python files that a connector puts into a procedure while it runs.

use vstd::prelude::*;
use crate::connector::request::Connector;
use crate::dup::push;

verus! {

/// The script that drives OpenHTF.
pub const OPENHTF_SCRIPT: &'static str = ".tofupilot_openhtf.py";

/// The script that listens to Robot Framework.
pub const ROBOT_SCRIPT: &'static str = ".tofupilot_robot.py";

/// The keyword library that Robot Framework suites import.
pub const ROBOT_LIBRARY: &'static str = "tofupilot_robot.py";

/// A file that the run writes before the process starts, and removes when it
/// is over.
#[derive(Debug, PartialEq, Eq)]
pub struct ScriptFile {
    pub name: String,
    /// What the file is, for the message where it cannot be written.
    pub label: String,
    /// Whether what stands under the name is of an earlier run, and goes
    /// first.
    pub replaces: bool,
}

/// View of [`ScriptFile`].
pub struct ScriptFileView {
    pub name: Seq<char>,
    pub label: Seq<char>,
    pub replaces: bool,
}

impl DeepView for ScriptFile {
    type V = ScriptFileView;

    open spec fn deep_view(&self) -> ScriptFileView {
        ScriptFileView {
            name: self.name.deep_view(),
            label: self.label.deep_view(),
            replaces: self.replaces.deep_view(),
        }
    }
}

/// The script that the process runs.
pub open spec fn main_script(connector: Connector) -> ScriptFileView {
    match connector {
        Connector::OpenHtf => ScriptFileView {
            name: OPENHTF_SCRIPT@,
            label: "connector"@,
            replaces: true,
        },
        Connector::Robot => ScriptFileView {
            name: ROBOT_SCRIPT@,
            label: "Robot listener"@,
            replaces: true,
        },
    }
}

/// The keyword library, as the run brings it.
pub open spec fn library_file() -> ScriptFileView {
    ScriptFileView { name: ROBOT_LIBRARY@, label: "tofupilot_robot library"@, replaces: false }
}

/// The files of a run, in the order in which they are written: the script, and
/// the keyword library of Robot Framework where the procedure has none of its
/// own. No other file is written, and none but these is removed.
pub open spec fn files_of_run(connector: Connector, library_exists: bool) -> Seq<ScriptFileView> {
    if connector == Connector::Robot && !library_exists {
        seq![main_script(connector), library_file()]
    } else {
        seq![main_script(connector)]
    }
}

/// The files that a run writes and removes again. `library_exists` says whether
/// the procedure has a file under the name of the keyword library.
pub fn script_files(connector: Connector, library_exists: bool) -> (files: Vec<ScriptFile>)
    ensures
        files.deep_view() == files_of_run(connector, library_exists),
{
    let (name, label) = match connector {
        Connector::OpenHtf => (OPENHTF_SCRIPT, "connector"),
        Connector::Robot => (ROBOT_SCRIPT, "Robot listener"),
    };
    let mut files: Vec<ScriptFile> = Vec::new();
    push(
        &mut files,
        ScriptFile { name: name.to_string(), label: label.to_string(), replaces: true },
    );
    let brings_library = match connector {
        Connector::OpenHtf => false,
        Connector::Robot => !library_exists,
    };
    if brings_library {
        push(
            &mut files,
            ScriptFile {
                name: ROBOT_LIBRARY.to_string(),
                label: "tofupilot_robot library".to_string(),
                replaces: false,
            },
        );
    }
    assert(files.deep_view() =~= files_of_run(connector, library_exists));
    files
}

/// A library that the procedure ships is neither written nor removed.
pub proof fn law_own_library_is_kept(connector: Connector, i: int)
    requires
        0 <= i < files_of_run(connector, true).len(),
    ensures
        files_of_run(connector, true)[i].name != ROBOT_LIBRARY@,
{
    reveal_strlit(".tofupilot_openhtf.py");
    reveal_strlit(".tofupilot_robot.py");
    reveal_strlit("tofupilot_robot.py");
    assert(ROBOT_LIBRARY@[0] == 't');
    assert(OPENHTF_SCRIPT@[0] == '.');
    assert(ROBOT_SCRIPT@[0] == '.');
}

/// The names of the files of a run: the script of its framework comes first and
/// replaces what is there; the library of Robot Framework follows where the
/// procedure has none, and replaces nothing.
pub proof fn law_files_of_a_run(library_exists: bool)
    ensures
        ({
            let openhtf = files_of_run(Connector::OpenHtf, library_exists);
            let robot = files_of_run(Connector::Robot, library_exists);
            &&& openhtf.len() == 1
            &&& openhtf[0].name == ".tofupilot_openhtf.py"@
            &&& openhtf[0].label == "connector"@
            &&& openhtf[0].replaces
            &&& robot[0].name == ".tofupilot_robot.py"@
            &&& robot[0].label == "Robot listener"@
            &&& robot[0].replaces
            &&& library_exists ==> robot.len() == 1
            &&& !library_exists ==> robot.len() == 2 && robot[1].name == "tofupilot_robot.py"@
                && robot[1].label == "tofupilot_robot library"@ && !robot[1].replaces
        }),
{
}

} // verus!
