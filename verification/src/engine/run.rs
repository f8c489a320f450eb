//! The run of a procedure file.
//!
//! The execution engine does the work; what is decided around it stands here.
//! Each report from outside leads to things to send and one thing to do next.

use vstd::prelude::*;
use vstd::string::*;
use crate::assoc;
use crate::assoc::{lookup, with_value};
use crate::connector::pump::{fresh_run, new_run};
use crate::connector::unit_config::{
    field_of, undeclared_unit, UnitConfig, UnitConfigView, UnitFieldConfig,
};
use crate::dup::{push, Dup};
use crate::emit::{run_complete, run_complete_event, run_crashed, run_crashed_emissions};
use crate::engine::metadata::{belongs, belongs_to_slot};
use crate::engine::model::{
    EngineUnit, EngineUnitView, KeyText, KeyTextView, MetadataSource, MetadataSourceView,
    Outcome, RunDataView, SlotAttachment, SlotAttachmentView,
};
use crate::engine::request::{
    build_run_request, is_run_request, RequestContext, RequestContextView, SlotStamp, SlotStampView,
};
use crate::engine::sink::{
    advanced, emitted, no_data, CliEventSink, CliEventSinkView, ExecutionEvent, ExecutionEventView,
};
use crate::engine::unit::{
    apply_unit_info_to_run_data, engine_unit, wire_unit_to_engine, with_unit_info,
};
use crate::event_router::{Emission, EmissionView, EventRouterView};
use crate::json::{Json, JsonField, JsonFieldView, JsonView};
use crate::order::Keyed;
use crate::outcomes::ABORTED;
use crate::paths::{path_of, under, PathParts, PathPartsView};
use crate::protocol::{KeyUnit, KeyUnitView, UnitInfo, UnitInfoView};
use crate::queue::{QueuedAttachment, QueuedAttachmentView, QueuedRun, QueuedRunView};
use crate::text;
use crate::text::{decimal, joined};
use crate::time::Instant;

verus! {

/// The name of a procedure file.
pub const PROCEDURE_YAML: &'static str = "procedure.yaml";

/// The other name of a procedure file; the first wins.
pub const PROCEDURE_YML: &'static str = "procedure.yml";

/// The slot of a procedure that declares none.
pub const DEFAULT_SLOT: &'static str = "default";

/// The number of workers of a procedure that declares none.
pub const DEFAULT_WORKERS: u32 = 4;

/// A slot that a procedure declares.
#[derive(Debug, PartialEq, Eq)]
pub struct SlotDecl {
    pub key: String,
    pub name: String,
}

/// View of [`SlotDecl`].
pub struct SlotDeclView {
    pub key: Seq<char>,
    pub name: Seq<char>,
}

impl DeepView for SlotDecl {
    type V = SlotDeclView;

    open spec fn deep_view(&self) -> SlotDeclView {
        SlotDeclView {
            key: self.key.deep_view(),
            name: self.name.deep_view(),
        }
    }
}

impl Dup for SlotDecl {
    fn dup(&self) -> (copy: Self) {
        SlotDecl {
            key: self.key.dup(),
            name: self.name.dup(),
        }
    }
}

/// What the run reads of a loaded procedure.
#[derive(Debug, PartialEq, Eq)]
pub struct ProcedureFacts {
    /// The declared number of workers.
    pub workers: Option<u32>,
    pub slots: Vec<SlotDecl>,
    pub unit: Option<UnitConfig>,
    /// How the operator of the run is asked for, as it is declared.
    pub operated_by: Option<Json>,
}

/// View of [`ProcedureFacts`].
pub struct ProcedureFactsView {
    pub workers: Option<u32>,
    pub slots: Seq<SlotDeclView>,
    pub unit: Option<UnitConfigView>,
    pub operated_by: Option<JsonView>,
}

impl DeepView for ProcedureFacts {
    type V = ProcedureFactsView;

    open spec fn deep_view(&self) -> ProcedureFactsView {
        ProcedureFactsView {
            workers: self.workers.deep_view(),
            slots: self.slots.deep_view(),
            unit: self.unit.deep_view(),
            operated_by: self.operated_by.deep_view(),
        }
    }
}

impl Dup for ProcedureFacts {
    fn dup(&self) -> (copy: Self) {
        ProcedureFacts {
            workers: self.workers.dup(),
            slots: self.slots.dup(),
            unit: self.unit.dup(),
            operated_by: self.operated_by.dup(),
        }
    }
}

/// A reference of a procedure that may not resolve.
#[derive(Debug, PartialEq, Eq)]
pub struct RefProblem {
    /// Whether it is certain.
    pub error: bool,
    pub message: String,
}

/// View of [`RefProblem`].
pub struct RefProblemView {
    pub error: bool,
    pub message: Seq<char>,
}

impl DeepView for RefProblem {
    type V = RefProblemView;

    open spec fn deep_view(&self) -> RefProblemView {
        RefProblemView {
            error: self.error.deep_view(),
            message: self.message.deep_view(),
        }
    }
}

impl Dup for RefProblem {
    fn dup(&self) -> (copy: Self) {
        RefProblem {
            error: self.error.dup(),
            message: self.message.dup(),
        }
    }
}

/// The unit of a slot.
#[derive(Debug, PartialEq, Eq)]
pub struct SlotEngineUnit {
    pub slot: String,
    pub unit: EngineUnit,
}

/// View of [`SlotEngineUnit`].
pub struct SlotEngineUnitView {
    pub slot: Seq<char>,
    pub unit: EngineUnitView,
}

impl DeepView for SlotEngineUnit {
    type V = SlotEngineUnitView;

    open spec fn deep_view(&self) -> SlotEngineUnitView {
        SlotEngineUnitView {
            slot: self.slot.deep_view(),
            unit: self.unit.deep_view(),
        }
    }
}

impl Dup for SlotEngineUnit {
    fn dup(&self) -> (copy: Self) {
        SlotEngineUnit {
            slot: self.slot.dup(),
            unit: self.unit.dup(),
        }
    }
}

/// How the engine is shut down.
#[derive(Debug, Clone, Copy, PartialEq, Eq, Structural)]
pub enum ShutdownMode {
    /// With the teardown phases and the clean-up of the plugs.
    Normal,
    /// With the plugs released without clean-up.
    Hurried,
}

impl DeepView for ShutdownMode {
    type V = ShutdownMode;

    open spec fn deep_view(&self) -> ShutdownMode {
        *self
    }
}

impl Dup for ShutdownMode {
    fn dup(&self) -> (copy: Self) {
        *self
    }
}

/// How far a run has come.
#[allow(inconsistent_fields)]
#[derive(Debug, PartialEq, Eq)]
pub enum Stage {
    Loading,
    Checking(ProcedureFacts),
    Initializing,
    /// The slot whose unit is awaited, by its index.
    Identifying {
        next: u64,
    },
    Submitting,
    Executing,
    Stopping {
        exit_code: i32,
        /// Whether the engine failed.
        failed: bool,
    },
    Over,
}

/// View of [`Stage`].
#[allow(inconsistent_fields)]
pub enum StageView {
    Loading,
    Checking(ProcedureFactsView),
    Initializing,
    Identifying {
        next: u64,
    },
    Submitting,
    Executing,
    Stopping {
        exit_code: i32,
        failed: bool,
    },
    Over,
}

impl DeepView for Stage {
    type V = StageView;

    open spec fn deep_view(&self) -> StageView {
        match self {
            Stage::Loading => StageView::Loading,
            Stage::Checking(v) => StageView::Checking(v.deep_view()),
            Stage::Initializing => StageView::Initializing,
            Stage::Identifying { next } => StageView::Identifying {
                next: next.deep_view(),
            },
            Stage::Submitting => StageView::Submitting,
            Stage::Executing => StageView::Executing,
            Stage::Stopping { exit_code, failed } => StageView::Stopping {
                exit_code: exit_code.deep_view(),
                failed: failed.deep_view(),
            },
            Stage::Over => StageView::Over,
        }
    }
}

/// What the outside reports of a run.
#[allow(inconsistent_fields)]
#[derive(Debug, PartialEq, Eq)]
pub enum RunEvent {
    Loaded(ProcedureFacts),
    LoadFailed(String),
    /// The references of the procedure were looked at.
    Checked {
        /// Whether the phase to narrow the run to does not exist.
        target_invalid: bool,
        problems: Vec<RefProblem>,
    },
    Initialized,
    InitFailed(String),
    UnitResolved(EngineUnit),
    UnitFailed(String),
    /// The run was stopped while a unit was awaited.
    UnitCancelled,
    Submitted,
    SubmitFailed(String),
    /// The engine ran to its end.
    Finished(Option<Outcome>),
    /// The engine failed.
    Failed(String),
    Stop,
    /// A stop with a deadline behind it.
    Interrupt,
    Force,
    /// The engine showed no sign of life for so long.
    Stalled {
        seconds: u64,
        log_path: Option<String>,
    },
    /// The engine is shut down.
    ShutDown,
}

/// View of [`RunEvent`].
#[allow(inconsistent_fields)]
pub enum RunEventView {
    Loaded(ProcedureFactsView),
    LoadFailed(Seq<char>),
    Checked {
        target_invalid: bool,
        problems: Seq<RefProblemView>,
    },
    Initialized,
    InitFailed(Seq<char>),
    UnitResolved(EngineUnitView),
    UnitFailed(Seq<char>),
    UnitCancelled,
    Submitted,
    SubmitFailed(Seq<char>),
    Finished(Option<Outcome>),
    Failed(Seq<char>),
    Stop,
    Interrupt,
    Force,
    Stalled {
        seconds: u64,
        log_path: Option<Seq<char>>,
    },
    ShutDown,
}

impl DeepView for RunEvent {
    type V = RunEventView;

    open spec fn deep_view(&self) -> RunEventView {
        match self {
            RunEvent::Loaded(v) => RunEventView::Loaded(v.deep_view()),
            RunEvent::LoadFailed(v) => RunEventView::LoadFailed(v.deep_view()),
            RunEvent::Checked { target_invalid, problems } => RunEventView::Checked {
                target_invalid: target_invalid.deep_view(),
                problems: problems.deep_view(),
            },
            RunEvent::Initialized => RunEventView::Initialized,
            RunEvent::InitFailed(v) => RunEventView::InitFailed(v.deep_view()),
            RunEvent::UnitResolved(v) => RunEventView::UnitResolved(v.deep_view()),
            RunEvent::UnitFailed(v) => RunEventView::UnitFailed(v.deep_view()),
            RunEvent::UnitCancelled => RunEventView::UnitCancelled,
            RunEvent::Submitted => RunEventView::Submitted,
            RunEvent::SubmitFailed(v) => RunEventView::SubmitFailed(v.deep_view()),
            RunEvent::Finished(v) => RunEventView::Finished(v.deep_view()),
            RunEvent::Failed(v) => RunEventView::Failed(v.deep_view()),
            RunEvent::Stop => RunEventView::Stop,
            RunEvent::Interrupt => RunEventView::Interrupt,
            RunEvent::Force => RunEventView::Force,
            RunEvent::Stalled { seconds, log_path } => RunEventView::Stalled {
                seconds: seconds.deep_view(),
                log_path: log_path.deep_view(),
            },
            RunEvent::ShutDown => RunEventView::ShutDown,
        }
    }
}

/// What the outside is to do next.
#[allow(inconsistent_fields)]
#[derive(Debug, PartialEq, Eq)]
pub enum RunAction {
    CheckReferences,
    Initialize {
        workers: u32,
        slots: Vec<String>,
        slot_names: Vec<KeyText>,
        unit: UnitConfig,
        operated_by: Option<Json>,
    },
    Identify {
        slot: String,
        name: Option<String>,
    },
    Submit,
    Execute,
    Wait,
    /// Let the engine stop after the running phases.
    RequestShutdown,
    /// Kill the running phases.
    InterruptJobs,
    /// Kill the workers.
    ForceKill,
    ShutDown {
        /// Whether a force kill is still to be watched for.
        watch_force: bool,
    },
    /// Shut the engine down and exit with code one.
    Abandon,
    /// Exit with code one.
    Quit,
    Done {
        exit_code: i32,
        /// Whether there is something to upload.
        upload: bool,
    },
}

/// View of [`RunAction`].
#[allow(inconsistent_fields)]
pub enum RunActionView {
    CheckReferences,
    Initialize {
        workers: u32,
        slots: Seq<Seq<char>>,
        slot_names: Seq<KeyTextView>,
        unit: UnitConfigView,
        operated_by: Option<JsonView>,
    },
    Identify {
        slot: Seq<char>,
        name: Option<Seq<char>>,
    },
    Submit,
    Execute,
    Wait,
    RequestShutdown,
    InterruptJobs,
    ForceKill,
    ShutDown {
        watch_force: bool,
    },
    Abandon,
    Quit,
    Done {
        exit_code: i32,
        upload: bool,
    },
}

impl DeepView for RunAction {
    type V = RunActionView;

    open spec fn deep_view(&self) -> RunActionView {
        match self {
            RunAction::CheckReferences => RunActionView::CheckReferences,
            RunAction::Initialize {
                workers,
                slots,
                slot_names,
                unit,
                operated_by,
            } => RunActionView::Initialize {
                workers: workers.deep_view(),
                slots: slots.deep_view(),
                slot_names: slot_names.deep_view(),
                unit: unit.deep_view(),
                operated_by: operated_by.deep_view(),
            },
            RunAction::Identify { slot, name } => RunActionView::Identify {
                slot: slot.deep_view(),
                name: name.deep_view(),
            },
            RunAction::Submit => RunActionView::Submit,
            RunAction::Execute => RunActionView::Execute,
            RunAction::Wait => RunActionView::Wait,
            RunAction::RequestShutdown => RunActionView::RequestShutdown,
            RunAction::InterruptJobs => RunActionView::InterruptJobs,
            RunAction::ForceKill => RunActionView::ForceKill,
            RunAction::ShutDown { watch_force } => RunActionView::ShutDown {
                watch_force: watch_force.deep_view(),
            },
            RunAction::Abandon => RunActionView::Abandon,
            RunAction::Quit => RunActionView::Quit,
            RunAction::Done { exit_code, upload } => RunActionView::Done {
                exit_code: exit_code.deep_view(),
                upload: upload.deep_view(),
            },
        }
    }
}

/// What a report leads to.
#[derive(Debug, PartialEq, Eq)]
pub struct RunStep {
    pub emissions: Vec<Emission>,
    pub action: RunAction,
}

/// View of [`RunStep`].
pub struct RunStepView {
    pub emissions: Seq<EmissionView>,
    pub action: RunActionView,
}

impl DeepView for RunStep {
    type V = RunStepView;

    open spec fn deep_view(&self) -> RunStepView {
        RunStepView {
            emissions: self.emissions.deep_view(),
            action: self.action.deep_view(),
        }
    }
}

/// The state of the run of a procedure file.
pub struct YamlRun {
    pub sink: CliEventSink,
    /// Whether a debugger may hold the workers.
    pub debug: bool,
    /// The unit to test again in slots that have none of their own.
    pub reuse_unit: Option<UnitInfo>,
    /// The units to test again, by slot.
    pub reuse_units: Vec<KeyUnit>,
    pub units: Vec<SlotEngineUnit>,
    pub stage: Stage,
    /// Whether the engine was asked to stop.
    pub graceful: bool,
    pub interrupted: bool,
    pub forced: bool,
    /// Why the run was terminated as stalled.
    pub stalled: Option<String>,
}

/// View of [`YamlRun`].
pub struct YamlRunView {
    pub sink: CliEventSinkView,
    pub debug: bool,
    pub reuse_unit: Option<UnitInfoView>,
    pub reuse_units: Seq<KeyUnitView>,
    pub units: Seq<SlotEngineUnitView>,
    pub stage: StageView,
    pub graceful: bool,
    pub interrupted: bool,
    pub forced: bool,
    pub stalled: Option<Seq<char>>,
}

impl DeepView for YamlRun {
    type V = YamlRunView;

    open spec fn deep_view(&self) -> YamlRunView {
        YamlRunView {
            sink: self.sink.deep_view(),
            debug: self.debug.deep_view(),
            reuse_unit: self.reuse_unit.deep_view(),
            reuse_units: self.reuse_units.deep_view(),
            units: self.units.deep_view(),
            stage: self.stage.deep_view(),
            graceful: self.graceful.deep_view(),
            interrupted: self.interrupted.deep_view(),
            forced: self.forced.deep_view(),
            stalled: self.stalled.deep_view(),
        }
    }
}

/// A file of a run, and whether the run needs its own copy of it.
#[derive(Debug, PartialEq, Eq)]
pub struct AttachmentPlan {
    pub attachment: QueuedAttachment,
    /// What is put before the name of the file to name the copy.
    pub prefix: Option<String>,
}

/// View of [`AttachmentPlan`].
pub struct AttachmentPlanView {
    pub attachment: QueuedAttachmentView,
    pub prefix: Option<Seq<char>>,
}

impl DeepView for AttachmentPlan {
    type V = AttachmentPlanView;

    open spec fn deep_view(&self) -> AttachmentPlanView {
        AttachmentPlanView {
            attachment: self.attachment.deep_view(),
            prefix: self.prefix.deep_view(),
        }
    }
}

impl Dup for AttachmentPlan {
    fn dup(&self) -> (copy: Self) {
        AttachmentPlan {
            attachment: self.attachment.dup(),
            prefix: self.prefix.dup(),
        }
    }
}

/// What a run reads of a deployment manifest.
#[derive(Debug, PartialEq, Eq)]
pub struct ManifestParts {
    pub root_directory: Option<String>,
    pub entry_point: Option<String>,
}

/// View of [`ManifestParts`].
pub struct ManifestPartsView {
    pub root_directory: Option<Seq<char>>,
    pub entry_point: Option<Seq<char>>,
}

impl DeepView for ManifestParts {
    type V = ManifestPartsView;

    open spec fn deep_view(&self) -> ManifestPartsView {
        ManifestPartsView {
            root_directory: self.root_directory.deep_view(),
            entry_point: self.entry_point.deep_view(),
        }
    }
}

impl Dup for ManifestParts {
    fn dup(&self) -> (copy: Self) {
        ManifestParts {
            root_directory: self.root_directory.dup(),
            entry_point: self.entry_point.dup(),
        }
    }
}

/// Where a procedure lies.
#[derive(Debug, PartialEq, Eq)]
pub struct DeploymentLayout {
    pub package_dir: PathParts,
    pub entry_point: Option<String>,
    /// Whether it was deployed, and not started from a local path.
    pub manifest_present: bool,
}

/// View of [`DeploymentLayout`].
pub struct DeploymentLayoutView {
    pub package_dir: PathPartsView,
    pub entry_point: Option<Seq<char>>,
    pub manifest_present: bool,
}

impl DeepView for DeploymentLayout {
    type V = DeploymentLayoutView;

    open spec fn deep_view(&self) -> DeploymentLayoutView {
        DeploymentLayoutView {
            package_dir: self.package_dir.deep_view(),
            entry_point: self.entry_point.deep_view(),
            manifest_present: self.manifest_present.deep_view(),
        }
    }
}

impl Dup for DeploymentLayout {
    fn dup(&self) -> (copy: Self) {
        DeploymentLayout {
            package_dir: self.package_dir.dup(),
            entry_point: self.entry_point.dup(),
            manifest_present: self.manifest_present.dup(),
        }
    }
}

impl Keyed for SlotEngineUnit {
    open spec fn sort_key(value: SlotEngineUnitView) -> Seq<char> {
        value.slot
    }

    fn key_text(&self) -> (key: &str) {
        self.slot.as_str()
    }
}

// ---------------------------------------------------------------------------
// Where a procedure lies
// ---------------------------------------------------------------------------

/// The name of the procedure file of a directory, by which of the two names
/// are there.
pub fn find_procedure_yaml(has_yaml: bool, has_yml: bool) -> (name: Option<&'static str>)
    ensures
        name is Some <==> has_yaml || has_yml,
        has_yaml ==> name->0@ == PROCEDURE_YAML@,
        !has_yaml && has_yml ==> name->0@ == PROCEDURE_YML@,
{
    if has_yaml {
        Some(PROCEDURE_YAML)
    } else if has_yml {
        Some(PROCEDURE_YML)
    } else {
        None
    }
}

/// Where a procedure lies: in the deployment directory, or where the manifest
/// says below it.
pub open spec fn layout_of(
    deployment_dir: Seq<char>,
    manifest: Option<ManifestPartsView>,
) -> DeploymentLayoutView {
    match manifest {
        None => DeploymentLayoutView {
            package_dir: path_of(deployment_dir),
            entry_point: None,
            manifest_present: false,
        },
        Some(m) => DeploymentLayoutView {
            package_dir: match m.root_directory {
                Some(rel) => under(path_of(deployment_dir), rel),
                None => path_of(deployment_dir),
            },
            entry_point: m.entry_point,
            manifest_present: true,
        },
    }
}

/// Where a procedure lies, by its manifest: none for a local path, and an
/// error where the manifest is not one.
pub fn deployment_layout(
    deployment_dir: &str,
    manifest: Option<Result<ManifestParts, String>>,
) -> (layout: Result<DeploymentLayout, String>)
    ensures
        match manifest {
            Some(Err(error)) => layout is Err && layout->Err_0@ == error@,
            Some(Ok(m)) => layout is Ok && layout->Ok_0.deep_view() == layout_of(
                deployment_dir@,
                Some(m.deep_view()),
            ),
            None => layout is Ok && layout->Ok_0.deep_view() == layout_of(deployment_dir@, None),
        },
{
    let base = PathParts::new(deployment_dir);
    match manifest {
        None => Ok(
            DeploymentLayout { package_dir: base, entry_point: None, manifest_present: false },
        ),
        Some(Err(error)) => Err(error),
        Some(Ok(m)) => {
            let package_dir = match &m.root_directory {
                Some(rel) => base.join(rel.as_str()),
                None => base,
            };
            Ok(DeploymentLayout { package_dir, entry_point: m.entry_point, manifest_present: true })
        },
    }
}

// ---------------------------------------------------------------------------
// What a procedure declares
// ---------------------------------------------------------------------------

/// The slots of a run: those that the procedure declares, or a single one.
pub open spec fn run_slots(slots: Seq<SlotDeclView>) -> Seq<Seq<char>> {
    if slots.len() == 0 {
        seq![DEFAULT_SLOT@]
    } else {
        slots.map_values(|s: SlotDeclView| s.key)
    }
}

fn slots_of(slots: &Vec<SlotDecl>) -> (out: Vec<String>)
    ensures
        out.deep_view() == run_slots(slots.deep_view()),
{
    let mut out: Vec<String> = Vec::new();
    if slots.len() == 0 {
        out.push(DEFAULT_SLOT.to_string());
        assert(out.deep_view() =~= seq![DEFAULT_SLOT@]);
        return out;
    }
    let mut i: usize = 0;
    while i < slots.len()
        invariant
            i <= slots@.len(),
            out@.len() == i,
            forall|k: int| 0 <= k < i ==> (#[trigger] out@[k])@ == slots@[k].key@,
        decreases slots@.len() - i,
    {
        out.push(slots[i].key.dup());
        i += 1;
    }
    assert(out.deep_view() =~= run_slots(slots.deep_view()));
    out
}

/// The display names of the declared slots, one for each key: the last that
/// is declared.
pub open spec fn run_slot_names(slots: Seq<SlotDeclView>) -> Seq<KeyTextView>
    decreases slots.len(),
{
    if slots.len() == 0 {
        Seq::empty()
    } else {
        with_value::<KeyText>(
            run_slot_names(slots.drop_last()),
            KeyTextView { key: slots.last().key, text: slots.last().name },
        )
    }
}

fn slot_names_of(slots: &Vec<SlotDecl>) -> (out: Vec<KeyText>)
    ensures
        out.deep_view() == run_slot_names(slots.deep_view()),
{
    let ghost all = slots.deep_view();
    let mut out: Vec<KeyText> = Vec::new();
    let mut i: usize = 0;
    assert(out.deep_view() =~= run_slot_names(all.take(0)));
    while i < slots.len()
        invariant
            i <= slots@.len(),
            all == slots.deep_view(),
            out.deep_view() == run_slot_names(all.take(i as int)),
        decreases slots@.len() - i,
    {
        assert(all.take(i + 1).drop_last() =~= all.take(i as int));
        assert(all.take(i + 1).last() == slots@[i as int].deep_view());
        assoc::put(
            &mut out,
            KeyText { key: slots[i].key.dup(), text: slots[i].name.dup() },
        );
        i += 1;
    }
    assert(all.take(i as int) =~= all);
    out
}

/// The number of workers: one where a debugger attaches, since it has one
/// port.
pub open spec fn worker_count(debug: bool, declared: Option<u32>) -> u32 {
    if debug {
        1
    } else {
        match declared {
            Some(n) => n,
            None => DEFAULT_WORKERS,
        }
    }
}

/// What is asked of the operator: what the procedure declares, and serial and
/// part number in any case, since an upload without them is refused.
pub open spec fn asked_unit(declared: Option<UnitConfigView>) -> UnitConfigView {
    let cfg = match declared {
        Some(cfg) => cfg,
        None => undeclared_unit(),
    };
    UnitConfigView {
        serial_number: if cfg.serial_number is Some {
            cfg.serial_number
        } else {
            Some(field_of(None))
        },
        part_number: if cfg.part_number is Some {
            cfg.part_number
        } else {
            Some(field_of(None))
        },
        ..cfg
    }
}

fn ask_unit(declared: &Option<UnitConfig>) -> (cfg: UnitConfig)
    ensures
        cfg.deep_view() == asked_unit(declared.deep_view()),
{
    let mut cfg = match declared {
        Some(cfg) => cfg.dup(),
        None => UnitConfig::undeclared(),
    };
    if cfg.serial_number.is_none() {
        cfg.serial_number = Some(UnitFieldConfig::new(None));
    }
    if cfg.part_number.is_none() {
        cfg.part_number = Some(UnitFieldConfig::new(None));
    }
    cfg
}

/// The messages of the problems that are certain.
pub open spec fn certain_problems(problems: Seq<RefProblemView>) -> Seq<Seq<char>>
    decreases problems.len(),
{
    if problems.len() == 0 {
        Seq::empty()
    } else {
        let rest = certain_problems(problems.drop_last());
        if problems.last().error {
            rest.push(problems.last().message)
        } else {
            rest
        }
    }
}

fn keep_certain(problems: &Vec<RefProblem>) -> (out: Vec<String>)
    ensures
        out.deep_view() == certain_problems(problems.deep_view()),
{
    let mut out: Vec<String> = Vec::new();
    let mut i: usize = 0;
    assert(out.deep_view() =~= certain_problems(problems.deep_view().take(0)));
    while i < problems.len()
        invariant
            i <= problems@.len(),
            out.deep_view() == certain_problems(problems.deep_view().take(i as int)),
        decreases problems@.len() - i,
    {
        let ghost seen = problems.deep_view().take(i + 1);
        assert(seen.drop_last() =~= problems.deep_view().take(i as int));
        assert(seen.last() == problems@[i as int].deep_view());
        if problems[i].error {
            push(&mut out, problems[i].message.dup());
        }
        i += 1;
    }
    assert(problems.deep_view().take(problems@.len() as int) =~= problems.deep_view());
    out
}

/// The problems that keep a procedure from starting: those that are certain.
/// Where the phase to narrow the run to does not exist, that is reported
/// later, in place of an unrelated one.
pub open spec fn blocking(target_invalid: bool, problems: Seq<RefProblemView>) -> Seq<Seq<char>> {
    if target_invalid {
        Seq::empty()
    } else {
        certain_problems(problems)
    }
}

// ---------------------------------------------------------------------------
// Steps
// ---------------------------------------------------------------------------

/// A state and what a report leads to.
pub struct RunProgress {
    pub run: YamlRunView,
    pub step: RunStepView,
}

/// Nothing to send, one thing to do.
pub open spec fn only(action: RunActionView) -> RunStepView {
    RunStepView { emissions: Seq::empty(), action }
}

/// What goes out when the run crashes.
pub open spec fn crash(r: YamlRunView, kind: Seq<char>, message: Seq<char>) -> Seq<EmissionView> {
    run_crashed_emissions(
        r.sink.router.agent,
        r.sink.procedure_id,
        r.sink.router.execution_id,
        kind,
        message,
        1,
    )
}

/// The run crashes, and ends with an action.
pub open spec fn crashed(
    r: YamlRunView,
    kind: Seq<char>,
    message: Seq<char>,
    action: RunActionView,
) -> RunProgress {
    RunProgress {
        run: YamlRunView { stage: StageView::Over, ..r },
        step: RunStepView { emissions: crash(r, kind, message), action },
    }
}

/// The mark that a narrowed run carries to its upload.
pub open spec fn partial_mark(phase: Seq<char>) -> MetadataSourceView {
    MetadataSourceView {
        slot: None,
        source: "studio_partial_run"@,
        entries: seq![
            JsonFieldView { key: "studio_partial_run"@, value: JsonView::Text(phase) },
        ],
    }
}

/// The data of a run that is about to be initialised.
pub open spec fn marked(sink: CliEventSinkView) -> RunDataView {
    match sink.only_phase {
        Some(phase) => RunDataView {
            run_metadata_sources: sink.data.run_metadata_sources.push(partial_mark(phase)),
            ..sink.data
        },
        None => sink.data,
    }
}

/// The references were looked at: the run does not start where one certainly
/// fails.
pub open spec fn checked(
    r: YamlRunView,
    facts: ProcedureFactsView,
    target_invalid: bool,
    problems: Seq<RefProblemView>,
) -> RunProgress {
    let found = blocking(target_invalid, problems);
    if found.len() > 0 {
        crashed(
            r,
            "load_error"@,
            "Procedure cannot start:\n"@ + joined(found, "\n"@),
            RunActionView::Quit,
        )
    } else {
        let slots = run_slots(facts.slots);
        let names = run_slot_names(facts.slots);
        RunProgress {
            run: YamlRunView {
                sink: CliEventSinkView { slots, slot_names: names, data: marked(r.sink), ..r.sink },
                stage: StageView::Initializing,
                ..r
            },
            step: only(
                RunActionView::Initialize {
                    workers: worker_count(r.debug, facts.workers),
                    slots,
                    slot_names: names,
                    unit: asked_unit(facts.unit),
                    operated_by: facts.operated_by,
                },
            ),
        }
    }
}

/// The unit that is tested again in a slot: its own, or that of the run.
pub open spec fn reused_unit(r: YamlRunView, slot: Seq<char>) -> Option<UnitInfoView> {
    match lookup::<KeyUnit>(r.reuse_units, slot) {
        Some(k) => Some(k.unit),
        None => r.reuse_unit,
    }
}

/// The report of a unit to the run.
pub open spec fn unit_event(slot: Seq<char>, unit: EngineUnitView) -> ExecutionEventView {
    ExecutionEventView::UnitIdentified { slot_id: Some(slot), unit_info: unit }
}

/// The run with the unit of a slot written into its data.
pub open spec fn with_data(r: YamlRunView, slot: Seq<char>, unit: EngineUnitView) -> CliEventSinkView {
    CliEventSinkView { data: with_unit_info(r.sink.data, slot, unit), ..r.sink }
}

/// The run with the unit of a slot.
pub open spec fn with_slot_unit(
    r: YamlRunView,
    slot: Seq<char>,
    unit: EngineUnitView,
) -> YamlRunView {
    YamlRunView {
        sink: advanced(with_data(r, slot, unit), unit_event(slot, unit)),
        units: with_value::<SlotEngineUnit>(r.units, SlotEngineUnitView { slot, unit }),
        ..r
    }
}

/// What goes out when the unit of a slot is known.
pub open spec fn slot_unit_emissions(
    r: YamlRunView,
    slot: Seq<char>,
    unit: EngineUnitView,
    now: Instant,
) -> Seq<EmissionView> {
    emitted(with_data(r, slot, unit), unit_event(slot, unit), now)
}

/// The display name of a slot.
pub open spec fn slot_name(names: Seq<KeyTextView>, slot: Seq<char>) -> Option<Seq<char>> {
    match lookup::<KeyText>(names, slot) {
        Some(entry) => Some(entry.text),
        None => None,
    }
}

/// The units are known slot by slot, from an index on: a unit that is tested
/// again is taken without asking, up to the first slot that has none.
pub open spec fn identify_from(
    r: YamlRunView,
    slots: Seq<Seq<char>>,
    i: nat,
    now: Instant,
) -> RunProgress
    decreases slots.len() - i,
{
    if i >= slots.len() {
        RunProgress {
            run: YamlRunView { stage: StageView::Submitting, ..r },
            step: only(RunActionView::Submit),
        }
    } else {
        let slot = slots[i as int];
        match reused_unit(r, slot) {
            Some(wire) => {
                let unit = engine_unit(wire);
                let rest = identify_from(with_slot_unit(r, slot, unit), slots, i + 1, now);
                RunProgress {
                    run: rest.run,
                    step: RunStepView {
                        emissions: slot_unit_emissions(r, slot, unit, now) + rest.step.emissions,
                        action: rest.step.action,
                    },
                }
            },
            None => RunProgress {
                run: YamlRunView { stage: StageView::Identifying { next: i as u64 }, ..r },
                step: only(
                    RunActionView::Identify { slot, name: slot_name(r.sink.slot_names, slot) },
                ),
            },
        }
    }
}

/// The unit of a slot is known: on to the next slot.
pub open spec fn slot_identified(
    r: YamlRunView,
    next: u64,
    unit: EngineUnitView,
    now: Instant,
) -> RunProgress {
    if next >= r.sink.slots.len() {
        RunProgress { run: r, step: only(RunActionView::Wait) }
    } else {
        let slot = r.sink.slots[next as int];
        let rest = identify_from(
            with_slot_unit(r, slot, unit),
            r.sink.slots,
            (next + 1) as nat,
            now,
        );
        RunProgress {
            run: rest.run,
            step: RunStepView {
                emissions: slot_unit_emissions(r, slot, unit, now) + rest.step.emissions,
                action: rest.step.action,
            },
        }
    }
}

/// Why a run is terminated that never started to execute.
pub open spec fn stall_message(seconds: u64, log_path: Option<Seq<char>>) -> Seq<char> {
    let text = "The engine did not start executing within "@ + decimal(seconds as nat)
        + "s of submitting the procedure: no phase was dispatched and no event was emitted. The run was terminated. This usually means the machine's endpoint-protection (EDR/antivirus) software is holding the Python worker processes — check its logs and allowlist the deployment's venv Python."@;
    match log_path {
        Some(path) => text + " Full event log: "@ + path,
        None => text,
    }
}

fn make_stall_message(seconds: u64, log_path: &Option<String>) -> (out: String)
    ensures
        out@ == stall_message(seconds, log_path.deep_view()),
{
    let n = text::decimal_text(seconds);
    let mut out = text::concat3(
        "The engine did not start executing within ",
        n.as_str(),
        "s of submitting the procedure: no phase was dispatched and no event was emitted. The run was terminated. This usually means the machine's endpoint-protection (EDR/antivirus) software is holding the Python worker processes — check its logs and allowlist the deployment's venv Python.",
    );
    match log_path {
        Some(path) => {
            out.append(" Full event log: ");
            out.append(path.as_str());
        },
        None => {},
    }
    out
}

/// Whether the workers are being killed, so that only the end is awaited.
pub open spec fn killing(r: YamlRunView) -> bool {
    r.forced || r.stalled is Some
}

/// The engine failed.
pub open spec fn execution_failed(r: YamlRunView, error: Seq<char>) -> RunProgress {
    RunProgress {
        run: YamlRunView { stage: StageView::Stopping { exit_code: 1, failed: true }, ..r },
        step: RunStepView {
            emissions: crash(r, "execution_error"@, "Execution failed: "@ + error),
            action: RunActionView::ShutDown { watch_force: !r.forced },
        },
    }
}

/// A report while the engine executes. A stop lets the running phases end, an
/// interrupt kills them, a force kill the workers; each is done once, and
/// after the workers are killed only the end counts.
pub open spec fn executing(r: YamlRunView, event: RunEventView) -> RunProgress {
    let wait = RunProgress { run: r, step: only(RunActionView::Wait) };
    match event {
        RunEventView::Finished(outcome) => match r.stalled {
            Some(reason) => execution_failed(r, reason),
            None => RunProgress {
                run: YamlRunView {
                    stage: StageView::Stopping {
                        exit_code: if outcome == Some(Outcome::Pass) {
                            0
                        } else {
                            1
                        },
                        failed: false,
                    },
                    ..r
                },
                step: only(RunActionView::ShutDown { watch_force: !r.forced }),
            },
        },
        RunEventView::Failed(error) => match r.stalled {
            Some(reason) => execution_failed(r, reason),
            None => execution_failed(r, error),
        },
        RunEventView::Stop => if killing(r) || r.graceful {
            wait
        } else {
            RunProgress {
                run: YamlRunView { graceful: true, ..r },
                step: only(RunActionView::RequestShutdown),
            }
        },
        RunEventView::Interrupt => if killing(r) || r.interrupted {
            wait
        } else {
            RunProgress {
                run: YamlRunView { graceful: true, interrupted: true, ..r },
                step: only(RunActionView::InterruptJobs),
            }
        },
        RunEventView::Force => if killing(r) {
            wait
        } else {
            RunProgress {
                run: YamlRunView { forced: true, ..r },
                step: only(RunActionView::ForceKill),
            }
        },
        RunEventView::Stalled { seconds, log_path } => if killing(r) || r.debug
            || r.sink.progressed {
            wait
        } else {
            RunProgress {
                run: YamlRunView { stalled: Some(stall_message(seconds, log_path)), ..r },
                step: only(RunActionView::ForceKill),
            }
        },
        _ => wait,
    }
}

/// A report while the procedure is loaded.
pub open spec fn loading(r: YamlRunView, event: RunEventView) -> RunProgress {
    match event {
        RunEventView::Loaded(facts) => RunProgress {
            run: YamlRunView { stage: StageView::Checking(facts), ..r },
            step: only(RunActionView::CheckReferences),
        },
        RunEventView::LoadFailed(error) => crashed(
            r,
            "load_error"@,
            "Failed to load procedure: "@ + error,
            RunActionView::Quit,
        ),
        _ => idle(r),
    }
}

/// Nothing changes.
pub open spec fn idle(r: YamlRunView) -> RunProgress {
    RunProgress { run: r, step: only(RunActionView::Wait) }
}

/// A report while the references are looked at.
pub open spec fn checking(
    r: YamlRunView,
    facts: ProcedureFactsView,
    event: RunEventView,
) -> RunProgress {
    match event {
        RunEventView::Checked { target_invalid, problems } => checked(
            r,
            facts,
            target_invalid,
            problems,
        ),
        _ => idle(r),
    }
}

/// A report while the engine is initialised.
pub open spec fn initializing(r: YamlRunView, event: RunEventView, now: Instant) -> RunProgress {
    match event {
        RunEventView::Initialized => identify_from(r, r.sink.slots, 0, now),
        RunEventView::InitFailed(error) => crashed(
            r,
            "init_error"@,
            "Failed to initialize execution engine: "@ + error,
            RunActionView::Abandon,
        ),
        _ => idle(r),
    }
}

/// A report while the unit of a slot is awaited.
pub open spec fn identifying(
    r: YamlRunView,
    next: u64,
    event: RunEventView,
    now: Instant,
) -> RunProgress {
    match event {
        RunEventView::UnitResolved(unit) => slot_identified(r, next, unit, now),
        RunEventView::UnitFailed(error) => crashed(
            r,
            "identify_unit_failed"@,
            error,
            RunActionView::Abandon,
        ),
        RunEventView::UnitCancelled => RunProgress {
            run: YamlRunView { stage: StageView::Over, ..r },
            step: RunStepView {
                emissions: seq![
                    EmissionView::Station(
                        run_complete_event(
                            ABORTED@,
                            r.sink.router.execution_id,
                            None,
                            Seq::empty(),
                        ),
                    ),
                ],
                action: RunActionView::Abandon,
            },
        },
        _ => idle(r),
    }
}

/// A report while the procedure is submitted.
pub open spec fn submitting(r: YamlRunView, event: RunEventView) -> RunProgress {
    match event {
        RunEventView::Submitted => RunProgress {
            run: YamlRunView { stage: StageView::Executing, ..r },
            step: only(RunActionView::Execute),
        },
        RunEventView::SubmitFailed(error) => crashed(
            r,
            "submit_error"@,
            "Failed to submit procedure: "@ + error,
            RunActionView::Abandon,
        ),
        _ => idle(r),
    }
}

/// A report while the engine is shut down.
pub open spec fn stopping(
    r: YamlRunView,
    exit_code: i32,
    failed: bool,
    event: RunEventView,
) -> RunProgress {
    match event {
        RunEventView::ShutDown => RunProgress {
            run: YamlRunView { stage: StageView::Over, ..r },
            step: only(RunActionView::Done { exit_code, upload: !failed }),
        },
        _ => idle(r),
    }
}

/// The state and what a report leads to. A report that does not belong to the
/// stage of the run changes nothing.
pub open spec fn stepped(r: YamlRunView, event: RunEventView, now: Instant) -> RunProgress {
    match r.stage {
        StageView::Loading => loading(r, event),
        StageView::Checking(facts) => checking(r, facts, event),
        StageView::Initializing => initializing(r, event, now),
        StageView::Identifying { next } => identifying(r, next, event, now),
        StageView::Submitting => submitting(r, event),
        StageView::Executing => executing(r, event),
        StageView::Stopping { exit_code, failed } => stopping(r, exit_code, failed, event),
        StageView::Over => idle(r),
    }
}

fn quiet(action: RunAction) -> (step: RunStep)
    ensures
        step.deep_view() == only(action.deep_view()),
{
    let emissions: Vec<Emission> = Vec::new();
    assert(emissions.deep_view() =~= Seq::empty());
    RunStep { emissions, action }
}

impl YamlRun {
    /// A run whose procedure is about to be loaded.
    pub fn new(
        terminal: bool,
        agent: bool,
        procedure_name: String,
        procedure_id: String,
        execution_id: String,
        deployment_id: Option<String>,
        only_phase: Option<String>,
        debug: bool,
        reuse_unit: Option<UnitInfo>,
        reuse_units: Vec<KeyUnit>,
    ) -> (run: Self)
        ensures
            run.deep_view() == (YamlRunView {
                sink: CliEventSinkView {
                    router: EventRouterView {
                        execution_id: execution_id@,
                        agent,
                        history: Seq::empty(),
                    },
                    terminal,
                    procedure_name: procedure_name@,
                    procedure_id: procedure_id@,
                    deployment_id: deployment_id.deep_view(),
                    only_phase: only_phase.deep_view(),
                    slots: Seq::empty(),
                    slot_names: Seq::empty(),
                    data: no_data(),
                    resolved_unit: None,
                    resolved_units: Seq::empty(),
                    agent_slot_outcomes: Seq::empty(),
                    progressed: false,
                },
                debug,
                reuse_unit: reuse_unit.deep_view(),
                reuse_units: reuse_units.deep_view(),
                units: Seq::empty(),
                stage: StageView::Loading,
                graceful: false,
                interrupted: false,
                forced: false,
                stalled: None,
            }),
    {
        let slots: Vec<String> = Vec::new();
        let slot_names: Vec<KeyText> = Vec::new();
        let units: Vec<SlotEngineUnit> = Vec::new();
        assert(slots.deep_view() =~= Seq::empty());
        assert(slot_names.deep_view() =~= Seq::empty());
        assert(units.deep_view() =~= Seq::empty());
        YamlRun {
            sink: CliEventSink::new(
                terminal,
                agent,
                procedure_name,
                procedure_id,
                execution_id,
                deployment_id,
                only_phase,
                slots,
                slot_names,
            ),
            debug,
            reuse_unit,
            reuse_units,
            units,
            stage: Stage::Loading,
            graceful: false,
            interrupted: false,
            forced: false,
            stalled: None,
        }
    }

    fn crash_with(&self, kind: &str, message: &str) -> (out: Vec<Emission>)
        ensures
            out.deep_view() == crash(self.deep_view(), kind@, message@),
    {
        run_crashed(
            self.sink.router.agent,
            self.sink.procedure_id.as_str(),
            self.sink.router.execution_id.as_str(),
            kind,
            message,
            1,
        )
    }

    fn fail(&mut self, kind: &str, message: &str, action: RunAction) -> (step: RunStep)
        ensures
            (RunProgress { run: final(self).deep_view(), step: step.deep_view() }) == crashed(
                old(self).deep_view(),
                kind@,
                message@,
                action.deep_view(),
            ),
    {
        let emissions = self.crash_with(kind, message);
        self.stage = Stage::Over;
        RunStep { emissions, action }
    }

    fn check(&mut self, facts: ProcedureFacts, target_invalid: bool, problems: Vec<RefProblem>) -> (
    step: RunStep)
        ensures
            (RunProgress { run: final(self).deep_view(), step: step.deep_view() }) == checked(
                old(self).deep_view(),
                facts.deep_view(),
                target_invalid,
                problems.deep_view(),
            ),
    {
        if !target_invalid {
            let found = keep_certain(&problems);
            if found.len() > 0 {
                let list = text::join(&found, "\n");
                let message = text::concat2("Procedure cannot start:\n", list.as_str());
                return self.fail("load_error", message.as_str(), RunAction::Quit);
            }
        }
        let slots = slots_of(&facts.slots);
        let names = slot_names_of(&facts.slots);
        self.sink.slots = slots.dup();
        self.sink.slot_names = names.dup();
        match &self.sink.only_phase {
            Some(phase) => {
                let mut entries: Vec<JsonField> = Vec::new();
                push(
                    &mut entries,
                    JsonField {
                        key: "studio_partial_run".to_string(),
                        value: Json::Text(phase.dup()),
                    },
                );
                assert(entries.deep_view() =~= partial_mark(phase@).entries);
                push(
                    &mut self.sink.data.run_metadata_sources,
                    MetadataSource {
                        slot: None,
                        source: "studio_partial_run".to_string(),
                        entries,
                    },
                );
            },
            None => {},
        }
        self.stage = Stage::Initializing;
        let workers: u32 = if self.debug {
            1
        } else {
            match facts.workers {
                Some(n) => n,
                None => DEFAULT_WORKERS,
            }
        };
        quiet(
            RunAction::Initialize {
                workers,
                slots,
                slot_names: names,
                unit: ask_unit(&facts.unit),
                operated_by: facts.operated_by.dup(),
            },
        )
    }

    fn take_unit(&mut self, slot: &str, unit: EngineUnit, now: Instant) -> (out: Vec<Emission>)
        ensures
            out.deep_view() == slot_unit_emissions(
                old(self).deep_view(),
                slot@,
                unit.deep_view(),
                now,
            ),
            final(self).deep_view() == with_slot_unit(
                old(self).deep_view(),
                slot@,
                unit.deep_view(),
            ),
    {
        apply_unit_info_to_run_data(&mut self.sink.data, slot, &unit);
        let out = self.sink.emit(
            ExecutionEvent::UnitIdentified {
                slot_id: Some(slot.to_string()),
                unit_info: unit.dup(),
            },
            now,
        );
        assoc::put(&mut self.units, SlotEngineUnit { slot: slot.to_string(), unit });
        out
    }

    fn reuse_for(&self, slot: &str) -> (unit: Option<UnitInfo>)
        ensures
            unit.deep_view() == reused_unit(self.deep_view(), slot@),
    {
        match assoc::get(&self.reuse_units, slot) {
            Some(k) => Some(k.unit.dup()),
            None => self.reuse_unit.dup(),
        }
    }

    fn identify_rest(&mut self, slots: &Vec<String>, i: usize, now: Instant) -> (step: RunStep)
        ensures
            (RunProgress { run: final(self).deep_view(), step: step.deep_view() })
                == identify_from(old(self).deep_view(), slots.deep_view(), i as nat, now),
        decreases slots@.len() - i,
    {
        if i >= slots.len() {
            self.stage = Stage::Submitting;
            return quiet(RunAction::Submit);
        }
        assert(slots.deep_view()[i as int] == slots@[i as int]@);
        match self.reuse_for(slots[i].as_str()) {
            Some(wire) => {
                let mut out = self.take_unit(slots[i].as_str(), wire_unit_to_engine(wire), now);
                let ghost first = out.deep_view();
                let mut rest = self.identify_rest(slots, i + 1, now);
                let ghost second = rest.emissions.deep_view();
                out.append(&mut rest.emissions);
                assert(out.deep_view() =~= first + second);
                RunStep { emissions: out, action: rest.action }
            },
            None => {
                let name = match assoc::get(&self.sink.slot_names, slots[i].as_str()) {
                    Some(entry) => Some(entry.text.dup()),
                    None => None,
                };
                self.stage = Stage::Identifying { next: i as u64 };
                quiet(RunAction::Identify { slot: slots[i].dup(), name })
            },
        }
    }

    fn identified(&mut self, next: u64, unit: EngineUnit, now: Instant) -> (step: RunStep)
        ensures
            (RunProgress { run: final(self).deep_view(), step: step.deep_view() })
                == slot_identified(old(self).deep_view(), next, unit.deep_view(), now),
    {
        let slots = self.sink.slots.dup();
        if next >= slots.len() as u64 {
            return quiet(RunAction::Wait);
        }
        let i: usize = next as usize;
        assert(slots.deep_view()[i as int] == slots@[i as int]@);
        let mut out = self.take_unit(slots[i].as_str(), unit, now);
        let ghost first = out.deep_view();
        let mut rest = self.identify_rest(&slots, i + 1, now);
        let ghost second = rest.emissions.deep_view();
        out.append(&mut rest.emissions);
        assert(out.deep_view() =~= first + second);
        RunStep { emissions: out, action: rest.action }
    }

    fn fail_execution(&mut self, error: &str) -> (step: RunStep)
        ensures
            (RunProgress { run: final(self).deep_view(), step: step.deep_view() })
                == execution_failed(old(self).deep_view(), error@),
    {
        let message = text::concat2("Execution failed: ", error);
        let emissions = self.crash_with("execution_error", message.as_str());
        self.stage = Stage::Stopping { exit_code: 1, failed: true };
        RunStep { emissions, action: RunAction::ShutDown { watch_force: !self.forced } }
    }

    fn execute(&mut self, event: RunEvent) -> (step: RunStep)
        ensures
            (RunProgress { run: final(self).deep_view(), step: step.deep_view() }) == executing(
                old(self).deep_view(),
                event.deep_view(),
            ),
    {
        let killing = self.forced || self.stalled.is_some();
        match event {
            RunEvent::Finished(outcome) => {
                match self.stalled.dup() {
                    Some(reason) => {
                        return self.fail_execution(reason.as_str());
                    },
                    None => {},
                }
                let exit_code: i32 = match outcome {
                    Some(Outcome::Pass) => 0,
                    _ => 1,
                };
                self.stage = Stage::Stopping { exit_code, failed: false };
                quiet(RunAction::ShutDown { watch_force: !self.forced })
            },
            RunEvent::Failed(error) => {
                match self.stalled.dup() {
                    Some(reason) => self.fail_execution(reason.as_str()),
                    None => self.fail_execution(error.as_str()),
                }
            },
            RunEvent::Stop => {
                if killing || self.graceful {
                    return quiet(RunAction::Wait);
                }
                self.graceful = true;
                quiet(RunAction::RequestShutdown)
            },
            RunEvent::Interrupt => {
                if killing || self.interrupted {
                    return quiet(RunAction::Wait);
                }
                self.graceful = true;
                self.interrupted = true;
                quiet(RunAction::InterruptJobs)
            },
            RunEvent::Force => {
                if killing {
                    return quiet(RunAction::Wait);
                }
                self.forced = true;
                quiet(RunAction::ForceKill)
            },
            RunEvent::Stalled { seconds, log_path } => {
                if killing || self.debug || self.sink.progressed {
                    return quiet(RunAction::Wait);
                }
                self.stalled = Some(make_stall_message(seconds, &log_path));
                quiet(RunAction::ForceKill)
            },
            _ => quiet(RunAction::Wait),
        }
    }

    fn step_loading(&mut self, event: RunEvent) -> (step: RunStep)
        ensures
            (RunProgress { run: final(self).deep_view(), step: step.deep_view() }) == loading(
                old(self).deep_view(),
                event.deep_view(),
            ),
    {
        match event {
            RunEvent::Loaded(facts) => {
                self.stage = Stage::Checking(facts);
                quiet(RunAction::CheckReferences)
            },
            RunEvent::LoadFailed(error) => {
                let message = text::concat2("Failed to load procedure: ", error.as_str());
                self.fail("load_error", message.as_str(), RunAction::Quit)
            },
            _ => quiet(RunAction::Wait),
        }
    }

    fn step_checking(&mut self, event: RunEvent) -> (step: RunStep)
        requires
            old(self).stage is Checking,
        ensures
            (RunProgress { run: final(self).deep_view(), step: step.deep_view() }) == checking(
                old(self).deep_view(),
                old(self).stage->Checking_0.deep_view(),
                event.deep_view(),
            ),
    {
        match event {
            RunEvent::Checked { target_invalid, problems } => {
                let mut stage = Stage::Over;
                std::mem::swap(&mut stage, &mut self.stage);
                match stage {
                    Stage::Checking(facts) => self.check(facts, target_invalid, problems),
                    other => {
                        self.stage = other;
                        quiet(RunAction::Wait)
                    },
                }
            },
            _ => quiet(RunAction::Wait),
        }
    }

    fn step_initializing(&mut self, event: RunEvent, now: Instant) -> (step: RunStep)
        ensures
            (RunProgress { run: final(self).deep_view(), step: step.deep_view() }) == initializing(
                old(self).deep_view(),
                event.deep_view(),
                now,
            ),
    {
        match event {
            RunEvent::Initialized => {
                let slots = self.sink.slots.dup();
                self.identify_rest(&slots, 0, now)
            },
            RunEvent::InitFailed(error) => {
                let message = text::concat2(
                    "Failed to initialize execution engine: ",
                    error.as_str(),
                );
                self.fail("init_error", message.as_str(), RunAction::Abandon)
            },
            _ => quiet(RunAction::Wait),
        }
    }

    fn step_identifying(&mut self, next: u64, event: RunEvent, now: Instant) -> (step: RunStep)
        ensures
            (RunProgress { run: final(self).deep_view(), step: step.deep_view() }) == identifying(
                old(self).deep_view(),
                next,
                event.deep_view(),
                now,
            ),
    {
        match event {
            RunEvent::UnitResolved(unit) => self.identified(next, unit, now),
            RunEvent::UnitFailed(error) => self.fail(
                "identify_unit_failed",
                error.as_str(),
                RunAction::Abandon,
            ),
            RunEvent::UnitCancelled => {
                let none: Vec<KeyText> = Vec::new();
                assert(none.deep_view() =~= Seq::empty());
                let done = run_complete(
                    ABORTED,
                    self.sink.router.execution_id.as_str(),
                    None,
                    none,
                );
                let mut emissions: Vec<Emission> = Vec::new();
                push(&mut emissions, Emission::Station(done));
                assert(emissions.deep_view() =~= seq![EmissionView::Station(done.deep_view())]);
                self.stage = Stage::Over;
                RunStep { emissions, action: RunAction::Abandon }
            },
            _ => quiet(RunAction::Wait),
        }
    }

    fn step_submitting(&mut self, event: RunEvent) -> (step: RunStep)
        ensures
            (RunProgress { run: final(self).deep_view(), step: step.deep_view() }) == submitting(
                old(self).deep_view(),
                event.deep_view(),
            ),
    {
        match event {
            RunEvent::Submitted => {
                self.stage = Stage::Executing;
                quiet(RunAction::Execute)
            },
            RunEvent::SubmitFailed(error) => {
                let message = text::concat2("Failed to submit procedure: ", error.as_str());
                self.fail("submit_error", message.as_str(), RunAction::Abandon)
            },
            _ => quiet(RunAction::Wait),
        }
    }

    fn step_stopping(&mut self, exit_code: i32, failed: bool, event: RunEvent) -> (step: RunStep)
        ensures
            (RunProgress { run: final(self).deep_view(), step: step.deep_view() }) == stopping(
                old(self).deep_view(),
                exit_code,
                failed,
                event.deep_view(),
            ),
    {
        match event {
            RunEvent::ShutDown => {
                self.stage = Stage::Over;
                quiet(RunAction::Done { exit_code, upload: !failed })
            },
            _ => quiet(RunAction::Wait),
        }
    }

    /// Takes a report in.
    pub fn step(&mut self, event: RunEvent, now: Instant) -> (step: RunStep)
        ensures
            (RunProgress { run: final(self).deep_view(), step: step.deep_view() }) == stepped(
                old(self).deep_view(),
                event.deep_view(),
                now,
            ),
    {
        match self.stage {
            Stage::Loading => self.step_loading(event),
            Stage::Checking(_) => self.step_checking(event),
            Stage::Initializing => self.step_initializing(event, now),
            Stage::Identifying { next } => self.step_identifying(next, event, now),
            Stage::Submitting => self.step_submitting(event),
            Stage::Executing => self.execute(event),
            Stage::Stopping { exit_code, failed } => self.step_stopping(exit_code, failed, event),
            Stage::Over => quiet(RunAction::Wait),
        }
    }
}

/// How the engine is shut down: in a hurry where the operating system set a
/// deadline.
pub fn shutdown_mode(has_deadline: bool) -> (mode: ShutdownMode)
    ensures
        mode == (if has_deadline {
            ShutdownMode::Hurried
        } else {
            ShutdownMode::Normal
        }),
{
    if has_deadline {
        ShutdownMode::Hurried
    } else {
        ShutdownMode::Normal
    }
}

// ---------------------------------------------------------------------------
// Attachments
// ---------------------------------------------------------------------------

/// Whether a character can stand in any file name.
pub open spec fn is_plain(c: char) -> bool {
    ('0' <= c && c <= '9') || ('A' <= c && c <= 'Z') || ('a' <= c && c <= 'z')
}

/// A slot as part of a file name.
pub open spec fn safe_slot(slot: Seq<char>) -> Seq<char> {
    slot.map_values(
        |c: char|
            if is_plain(c) {
                c
            } else {
                '_'
            },
    )
}

fn make_safe_slot(slot: &str) -> (out: String)
    ensures
        out@ == safe_slot(slot@),
{
    let chars = text::chars_of(slot);
    let mut out: Vec<char> = Vec::new();
    let mut i: usize = 0;
    while i < chars.len()
        invariant
            i <= chars@.len(),
            chars@ == slot@,
            out@.len() == i,
            forall|k: int| 0 <= k < i ==> (#[trigger] out@[k]) == safe_slot(slot@)[k],
        decreases chars@.len() - i,
    {
        let c = chars[i];
        let plain = ('0' <= c && c <= '9') || ('A' <= c && c <= 'Z') || ('a' <= c && c <= 'z');
        out.push(
            if plain {
                c
            } else {
                '_'
            },
        );
        i += 1;
    }
    assert(out@ =~= safe_slot(slot@));
    text::string_of(&out)
}

/// The files of a slot's run: its own, and those of the shared stages. An
/// upload deletes its files, so every slot but the first takes a copy of a
/// shared one.
pub open spec fn attachment_plan(
    all: Seq<SlotAttachmentView>,
    slot: Seq<char>,
    first: bool,
) -> Seq<AttachmentPlanView>
    decreases all.len(),
{
    if all.len() == 0 {
        Seq::empty()
    } else {
        let rest = attachment_plan(all.drop_last(), slot, first);
        let a = all.last();
        if belongs(a.slot, slot) {
            rest.push(
                AttachmentPlanView {
                    attachment: a.attachment,
                    prefix: if a.slot is Some || first {
                        None
                    } else {
                        Some(safe_slot(slot) + "."@)
                    },
                },
            )
        } else {
            rest
        }
    }
}

/// Plans the files of a slot's run.
pub fn plan_attachments(all: &Vec<SlotAttachment>, slot: &str, first: bool) -> (out: Vec<
    AttachmentPlan,
>)
    ensures
        out.deep_view() == attachment_plan(all.deep_view(), slot@, first),
{
    let mut out: Vec<AttachmentPlan> = Vec::new();
    let mut i: usize = 0;
    assert(out.deep_view() =~= attachment_plan(all.deep_view().take(0), slot@, first));
    while i < all.len()
        invariant
            i <= all@.len(),
            out.deep_view() == attachment_plan(all.deep_view().take(i as int), slot@, first),
        decreases all@.len() - i,
    {
        let ghost seen = all.deep_view().take(i + 1);
        assert(seen.drop_last() =~= all.deep_view().take(i as int));
        assert(seen.last() == all@[i as int].deep_view());
        if belongs_to_slot(&all[i].slot, slot) {
            let prefix = if all[i].slot.is_some() || first {
                None
            } else {
                let safe = make_safe_slot(slot);
                Some(text::concat2(safe.as_str(), "."))
            };
            push(&mut out, AttachmentPlan { attachment: all[i].attachment.dup(), prefix });
        }
        i += 1;
    }
    assert(all.deep_view().take(all@.len() as int) =~= all.deep_view());
    out
}

/// The files of a slot's run, with the copies that could be made: by their
/// place in the plan, `None` where a copy could not be made.
pub open spec fn planned_files(
    plan: Seq<AttachmentPlanView>,
    copies: Seq<Option<Seq<char>>>,
) -> Seq<QueuedAttachmentView>
    decreases plan.len(),
{
    if plan.len() == 0 {
        Seq::empty()
    } else {
        let rest = planned_files(plan.drop_last(), copies);
        let i = plan.len() - 1;
        match plan.last().prefix {
            None => rest.push(plan.last().attachment),
            Some(_) => if i < copies.len() && copies[i] is Some {
                rest.push(QueuedAttachmentView { path: copies[i]->0, ..plan.last().attachment })
            } else {
                rest
            },
        }
    }
}

/// The files of a slot's run: its own, and those of the shared stages, of
/// which every slot but the first has its own copy.
pub fn attachments_for_slot(
    all: &Vec<SlotAttachment>,
    slot: &str,
    slot_index: usize,
    copies: &Vec<Option<String>>,
) -> (out: Vec<QueuedAttachment>)
    ensures
        out.deep_view() == planned_files(
            attachment_plan(all.deep_view(), slot@, slot_index == 0),
            copies.deep_view(),
        ),
{
    let plan = plan_attachments(all, slot, slot_index == 0);
    let mut out: Vec<QueuedAttachment> = Vec::new();
    let mut i: usize = 0;
    assert(out.deep_view() =~= planned_files(plan.deep_view().take(0), copies.deep_view()));
    while i < plan.len()
        invariant
            i <= plan@.len(),
            out.deep_view() == planned_files(plan.deep_view().take(i as int), copies.deep_view()),
        decreases plan@.len() - i,
    {
        let ghost seen = plan.deep_view().take(i + 1);
        assert(seen.drop_last() =~= plan.deep_view().take(i as int));
        assert(seen.last() == plan@[i as int].deep_view());
        match &plan[i].prefix {
            None => {
                push(&mut out, plan[i].attachment.dup());
            },
            Some(_) => {
                if i < copies.len() {
                    assert(copies.deep_view()[i as int] == copies@[i as int].deep_view());
                    match &copies[i] {
                        Some(path) => {
                            let mut file = plan[i].attachment.dup();
                            file.path = path.dup();
                            push(&mut out, file);
                        },
                        None => {},
                    }
                }
            },
        }
        i += 1;
    }
    assert(plan.deep_view().take(plan@.len() as int) =~= plan.deep_view());
    out
}

// ---------------------------------------------------------------------------
// The upload
// ---------------------------------------------------------------------------

/// The stamp of a slot's run: only where there is more than one slot.
pub open spec fn stamp_of(
    execution_id: Seq<char>,
    slots: Seq<Seq<char>>,
    names: Seq<KeyTextView>,
    i: int,
) -> Option<SlotStampView> {
    if slots.len() > 1 {
        Some(
            SlotStampView {
                execution_id,
                slot_key: slots[i],
                slot_name: slot_name(names, slots[i]),
            },
        )
    } else {
        None
    }
}

/// Whether a queue entry is the run of a slot.
pub open spec fn is_slot_run(
    run: QueuedRunView,
    sink: CliEventSinkView,
    i: int,
    ctx: RequestContextView,
    copies: Seq<Seq<Option<Seq<char>>>>,
    now: Instant,
) -> bool {
    &&& is_run_request(
        run.request,
        sink.data,
        sink.slots[i],
        stamp_of(sink.router.execution_id, sink.slots, sink.slot_names, i),
        ctx,
        now,
    )
    &&& run == fresh_run(
        run.request,
        planned_files(
            attachment_plan(sink.data.attachments, sink.slots[i], i == 0),
            if i < copies.len() {
                copies[i]
            } else {
                Seq::empty()
            },
        ),
    )
}

/// The runs to upload, one for each slot; none where the deadline of a stop
/// has passed.
pub fn queue_runs(
    sink: &CliEventSink,
    ctx: &RequestContext,
    copies: &Vec<Vec<Option<String>>>,
    deadline_passed: bool,
    now: Instant,
) -> (runs: Vec<QueuedRun>)
    ensures
        runs@.len() == (if deadline_passed {
            0
        } else {
            sink.slots@.len() as int
        }),
        forall|i: int|
            0 <= i < runs@.len() ==> is_slot_run(
                (#[trigger] runs@[i]).deep_view(),
                sink.deep_view(),
                i,
                ctx.deep_view(),
                copies.deep_view(),
                now,
            ),
{
    let mut runs: Vec<QueuedRun> = Vec::new();
    if deadline_passed {
        return runs;
    }
    let none: Vec<Option<String>> = Vec::new();
    assert(none.deep_view() =~= Seq::empty());
    let mut i: usize = 0;
    while i < sink.slots.len()
        invariant
            i <= sink.slots@.len(),
            runs@.len() == i,
            none.deep_view() == Seq::<Option<Seq<char>>>::empty(),
            forall|k: int|
                0 <= k < i ==> is_slot_run(
                    (#[trigger] runs@[k]).deep_view(),
                    sink.deep_view(),
                    k,
                    ctx.deep_view(),
                    copies.deep_view(),
                    now,
                ),
        decreases sink.slots@.len() - i,
    {
        let slot = &sink.slots[i];
        assert(sink.slots.deep_view()[i as int] == slot@);
        let stamp = if sink.slots.len() > 1 {
            let name = match assoc::get(&sink.slot_names, slot.as_str()) {
                Some(entry) => Some(entry.text.dup()),
                None => None,
            };
            Some(
                SlotStamp {
                    execution_id: sink.router.execution_id.dup(),
                    slot_key: slot.dup(),
                    slot_name: name,
                },
            )
        } else {
            None
        };
        let request = build_run_request(&sink.data, slot.as_str(), &stamp, ctx, now);
        let made = if i < copies.len() {
            assert(copies.deep_view()[i as int] == copies@[i as int].deep_view());
            &copies[i]
        } else {
            &none
        };
        let files = attachments_for_slot(&sink.data.attachments, slot.as_str(), i, made);
        let run = new_run(request, files);
        assert(is_slot_run(
            run.deep_view(),
            sink.deep_view(),
            i as int,
            ctx.deep_view(),
            copies.deep_view(),
            now,
        ));
        runs.push(run);
        i += 1;
    }
    runs
}

} // verus!
