//! What each report leads to, from the first to the last of a run.

use vstd::prelude::*;
use crate::agent_proto::events::CliEventView;
use crate::assoc;
use crate::assoc::lookup;
use crate::engine::model::{
    EngineUnitView, KeyText, KeyTextView, Outcome, SlotAttachmentView,
};
use crate::engine::run::{
    attachment_plan, identify_from, is_slot_run, layout_of, planned_files, reused_unit, slot_name,
    stamp_of, stepped, with_slot_unit, AttachmentPlanView, ManifestPartsView, ProcedureFactsView,
    RefProblemView, RunActionView, RunEventView, SlotEngineUnit, SlotEngineUnitView, StageView,
    YamlRunView,
};
use crate::engine::request::{is_run_request, RequestContextView};
use crate::engine::sink::CliEventSinkView;
use crate::event_router::EmissionView;
use crate::json::JsonView;
use crate::protocol::{KeyUnit, StationEventView};
use crate::queue::{QueuedAttachmentView, QueuedRunView};
use crate::text::decimal;
use crate::time::Instant;

verus! {

/// Whether what goes out tells of a crash: of its kind and its reason, and that
/// the run ended with an error.
pub open spec fn tells_crash(
    out: Seq<EmissionView>,
    r: YamlRunView,
    kind: Seq<char>,
    reason: Seq<char>,
) -> bool {
    let id = r.sink.router.execution_id;
    &&& out.len() == if r.sink.router.agent {
        3int
    } else {
        2
    }
    &&& out[0] == EmissionView::Station(
        StationEventView::RunCrashed {
            procedure_id: r.sink.procedure_id,
            error: reason,
            error_kind: kind,
            execution_id: Some(id),
        },
    )
    &&& out[1] matches EmissionView::Station(
        StationEventView::RunComplete { outcome, run_id, execution_id, slot_outcomes },
    ) && outcome == "ERROR"@ && run_id is None && execution_id == Some(id) && slot_outcomes.len()
        == 0
    &&& r.sink.router.agent ==> out[2] == EmissionView::Agent(
        CliEventView::RunCrashed { exit_code: 1, stderr_tail: reason },
    )
}

/// A run whose engine came to its end is shut down and then uploaded, whatever
/// its outcome; it exits with success where that is a pass.
pub proof fn law_finished_runs_are_uploaded(
    r: YamlRunView,
    outcome: Option<Outcome>,
    now: Instant,
    later: Instant,
)
    requires
        r.stage is Executing,
        r.stalled is None,
    ensures
        ({
            let stopping = stepped(r, RunEventView::Finished(outcome), now);
            let over = stepped(stopping.run, RunEventView::ShutDown, later);
            &&& stopping.step.emissions.len() == 0
            &&& stopping.step.action == (RunActionView::ShutDown { watch_force: !r.forced })
            &&& over.step.emissions.len() == 0
            &&& over.step.action matches RunActionView::Done { exit_code, upload } && upload && (
            exit_code == 0 <==> outcome == Some(Outcome::Pass)) && (exit_code == 0 || exit_code
                == 1)
            &&& over.run == (YamlRunView { stage: StageView::Over, ..r })
        }),
{
}

/// A run whose engine failed, or that was terminated as stalled, is told as a
/// crash, shut down and not uploaded.
pub proof fn law_failed_runs_are_not_uploaded(
    r: YamlRunView,
    event: RunEventView,
    now: Instant,
    later: Instant,
)
    requires
        r.stage is Executing,
        event is Failed || (event is Finished && r.stalled is Some),
    ensures
        ({
            let stopping = stepped(r, event, now);
            let over = stepped(stopping.run, RunEventView::ShutDown, later);
            &&& r.stalled matches Some(reason) ==> tells_crash(
                stopping.step.emissions,
                r,
                "execution_error"@,
                "Execution failed: "@ + reason,
            )
            &&& r.stalled is None ==> tells_crash(
                stopping.step.emissions,
                r,
                "execution_error"@,
                "Execution failed: "@ + event->Failed_0,
            )
            &&& stopping.step.action == (RunActionView::ShutDown { watch_force: !r.forced })
            &&& over.step.emissions.len() == 0
            &&& over.step.action == (RunActionView::Done { exit_code: 1, upload: false })
            &&& over.run == (YamlRunView { stage: StageView::Over, ..r })
        }),
{
}

/// Nothing but its end, a stop or a stall moves a run that executes, and
/// nothing but the end of its engine a run that is shut down.
pub proof fn law_other_reports_change_nothing(r: YamlRunView, event: RunEventView, now: Instant)
    requires
        match r.stage {
            StageView::Loading => !(event is Loaded) && !(event is LoadFailed),
            StageView::Checking(_) => !(event is Checked),
            StageView::Initializing => !(event is Initialized) && !(event is InitFailed),
            StageView::Identifying { .. } => !(event is UnitResolved) && !(event is UnitFailed)
                && !(event is UnitCancelled),
            StageView::Submitting => !(event is Submitted) && !(event is SubmitFailed),
            StageView::Executing => !(event is Finished) && !(event is Failed) && !(event is Stop)
                && !(event is Interrupt) && !(event is Force) && !(event is Stalled),
            StageView::Stopping { .. } => !(event is ShutDown),
            StageView::Over => true,
        },
    ensures
        stepped(r, event, now).run == r,
        stepped(r, event, now).step.action is Wait,
        stepped(r, event, now).step.emissions.len() == 0,
{
}

/// A stop, an interrupt and a force kill each take effect where nothing as
/// hard came before; after the workers are killed none does.
pub proof fn law_stops_are_heeded(r: YamlRunView, now: Instant)
    requires
        r.stage is Executing,
    ensures
        ({
            let alive = !r.forced && r.stalled is None;
            let stop = stepped(r, RunEventView::Stop, now);
            let interrupt = stepped(r, RunEventView::Interrupt, now);
            let force = stepped(r, RunEventView::Force, now);
            &&& stop.step.action is RequestShutdown <==> alive && !r.graceful
            &&& stop.step.action is Wait <==> !(alive && !r.graceful)
            &&& stop.run == (YamlRunView {
                graceful: r.graceful || alive,
                ..r
            })
            &&& interrupt.step.action is InterruptJobs <==> alive && !r.interrupted
            &&& interrupt.step.action is Wait <==> !(alive && !r.interrupted)
            &&& interrupt.run == (YamlRunView {
                graceful: r.graceful || (alive && !r.interrupted),
                interrupted: r.interrupted || alive,
                ..r
            })
            &&& force.step.action is ForceKill <==> alive
            &&& force.step.action is Wait <==> !alive
            &&& force.run == (YamlRunView { forced: r.forced || alive, ..r })
            &&& stop.step.emissions.len() == 0
            &&& interrupt.step.emissions.len() == 0
            &&& force.step.emissions.len() == 0
        }),
{
}

/// A run is taken for stalled only where it showed no sign of life, no debugger
/// may hold it and it is not being killed; the reason says how long it was
/// waited for, and where the log lies.
pub proof fn law_stalls_are_terminated(
    r: YamlRunView,
    seconds: u64,
    log_path: Option<Seq<char>>,
    now: Instant,
)
    requires
        r.stage is Executing,
    ensures
        ({
            let after = stepped(r, RunEventView::Stalled { seconds, log_path }, now);
            let stalls = !r.forced && r.stalled is None && !r.debug && !r.sink.progressed;
            let start = "The engine did not start executing within "@ + decimal(seconds as nat)
                + "s of submitting the procedure: no phase was dispatched and no event was emitted. The run was terminated. This usually means the machine's endpoint-protection (EDR/antivirus) software is holding the Python worker processes — check its logs and allowlist the deployment's venv Python."@;
            &&& after.step.action is ForceKill <==> stalls
            &&& after.step.action is Wait <==> !stalls
            &&& after.step.emissions.len() == 0
            &&& !stalls ==> after.run == r
            &&& stalls ==> after.run.stalled is Some && after.run == (YamlRunView {
                stalled: after.run.stalled,
                ..r
            })
            &&& stalls && log_path is None ==> after.run.stalled->0 == start
            &&& stalls && log_path is Some ==> after.run.stalled->0 == start + " Full event log: "@
                + log_path->0
        }),
{
}

/// A procedure that is loaded has its references looked at; one that is not
/// ends the run.
pub proof fn law_loading(r: YamlRunView, facts: ProcedureFactsView, error: Seq<char>, now: Instant)
    requires
        r.stage is Loading,
    ensures
        ({
            let loaded = stepped(r, RunEventView::Loaded(facts), now);
            let failed = stepped(r, RunEventView::LoadFailed(error), now);
            &&& loaded.run == (YamlRunView { stage: StageView::Checking(facts), ..r })
            &&& loaded.step.action is CheckReferences
            &&& loaded.step.emissions.len() == 0
            &&& failed.run == (YamlRunView { stage: StageView::Over, ..r })
            &&& failed.step.action is Quit
            &&& tells_crash(
                failed.step.emissions,
                r,
                "load_error"@,
                "Failed to load procedure: "@ + error,
            )
        }),
{
}

proof fn lemma_certain_problems(problems: Seq<RefProblemView>)
    ensures
        crate::engine::run::certain_problems(problems) == problems.filter(
            |p: RefProblemView| p.error,
        ).map_values(|p: RefProblemView| p.message),
    decreases problems.len(),
{
    reveal(Seq::filter);
    let f = |p: RefProblemView| p.error;
    let m = |p: RefProblemView| p.message;
    if problems.len() > 0 {
        lemma_certain_problems(problems.drop_last());
        let rest = problems.drop_last().filter(f);
        if problems.last().error {
            assert(rest.push(problems.last()).map_values(m) =~= rest.map_values(m).push(
                problems.last().message,
            ));
        }
    }
    assert(crate::engine::run::certain_problems(problems) =~= problems.filter(f).map_values(m));
}

/// Problems that are certain end the run before it starts, each on a line; but
/// not where the phase that was asked for does not exist.
pub proof fn law_certain_problems_are_told(
    r: YamlRunView,
    facts: ProcedureFactsView,
    target_invalid: bool,
    problems: Seq<RefProblemView>,
    now: Instant,
)
    requires
        r.stage == StageView::Checking(facts),
    ensures
        ({
            let after = stepped(r, RunEventView::Checked { target_invalid, problems }, now);
            let certain = problems.filter(|p: RefProblemView| p.error);
            &&& after.step.action is Quit <==> !target_invalid && certain.len() > 0
            &&& after.step.action is Initialize <==> target_invalid || certain.len() == 0
            &&& after.step.action is Quit ==> {
                &&& after.run == (YamlRunView { stage: StageView::Over, ..r })
                &&& tells_crash(
                    after.step.emissions,
                    r,
                    "load_error"@,
                    "Procedure cannot start:\n"@ + crate::text::joined(
                        certain.map_values(|p: RefProblemView| p.message),
                        seq!['\n'],
                    ),
                )
            }
        }),
{
    lemma_certain_problems(problems);
    reveal_strlit("\n");
    assert("\n"@ =~= seq!['\n']);
}

/// The engine is initialised with what the procedure declares: its workers,
/// but one where it is debugged and four where it says nothing; its slots, or
/// one; the fields of its unit, with serial and part number in any case.
pub proof fn law_initialisation(
    r: YamlRunView,
    facts: ProcedureFactsView,
    target_invalid: bool,
    problems: Seq<RefProblemView>,
    now: Instant,
)
    requires
        r.stage == StageView::Checking(facts),
        target_invalid || problems.filter(|p: RefProblemView| p.error).len() == 0,
    ensures
        ({
            let after = stepped(r, RunEventView::Checked { target_invalid, problems }, now);
            &&& after.run.stage is Initializing
            &&& after.step.emissions.len() == 0
            &&& after.step.action matches RunActionView::Initialize {
                workers,
                slots,
                slot_names,
                unit,
                operated_by,
            } && {
                &&& r.debug ==> workers == 1
                &&& !r.debug && facts.workers is Some ==> workers == facts.workers->0
                &&& !r.debug && facts.workers is None ==> workers == 4
                &&& facts.slots.len() == 0 ==> slots == seq!["default"@]
                &&& facts.slots.len() > 0 ==> slots.len() == facts.slots.len() && forall|i: int|
                    0 <= i < slots.len() ==> #[trigger] slots[i] == facts.slots[i].key
                &&& after.run.sink.slots == slots
                &&& after.run.sink.slot_names == slot_names
                &&& operated_by == facts.operated_by
                &&& unit.serial_number is Some
                &&& unit.part_number is Some
                &&& facts.unit is None ==> {
                    &&& unit.serial_number->0.default_value is None
                    &&& unit.part_number->0.default_value is None
                    &&& unit.revision_number is None
                    &&& unit.batch_number is None
                    &&& unit.sub_units is None
                    &&& !unit.auto_identify
                }
                &&& facts.unit matches Some(declared) ==> {
                    &&& declared.serial_number is Some ==> unit.serial_number
                        == declared.serial_number
                    &&& declared.part_number is Some ==> unit.part_number == declared.part_number
                    &&& unit.revision_number == declared.revision_number
                    &&& unit.batch_number == declared.batch_number
                    &&& unit.sub_units == declared.sub_units
                    &&& unit.auto_identify == declared.auto_identify
                }
            }
            &&& after.run == (YamlRunView {
                sink: CliEventSinkView {
                    slots: after.run.sink.slots,
                    slot_names: after.run.sink.slot_names,
                    data: after.run.sink.data,
                    ..r.sink
                },
                stage: StageView::Initializing,
                ..r
            })
        }),
{
    lemma_certain_problems(problems);
}

/// A run that is narrowed to a phase is marked with its name; no other is.
pub proof fn law_narrowed_runs_say_so(
    r: YamlRunView,
    facts: ProcedureFactsView,
    target_invalid: bool,
    problems: Seq<RefProblemView>,
    now: Instant,
)
    requires
        r.stage == StageView::Checking(facts),
        target_invalid || problems.filter(|p: RefProblemView| p.error).len() == 0,
    ensures
        ({
            let before = r.sink.data;
            let after = stepped(
                r,
                RunEventView::Checked { target_invalid, problems },
                now,
            ).run.sink.data;
            let n = before.run_metadata_sources.len() as int;
            &&& r.sink.only_phase is None ==> after == before
            &&& r.sink.only_phase matches Some(phase) ==> {
                &&& after.run_metadata_sources.len() == n + 1
                &&& after.run_metadata_sources.take(n) == before.run_metadata_sources
                &&& after.run_metadata_sources[n].slot is None
                &&& after.run_metadata_sources[n].source == "studio_partial_run"@
                &&& after.run_metadata_sources[n].entries.len() == 1
                &&& after.run_metadata_sources[n].entries[0].key == "studio_partial_run"@
                &&& after.run_metadata_sources[n].entries[0].value == JsonView::Text(phase)
                &&& after.units == before.units
                &&& after.unit_metadata_sources == before.unit_metadata_sources
                &&& after.attachments == before.attachments
            }
        }),
{
    lemma_certain_problems(problems);
    if let Some(phase) = r.sink.only_phase {
        let before = r.sink.data.run_metadata_sources;
        let after = stepped(
            r,
            RunEventView::Checked { target_invalid, problems },
            now,
        ).run.sink.data.run_metadata_sources;
        assert(after.take(before.len() as int) =~= before);
    }
}

/// An engine that cannot be initialised ends the run.
pub proof fn law_initialisation_can_fail(r: YamlRunView, error: Seq<char>, now: Instant)
    requires
        r.stage is Initializing,
    ensures
        ({
            let after = stepped(r, RunEventView::InitFailed(error), now);
            &&& after.run == (YamlRunView { stage: StageView::Over, ..r })
            &&& after.step.action is Abandon
            &&& tells_crash(
                after.step.emissions,
                r,
                "init_error"@,
                "Failed to initialize execution engine: "@ + error,
            )
        }),
{
}

/// Whether a slot has a unit to test again: one of its own, or one for all.
pub open spec fn has_unit(r: YamlRunView, slot: Seq<char>) -> bool {
    r.reuse_unit is Some || exists|k: int|
        0 <= k < r.reuse_units.len() && (#[trigger] r.reuse_units[k]).slot == slot
}

proof fn lemma_has_unit(r: YamlRunView, slot: Seq<char>)
    ensures
        has_unit(r, slot) <==> reused_unit(r, slot) is Some,
{
    assoc::lemma_key_index::<KeyUnit>(r.reuse_units, slot);
    let i = assoc::key_index::<KeyUnit>(r.reuse_units, slot);
    if i < r.reuse_units.len() {
        assert(r.reuse_units[i].slot == slot);
    }
}

/// The unit to test again in a slot is its own, before the one for all.
pub proof fn law_own_unit_wins(r: YamlRunView, slot: Seq<char>, k: int)
    ensures
        0 <= k < r.reuse_units.len() && r.reuse_units[k].slot == slot && (forall|j: int|
            0 <= j < k ==> (#[trigger] r.reuse_units[j]).slot != slot) ==> reused_unit(r, slot)
            == Some(r.reuse_units[k].unit),
        (forall|j: int| 0 <= j < r.reuse_units.len() ==> (#[trigger] r.reuse_units[j]).slot != slot)
            ==> reused_unit(r, slot) == r.reuse_unit,
{
    if 0 <= k < r.reuse_units.len() && r.reuse_units[k].slot == slot && (forall|j: int|
        0 <= j < k ==> (#[trigger] r.reuse_units[j]).slot != slot) {
        assoc::lemma_key_index_unique::<KeyUnit>(r.reuse_units, slot, k);
    }
    if forall|j: int| 0 <= j < r.reuse_units.len() ==> (#[trigger] r.reuse_units[j]).slot != slot {
        assoc::lemma_key_index_unique::<KeyUnit>(r.reuse_units, slot, r.reuse_units.len() as int);
    }
}

proof fn lemma_identify_from(r: YamlRunView, slots: Seq<Seq<char>>, i: nat, k: int, now: Instant)
    requires
        i <= k <= slots.len(),
        forall|j: int| i <= j < k ==> has_unit(r, #[trigger] slots[j]),
        k < slots.len() ==> !has_unit(r, slots[k]),
    ensures
        k == slots.len() ==> identify_from(r, slots, i, now).step.action is Submit
            && identify_from(r, slots, i, now).run.stage is Submitting,
        k < slots.len() ==> identify_from(r, slots, i, now).step.action == (
        RunActionView::Identify { slot: slots[k], name: slot_name(r.sink.slot_names, slots[k]) })
            && identify_from(r, slots, i, now).run.stage == (StageView::Identifying {
            next: k as u64,
        }),
        identify_from(r, slots, i, now).run.reuse_units == r.reuse_units,
        identify_from(r, slots, i, now).run.reuse_unit == r.reuse_unit,
    decreases slots.len() - i,
{
    if i < slots.len() {
        let slot = slots[i as int];
        lemma_has_unit(r, slot);
        if let Some(wire) = reused_unit(r, slot) {
            let unit = crate::engine::unit::engine_unit(wire);
            let next = with_slot_unit(r, slot, unit);
            assert forall|j: int| i + 1 <= j < k implies has_unit(next, #[trigger] slots[j]) by {
                assert(has_unit(r, slots[j]));
            }
            if k < slots.len() {
                assert(has_unit(next, slots[k]) ==> has_unit(r, slots[k]));
            }
            assert(k > i);
            lemma_identify_from(next, slots, i + 1, k, now);
        } else {
            if i < k {
                assert(has_unit(r, slots[i as int]));
            }
        }
    }
}

/// Once the engine is initialised, the first slot that has no unit to test
/// again is asked for one; where every slot has one, the run goes on.
pub proof fn law_first_unknown_slot_is_asked(r: YamlRunView, k: int, now: Instant)
    requires
        r.stage is Initializing,
        0 <= k <= r.sink.slots.len() <= u64::MAX,
        forall|j: int| 0 <= j < k ==> has_unit(r, #[trigger] r.sink.slots[j]),
        k < r.sink.slots.len() ==> !has_unit(r, r.sink.slots[k]),
    ensures
        ({
            let after = stepped(r, RunEventView::Initialized, now);
            &&& k == r.sink.slots.len() ==> after.step.action is Submit && after.run.stage
                is Submitting
            &&& k < r.sink.slots.len() ==> {
                &&& after.step.action matches RunActionView::Identify { slot, name } && slot
                    == r.sink.slots[k] && name == slot_name(r.sink.slot_names, slot)
                &&& after.run.stage == (StageView::Identifying { next: k as u64 })
            }
        }),
{
    lemma_identify_from(r, r.sink.slots, 0, k, now);
}

/// A slot whose unit is known is behind; the next that has none is asked, or
/// the run goes on.
pub proof fn law_next_unknown_slot_is_asked(
    r: YamlRunView,
    next: u64,
    unit: EngineUnitView,
    k: int,
    now: Instant,
)
    requires
        r.stage == (StageView::Identifying { next }),
        next < k <= r.sink.slots.len() <= u64::MAX,
        forall|j: int| next < j < k ==> has_unit(r, #[trigger] r.sink.slots[j]),
        k < r.sink.slots.len() ==> !has_unit(r, r.sink.slots[k]),
    ensures
        ({
            let after = stepped(r, RunEventView::UnitResolved(unit), now);
            &&& k == r.sink.slots.len() ==> after.step.action is Submit && after.run.stage
                is Submitting
            &&& k < r.sink.slots.len() ==> {
                &&& after.step.action matches RunActionView::Identify { slot, name } && slot
                    == r.sink.slots[k]
                &&& after.run.stage == (StageView::Identifying { next: k as u64 })
            }
            &&& next + 1 == r.sink.slots.len() ==> lookup::<SlotEngineUnit>(
                after.run.units,
                r.sink.slots[next as int],
            ) == Some(SlotEngineUnitView { slot: r.sink.slots[next as int], unit })
        }),
{
    let slot = r.sink.slots[next as int];
    let known = with_slot_unit(r, slot, unit);
    assert forall|j: int| next + 1 <= j < k implies has_unit(known, #[trigger] r.sink.slots[j]) by {
        assert(has_unit(r, r.sink.slots[j]));
    }
    if k < r.sink.slots.len() {
        assert(has_unit(known, r.sink.slots[k]) ==> has_unit(r, r.sink.slots[k]));
    }
    lemma_identify_from(known, r.sink.slots, (next + 1) as nat, k, now);
    assoc::lemma_with_value::<SlotEngineUnit>(r.units, SlotEngineUnitView { slot, unit }, slot);
}

/// A unit that cannot be identified ends the run, and an operator who walks
/// away aborts it.
pub proof fn law_identification_can_fail(r: YamlRunView, error: Seq<char>, now: Instant)
    requires
        r.stage is Identifying,
    ensures
        ({
            let failed = stepped(r, RunEventView::UnitFailed(error), now);
            let left = stepped(r, RunEventView::UnitCancelled, now);
            &&& failed.run == (YamlRunView { stage: StageView::Over, ..r })
            &&& failed.step.action is Abandon
            &&& tells_crash(failed.step.emissions, r, "identify_unit_failed"@, error)
            &&& left.run == (YamlRunView { stage: StageView::Over, ..r })
            &&& left.step.action is Abandon
            &&& left.step.emissions.len() == 1
            &&& left.step.emissions[0] matches EmissionView::Station(
                StationEventView::RunComplete { outcome, run_id, execution_id, slot_outcomes },
            ) && outcome == "ABORTED"@ && run_id is None && execution_id == Some(
                r.sink.router.execution_id,
            ) && slot_outcomes.len() == 0
        }),
{
}

/// A procedure that is submitted executes; one that is not ends the run.
pub proof fn law_submission(r: YamlRunView, error: Seq<char>, now: Instant)
    requires
        r.stage is Submitting,
    ensures
        ({
            let submitted = stepped(r, RunEventView::Submitted, now);
            let failed = stepped(r, RunEventView::SubmitFailed(error), now);
            &&& submitted.run == (YamlRunView { stage: StageView::Executing, ..r })
            &&& submitted.step.action is Execute
            &&& submitted.step.emissions.len() == 0
            &&& failed.run == (YamlRunView { stage: StageView::Over, ..r })
            &&& failed.step.action is Abandon
            &&& tells_crash(
                failed.step.emissions,
                r,
                "submit_error"@,
                "Failed to submit procedure: "@ + error,
            )
        }),
{
}

/// The name of a slot is the one under its key.
pub proof fn law_slots_are_named(names: Seq<KeyTextView>, slot: Seq<char>, k: int)
    ensures
        0 <= k < names.len() && names[k].key == slot && (forall|j: int|
            0 <= j < k ==> (#[trigger] names[j]).key != slot) ==> slot_name(names, slot) == Some(
            names[k].text,
        ),
        (forall|j: int| 0 <= j < names.len() ==> (#[trigger] names[j]).key != slot) ==> slot_name(
            names,
            slot,
        ) is None,
{
    if 0 <= k < names.len() && names[k].key == slot && (forall|j: int|
        0 <= j < k ==> (#[trigger] names[j]).key != slot) {
        assoc::lemma_key_index_unique::<KeyText>(names, slot, k);
    }
    if forall|j: int| 0 <= j < names.len() ==> (#[trigger] names[j]).key != slot {
        assoc::lemma_key_index_unique::<KeyText>(names, slot, names.len() as int);
    }
}

/// Whether a prefix is a slot made fit for a file name, and a dot.
pub open spec fn is_slot_prefix(prefix: Seq<char>, slot: Seq<char>) -> bool {
    &&& prefix.len() == slot.len() + 1
    &&& prefix.last() == '.'
    &&& forall|i: int|
        0 <= i < slot.len() ==> {
            let c = slot[i];
            #[trigger] prefix[i] == if ('0' <= c && c <= '9') || ('A' <= c && c <= 'Z') || ('a' <= c
                && c <= 'z') {
                c
            } else {
                '_'
            }
        }
}

/// The files of a slot's run are planned in order: its own as they are, the
/// shared ones as they are for the first slot and as copies under the name of
/// the slot for every other, and those of other slots not at all.
pub proof fn law_files_are_planned(
    all: Seq<SlotAttachmentView>,
    a: SlotAttachmentView,
    slot: Seq<char>,
    first: bool,
)
    ensures
        attachment_plan(Seq::empty(), slot, first).len() == 0,
        ({
            let before = attachment_plan(all, slot, first);
            let after = attachment_plan(all.push(a), slot, first);
            let n = before.len() as int;
            &&& a.slot is Some && a.slot->0 != slot ==> after == before
            &&& a.slot is None || a.slot->0 == slot ==> {
                &&& after.len() == n + 1
                &&& after.take(n) == before
                &&& after[n].attachment == a.attachment
                &&& after[n].prefix is Some <==> a.slot is None && !first
                &&& after[n].prefix is Some ==> is_slot_prefix(after[n].prefix->0, slot)
            }
        }),
{
    reveal_strlit(".");
    assert(all.push(a).drop_last() =~= all);
    let before = attachment_plan(all, slot, first);
    let after = attachment_plan(all.push(a), slot, first);
    if a.slot is None || a.slot->0 == slot {
        assert(after.take(before.len() as int) =~= before);
    }
}

/// A file that needs no copy is taken as it is; one that does is taken from
/// its copy, and left out where there is none.
pub proof fn law_planned_files_are_taken(
    plan: Seq<AttachmentPlanView>,
    p: AttachmentPlanView,
    copies: Seq<Option<Seq<char>>>,
)
    ensures
        planned_files(Seq::empty(), copies).len() == 0,
        ({
            let before = planned_files(plan, copies);
            let after = planned_files(plan.push(p), copies);
            let n = plan.len() as int;
            &&& p.prefix is None ==> after == before.push(p.attachment)
            &&& p.prefix is Some && (n >= copies.len() || copies[n] is None) ==> after == before
            &&& p.prefix is Some && n < copies.len() && copies[n] is Some ==> after == before.push(
                QueuedAttachmentView {
                    path: copies[n]->0,
                    name: p.attachment.name,
                    mimetype: p.attachment.mimetype,
                    phase_key: p.attachment.phase_key,
                },
            )
        }),
{
    assert(plan.push(p).drop_last() =~= plan);
}

/// The run of a slot is queued as one that was never tried, with the files
/// that are planned for it; where there are several slots it carries the
/// run, the slot and its name.
pub proof fn law_slot_runs_are_queued(
    run: QueuedRunView,
    sink: CliEventSinkView,
    i: int,
    ctx: RequestContextView,
    copies: Seq<Seq<Option<Seq<char>>>>,
    now: Instant,
)
    requires
        0 <= i < sink.slots.len(),
        is_slot_run(run, sink, i, ctx, copies, now),
    ensures
        run.run_id is None,
        run.attempt_count == 0,
        run.last_attempt_at is None,
        run.next_retry_at is None,
        !run.parked,
        run.last_error is None,
        run.queued_at is None,
        i < copies.len() ==> run.attachments == planned_files(
            attachment_plan(sink.data.attachments, sink.slots[i], i == 0),
            copies[i],
        ),
        i >= copies.len() ==> run.attachments == planned_files(
            attachment_plan(sink.data.attachments, sink.slots[i], i == 0),
            Seq::empty(),
        ),
        ({
            let stamp = stamp_of(sink.router.execution_id, sink.slots, sink.slot_names, i);
            &&& is_run_request(run.request, sink.data, sink.slots[i], stamp, ctx, now)
            &&& stamp is Some <==> sink.slots.len() > 1
            &&& stamp is Some ==> {
                &&& stamp->0.execution_id == sink.router.execution_id
                &&& stamp->0.slot_key == sink.slots[i]
                &&& stamp->0.slot_name == slot_name(sink.slot_names, sink.slots[i])
            }
        }),
{
}

/// A procedure lies in its deployment, or where the deployment says below it.
pub proof fn law_procedures_lie_in_their_deployment(
    dir: Seq<char>,
    manifest: Option<ManifestPartsView>,
)
    ensures
        ({
            let layout = layout_of(dir, manifest);
            &&& layout.package_dir.base == dir
            &&& layout.manifest_present == (manifest is Some)
            &&& manifest is None ==> layout.entry_point is None
            &&& manifest is Some ==> layout.entry_point == manifest->0.entry_point
            &&& manifest is Some && manifest->0.root_directory is Some
                ==> layout.package_dir.parts == seq![manifest->0.root_directory->0]
            &&& manifest is None || manifest->0.root_directory is None
                ==> layout.package_dir.parts.len() == 0
        }),
{
}

} // verus!
