//! What holds of every run of a procedure file.

use vstd::prelude::*;
use crate::assoc;
use crate::assoc::{lemma_with_value, lookup};
use crate::connector::unit_config::UnitConfigView;
use crate::engine::metadata::belongs;
use crate::engine::model::{KeyText, KeyTextView, Outcome, SlotAttachmentView};
use crate::engine::run::{
    asked_unit, attachment_plan, blocking, certain_problems, checked, executing, identify_from,
    idle, killing, partial_mark, planned_files, reused_unit, run_slot_names, slot_name, stamp_of,
    stepped, with_slot_unit, AttachmentPlanView, ProcedureFactsView, RefProblemView, RunActionView,
    RunEventView, SlotDeclView, SlotEngineUnit, SlotEngineUnitView, StageView, YamlRunView,
};
use crate::engine::unit::engine_unit;
use crate::time::Instant;

verus! {

/// A run exits with success exactly where the engine ran to its end with a
/// pass, and was not terminated as stalled.
pub proof fn law_only_a_pass_exits_zero(r: YamlRunView, event: RunEventView, now: Instant)
    requires
        r.stage is Executing,
    ensures
        ({
            let after = stepped(r, event, now).run;
            (after.stage matches StageView::Stopping { exit_code, .. } && exit_code == 0) <==> event
                == RunEventView::Finished(Some(Outcome::Pass)) && r.stalled is None
        }),
{
}

/// The exit code of a run that ended is the one that its execution gave, and
/// only a run whose engine did not fail is uploaded.
pub proof fn law_exit_code_is_kept(r: YamlRunView, event: RunEventView, now: Instant)
    ensures
        stepped(r, event, now).step.action matches RunActionView::Done { exit_code, upload }
            ==> r.stage == (StageView::Stopping { exit_code, failed: !upload }),
{
    lemma_identify_asks_or_submits(r, r.sink.slots, 0, now);
    if let StageView::Identifying { next } = r.stage {
        if let RunEventView::UnitResolved(unit) = event {
            if next < r.sink.slots.len() {
                lemma_identify_asks_or_submits(
                    with_slot_unit(r, r.sink.slots[next as int], unit),
                    r.sink.slots,
                    (next + 1) as nat,
                    now,
                );
            }
        }
    }
}

proof fn lemma_identify_asks_or_submits(
    r: YamlRunView,
    slots: Seq<Seq<char>>,
    i: nat,
    now: Instant,
)
    ensures
        ({
            let action = identify_from(r, slots, i, now).step.action;
            action is Submit || action is Identify
        }),
    decreases slots.len() - i,
{
    if i < slots.len() {
        let slot = slots[i as int];
        if let Some(wire) = reused_unit(r, slot) {
            lemma_identify_asks_or_submits(
                with_slot_unit(r, slot, engine_unit(wire)),
                slots,
                i + 1,
                now,
            );
        }
    }
}

/// An engine that was interrupted was asked to stop: this holds at first, and
/// every report keeps it.
pub proof fn law_interrupt_is_a_stop(r: YamlRunView, event: RunEventView)
    requires
        r.interrupted ==> r.graceful,
    ensures
        executing(r, event).run.interrupted ==> executing(r, event).run.graceful,
{
}

/// A run that is over stays so: nothing more goes out, nothing more is done.
pub proof fn law_over_is_over(r: YamlRunView, event: RunEventView, now: Instant)
    requires
        r.stage is Over,
    ensures
        stepped(r, event, now) == idle(r),
{
}

/// Each stop takes effect once, and none after the workers are killed.
pub proof fn law_stops_take_effect_once(r: YamlRunView)
    requires
        r.stage is Executing,
        r.interrupted ==> r.graceful,
    ensures
        executing(executing(r, RunEventView::Stop).run, RunEventView::Stop).step.action is Wait,
        executing(
            executing(r, RunEventView::Interrupt).run,
            RunEventView::Interrupt,
        ).step.action is Wait,
        executing(executing(r, RunEventView::Interrupt).run, RunEventView::Stop).step.action is Wait,
        executing(executing(r, RunEventView::Force).run, RunEventView::Force).step.action is Wait,
        killing(r) ==> executing(r, RunEventView::Stop) == idle(r) && executing(
            r,
            RunEventView::Interrupt,
        ) == idle(r) && executing(r, RunEventView::Force) == idle(r),
{
}

/// A stop can be made harder: an interrupt or a force kill is still heeded
/// after it.
pub proof fn law_stops_escalate(r: YamlRunView)
    requires
        r.stage is Executing,
        !killing(r),
        !r.interrupted,
    ensures
        executing(
            executing(r, RunEventView::Stop).run,
            RunEventView::Interrupt,
        ).step.action is InterruptJobs,
        executing(executing(r, RunEventView::Stop).run, RunEventView::Force).step.action is ForceKill,
        executing(
            executing(r, RunEventView::Interrupt).run,
            RunEventView::Force,
        ).step.action is ForceKill,
{
}

/// An engine that has shown a sign of life, or that a debugger may hold, is
/// never taken for stalled.
pub proof fn law_progress_is_no_stall(r: YamlRunView, seconds: u64, log_path: Option<Seq<char>>)
    requires
        r.sink.progressed || r.debug,
    ensures
        executing(r, RunEventView::Stalled { seconds, log_path }) == idle(r),
{
}

/// Serial and part number are always asked for, and what is declared is kept.
pub proof fn law_unit_is_always_asked(declared: Option<UnitConfigView>)
    ensures
        asked_unit(declared).serial_number is Some,
        asked_unit(declared).part_number is Some,
        declared matches Some(cfg) ==> {
            &&& cfg.serial_number is Some ==> asked_unit(declared).serial_number
                == cfg.serial_number
            &&& cfg.part_number is Some ==> asked_unit(declared).part_number == cfg.part_number
            &&& asked_unit(declared).revision_number == cfg.revision_number
            &&& asked_unit(declared).batch_number == cfg.batch_number
            &&& asked_unit(declared).auto_identify == cfg.auto_identify
            &&& asked_unit(declared).sub_units == cfg.sub_units
        },
{
}

/// Of the names that are declared for the key of a slot, the last counts, and
/// it counts for no other key.
pub proof fn law_last_slot_name_wins(slots: Seq<SlotDeclView>, last: SlotDeclView, key: Seq<char>)
    ensures
        slot_name(run_slot_names(slots.push(last)), last.key) == Some(last.name),
        key != last.key ==> slot_name(run_slot_names(slots.push(last)), key) == slot_name(
            run_slot_names(slots),
            key,
        ),
{
    assert(slots.push(last).drop_last() =~= slots);
    lemma_with_value::<KeyText>(
        run_slot_names(slots),
        KeyTextView { key: last.key, text: last.name },
        key,
    );
}

/// Only a problem that is certain keeps a procedure from starting.
pub proof fn law_warnings_do_not_block(problems: Seq<RefProblemView>)
    requires
        forall|i: int| 0 <= i < problems.len() ==> !(#[trigger] problems[i]).error,
    ensures
        certain_problems(problems).len() == 0,
    decreases problems.len(),
{
    if problems.len() > 0 {
        assert forall|i: int| 0 <= i < problems.drop_last().len() implies !(
        #[trigger] problems.drop_last()[i]).error by {
            assert(problems.drop_last()[i] == problems[i]);
        }
        law_warnings_do_not_block(problems.drop_last());
    }
}

/// A problem that is certain keeps a procedure from starting, unless the phase
/// to narrow the run to does not exist.
pub proof fn law_certain_problems_block(
    r: YamlRunView,
    facts: ProcedureFactsView,
    problems: Seq<RefProblemView>,
    i: int,
)
    requires
        0 <= i < problems.len(),
        problems[i].error,
    ensures
        checked(r, facts, false, problems).step.action is Quit,
        checked(r, facts, true, problems).step.action is Initialize,
{
    lemma_certain(problems, i);
}

proof fn lemma_certain(problems: Seq<RefProblemView>, i: int)
    requires
        0 <= i < problems.len(),
        problems[i].error,
    ensures
        certain_problems(problems).len() > 0,
    decreases problems.len(),
{
    if i < problems.len() - 1 {
        assert(problems.drop_last()[i] == problems[i]);
        lemma_certain(problems.drop_last(), i);
    }
}

/// A run that is narrowed to a phase carries the mark of it to its upload.
pub proof fn law_narrowed_run_is_marked(
    r: YamlRunView,
    facts: ProcedureFactsView,
    target_invalid: bool,
    problems: Seq<RefProblemView>,
)
    requires
        blocking(target_invalid, problems).len() == 0,
    ensures
        r.sink.only_phase matches Some(phase) ==> checked(
            r,
            facts,
            target_invalid,
            problems,
        ).run.sink.data.run_metadata_sources.contains(partial_mark(phase)),
        r.sink.only_phase is None ==> checked(r, facts, target_invalid, problems).run.sink.data
            == r.sink.data,
{
    if r.sink.only_phase is Some {
        let after = checked(r, facts, target_invalid, problems).run.sink.data.run_metadata_sources;
        assert(after[after.len() - 1] == partial_mark(r.sink.only_phase->0));
    }
}

/// Where every slot has a unit to test again, nobody is asked, and the unit of
/// the last slot is the one that was given for it.
pub proof fn law_reused_units_are_not_asked(
    r: YamlRunView,
    slots: Seq<Seq<char>>,
    i: nat,
    now: Instant,
)
    requires
        i <= slots.len(),
        forall|k: int| i <= k < slots.len() ==> reused_unit(r, #[trigger] slots[k]) is Some,
    ensures
        identify_from(r, slots, i, now).step.action is Submit,
        i < slots.len() ==> lookup::<SlotEngineUnit>(
            identify_from(r, slots, i, now).run.units,
            slots.last(),
        ) == Some(
            SlotEngineUnitView {
                slot: slots.last(),
                unit: engine_unit(reused_unit(r, slots.last())->0),
            },
        ),
    decreases slots.len() - i,
{
    if i < slots.len() {
        let slot = slots[i as int];
        let unit = engine_unit(reused_unit(r, slot)->0);
        let next = with_slot_unit(r, slot, unit);
        assert forall|k: int| i + 1 <= k < slots.len() implies reused_unit(next, #[trigger] slots[k])
            is Some by {
            assert(reused_unit(next, slots[k]) == reused_unit(r, slots[k]));
        }
        law_reused_units_are_not_asked(next, slots, i + 1, now);
        if i + 1 == slots.len() {
            assoc::lemma_with_value::<SlotEngineUnit>(
                r.units,
                SlotEngineUnitView { slot, unit },
                slot,
            );
            assert(identify_from(next, slots, i + 1, now).run.units == next.units);
        } else {
            assert(reused_unit(next, slots.last()) == reused_unit(r, slots.last()));
        }
    }
}

/// The files of another slot never join the run of a slot; a file is copied
/// exactly where it is shared and the slot is not the first.
pub proof fn law_attachments_stay_with_their_slot(
    all: Seq<SlotAttachmentView>,
    slot: Seq<char>,
    first: bool,
    i: int,
)
    requires
        0 <= i < attachment_plan(all, slot, first).len(),
    ensures
        exists|k: int|
            0 <= k < all.len() && belongs((#[trigger] all[k]).slot, slot) && all[k].attachment
                == attachment_plan(all, slot, first)[i].attachment && (attachment_plan(
                all,
                slot,
                first,
            )[i].prefix is Some <==> all[k].slot is None && !first),
    decreases all.len(),
{
    let rest = attachment_plan(all.drop_last(), slot, first);
    if i < rest.len() {
        law_attachments_stay_with_their_slot(all.drop_last(), slot, first, i);
        let k = choose|k: int|
            0 <= k < all.drop_last().len() && belongs((#[trigger] all.drop_last()[k]).slot, slot)
                && all.drop_last()[k].attachment == rest[i].attachment && (rest[i].prefix is Some
                <==> all.drop_last()[k].slot is None && !first);
        assert(all.drop_last()[k] == all[k]);
    } else {
        assert(belongs(all[all.len() - 1].slot, slot));
    }
}

/// The first slot takes every file that is its own or shared, as it is.
pub proof fn law_first_slot_takes_the_originals(
    plan: Seq<AttachmentPlanView>,
    copies: Seq<Option<Seq<char>>>,
)
    requires
        forall|i: int| 0 <= i < plan.len() ==> (#[trigger] plan[i]).prefix is None,
    ensures
        planned_files(plan, copies) == plan.map_values(|p: AttachmentPlanView| p.attachment),
    decreases plan.len(),
{
    if plan.len() > 0 {
        assert forall|i: int| 0 <= i < plan.drop_last().len() implies (
        #[trigger] plan.drop_last()[i]).prefix is None by {
            assert(plan.drop_last()[i] == plan[i]);
        }
        law_first_slot_takes_the_originals(plan.drop_last(), copies);
    }
    assert(planned_files(plan, copies) =~= plan.map_values(|p: AttachmentPlanView| p.attachment));
}

/// A run of a single slot carries no stamp; where there are several, each
/// carries the run and its slot.
pub proof fn law_single_slot_has_no_stamp(
    execution_id: Seq<char>,
    slots: Seq<Seq<char>>,
    names: Seq<crate::engine::model::KeyTextView>,
    i: int,
)
    requires
        0 <= i < slots.len(),
    ensures
        slots.len() == 1 ==> stamp_of(execution_id, slots, names, i) is None,
        slots.len() > 1 ==> stamp_of(execution_id, slots, names, i) is Some && stamp_of(
            execution_id,
            slots,
            names,
            i,
        )->0.execution_id == execution_id && stamp_of(execution_id, slots, names, i)->0.slot_key
            == slots[i],
{
}

} // verus!
