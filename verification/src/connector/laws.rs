//! What holds of every connector run.

use vstd::prelude::*;
use crate::connector::events::PythonEventView;
use crate::connector::pump::{
    concluded, finished_phase, handled, has_started, prompt_answered, start_emissions,
    unit_identified, unit_reply, with_started, AnswerView, IdentificationView, PumpView,
    StartedAttemptView,
};
use crate::connector::request::{text_or, RunContextView};
use crate::event_router::phase_finished_emissions;
use crate::json::{member_text, JsonView};
use crate::outcomes::{ERROR, PASS};
use crate::time::Instant;

verus! {

/// The start of a phase attempt is announced once: after it was, nothing more
/// goes out for it and nothing changes.
pub proof fn law_started_once(
    p: PumpView,
    phase_key: Seq<char>,
    name: Seq<char>,
    attempt: u32,
    now: Instant,
)
    ensures
        has_started(with_started(p, phase_key, attempt), phase_key, attempt),
        with_started(with_started(p, phase_key, attempt), phase_key, attempt) == with_started(
            p,
            phase_key,
            attempt,
        ),
        start_emissions(
            with_started(p, phase_key, attempt),
            phase_key,
            name,
            attempt,
            now,
        ).len() == 0,
{
    let after = with_started(p, phase_key, attempt);
    if !has_started(p, phase_key, attempt) {
        assert(after.started[after.started.len() - 1] == (StartedAttemptView {
            phase_key,
            attempt,
        }));
    }
}

/// No phase attempt is recorded as started twice, whatever event comes.
pub proof fn law_starts_stay_distinct(
    p: PumpView,
    event: JsonView,
    typed: PythonEventView,
    now: Instant,
)
    requires
        p.started.no_duplicates(),
    ensures
        handled(p, event, typed, now).pump.started.no_duplicates(),
{
}

/// The end of a phase is announced after its start, with the same key and
/// attempt, whether or not the start was reported.
pub proof fn law_end_follows_start(
    p: PumpView,
    event: JsonView,
    typed: PythonEventView,
    now: Instant,
)
    requires
        typed is PhaseEnd,
    ensures
        ({
            let f = finished_phase(p, event, typed);
            let after = handled(p, event, typed, now);
            &&& has_started(after.pump, f.phase_key, f.attempt)
            &&& after.step.emissions == start_emissions(
                p,
                f.phase_key,
                f.phase_name,
                f.attempt,
                now,
            ) + phase_finished_emissions(p.router, f)
        }),
{
    let f = finished_phase(p, event, typed);
    law_started_once(p, f.phase_key, f.phase_name, f.attempt, now);
}

/// Every phase that ends is kept for the upload, in order, and nothing else
/// is.
pub proof fn law_phases_are_kept(
    p: PumpView,
    event: JsonView,
    typed: PythonEventView,
    now: Instant,
)
    ensures
        handled(p, event, typed, now).pump.phases == if typed is PhaseEnd {
            p.phases.push(event)
        } else {
            p.phases
        },
{
}

/// A unit that could not be identified ends the run: it crashes, it is never
/// announced as started, the connector is still answered, and nothing is
/// uploaded.
pub proof fn law_unidentified_unit_ends_the_run(
    p: PumpView,
    error: Seq<char>,
    ctx: RunContextView,
    exit_code: i32,
    stderr_tail: Seq<char>,
    now: Instant,
)
    requires
        p.waiting is Unit,
    ensures
        ({
            let after = unit_identified(p, IdentificationView::Failed(error), now);
            let end = concluded(after.pump, ctx, false, exit_code, stderr_tail, now);
            &&& after.step.action is Stop
            &&& after.step.reply == Some(unit_reply(None))
            &&& after.step.later.len() == 0
            &&& after.pump.test_start == p.test_start
            &&& end.exit_code == 1
            &&& end.queued is None
        }),
{
}

/// The connector is answered exactly once for every unit and every prompt that
/// it waits for.
pub proof fn law_every_wait_is_answered(
    p: PumpView,
    outcome: IdentificationView,
    answer: AnswerView,
    now: Instant,
)
    ensures
        p.waiting is Unit ==> unit_identified(p, outcome, now).step.reply is Some && unit_identified(
            p,
            outcome,
            now,
        ).pump.waiting is Nothing,
        p.waiting is Answer ==> prompt_answered(p, answer).step.reply is Some && prompt_answered(
            p,
            answer,
        ).pump.waiting is Nothing,
{
}

/// The run exits with success exactly where the test passed.
pub proof fn law_only_a_pass_exits_zero(
    p: PumpView,
    ctx: RunContextView,
    exit_code: i32,
    stderr_tail: Seq<char>,
    now: Instant,
)
    requires
        p.identify_error is None,
        p.test_end is Some,
    ensures
        concluded(p, ctx, false, exit_code, stderr_tail, now).exit_code == 0 <==> text_or(
            member_text(p.test_end->0, "outcome"@),
            ERROR@,
        ) == PASS@,
{
    reveal_strlit("PASS");
    reveal_strlit("ERROR");
}

/// A run is uploaded exactly where its test ended and it was not stopped.
pub proof fn law_upload_needs_an_end(
    p: PumpView,
    ctx: RunContextView,
    cancelled: bool,
    exit_code: i32,
    stderr_tail: Seq<char>,
    now: Instant,
)
    ensures
        concluded(p, ctx, cancelled, exit_code, stderr_tail, now).queued is Some <==> !cancelled
            && p.identify_error is None && p.test_end is Some,
{
}

/// Where no agent drives the run, no event sends anything to an agent.
pub proof fn law_no_agent_hears_nothing(
    p: PumpView,
    event: JsonView,
    typed: PythonEventView,
    now: Instant,
)
    requires
        !p.router.agent,
    ensures
        ({
            let step = handled(p, event, typed, now).step;
            &&& forall|i: int|
                0 <= i < step.emissions.len() ==> !((#[trigger] step.emissions[i]) is Agent)
            &&& forall|i: int| 0 <= i < step.later.len() ==> !((#[trigger] step.later[i]) is Agent)
        }),
{
}

/// The identity of the run and its agent do not change.
pub proof fn law_run_keeps_identity(
    p: PumpView,
    event: JsonView,
    typed: PythonEventView,
    now: Instant,
)
    ensures
        handled(p, event, typed, now).pump.router.execution_id == p.router.execution_id,
        handled(p, event, typed, now).pump.router.agent == p.router.agent,
        handled(p, event, typed, now).pump.procedure_id == p.procedure_id,
        handled(p, event, typed, now).pump.connector == p.connector,
{
}

} // verus!
