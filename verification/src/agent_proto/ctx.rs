//! The lifecycle of a run, as agents can ask for it.

use vstd::prelude::*;
use crate::agent_proto::events::{PhaseSnapshot, PhaseSnapshotView, RunStatus};
use crate::dup::{push, Dup};
use crate::outcomes::SKIP;
use crate::text;

verus! {

/// Where a run stands.
#[derive(Debug, Clone, Copy, PartialEq, Eq, Structural)]
pub enum RunLifecycle {
    NotStarted,
    Running,
    Finished,
}

/// What agents see of where a run stands.
pub open spec fn status_of(state: RunLifecycle) -> RunStatus {
    match state {
        RunLifecycle::NotStarted => RunStatus::NotStarted,
        RunLifecycle::Running => RunStatus::Running,
        RunLifecycle::Finished => RunStatus::Finished,
    }
}

impl From<RunLifecycle> for RunStatus {
    fn from(state: RunLifecycle) -> (status: RunStatus) {
        match state {
            RunLifecycle::NotStarted => RunStatus::NotStarted,
            RunLifecycle::Running => RunStatus::Running,
            RunLifecycle::Finished => RunStatus::Finished,
        }
    }
}

impl vstd::std_specs::convert::FromSpecImpl<RunLifecycle> for RunStatus {
    open spec fn obeys_from_spec() -> bool {
        true
    }

    open spec fn from_spec(state: RunLifecycle) -> RunStatus {
        status_of(state)
    }
}

/// The phase attempts of a run so far, in the order in which they started.
#[derive(Debug, PartialEq, Eq)]
pub struct PhaseHistory {
    pub phases: Vec<PhaseSnapshot>,
}

impl DeepView for PhaseHistory {
    type V = Seq<PhaseSnapshotView>;

    open spec fn deep_view(&self) -> Seq<PhaseSnapshotView> {
        self.phases.deep_view()
    }
}

impl Dup for PhaseHistory {
    fn dup(&self) -> (copy: Self) {
        PhaseHistory { phases: self.phases.dup() }
    }
}

impl Default for PhaseHistory {
    fn default() -> (history: Self)
        ensures
            history.deep_view() == Seq::<PhaseSnapshotView>::empty(),
    {
        let history = PhaseHistory { phases: Vec::new() };
        assert(history.phases.deep_view() =~= Seq::empty());
        history
    }
}

/// An attempt that has started.
pub open spec fn started_attempt(
    phase_key: Seq<char>,
    attempt: u32,
    slot_id: Option<Seq<char>>,
) -> PhaseSnapshotView {
    PhaseSnapshotView { phase_key, status: "started"@, attempt, slot_id, outcome: None }
}

/// A phase that never ran.
pub open spec fn skipped_phase(phase_key: Seq<char>, slot_id: Option<Seq<char>>) -> PhaseSnapshotView {
    PhaseSnapshotView {
        phase_key,
        status: "skipped"@,
        attempt: 1,
        slot_id,
        outcome: Some(SKIP@),
    }
}

/// Whether a snapshot is of this attempt.
pub open spec fn is_attempt(
    p: PhaseSnapshotView,
    phase_key: Seq<char>,
    attempt: u32,
    slot_id: Option<Seq<char>>,
) -> bool {
    p.phase_key == phase_key && p.attempt == attempt && p.slot_id == slot_id
}

/// The history after an attempt has finished: its last snapshot is marked so.
/// Without one, nothing changes.
pub open spec fn with_finished(
    phases: Seq<PhaseSnapshotView>,
    phase_key: Seq<char>,
    attempt: u32,
    slot_id: Option<Seq<char>>,
    outcome: Seq<char>,
) -> Seq<PhaseSnapshotView>
    decreases phases.len(),
{
    if phases.len() == 0 {
        phases
    } else if is_attempt(phases.last(), phase_key, attempt, slot_id) {
        phases.drop_last().push(
            PhaseSnapshotView {
                status: "finished"@,
                outcome: Some(outcome),
                ..phases.last()
            },
        )
    } else {
        with_finished(phases.drop_last(), phase_key, attempt, slot_id, outcome).push(
            phases.last(),
        )
    }
}

impl PhaseHistory {
    /// Records that an attempt has started.
    pub fn started(&mut self, phase_key: &str, attempt: u32, slot_id: Option<String>)
        ensures
            final(self).deep_view() == old(self).deep_view().push(
                started_attempt(phase_key@, attempt, slot_id.deep_view()),
            ),
    {
        push(
            &mut self.phases,
            PhaseSnapshot {
                phase_key: phase_key.to_string(),
                status: "started".to_string(),
                attempt,
                slot_id,
                outcome: None,
            },
        );
    }

    /// Records that an attempt has finished: marks its last snapshot.
    pub fn finished(
        &mut self,
        phase_key: &str,
        attempt: u32,
        slot_id: &Option<String>,
        outcome: &str,
    )
        ensures
            final(self).deep_view() == with_finished(
                old(self).deep_view(),
                phase_key@,
                attempt,
                slot_id.deep_view(),
                outcome@,
            ),
    {
        let ghost before = self.phases.deep_view();
        let ghost done = with_finished(before, phase_key@, attempt, slot_id.deep_view(), outcome@);
        let mut i: usize = self.phases.len();
        assert(before.take(i as int) =~= before);
        assert(done + before.skip(i as int) =~= done);
        while i > 0
            invariant
                i <= self.phases@.len(),
                before == self.phases.deep_view(),
                before == old(self).deep_view(),
                done == with_finished(
                    before,
                    phase_key@,
                    attempt,
                    slot_id.deep_view(),
                    outcome@,
                ),
                done == with_finished(
                    before.take(i as int),
                    phase_key@,
                    attempt,
                    slot_id.deep_view(),
                    outcome@,
                ) + before.skip(i as int),
            decreases i,
        {
            let ghost part = before.take(i as int);
            assert(part.last() == self.phases@[i - 1].deep_view());
            assert(part.drop_last() =~= before.take(i - 1));
            if text::same(self.phases[i - 1].phase_key.as_str(), phase_key) && self.phases[i
                - 1].attempt == attempt && text::same_option(
                &self.phases[i - 1].slot_id,
                slot_id,
            ) {
                let renewed = PhaseSnapshot {
                    phase_key: self.phases[i - 1].phase_key.dup(),
                    status: "finished".to_string(),
                    attempt,
                    slot_id: self.phases[i - 1].slot_id.dup(),
                    outcome: Some(outcome.to_string()),
                };
                self.phases.set(i - 1, renewed);
                assert(self.phases.deep_view() =~= done);
                return;
            }
            assert(before.skip(i - 1) =~= seq![part.last()] + before.skip(i as int));
            assert(done =~= with_finished(
                before.take(i - 1),
                phase_key@,
                attempt,
                slot_id.deep_view(),
                outcome@,
            ) + before.skip(i - 1));
            i -= 1;
        }
        assert(done =~= before);
    }

    /// Records that a phase never ran.
    pub fn skipped(&mut self, phase_key: &str, slot_id: Option<String>)
        ensures
            final(self).deep_view() == old(self).deep_view().push(
                skipped_phase(phase_key@, slot_id.deep_view()),
            ),
    {
        push(
            &mut self.phases,
            PhaseSnapshot {
                phase_key: phase_key.to_string(),
                status: "skipped".to_string(),
                attempt: 1,
                slot_id,
                outcome: Some(SKIP.to_string()),
            },
        );
    }
}

/// Finishing an attempt keeps the length, and every key, attempt and slot.
pub proof fn law_finishing_keeps_attempts(
    phases: Seq<PhaseSnapshotView>,
    phase_key: Seq<char>,
    attempt: u32,
    slot_id: Option<Seq<char>>,
    outcome: Seq<char>,
)
    ensures
        with_finished(phases, phase_key, attempt, slot_id, outcome).len() == phases.len(),
        forall|i: int|
            0 <= i < phases.len() ==> {
                let after = #[trigger] with_finished(
                    phases,
                    phase_key,
                    attempt,
                    slot_id,
                    outcome,
                )[i];
                &&& after.phase_key == phases[i].phase_key
                &&& after.attempt == phases[i].attempt
                &&& after.slot_id == phases[i].slot_id
            },
        forall|i: int|
            0 <= i < phases.len() && !is_attempt(phases[i], phase_key, attempt, slot_id)
                ==> #[trigger] with_finished(phases, phase_key, attempt, slot_id, outcome)[i]
                == phases[i],
    decreases phases.len(),
{
    if phases.len() > 0 && !is_attempt(phases.last(), phase_key, attempt, slot_id) {
        law_finishing_keeps_attempts(phases.drop_last(), phase_key, attempt, slot_id, outcome);
    }
}

/// An attempt that started and finished is on record as finished, with its
/// outcome.
pub proof fn law_started_then_finished(
    phases: Seq<PhaseSnapshotView>,
    phase_key: Seq<char>,
    attempt: u32,
    slot_id: Option<Seq<char>>,
    outcome: Seq<char>,
)
    ensures
        with_finished(
            phases.push(started_attempt(phase_key, attempt, slot_id)),
            phase_key,
            attempt,
            slot_id,
            outcome,
        ) == phases.push(
            PhaseSnapshotView {
                phase_key,
                status: "finished"@,
                attempt,
                slot_id,
                outcome: Some(outcome),
            },
        ),
{
    assert(phases.push(started_attempt(phase_key, attempt, slot_id)).drop_last() =~= phases);
}

} // verus!
