//! The end of a run on the streams.

use vstd::prelude::*;
use crate::agent_proto::events::{CliEvent, CliEventView};
use crate::dup::Dup;
use crate::engine::model::{KeyText, KeyTextView};
use crate::event_router::{Emission, EmissionView};
use crate::outcomes::ERROR;
use crate::protocol::{StationEvent, StationEventView};

verus! {

/// The end of a run for the station.
pub open spec fn run_complete_event(
    outcome: Seq<char>,
    execution_id: Seq<char>,
    run_id: Option<Seq<char>>,
    slot_outcomes: Seq<KeyTextView>,
) -> StationEventView {
    StationEventView::RunComplete {
        outcome,
        run_id,
        execution_id: Some(execution_id),
        slot_outcomes,
    }
}

/// Announces the end of a run.
pub fn run_complete(
    outcome: &str,
    execution_id: &str,
    run_id: Option<String>,
    slot_outcomes: Vec<KeyText>,
) -> (event: StationEvent)
    ensures
        event.deep_view() == run_complete_event(
            outcome@,
            execution_id@,
            run_id.deep_view(),
            slot_outcomes.deep_view(),
        ),
{
    StationEvent::RunComplete {
        outcome: outcome.to_string(),
        run_id,
        execution_id: Some(execution_id.to_string()),
        slot_outcomes,
    }
}

/// What goes out when a run crashes: the crash, then the end of the run as an
/// error, then the crash for the agent where there is one.
pub open spec fn run_crashed_emissions(
    agent: bool,
    procedure_id: Seq<char>,
    execution_id: Seq<char>,
    error_kind: Seq<char>,
    error: Seq<char>,
    exit_code: i32,
) -> Seq<EmissionView> {
    let station = seq![
        EmissionView::Station(
            StationEventView::RunCrashed {
                procedure_id,
                error,
                error_kind,
                execution_id: Some(execution_id),
            },
        ),
        EmissionView::Station(run_complete_event(ERROR@, execution_id, None, Seq::empty())),
    ];
    if agent {
        station.push(
            EmissionView::Agent(CliEventView::RunCrashed { exit_code, stderr_tail: error }),
        )
    } else {
        station
    }
}

/// Announces that a run crashed.
pub fn run_crashed(
    agent: bool,
    procedure_id: &str,
    execution_id: &str,
    error_kind: &str,
    error: &str,
    exit_code: i32,
) -> (out: Vec<Emission>)
    ensures
        out.deep_view() == run_crashed_emissions(
            agent,
            procedure_id@,
            execution_id@,
            error_kind@,
            error@,
            exit_code,
        ),
{
    let mut out: Vec<Emission> = Vec::new();
    out.push(
        Emission::Station(
            StationEvent::RunCrashed {
                procedure_id: procedure_id.to_string(),
                error: error.to_string(),
                error_kind: error_kind.to_string(),
                execution_id: Some(execution_id.to_string()),
            },
        ),
    );
    let none: Vec<KeyText> = Vec::new();
    assert(none.deep_view() =~= Seq::empty());
    out.push(Emission::Station(run_complete(ERROR, execution_id, None, none)));
    if agent {
        out.push(
            Emission::Agent(CliEvent::RunCrashed { exit_code, stderr_tail: error.to_string() }),
        );
    }
    assert(out.deep_view() =~= run_crashed_emissions(
        agent,
        procedure_id@,
        execution_id@,
        error_kind@,
        error@,
        exit_code,
    ));
    out
}

/// A crash is followed by the end of the run: exactly one end, an error, on
/// the identity of the run.
pub proof fn law_crash_ends_the_run(
    agent: bool,
    procedure_id: Seq<char>,
    execution_id: Seq<char>,
    error_kind: Seq<char>,
    error: Seq<char>,
    exit_code: i32,
)
    ensures
        ({
            let out = run_crashed_emissions(
                agent,
                procedure_id,
                execution_id,
                error_kind,
                error,
                exit_code,
            );
            &&& out[0] matches EmissionView::Station(StationEventView::RunCrashed { .. })
            &&& out[1] == EmissionView::Station(
                run_complete_event(ERROR@, execution_id, None, Seq::empty()),
            )
            &&& forall|i: int|
                0 <= i < out.len() && i != 1 ==> !((#[trigger] out[i]) matches EmissionView::Station(
                    StationEventView::RunComplete { .. },
                ))
        }),
{
}

} // verus!
