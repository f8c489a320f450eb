//! Asking the operator to identify a unit before the run.
//!
//! Identity belongs to the run and not to a phase, so no phase is announced
//! for it.

use vstd::prelude::*;
use vstd::string::*;
use crate::agent_proto::reader::{
    with_pending, without_pending, AgentSession, AgentSessionView, PendingRequestView,
};
use crate::connector::pump::{Answer, AnswerView};
use crate::dup::{push, Dup};
use crate::engine::model::{KeyText, KeyTextView};
use crate::event_router::{
    agent_components, stamp_text, to_both, Emission, EmissionView, EventRouter, EventRouterView,
};
use crate::agent_proto::events::CliEventView;
use crate::protocol::StationEventView;
use crate::time::Instant;
use crate::ui::{UiComponent, UiComponentView, UiRequestData, UiRequestDataView};

verus! {

/// A prompt that asks the operator to identify a unit.
#[derive(Debug, PartialEq, Eq)]
pub struct PromptRequest {
    pub request_id: String,
    pub slot_id: Option<String>,
    pub phase_key: String,
    pub components: Vec<UiComponent>,
}

/// View of [`PromptRequest`].
pub struct PromptRequestView {
    pub request_id: Seq<char>,
    pub slot_id: Option<Seq<char>>,
    pub phase_key: Seq<char>,
    pub components: Seq<UiComponentView>,
}

impl DeepView for PromptRequest {
    type V = PromptRequestView;

    open spec fn deep_view(&self) -> PromptRequestView {
        PromptRequestView {
            request_id: self.request_id.deep_view(),
            slot_id: self.slot_id.deep_view(),
            phase_key: self.phase_key.deep_view(),
            components: self.components.deep_view(),
        }
    }
}

impl Dup for PromptRequest {
    fn dup(&self) -> (copy: Self) {
        PromptRequest {
            request_id: self.request_id.dup(),
            slot_id: self.slot_id.dup(),
            phase_key: self.phase_key.dup(),
            components: self.components.dup(),
        }
    }
}

/// What came of asking for a unit.
#[derive(Debug, PartialEq, Eq)]
pub enum IdentifyResult {
    Values(Vec<KeyText>),
    Cancelled(String),
}

/// View of [`IdentifyResult`].
pub enum IdentifyResultView {
    Values(Seq<KeyTextView>),
    Cancelled(Seq<char>),
}

impl DeepView for IdentifyResult {
    type V = IdentifyResultView;

    open spec fn deep_view(&self) -> IdentifyResultView {
        match self {
            IdentifyResult::Values(v) => IdentifyResultView::Values(v.deep_view()),
            IdentifyResult::Cancelled(v) => IdentifyResultView::Cancelled(v.deep_view()),
        }
    }
}

/// What the end of such a prompt leads to.
#[derive(Debug, PartialEq, Eq)]
pub struct IdentifyEnd {
    pub emissions: Vec<Emission>,
    pub result: IdentifyResult,
    /// Whether the prompt is to be taken back from everywhere.
    pub cleanup: bool,
}

/// View of [`IdentifyEnd`].
pub struct IdentifyEndView {
    pub emissions: Seq<EmissionView>,
    pub result: IdentifyResultView,
    pub cleanup: bool,
}

impl DeepView for IdentifyEnd {
    type V = IdentifyEndView;

    open spec fn deep_view(&self) -> IdentifyEndView {
        IdentifyEndView {
            emissions: self.emissions.deep_view(),
            result: self.result.deep_view(),
            cleanup: self.cleanup.deep_view(),
        }
    }
}

/// The side of a run that asks for units.
pub struct CliIdentifyHost {
    pub router: EventRouter,
    /// Whether a terminal form can show prompts.
    pub has_terminal: bool,
    pub procedure_id: String,
    /// Whether anybody can answer: a terminal form, a kiosk, an agent or a
    /// dashboard.
    pub has_ui: bool,
}

/// The prompt as the terminal form sees it.
pub open spec fn form_request(req: PromptRequestView) -> UiRequestDataView {
    UiRequestDataView {
        request_id: req.request_id,
        job_id: Seq::empty(),
        pipe_path: Seq::empty(),
        components: req.components,
        requires_input: Some(true),
        requires_user_input: true,
        phase_key: req.phase_key,
        slot_id: req.slot_id,
    }
}

/// What goes out when a unit is asked for.
pub open spec fn ask_emissions(
    router: EventRouterView,
    has_terminal: bool,
    procedure_id: Seq<char>,
    req: PromptRequestView,
    now: Instant,
) -> Seq<EmissionView> {
    let announced = to_both(
        router.agent,
        StationEventView::IdentifyRequest {
            request_id: req.request_id,
            procedure_id: Some(procedure_id),
            slot_id: req.slot_id,
            components: Some(req.components),
            timestamp: Some(stamp_text(now)),
            execution_id: Some(router.execution_id),
        },
        CliEventView::IdentifyRequest {
            request_id: req.request_id,
            slot_id: req.slot_id,
            components: agent_components(req.components),
        },
    );
    if has_terminal {
        announced.push(EmissionView::Terminal(form_request(req)))
    } else {
        announced
    }
}

/// What the end of a prompt leads to: an answer, or a reason why there is
/// none. A unit is never taken as empty.
pub open spec fn ask_ended(
    router: EventRouterView,
    request_id: Seq<char>,
    answer: AnswerView,
) -> IdentifyEndView {
    match answer {
        AnswerView::Values(values) => IdentifyEndView {
            emissions: Seq::empty(),
            result: IdentifyResultView::Values(values),
            cleanup: false,
        },
        AnswerView::Closed => IdentifyEndView {
            emissions: Seq::empty(),
            result: IdentifyResultView::Cancelled(
                "operator UI channel closed before responding"@,
            ),
            cleanup: true,
        },
        AnswerView::TimedOut => IdentifyEndView {
            emissions: to_both(
                router.agent,
                StationEventView::IdentifyTimeout {
                    request_id,
                    execution_id: Some(router.execution_id),
                },
                CliEventView::IdentifyTimeout { request_id },
            ),
            result: IdentifyResultView::Cancelled("identify-unit prompt timed out"@),
            cleanup: true,
        },
    }
}

impl CliIdentifyHost {
    /// Whether anybody can be asked.
    pub fn can_prompt(&self) -> (yes: bool)
        ensures
            yes == self.has_ui,
    {
        self.has_ui
    }

    /// Asks for a unit.
    pub fn prompt(&self, req: &PromptRequest, now: Instant) -> (out: Vec<Emission>)
        ensures
            out.deep_view() == ask_emissions(
                self.router.deep_view(),
                self.has_terminal,
                self.procedure_id@,
                req.deep_view(),
                now,
            ),
    {
        let mut out = self.router.identify_request(
            req.request_id.as_str(),
            self.procedure_id.as_str(),
            req.slot_id.dup(),
            &req.components,
            now,
        );
        if self.has_terminal {
            push(
                &mut out,
                Emission::Terminal(
                    UiRequestData {
                        request_id: req.request_id.dup(),
                        job_id: String::new(),
                        pipe_path: String::new(),
                        components: req.components.dup(),
                        requires_input: Some(true),
                        requires_user_input: true,
                        phase_key: req.phase_key.dup(),
                        slot_id: req.slot_id.dup(),
                    },
                ),
            );
        }
        out
    }

    /// Ends a prompt.
    pub fn ended(&self, request_id: &str, answer: Answer) -> (end: IdentifyEnd)
        ensures
            end.deep_view() == ask_ended(self.router.deep_view(), request_id@, answer.deep_view()),
    {
        let none: Vec<Emission> = Vec::new();
        assert(none.deep_view() =~= Seq::empty());
        match answer {
            Answer::Values(values) => IdentifyEnd {
                emissions: none,
                result: IdentifyResult::Values(values),
                cleanup: false,
            },
            Answer::Closed => IdentifyEnd {
                emissions: none,
                result: IdentifyResult::Cancelled(
                    "operator UI channel closed before responding".to_string(),
                ),
                cleanup: true,
            },
            Answer::TimedOut => IdentifyEnd {
                emissions: self.router.identify_timeout(request_id),
                result: IdentifyResult::Cancelled("identify-unit prompt timed out".to_string()),
                cleanup: true,
            },
        }
    }
}

/// Registers the prompt with an agent, so that it can answer it and find it in
/// a snapshot of the run.
pub fn register(session: &mut AgentSession, req: &PromptRequest)
    ensures
        final(session).deep_view() == (AgentSessionView {
            pending: with_pending(
                old(session).deep_view().pending,
                req.request_id@,
                PendingRequestView {
                    phase_key: req.phase_key@,
                    components: req.components.deep_view(),
                },
            ),
            ..old(session).deep_view()
        }),
{
    session.pending.insert(req.request_id.dup(), req.phase_key.dup(), req.components.dup());
}

/// Takes the prompt back from an agent, so that a late answer is one to an
/// unknown request.
pub fn withdraw(session: &mut AgentSession, request_id: &str)
    ensures
        final(session).deep_view() == (AgentSessionView {
            pending: without_pending(old(session).deep_view().pending, request_id@),
            ..old(session).deep_view()
        }),
{
    let _gone = session.pending.remove(request_id);
}

/// How long the operator has, in milliseconds: as long as prompts wait in this
/// session, or a default. There is always a limit.
pub fn prompt_timeout(ui_timeout: Option<u64>, default_millis: u64) -> (millis: u64)
    ensures
        millis == (match ui_timeout {
            Some(ms) => ms,
            None => default_millis,
        }),
{
    match ui_timeout {
        Some(ms) => ms,
        None => default_millis,
    }
}

/// A prompt that was not answered is taken back everywhere, and never counts
/// as an answer.
pub proof fn law_unanswered_prompts_are_withdrawn(
    router: EventRouterView,
    request_id: Seq<char>,
    answer: AnswerView,
)
    ensures
        ask_ended(router, request_id, answer).cleanup <==> !(answer is Values),
        ask_ended(router, request_id, answer).result is Values <==> answer is Values,
        answer is TimedOut <==> ask_ended(router, request_id, answer).emissions.len() > 0,
{
}

} // verus!
