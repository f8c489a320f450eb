//! The agent that drives a run: its prompts and its commands.

use vstd::prelude::*;
use vstd::string::*;
use crate::agent_proto::ctx::{status_of, PhaseHistory, RunLifecycle};
use crate::agent_proto::events::{
    ActiveUiRequest, ActiveUiRequestView, CliCommand, CliCommandView, CliEvent, CliEventView,
    PhaseSnapshotView, RunStatus, SubmittedValue, SubmittedValueView, UiAutoContinueSource,
    UiErrorReason, PROTOCOL_VERSION,
};
use crate::agent_proto::prebaked::{values_for, PreBakedValues, PreBakedValuesView};
use crate::agent_proto::validate::{
    refusal_event, validate_and_coerce, validated, ValidationErrorView,
};
use crate::assoc;
use crate::assoc::{lookup, with_value, without_key};
use crate::dup::{push, Dup};
use crate::engine::model::{KeyText, KeyTextView};
use crate::event_router::{agent_components, to_agent_components};
use crate::json::{Json, JsonField, JsonFieldView, JsonView};
use crate::order::Keyed;
use crate::text;
use crate::text::trimmed;
use crate::ui::{UiComponent, UiComponentView, UiRequestData, UiRequestDataView};

verus! {

impl DeepView for RunLifecycle {
    type V = RunLifecycle;

    open spec fn deep_view(&self) -> RunLifecycle {
        *self
    }
}

/// A prompt that waits for an answer.
#[derive(Debug, PartialEq, Eq)]
pub struct PendingRequest {
    pub phase_key: String,
    pub components: Vec<UiComponent>,
}

/// View of [`PendingRequest`].
pub struct PendingRequestView {
    pub phase_key: Seq<char>,
    pub components: Seq<UiComponentView>,
}

impl DeepView for PendingRequest {
    type V = PendingRequestView;

    open spec fn deep_view(&self) -> PendingRequestView {
        PendingRequestView {
            phase_key: self.phase_key.deep_view(),
            components: self.components.deep_view(),
        }
    }
}

impl Dup for PendingRequest {
    fn dup(&self) -> (copy: Self) {
        PendingRequest {
            phase_key: self.phase_key.dup(),
            components: self.components.dup(),
        }
    }
}

/// A prompt that waits, with its identity.
#[derive(Debug, PartialEq, Eq)]
pub struct PendingEntry {
    pub request_id: String,
    pub request: PendingRequest,
}

/// View of [`PendingEntry`].
pub struct PendingEntryView {
    pub request_id: Seq<char>,
    pub request: PendingRequestView,
}

impl DeepView for PendingEntry {
    type V = PendingEntryView;

    open spec fn deep_view(&self) -> PendingEntryView {
        PendingEntryView {
            request_id: self.request_id.deep_view(),
            request: self.request.deep_view(),
        }
    }
}

impl Dup for PendingEntry {
    fn dup(&self) -> (copy: Self) {
        PendingEntry {
            request_id: self.request_id.dup(),
            request: self.request.dup(),
        }
    }
}

/// The prompts that wait for an answer.
#[derive(Debug, PartialEq, Eq)]
pub struct PendingRequests {
    pub entries: Vec<PendingEntry>,
}

/// View of [`PendingRequests`].
pub struct PendingRequestsView {
    pub entries: Seq<PendingEntryView>,
}

impl DeepView for PendingRequests {
    type V = PendingRequestsView;

    open spec fn deep_view(&self) -> PendingRequestsView {
        PendingRequestsView {
            entries: self.entries.deep_view(),
        }
    }
}

impl Dup for PendingRequests {
    fn dup(&self) -> (copy: Self) {
        PendingRequests {
            entries: self.entries.dup(),
        }
    }
}

/// What a command asks of the run.
#[derive(Debug, PartialEq, Eq)]
pub enum ReaderAction {
    Nothing,
    /// Answer a prompt.
    Respond {
        request_id: String,
        values: Vec<KeyText>,
    },
    /// Stop the run.
    Abort,
}

/// View of [`ReaderAction`].
pub enum ReaderActionView {
    Nothing,
    Respond {
        request_id: Seq<char>,
        values: Seq<KeyTextView>,
    },
    Abort,
}

impl DeepView for ReaderAction {
    type V = ReaderActionView;

    open spec fn deep_view(&self) -> ReaderActionView {
        match self {
            ReaderAction::Nothing => ReaderActionView::Nothing,
            ReaderAction::Respond { request_id, values } => ReaderActionView::Respond {
                request_id: request_id.deep_view(),
                values: values.deep_view(),
            },
            ReaderAction::Abort => ReaderActionView::Abort,
        }
    }
}

/// What a command leads to.
#[derive(Debug, PartialEq, Eq)]
pub struct ReaderStep {
    pub events: Vec<CliEvent>,
    pub action: ReaderAction,
}

/// View of [`ReaderStep`].
pub struct ReaderStepView {
    pub events: Seq<CliEventView>,
    pub action: ReaderActionView,
}

impl DeepView for ReaderStep {
    type V = ReaderStepView;

    open spec fn deep_view(&self) -> ReaderStepView {
        ReaderStepView {
            events: self.events.deep_view(),
            action: self.action.deep_view(),
        }
    }
}

/// An agent that drives a run.
#[derive(Debug, PartialEq, Eq)]
pub struct AgentSession {
    pub pending: PendingRequests,
    pub prebaked: PreBakedValues,
    /// How long prompts wait, in milliseconds.
    pub ui_timeout: Option<u64>,
    /// Whether the run can still be stopped by the agent.
    pub abort_armed: bool,
    pub lifecycle: RunLifecycle,
}

/// View of [`AgentSession`].
pub struct AgentSessionView {
    pub pending: PendingRequestsView,
    pub prebaked: PreBakedValuesView,
    pub ui_timeout: Option<u64>,
    pub abort_armed: bool,
    pub lifecycle: RunLifecycle,
}

impl DeepView for AgentSession {
    type V = AgentSessionView;

    open spec fn deep_view(&self) -> AgentSessionView {
        AgentSessionView {
            pending: self.pending.deep_view(),
            prebaked: self.prebaked.deep_view(),
            ui_timeout: self.ui_timeout.deep_view(),
            abort_armed: self.abort_armed.deep_view(),
            lifecycle: self.lifecycle.deep_view(),
        }
    }
}

/// What a prompt leads to.
#[derive(Debug, PartialEq, Eq)]
pub struct PromptStep {
    pub events: Vec<CliEvent>,
    /// The answer, where nobody needs to be asked.
    pub respond: Option<Vec<KeyText>>,
    /// How long the prompt waits, in milliseconds.
    pub timeout: Option<u64>,
}

/// View of [`PromptStep`].
pub struct PromptStepView {
    pub events: Seq<CliEventView>,
    pub respond: Option<Seq<KeyTextView>>,
    pub timeout: Option<u64>,
}

impl DeepView for PromptStep {
    type V = PromptStepView;

    open spec fn deep_view(&self) -> PromptStepView {
        PromptStepView {
            events: self.events.deep_view(),
            respond: self.respond.deep_view(),
            timeout: self.timeout.deep_view(),
        }
    }
}

impl Keyed for PendingEntry {
    open spec fn sort_key(value: PendingEntryView) -> Seq<char> {
        value.request_id
    }

    fn key_text(&self) -> (key: &str) {
        self.request_id.as_str()
    }
}

/// The prompt of a request.
pub open spec fn pending_of(p: PendingRequestsView, request_id: Seq<char>) -> Option<
    PendingRequestView,
> {
    match lookup::<PendingEntry>(p.entries, request_id) {
        Some(entry) => Some(entry.request),
        None => None,
    }
}

/// The prompts with one more.
pub open spec fn with_pending(
    p: PendingRequestsView,
    request_id: Seq<char>,
    request: PendingRequestView,
) -> PendingRequestsView {
    PendingRequestsView {
        entries: with_value::<PendingEntry>(p.entries, PendingEntryView { request_id, request }),
    }
}

/// The prompts without one.
pub open spec fn without_pending(p: PendingRequestsView, request_id: Seq<char>) -> PendingRequestsView {
    PendingRequestsView { entries: without_key::<PendingEntry>(p.entries, request_id) }
}

impl PendingRequests {
    /// No prompts.
    pub fn none() -> (pending: Self)
        ensures
            pending.deep_view().entries.len() == 0,
    {
        PendingRequests { entries: Vec::new() }
    }

    /// Registers a prompt.
    pub fn insert(&mut self, request_id: String, phase_key: String, components: Vec<UiComponent>)
        ensures
            final(self).deep_view() == with_pending(
                old(self).deep_view(),
                request_id@,
                PendingRequestView {
                    phase_key: phase_key@,
                    components: components.deep_view(),
                },
            ),
    {
        assoc::put(
            &mut self.entries,
            PendingEntry { request_id, request: PendingRequest { phase_key, components } },
        );
    }

    /// Takes a prompt out.
    pub fn remove(&mut self, request_id: &str) -> (request: Option<PendingRequest>)
        ensures
            request.deep_view() == pending_of(old(self).deep_view(), request_id@),
            final(self).deep_view() == without_pending(old(self).deep_view(), request_id@),
    {
        match assoc::take(&mut self.entries, request_id) {
            Some(entry) => Some(entry.request),
            None => None,
        }
    }

    /// The prompt of a request.
    pub fn get(&self, request_id: &str) -> (request: Option<&PendingRequest>)
        ensures
            request.deep_view() == pending_of(self.deep_view(), request_id@),
    {
        match assoc::get(&self.entries, request_id) {
            Some(entry) => Some(&entry.request),
            None => None,
        }
    }

    /// The prompt that has waited longest.
    pub fn first_entry(&self) -> (entry: Option<PendingEntry>)
        ensures
            entry.deep_view() == (if self.deep_view().entries.len() > 0 {
                Some(self.deep_view().entries[0])
            } else {
                None
            }),
    {
        if self.entries.len() > 0 {
            Some(self.entries[0].dup())
        } else {
            None
        }
    }

    /// Takes all prompts out.
    pub fn clear_all(&mut self)
        ensures
            final(self).deep_view().entries.len() == 0,
    {
        self.entries = Vec::new();
    }
}

// ---------------------------------------------------------------------------
// Commands
// ---------------------------------------------------------------------------

/// The command of a line; `None` where the line is blank.
pub open spec fn command_text_of(line: Seq<char>) -> Option<Seq<char>> {
    if trimmed(line).len() > 0 {
        Some(trimmed(line))
    } else {
        None
    }
}

/// The command of a line.
pub fn command_text(line: &str) -> (command: Option<String>)
    ensures
        command.deep_view() == command_text_of(line@),
{
    let kept = text::trim(line);
    if kept.as_str().is_empty() {
        None
    } else {
        Some(kept)
    }
}

/// What a line that is not a command is answered.
pub open spec fn parse_fault(command: Seq<char>) -> CliEventView {
    CliEventView::UiError {
        request_id: None,
        reason: UiErrorReason::ParseError,
        field: None,
        got: Some(JsonView::Text(command)),
        expected: Some("cli command NDJSON"@),
    }
}

/// Answers a line that is not a command.
pub fn parse_error(command: &str) -> (event: CliEvent)
    ensures
        event.deep_view() == parse_fault(command@),
{
    CliEvent::UiError {
        request_id: None,
        reason: UiErrorReason::ParseError,
        field: None,
        got: Some(Json::Text(command.to_string())),
        expected: Some("cli command NDJSON".to_string()),
    }
}

/// A refusal of a command to stop the run.
pub open spec fn abort_fault(got: Seq<char>, expected: Seq<char>) -> CliEventView {
    CliEventView::UiError {
        request_id: None,
        reason: UiErrorReason::InvalidState,
        field: Some("abort_run"@),
        got: Some(JsonView::Text(got)),
        expected: Some(expected),
    }
}

fn refuse_abort(got: &str, expected: &str) -> (event: CliEvent)
    ensures
        event.deep_view() == abort_fault(got@, expected@),
{
    CliEvent::UiError {
        request_id: None,
        reason: UiErrorReason::InvalidState,
        field: Some("abort_run".to_string()),
        got: Some(Json::Text(got.to_string())),
        expected: Some(expected.to_string()),
    }
}

/// A state and what a command leads to.
pub struct SessionProgress {
    pub session: AgentSessionView,
    pub step: ReaderStepView,
}

/// One event, and nothing asked of the run.
pub open spec fn tells(event: CliEventView) -> ReaderStepView {
    ReaderStepView { events: seq![event], action: ReaderActionView::Nothing }
}

fn telling(event: CliEvent) -> (step: ReaderStep)
    ensures
        step.deep_view() == tells(event.deep_view()),
{
    let mut events: Vec<CliEvent> = Vec::new();
    events.push(event);
    assert(events.deep_view() =~= seq![event.deep_view()]);
    ReaderStep { events, action: ReaderAction::Nothing }
}

/// An answer to a prompt: one to an unknown prompt and one that is not valid
/// are refused, and in the second case the prompt waits on.
pub open spec fn responded(
    s: AgentSessionView,
    request_id: Seq<char>,
    values: Seq<SubmittedValueView>,
) -> SessionProgress {
    match pending_of(s.pending, request_id) {
        None => SessionProgress {
            session: s,
            step: tells(
                CliEventView::UiError {
                    request_id: Some(request_id),
                    reason: UiErrorReason::UnknownRequest,
                    field: None,
                    got: None,
                    expected: Some("a pending request_id"@),
                },
            ),
        },
        Some(pending) => match validated(pending.components, values) {
            Ok(coerced) => SessionProgress {
                session: AgentSessionView {
                    pending: without_pending(s.pending, request_id),
                    ..s
                },
                step: ReaderStepView {
                    events: Seq::empty(),
                    action: ReaderActionView::Respond { request_id, values: coerced },
                },
            },
            Err(e) => SessionProgress {
                session: s,
                step: tells(refusal_event(e, request_id)),
            },
        },
    }
}

/// The prompt that a snapshot of the run shows.
pub open spec fn active_request(p: PendingRequestsView) -> Option<ActiveUiRequestView> {
    if p.entries.len() > 0 {
        Some(
            ActiveUiRequestView {
                request_id: p.entries[0].request_id,
                phase_key: p.entries[0].request.phase_key,
                components: agent_components(p.entries[0].request.components),
            },
        )
    } else {
        None
    }
}

/// A command to stop the run: heeded once, while the run is under way.
pub open spec fn aborted(s: AgentSessionView) -> SessionProgress {
    match s.lifecycle {
        RunLifecycle::NotStarted => SessionProgress {
            session: s,
            step: tells(
                abort_fault(
                    "not_started"@,
                    "run_status=running; wait for run_started before abort"@,
                ),
            ),
        },
        RunLifecycle::Finished => SessionProgress {
            session: s,
            step: tells(abort_fault("finished"@, "run_status=running; run already complete"@)),
        },
        RunLifecycle::Running => if s.abort_armed {
            SessionProgress {
                session: AgentSessionView { abort_armed: false, ..s },
                step: ReaderStepView { events: Seq::empty(), action: ReaderActionView::Abort },
            }
        } else {
            SessionProgress {
                session: s,
                step: tells(abort_fault("already_aborted"@, "a single abort_run per run"@)),
            }
        },
    }
}

/// What a command leads to.
pub open spec fn commanded(
    s: AgentSessionView,
    command: CliCommandView,
    history: Seq<PhaseSnapshotView>,
) -> SessionProgress {
    match command {
        CliCommandView::UiResponse { request_id, values } => responded(s, request_id, values),
        CliCommandView::GetState => SessionProgress {
            session: s,
            step: tells(
                CliEventView::StateSnapshot {
                    run_status: status_of(s.lifecycle),
                    phases: history,
                    active_ui_request: active_request(s.pending),
                },
            ),
        },
        CliCommandView::AbortRun => aborted(s),
    }
}

impl AgentSession {
    /// A session whose run has not started.
    pub fn new(prebaked: PreBakedValues, ui_timeout: Option<u64>) -> (session: Self)
        ensures
            session.deep_view() == (AgentSessionView {
                pending: PendingRequestsView { entries: Seq::empty() },
                prebaked: prebaked.deep_view(),
                ui_timeout,
                abort_armed: true,
                lifecycle: RunLifecycle::NotStarted,
            }),
    {
        let pending = PendingRequests::none();
        assert(pending.deep_view().entries =~= Seq::empty());
        AgentSession {
            pending,
            prebaked,
            ui_timeout,
            abort_armed: true,
            lifecycle: RunLifecycle::NotStarted,
        }
    }

    /// Records where the run stands.
    pub fn mark_lifecycle(&mut self, state: RunLifecycle)
        ensures
            final(self).deep_view() == (AgentSessionView {
                lifecycle: state,
                ..old(self).deep_view()
            }),
    {
        self.lifecycle = state;
    }

    /// Where the run stands, as the agent sees it.
    pub fn lifecycle_status(&self) -> (status: RunStatus)
        ensures
            status == status_of(self.lifecycle),
    {
        RunStatus::from(self.lifecycle)
    }

    fn respond(&mut self, request_id: String, values: Vec<SubmittedValue>) -> (step: ReaderStep)
        ensures
            (SessionProgress { session: final(self).deep_view(), step: step.deep_view() })
                == responded(old(self).deep_view(), request_id@, values.deep_view()),
    {
        let checked = match self.pending.get(request_id.as_str()) {
            Some(pending) => validate_and_coerce(&pending.components, &values),
            None => {
                return telling(
                    CliEvent::UiError {
                        request_id: Some(request_id),
                        reason: UiErrorReason::UnknownRequest,
                        field: None,
                        got: None,
                        expected: Some("a pending request_id".to_string()),
                    },
                );
            },
        };
        match checked {
            Ok(coerced) => {
                let _gone = self.pending.remove(request_id.as_str());
                let events: Vec<CliEvent> = Vec::new();
                assert(events.deep_view() =~= Seq::empty());
                ReaderStep {
                    events,
                    action: ReaderAction::Respond { request_id, values: coerced },
                }
            },
            Err(e) => telling(e.into_event(request_id.as_str())),
        }
    }

    fn abort(&mut self) -> (step: ReaderStep)
        ensures
            (SessionProgress { session: final(self).deep_view(), step: step.deep_view() })
                == aborted(old(self).deep_view()),
    {
        match self.lifecycle {
            RunLifecycle::NotStarted => telling(
                refuse_abort(
                    "not_started",
                    "run_status=running; wait for run_started before abort",
                ),
            ),
            RunLifecycle::Finished => telling(
                refuse_abort("finished", "run_status=running; run already complete"),
            ),
            RunLifecycle::Running => {
                if self.abort_armed {
                    self.abort_armed = false;
                    let events: Vec<CliEvent> = Vec::new();
                    assert(events.deep_view() =~= Seq::empty());
                    ReaderStep { events, action: ReaderAction::Abort }
                } else {
                    telling(refuse_abort("already_aborted", "a single abort_run per run"))
                }
            },
        }
    }

    /// Takes a command of the agent in.
    pub fn command(&mut self, command: CliCommand, history: &PhaseHistory) -> (step: ReaderStep)
        ensures
            (SessionProgress { session: final(self).deep_view(), step: step.deep_view() })
                == commanded(old(self).deep_view(), command.deep_view(), history.deep_view()),
    {
        match command {
            CliCommand::UiResponse { request_id, values } => self.respond(request_id, values),
            CliCommand::GetState => {
                let active_ui_request = match self.pending.first_entry() {
                    Some(entry) => Some(
                        ActiveUiRequest {
                            request_id: entry.request_id,
                            phase_key: entry.request.phase_key,
                            components: to_agent_components(&entry.request.components),
                        },
                    ),
                    None => None,
                };
                telling(
                    CliEvent::StateSnapshot {
                        run_status: self.lifecycle_status(),
                        phases: history.phases.dup(),
                        active_ui_request,
                    },
                )
            },
            CliCommand::AbortRun => self.abort(),
        }
    }
}

// ---------------------------------------------------------------------------
// Prompts
// ---------------------------------------------------------------------------

/// Whether values are given for every required input.
pub open spec fn all_ready(
    components: Seq<UiComponentView>,
    values: Seq<SubmittedValueView>,
) -> bool {
    forall|i: int|
        0 <= i < components.len() && (#[trigger] components[i]).is_input && components[i].required
            ==> lookup::<SubmittedValue>(values, components[i].key) is Some
}

fn is_ready(components: &Vec<UiComponent>, values: &Vec<SubmittedValue>) -> (yes: bool)
    ensures
        yes == all_ready(components.deep_view(), values.deep_view()),
{
    let mut i: usize = 0;
    while i < components.len()
        invariant
            i <= components@.len(),
            forall|k: int|
                0 <= k < i && (#[trigger] components.deep_view()[k]).is_input
                    && components.deep_view()[k].required ==> lookup::<SubmittedValue>(
                    values.deep_view(),
                    components.deep_view()[k].key,
                ) is Some,
        decreases components@.len() - i,
    {
        assert(components.deep_view()[i as int] == components@[i as int].deep_view());
        if components[i].is_input && components[i].required {
            match assoc::get(values, components[i].key.as_str()) {
                Some(_) => {},
                None => {
                    return false;
                },
            }
        }
        i += 1;
    }
    true
}

/// The values that are given for the inputs of a prompt.
pub open spec fn ready_values(
    components: Seq<UiComponentView>,
    values: Seq<SubmittedValueView>,
) -> Seq<SubmittedValueView>
    decreases components.len(),
{
    if components.len() == 0 {
        Seq::empty()
    } else {
        let rest = ready_values(components.drop_last(), values);
        let c = components.last();
        match lookup::<SubmittedValue>(values, c.key) {
            Some(v) => if c.is_input {
                with_value::<SubmittedValue>(rest, v)
            } else {
                rest
            },
            None => rest,
        }
    }
}

fn collect_ready(components: &Vec<UiComponent>, values: &Vec<SubmittedValue>) -> (out: Vec<
    SubmittedValue,
>)
    ensures
        out.deep_view() == ready_values(components.deep_view(), values.deep_view()),
{
    let mut out: Vec<SubmittedValue> = Vec::new();
    let mut i: usize = 0;
    assert(out.deep_view() =~= ready_values(components.deep_view().take(0), values.deep_view()));
    while i < components.len()
        invariant
            i <= components@.len(),
            out.deep_view() == ready_values(
                components.deep_view().take(i as int),
                values.deep_view(),
            ),
        decreases components@.len() - i,
    {
        let ghost seen = components.deep_view().take(i + 1);
        assert(seen.drop_last() =~= components.deep_view().take(i as int));
        assert(seen.last() == components@[i as int].deep_view());
        match assoc::get(values, components[i].key.as_str()) {
            Some(v) => {
                if components[i].is_input {
                    assoc::put(&mut out, v.dup());
                }
            },
            None => {},
        }
        i += 1;
    }
    assert(components.deep_view().take(components@.len() as int) =~= components.deep_view());
    out
}

/// Submitted values as members of an object.
pub open spec fn as_fields(values: Seq<SubmittedValueView>) -> Seq<JsonFieldView> {
    values.map_values(|v: SubmittedValueView| JsonFieldView { key: v.key, value: v.value })
}

fn to_fields(values: &Vec<SubmittedValue>) -> (out: Vec<JsonField>)
    ensures
        out.deep_view() == as_fields(values.deep_view()),
{
    let mut out: Vec<JsonField> = Vec::new();
    let mut i: usize = 0;
    while i < values.len()
        invariant
            i <= values@.len(),
            out@.len() == i,
            forall|k: int|
                0 <= k < i ==> (#[trigger] out@[k]).deep_view() == (JsonFieldView {
                    key: values@[k].key@,
                    value: values@[k].value.deep_view(),
                }),
        decreases values@.len() - i,
    {
        out.push(JsonField { key: values[i].key.dup(), value: values[i].value.dup() });
        i += 1;
    }
    assert(out.deep_view() =~= as_fields(values.deep_view()));
    out
}

/// What the given values make of a prompt: an answer, a refusal, or nothing
/// where they do not cover every required input.
pub open spec fn prebaked_answer(s: AgentSessionView, request: UiRequestDataView) -> Option<
    Result<(Seq<KeyTextView>, Seq<SubmittedValueView>), ValidationErrorView>,
> {
    match values_for(s.prebaked, request.phase_key) {
        Some(given) => if all_ready(request.components, given) {
            let values = ready_values(request.components, given);
            match validated(request.components, values) {
                Ok(coerced) => Some(Ok((coerced, values))),
                Err(e) => Some(Err(e)),
            }
        } else {
            None
        },
        None => None,
    }
}

/// The prompt is answered without asking.
pub open spec fn continued(
    request: UiRequestDataView,
    source: UiAutoContinueSource,
    values: Seq<JsonFieldView>,
) -> CliEventView {
    CliEventView::UiAutoContinue {
        request_id: request.request_id,
        phase_key: request.phase_key,
        source,
        values,
    }
}

/// The prompt as the agent is asked it.
pub open spec fn asked(request: UiRequestDataView) -> CliEventView {
    CliEventView::UiRequest {
        request_id: request.request_id,
        phase_key: request.phase_key,
        phase_description: None,
        requires_input: request.requires_user_input,
        components: agent_components(request.components),
    }
}

/// The events that come before a prompt is asked: the refusal of given values
/// that are not valid.
pub open spec fn refused_values(s: AgentSessionView, request: UiRequestDataView) -> Seq<
    CliEventView,
> {
    match prebaked_answer(s, request) {
        Some(Err(e)) => seq![refusal_event(e, request.request_id)],
        _ => Seq::empty(),
    }
}

/// A state and what a prompt leads to.
pub struct PromptProgress {
    pub session: AgentSessionView,
    pub step: PromptStepView,
}

/// A prompt of a phase: given values answer it first; where it only shows
/// something it is answered at once; else the agent is asked.
pub open spec fn prompted(s: AgentSessionView, request: UiRequestDataView) -> PromptProgress {
    match prebaked_answer(s, request) {
        Some(Ok(answer)) => PromptProgress {
            session: s,
            step: PromptStepView {
                events: seq![
                    continued(request, UiAutoContinueSource::PreBaked, as_fields(answer.1)),
                ],
                respond: Some(answer.0),
                timeout: None,
            },
        },
        _ => if !request.requires_user_input {
            PromptProgress {
                session: s,
                step: PromptStepView {
                    events: refused_values(s, request).push(
                        continued(request, UiAutoContinueSource::DisplayOnly, Seq::empty()),
                    ),
                    respond: Some(Seq::empty()),
                    timeout: None,
                },
            }
        } else {
            PromptProgress {
                session: AgentSessionView {
                    pending: with_pending(
                        s.pending,
                        request.request_id,
                        PendingRequestView {
                            phase_key: request.phase_key,
                            components: request.components,
                        },
                    ),
                    ..s
                },
                step: PromptStepView {
                    events: refused_values(s, request).push(asked(request)),
                    respond: None,
                    timeout: s.ui_timeout,
                },
            }
        },
    }
}

/// A prompt has waited long enough: the agent hears of it, unless it was
/// answered in the meantime.
pub open spec fn timed_out(
    s: AgentSessionView,
    request_id: Seq<char>,
    phase_key: Seq<char>,
) -> Option<CliEventView> {
    match pending_of(s.pending, request_id) {
        Some(_) => Some(CliEventView::UiTimeout { request_id, phase_key }),
        None => None,
    }
}

impl AgentSession {
    /// Takes a prompt of a phase in.
    pub fn handle_agent_ui_request(&mut self, request: &UiRequestData) -> (step: PromptStep)
        ensures
            (PromptProgress { session: final(self).deep_view(), step: step.deep_view() })
                == prompted(old(self).deep_view(), request.deep_view()),
    {
        let mut events: Vec<CliEvent> = Vec::new();
        assert(events.deep_view() =~= Seq::empty());
        match self.prebaked.for_phase(request.phase_key.as_str()) {
            Some(given) => {
                if is_ready(&request.components, given) {
                    let values = collect_ready(&request.components, given);
                    match validate_and_coerce(&request.components, &values) {
                        Ok(coerced) => {
                            push(
                                &mut events,
                                CliEvent::UiAutoContinue {
                                    request_id: request.request_id.dup(),
                                    phase_key: request.phase_key.dup(),
                                    source: UiAutoContinueSource::PreBaked,
                                    values: to_fields(&values),
                                },
                            );
                            assert(events.deep_view() =~= seq![
                                continued(
                                    request.deep_view(),
                                    UiAutoContinueSource::PreBaked,
                                    as_fields(values.deep_view()),
                                ),
                            ]);
                            return PromptStep { events, respond: Some(coerced), timeout: None };
                        },
                        Err(e) => {
                            push(&mut events, e.into_event(request.request_id.as_str()));
                            assert(events.deep_view() =~= seq![
                                refusal_event(e.deep_view(), request.request_id@),
                            ]);
                        },
                    }
                }
            },
            None => {},
        }
        assert(events.deep_view() == refused_values(self.deep_view(), request.deep_view()));
        if !request.requires_user_input {
            let none: Vec<JsonField> = Vec::new();
            let empty: Vec<KeyText> = Vec::new();
            assert(none.deep_view() =~= Seq::empty());
            assert(empty.deep_view() =~= Seq::empty());
            push(
                &mut events,
                CliEvent::UiAutoContinue {
                    request_id: request.request_id.dup(),
                    phase_key: request.phase_key.dup(),
                    source: UiAutoContinueSource::DisplayOnly,
                    values: none,
                },
            );
            return PromptStep { events, respond: Some(empty), timeout: None };
        }
        self.pending.insert(
            request.request_id.dup(),
            request.phase_key.dup(),
            request.components.dup(),
        );
        push(
            &mut events,
            CliEvent::UiRequest {
                request_id: request.request_id.dup(),
                phase_key: request.phase_key.dup(),
                phase_description: None,
                requires_input: request.requires_user_input,
                components: to_agent_components(&request.components),
            },
        );
        PromptStep { events, respond: None, timeout: self.ui_timeout }
    }

    /// A prompt has waited long enough.
    pub fn ui_timed_out(&mut self, request_id: &str, phase_key: &str) -> (event: Option<CliEvent>)
        ensures
            event.deep_view() == timed_out(old(self).deep_view(), request_id@, phase_key@),
            final(self).deep_view() == (AgentSessionView {
                pending: without_pending(old(self).deep_view().pending, request_id@),
                ..old(self).deep_view()
            }),
    {
        match self.pending.remove(request_id) {
            Some(_) => Some(
                CliEvent::UiTimeout {
                    request_id: request_id.to_string(),
                    phase_key: phase_key.to_string(),
                },
            ),
            None => None,
        }
    }

    /// The agent is gone: no prompt waits any more.
    pub fn close(&mut self)
        ensures
            final(self).deep_view().pending.entries.len() == 0,
            final(self).deep_view().prebaked == old(self).deep_view().prebaked,
            final(self).deep_view().ui_timeout == old(self).deep_view().ui_timeout,
            final(self).deep_view().abort_armed == old(self).deep_view().abort_armed,
            final(self).deep_view().lifecycle == old(self).deep_view().lifecycle,
    {
        self.pending.clear_all();
    }
}

// ---------------------------------------------------------------------------
// The start of a session
// ---------------------------------------------------------------------------

/// What the command line says of the agent protocol.
#[derive(Debug, PartialEq, Eq)]
pub struct Options {
    /// How long prompts wait, in seconds.
    pub ui_timeout_secs: Option<u64>,
    /// The file of values that answer prompts.
    pub ui_values: Option<String>,
}

/// Whether an agent drives the run: in JSON mode, where no terminal form does.
pub open spec fn agent_drives(json_mode: bool, tui_enabled: bool) -> bool {
    json_mode && !tui_enabled
}

/// A number of seconds in milliseconds, as far as it can be written.
pub open spec fn in_millis(seconds: Option<u64>) -> Option<u64> {
    match seconds {
        Some(s) => if s <= u64::MAX / 1000 {
            Some((s * 1000) as u64)
        } else {
            Some(u64::MAX)
        },
        None => None,
    }
}

fn to_millis(seconds: Option<u64>) -> (out: Option<u64>)
    ensures
        out == in_millis(seconds),
{
    match seconds {
        Some(s) => if s <= u64::MAX / 1000 {
            Some(s * 1000)
        } else {
            Some(u64::MAX)
        },
        None => None,
    }
}

/// Starts a session, where an agent drives the run. The run counts as under
/// way before it is announced. Values that could not be loaded end it with
/// exit code one.
pub fn initialize(
    json_mode: bool,
    tui_enabled: bool,
    procedure_id: &str,
    options: &Options,
    prebaked: Result<PreBakedValues, String>,
) -> (out: Result<Option<(AgentSession, CliEvent)>, i32>)
    ensures
        !agent_drives(json_mode, tui_enabled) ==> out == Ok::<
            Option<(AgentSession, CliEvent)>,
            i32,
        >(None),
        agent_drives(json_mode, tui_enabled) && prebaked is Err && options.ui_values is Some
            ==> out == Err::<Option<(AgentSession, CliEvent)>, i32>(1),
        agent_drives(json_mode, tui_enabled) && !(prebaked is Err && options.ui_values is Some)
            ==> {
            &&& out is Ok
            &&& out->Ok_0 is Some
            &&& out->Ok_0->Some_0.0.deep_view() == (AgentSessionView {
                pending: PendingRequestsView { entries: Seq::empty() },
                prebaked: if options.ui_values is Some {
                    prebaked->Ok_0.deep_view()
                } else {
                    PreBakedValuesView { phases: Seq::empty() }
                },
                ui_timeout: in_millis(options.ui_timeout_secs),
                abort_armed: true,
                lifecycle: RunLifecycle::Running,
            })
            &&& out->Ok_0->Some_0.1.deep_view() == (CliEventView::RunStarted {
                procedure_id: procedure_id@,
                protocol_version: PROTOCOL_VERSION@,
            })
        },
{
    if !json_mode || tui_enabled {
        return Ok(None);
    }
    let values = match &options.ui_values {
        Some(_) => match prebaked {
            Ok(values) => values,
            Err(_) => {
                return Err(1);
            },
        },
        None => {
            let none = PreBakedValues::none();
            assert(none.deep_view().phases =~= Seq::empty());
            none
        },
    };
    let mut session = AgentSession::new(values, to_millis(options.ui_timeout_secs));
    session.mark_lifecycle(RunLifecycle::Running);
    Ok(
        Some(
            (
                session,
                CliEvent::RunStarted {
                    procedure_id: procedure_id.to_string(),
                    protocol_version: PROTOCOL_VERSION.to_string(),
                },
            ),
        ),
    )
}

// ---------------------------------------------------------------------------
// Laws
// ---------------------------------------------------------------------------

/// A prompt that was answered is not known any more: a second answer to it is
/// refused as one to an unknown request.
pub proof fn law_a_prompt_is_answered_once(
    s: AgentSessionView,
    request_id: Seq<char>,
    values: Seq<SubmittedValueView>,
    again: Seq<SubmittedValueView>,
)
    requires
        assoc::one_per_key::<PendingEntry>(s.pending.entries),
        responded(s, request_id, values).step.action is Respond,
    ensures
        ({
            let after = responded(s, request_id, values).session;
            let second = responded(after, request_id, again);
            &&& second.session == after
            &&& second.step.action is Nothing
            &&& second.step.events.len() == 1
            &&& second.step.events[0] matches CliEventView::UiError { reason, .. } && reason
                == UiErrorReason::UnknownRequest
        }),
{
    assoc::lemma_without_key::<PendingEntry>(s.pending.entries, request_id, request_id);
}

/// An answer that is not valid leaves the prompt waiting: the agent may try
/// again.
pub proof fn law_invalid_answers_keep_the_prompt(
    s: AgentSessionView,
    request_id: Seq<char>,
    values: Seq<SubmittedValueView>,
)
    ensures
        responded(s, request_id, values).step.action is Nothing ==> responded(
            s,
            request_id,
            values,
        ).session == s,
        responded(s, request_id, values).step.action is Nothing <==> responded(
            s,
            request_id,
            values,
        ).step.events.len() == 1,
{
}

/// A prompt that given values answer is never registered, so a late answer to
/// it is one to an unknown request.
pub proof fn law_given_values_win(s: AgentSessionView, request: UiRequestDataView)
    ensures
        prebaked_answer(s, request) matches Some(Ok(_)) ==> prompted(s, request).session == s
            && prompted(s, request).step.respond is Some,
        prompted(s, request).step.respond is Some ==> prompted(s, request).session == s,
{
}

/// A prompt is either answered at once or registered to be answered.
pub proof fn law_every_prompt_is_answered_or_waits(s: AgentSessionView, request: UiRequestDataView)
    ensures
        prompted(s, request).step.respond is None ==> pending_of(
            prompted(s, request).session.pending,
            request.request_id,
        ) == Some(
            PendingRequestView {
                phase_key: request.phase_key,
                components: request.components,
            },
        ),
{
    assoc::lemma_with_value::<PendingEntry>(
        s.pending.entries,
        PendingEntryView {
            request_id: request.request_id,
            request: PendingRequestView {
                phase_key: request.phase_key,
                components: request.components,
            },
        },
        request.request_id,
    );
}

/// The run is stopped by the agent at most once, and only while it is under
/// way.
pub proof fn law_abort_is_heeded_once(s: AgentSessionView)
    ensures
        aborted(s).step.action is Abort <==> s.lifecycle is Running && s.abort_armed,
        aborted(aborted(s).session).step.action is Nothing,
{
}

/// No identity is pending twice: this holds at first, and every operation
/// keeps it.
pub proof fn law_pending_stays_distinct(
    p: PendingRequestsView,
    request_id: Seq<char>,
    request: PendingRequestView,
)
    requires
        assoc::one_per_key::<PendingEntry>(p.entries),
    ensures
        assoc::one_per_key::<PendingEntry>(with_pending(p, request_id, request).entries),
        assoc::one_per_key::<PendingEntry>(without_pending(p, request_id).entries),
{
    assoc::lemma_with_value::<PendingEntry>(
        p.entries,
        PendingEntryView { request_id, request },
        request_id,
    );
    assoc::lemma_without_key::<PendingEntry>(p.entries, request_id, request_id);
}

} // verus!
