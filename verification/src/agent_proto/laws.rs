//! What an agent is told, and what its commands and its answers lead to.

use vstd::prelude::*;
use crate::agent_proto::ctx::with_finished;
use crate::agent_proto::emitter::{
    after_next, internal_error, next_event, numbered, with_event, EmitterView,
};
use crate::agent_proto::events::{
    CliCommandView, CliEventView, PhaseSnapshotView, RunStatus, SubmittedValue, SubmittedValueView,
    UiAutoContinueSource, UiErrorReason,
};
use crate::agent_proto::prebaked::{
    location_fault, values_for, values_of_text, PhaseValues, PreBakedValuesView, ResolvedPathView,
};
use crate::agent_proto::reader::{
    agent_drives, all_ready, commanded, command_text_of, in_millis, parse_fault, pending_of, prompted,
    ready_values, timed_out, AgentSessionView, PendingEntry, PendingEntryView, PendingRequestView,
    ReaderActionView,
};
use crate::agent_proto::validate::{refusal_event, validated};
use crate::assoc;
use crate::assoc::lookup;
use crate::event_router::agent_components;
use crate::json::{json_of_text, JsonField, JsonFieldView, JsonView};
use crate::text::{decimal, trimmed};
use crate::ui::{UiComponentView, UiRequestDataView};

verus! {

/// The prompt that waits under an identity is the first of it.
pub proof fn law_prompts_wait_by_their_identity(s: AgentSessionView, request_id: Seq<char>, k: int)
    ensures
        ({
            let waiting = s.pending.entries;
            &&& 0 <= k < waiting.len() && waiting[k].request_id == request_id && (forall|j: int|
                0 <= j < k ==> (#[trigger] waiting[j]).request_id != request_id) ==> pending_of(
                s.pending,
                request_id,
            ) == Some(waiting[k].request)
            &&& (forall|j: int|
                0 <= j < waiting.len() ==> (#[trigger] waiting[j]).request_id != request_id)
                ==> pending_of(s.pending, request_id) is None
        }),
{
    let waiting = s.pending.entries;
    if 0 <= k < waiting.len() && waiting[k].request_id == request_id && (forall|j: int|
        0 <= j < k ==> (#[trigger] waiting[j]).request_id != request_id) {
        assoc::lemma_key_index_unique::<PendingEntry>(waiting, request_id, k);
    }
    if forall|j: int| 0 <= j < waiting.len() ==> (#[trigger] waiting[j]).request_id != request_id {
        assoc::lemma_key_index_unique::<PendingEntry>(waiting, request_id, waiting.len() as int);
    }
}

/// An answer goes to the prompt that waits for it, once it is valid; one that
/// is not is refused, and so is one that nobody waits for.
pub proof fn law_answers_reach_their_prompt(
    s: AgentSessionView,
    request_id: Seq<char>,
    values: Seq<SubmittedValueView>,
    history: Seq<PhaseSnapshotView>,
    other: Seq<char>,
)
    requires
        assoc::one_per_key::<PendingEntry>(s.pending.entries),
    ensures
        ({
            let after = commanded(s, CliCommandView::UiResponse { request_id, values }, history);
            &&& pending_of(s.pending, request_id) is None ==> {
                &&& after.session == s
                &&& after.step.action is Nothing
                &&& after.step.events.len() == 1
                &&& after.step.events[0] matches CliEventView::UiError {
                    request_id: id,
                    reason,
                    field,
                    got,
                    expected,
                } && id == Some(request_id) && reason == UiErrorReason::UnknownRequest && field
                    is None && got is None && expected == Some("a pending request_id"@)
            }
            &&& pending_of(s.pending, request_id) matches Some(prompt) ==> match validated(
                prompt.components,
                values,
            ) {
                Ok(recorded) => {
                    &&& after.step.action == (ReaderActionView::Respond {
                        request_id,
                        values: recorded,
                    })
                    &&& after.step.events.len() == 0
                    &&& pending_of(after.session.pending, request_id) is None
                    &&& other != request_id ==> pending_of(after.session.pending, other)
                        == pending_of(s.pending, other)
                    &&& after.session == (AgentSessionView { pending: after.session.pending, ..s })
                },
                Err(e) => {
                    &&& after.session == s
                    &&& after.step.action is Nothing
                    &&& after.step.events.len() == 1
                    &&& after.step.events[0] == refusal_event(e, request_id)
                },
            }
        }),
{
    assoc::lemma_without_key::<PendingEntry>(s.pending.entries, request_id, other);
}

/// An agent that asks where the run stands is told: its state, its phases, and
/// the first prompt that waits.
pub proof fn law_agents_are_told_the_state(s: AgentSessionView, history: Seq<PhaseSnapshotView>)
    ensures
        ({
            let after = commanded(s, CliCommandView::GetState, history);
            &&& after.session == s
            &&& after.step.action is Nothing
            &&& after.step.events.len() == 1
            &&& after.step.events[0] matches CliEventView::StateSnapshot {
                run_status,
                phases,
                active_ui_request,
            } && {
                &&& run_status == RunStatus::NotStarted <==> s.lifecycle is NotStarted
                &&& run_status == RunStatus::Running <==> s.lifecycle is Running
                &&& run_status == RunStatus::Finished <==> s.lifecycle is Finished
                &&& phases == history
                &&& active_ui_request is Some <==> s.pending.entries.len() > 0
                &&& active_ui_request matches Some(shown) ==> {
                    let first = s.pending.entries[0];
                    &&& shown.request_id == first.request_id
                    &&& shown.phase_key == first.request.phase_key
                    &&& shown.components == agent_components(first.request.components)
                }
            }
        }),
{
}

/// A run is aborted once, while it is under way; any other time the agent is
/// told why not.
pub proof fn law_aborts_are_heeded(s: AgentSessionView, history: Seq<PhaseSnapshotView>)
    ensures
        ({
            let after = commanded(s, CliCommandView::AbortRun, history);
            let heeded = s.lifecycle is Running && s.abort_armed;
            &&& after.step.action is Abort <==> heeded
            &&& after.step.action is Nothing <==> !heeded
            &&& heeded ==> after.step.events.len() == 0 && after.session == (AgentSessionView {
                abort_armed: false,
                ..s
            })
            &&& !heeded ==> {
                &&& after.session == s
                &&& after.step.events.len() == 1
                &&& after.step.events[0] matches CliEventView::UiError {
                    request_id,
                    reason,
                    field,
                    got,
                    expected,
                } && {
                    &&& request_id is None
                    &&& reason == UiErrorReason::InvalidState
                    &&& field == Some("abort_run"@)
                    &&& s.lifecycle is NotStarted ==> got == Some(JsonView::Text("not_started"@))
                        && expected == Some(
                        "run_status=running; wait for run_started before abort"@,
                    )
                    &&& s.lifecycle is Finished ==> got == Some(JsonView::Text("finished"@))
                        && expected == Some("run_status=running; run already complete"@)
                    &&& s.lifecycle is Running ==> got == Some(JsonView::Text("already_aborted"@))
                        && expected == Some("a single abort_run per run"@)
                }
            }
        }),
{
}

/// A line is a command without the white space around it; a blank line is none,
/// and one that cannot be read is answered with itself.
pub proof fn law_lines_are_commands(line: Seq<char>)
    ensures
        command_text_of(line) is None <==> trimmed(line).len() == 0,
        command_text_of(line) is Some ==> command_text_of(line)->0 == trimmed(line),
        parse_fault(line) matches CliEventView::UiError { request_id, reason, field, got, expected }
            && request_id is None && reason == UiErrorReason::ParseError && field is None && got
            == Some(JsonView::Text(line)) && expected == Some("cli command NDJSON"@),
{
}

/// Whether values are given for every input of a prompt that is required.
pub open spec fn covers(components: Seq<UiComponentView>, values: Seq<SubmittedValueView>) -> bool {
    forall|i: int|
        0 <= i < components.len() && (#[trigger] components[i]).is_input && components[i].required
            ==> exists|k: int|
            0 <= k < values.len() && (#[trigger] values[k]).key == components[i].key
}

proof fn lemma_covers(components: Seq<UiComponentView>, values: Seq<SubmittedValueView>)
    ensures
        covers(components, values) <==> all_ready(components, values),
{
    assert forall|key: Seq<char>|
        (#[trigger] lookup::<SubmittedValue>(values, key) is Some) <==> exists|k: int|
            0 <= k < values.len() && (#[trigger] values[k]).key == key by {
        assoc::lemma_key_index::<SubmittedValue>(values, key);
        let i = assoc::key_index::<SubmittedValue>(values, key);
        if i < values.len() {
            assert(values[i].key == key);
        }
    }
    if covers(components, values) {
        assert forall|i: int|
            0 <= i < components.len() && (#[trigger] components[i]).is_input
                && components[i].required implies lookup::<SubmittedValue>(
            values,
            components[i].key,
        ) is Some by {}
    }
    if all_ready(components, values) {
        assert forall|i: int|
            0 <= i < components.len() && (#[trigger] components[i]).is_input
                && components[i].required implies exists|k: int|
            0 <= k < values.len() && (#[trigger] values[k]).key == components[i].key by {
            assert(lookup::<SubmittedValue>(values, components[i].key) is Some);
        }
    }
}

/// Whether values given beforehand answer a prompt: they are given for its
/// phase, for every required input, and are valid.
pub open spec fn given_answer(s: AgentSessionView, request: UiRequestDataView) -> bool {
    values_for(s.prebaked, request.phase_key) matches Some(given) && covers(
        request.components,
        given,
    ) && validated(request.components, ready_values(request.components, given)) is Ok
}

/// Whether values given beforehand are refused for a prompt.
pub open spec fn given_refused(s: AgentSessionView, request: UiRequestDataView) -> bool {
    values_for(s.prebaked, request.phase_key) matches Some(given) && covers(
        request.components,
        given,
    ) && validated(request.components, ready_values(request.components, given)) is Err
}

/// A prompt is answered by the values given for its phase, where they answer
/// it; one that only shows something is answered at once; any other is put to
/// the agent and waits. Given values that are refused are told first.
pub proof fn law_prompts_are_answered(s: AgentSessionView, request: UiRequestDataView)
    ensures
        ({
            let after = prompted(s, request);
            let n = if given_refused(s, request) {
                1int
            } else {
                0
            };
            &&& given_answer(s, request) ==> {
                let given = values_for(s.prebaked, request.phase_key)->0;
                let values = ready_values(request.components, given);
                &&& after.session == s
                &&& after.step.respond == Some(validated(request.components, values)->Ok_0)
                &&& after.step.timeout is None
                &&& after.step.events.len() == 1
                &&& after.step.events[0] matches CliEventView::UiAutoContinue {
                    request_id,
                    phase_key,
                    source,
                    values: told,
                } && request_id == request.request_id && phase_key == request.phase_key && source
                    == UiAutoContinueSource::PreBaked && told.len() == values.len() && forall|
                    i: int,
                |
                    0 <= i < told.len() ==> (#[trigger] told[i]).key == values[i].key
                        && told[i].value == values[i].value
            }
            &&& !given_answer(s, request) ==> {
                &&& after.step.events.len() == n + 1
                &&& n > 0 ==> after.step.events[0] == refusal_event(
                    validated(
                        request.components,
                        ready_values(
                            request.components,
                            values_for(s.prebaked, request.phase_key)->0,
                        ),
                    )->Err_0,
                    request.request_id,
                )
                &&& !request.requires_user_input ==> {
                    &&& after.session == s
                    &&& after.step.respond is Some
                    &&& after.step.respond->0.len() == 0
                    &&& after.step.timeout is None
                    &&& after.step.events[n] matches CliEventView::UiAutoContinue {
                        request_id,
                        phase_key,
                        source,
                        values,
                    } && request_id == request.request_id && phase_key == request.phase_key
                        && source == UiAutoContinueSource::DisplayOnly && values.len() == 0
                }
                &&& request.requires_user_input ==> {
                    &&& after.session == (AgentSessionView { pending: after.session.pending, ..s })
                    &&& pending_of(after.session.pending, request.request_id) == Some(
                        PendingRequestView {
                            phase_key: request.phase_key,
                            components: request.components,
                        },
                    )
                    &&& after.step.respond is None
                    &&& after.step.timeout == s.ui_timeout
                    &&& after.step.events[n] matches CliEventView::UiRequest {
                        request_id,
                        phase_key,
                        phase_description,
                        requires_input,
                        components,
                    } && request_id == request.request_id && phase_key == request.phase_key
                        && phase_description is None && requires_input && components
                        == agent_components(request.components)
                }
            }
        }),
{
    if let Some(given) = values_for(s.prebaked, request.phase_key) {
        lemma_covers(request.components, given);
    }
    assoc::lemma_with_value::<PendingEntry>(
        s.pending.entries,
        PendingEntryView {
            request_id: request.request_id,
            request: PendingRequestView {
                phase_key: request.phase_key,
                components: request.components,
            },
        },
        request.request_id,
    );
}

/// The values of a prompt are those that are given for its inputs.
pub proof fn law_given_values_are_taken(
    components: Seq<UiComponentView>,
    c: UiComponentView,
    values: Seq<SubmittedValueView>,
    k: int,
    other: Seq<char>,
)
    requires
        0 <= k <= values.len(),
        k < values.len() ==> values[k].key == c.key,
        forall|j: int| 0 <= j < k ==> (#[trigger] values[j]).key != c.key,
    ensures
        ready_values(Seq::empty(), values).len() == 0,
        ({
            let before = ready_values(components, values);
            let after = ready_values(components.push(c), values);
            &&& !c.is_input || k == values.len() ==> after == before
            &&& c.is_input && k < values.len() ==> {
                &&& lookup::<SubmittedValue>(after, c.key) == Some(values[k])
                &&& other != c.key ==> lookup::<SubmittedValue>(after, other) == lookup::<
                    SubmittedValue,
                >(before, other)
            }
        }),
{
    assert(components.push(c).drop_last() =~= components);
    assoc::lemma_key_index_unique::<SubmittedValue>(values, c.key, k);
    if k < values.len() {
        assoc::lemma_with_value::<SubmittedValue>(
            ready_values(components, values),
            values[k],
            other,
        );
    }
}

/// An agent hears of a prompt that waited too long, unless it was answered.
pub proof fn law_late_prompts_are_told(
    s: AgentSessionView,
    request_id: Seq<char>,
    phase_key: Seq<char>,
)
    ensures
        timed_out(s, request_id, phase_key) is Some <==> pending_of(s.pending, request_id) is Some,
        timed_out(s, request_id, phase_key) matches Some(event) ==> event == (
        CliEventView::UiTimeout { request_id, phase_key }),
{
}

/// A time in seconds is a thousand times as many milliseconds, as far as these
/// can be counted.
pub proof fn law_seconds_in_milliseconds(seconds: u64)
    ensures
        in_millis(None) is None,
        in_millis(Some(seconds)) is Some,
        seconds * 1000 <= u64::MAX ==> in_millis(Some(seconds))->0 == seconds * 1000,
        seconds * 1000 > u64::MAX ==> in_millis(Some(seconds))->0 == u64::MAX,
{
}

/// An attempt that finished is the last one on record of its phase, number and
/// slot; it is marked as finished, with its outcome, and no other is.
pub proof fn law_last_attempt_is_marked(
    phases: Seq<PhaseSnapshotView>,
    phase_key: Seq<char>,
    attempt: u32,
    slot_id: Option<Seq<char>>,
    outcome: Seq<char>,
    k: int,
)
    requires
        -1 <= k < phases.len(),
        k >= 0 ==> phases[k].phase_key == phase_key && phases[k].attempt == attempt
            && phases[k].slot_id == slot_id,
        forall|j: int|
            k < j < phases.len() ==> !((#[trigger] phases[j]).phase_key == phase_key
                && phases[j].attempt == attempt && phases[j].slot_id == slot_id),
    ensures
        ({
            let after = with_finished(phases, phase_key, attempt, slot_id, outcome);
            &&& k < 0 ==> after == phases
            &&& k >= 0 ==> after == phases.update(
                k,
                PhaseSnapshotView {
                    phase_key,
                    status: "finished"@,
                    attempt,
                    slot_id,
                    outcome: Some(outcome),
                },
            )
        }),
    decreases phases.len(),
{
    let after = with_finished(phases, phase_key, attempt, slot_id, outcome);
    let done = PhaseSnapshotView {
        phase_key,
        status: "finished"@,
        attempt,
        slot_id,
        outcome: Some(outcome),
    };
    if phases.len() > 0 {
        if k == phases.len() - 1 {
            assert(after =~= phases.update(k, done));
        } else {
            let rest = phases.drop_last();
            assert(!(phases[phases.len() - 1].phase_key == phase_key && phases[phases.len()
                - 1].attempt == attempt && phases[phases.len() - 1].slot_id == slot_id));
            law_last_attempt_is_marked(rest, phase_key, attempt, slot_id, outcome, k);
            if k < 0 {
                assert(after =~= phases);
            } else {
                assert(after =~= phases.update(k, done));
            }
        }
    }
}

/// Events leave in the order in which they came, numbered one by one; none is
/// taken after the last, and none leaves once the stream is gone.
pub proof fn law_events_leave_in_order(e: EmitterView, event: CliEventView)
    ensures
        e.finalized || e.dead ==> with_event(e, event) == e,
        !e.finalized && !e.dead ==> with_event(e, event) == (EmitterView {
            queued: e.queued.push(event),
            ..e
        }),
        next_event(e) is None <==> e.dead || e.queued.len() == 0,
        next_event(e) is None ==> after_next(e) == e,
        next_event(e) matches Some(next) ==> {
            &&& next.seq == e.seq
            &&& next.event == e.queued[0]
            &&& after_next(e).queued == e.queued.skip(1)
            &&& e.seq < u64::MAX ==> after_next(e).seq == e.seq + 1
            &&& after_next(e).finalized == e.finalized
            &&& after_next(e).dead == e.dead
        },
{
    if next_event(e) is Some {
        assert(after_next(e).queued =~= e.queued.skip(1));
    }
}

/// The line of an event holds its number, and every other member as it was.
pub proof fn law_lines_are_numbered(
    fields: Seq<JsonFieldView>,
    seq: u64,
    key: Seq<char>,
    other: JsonView,
)
    ensures
        numbered(JsonView::Object(fields), seq) matches JsonView::Object(after) && {
            &&& lookup::<JsonField>(after, "seq"@) matches Some(f) && f.value
                matches JsonView::Number(n) && n.text == decimal(seq as nat)
            &&& key != "seq"@ ==> lookup::<JsonField>(after, key) == lookup::<JsonField>(
                fields,
                key,
            )
        },
        !(other is Object) ==> numbered(other, seq) == other,
{
    assoc::lemma_with_value::<JsonField>(
        fields,
        crate::engine::caps::member(
            "seq"@,
            JsonView::Number(crate::json::int_number(seq as nat)),
        ),
        key,
    );
}

/// An event that has no JSON form is told as an internal error under its
/// number.
pub proof fn law_internal_errors_are_told(seq: u64, stage: Seq<char>, detail: Seq<char>)
    ensures
        internal_error(seq, stage, detail) matches JsonView::Object(fields) && {
            &&& fields.len() == 4
            &&& fields[0].key == "type"@
            &&& fields[0].value == JsonView::Text("internal_error"@)
            &&& fields[1].key == "seq"@
            &&& fields[1].value matches JsonView::Number(n) && n.text == decimal(seq as nat)
            &&& fields[2].key == "stage"@
            &&& fields[2].value == JsonView::Text(stage)
            &&& fields[3].key == "detail"@
            &&& fields[3].value == JsonView::Text(detail)
        },
{
}

/// An agent sees what a component is, how it is labelled, whether it is
/// required, what it takes and what it may be.
pub proof fn law_agents_see_components(components: Seq<UiComponentView>, i: int)
    requires
        0 <= i < components.len(),
    ensures
        agent_components(components).len() == components.len(),
        ({
            let c = components[i];
            let seen = agent_components(components)[i];
            &&& seen.key == c.key
            &&& seen.component_type == c.wire_type
            &&& seen.label == c.label
            &&& seen.description == c.description
            &&& seen.required == c.required
            &&& seen.is_input == c.is_input
            &&& seen.default_value == c.default_value
            &&& seen.placeholder == c.placeholder
            &&& seen.min == c.min
            &&& seen.max == c.max
            &&& seen.step == c.step
            &&& seen.options is Some <==> c.options is Some
            &&& c.options matches Some(options) ==> seen.options->0.len() == options.len()
                && forall|k: int|
                0 <= k < options.len() ==> (#[trigger] seen.options->0[k]).value == options[k].value
                    && seen.options->0[k].label == options[k].label
        }),
{
}

/// Values given beforehand are read from an object of phases, each an object of
/// the values of its components; anything else is not such a file.
pub proof fn law_given_values_are_read(text: Seq<char>)
    ensures
        values_of_text(text) is Some <==> (json_of_text(text) matches Some(
            JsonView::Object(phases),
        ) && forall|i: int| 0 <= i < phases.len() ==> (#[trigger] phases[i]).value is Object),
        values_of_text(text) matches Some(given) ==> {
            let phases = json_of_text(text)->0->Object_0;
            &&& given.phases.len() == phases.len()
            &&& forall|i: int|
                0 <= i < phases.len() ==> {
                    let read = #[trigger] given.phases[i];
                    let fields = phases[i].value->Object_0;
                    &&& read.phase_key == phases[i].key
                    &&& read.values.len() == fields.len()
                    &&& forall|k: int|
                        0 <= k < fields.len() ==> (#[trigger] read.values[k]).key == fields[k].key
                            && read.values[k].value == fields[k].value && read.values[k].numeric
                            is None
                }
        },
{
}

/// The values for a phase are those under its key.
pub proof fn law_values_by_phase(given: PreBakedValuesView, phase_key: Seq<char>, k: int)
    ensures
        0 <= k < given.phases.len() && given.phases[k].phase_key == phase_key && (forall|j: int|
            0 <= j < k ==> (#[trigger] given.phases[j]).phase_key != phase_key) ==> values_for(
            given,
            phase_key,
        ) == Some(given.phases[k].values),
        (forall|j: int|
            0 <= j < given.phases.len() ==> (#[trigger] given.phases[j]).phase_key != phase_key)
            ==> values_for(given, phase_key) is None,
{
    if 0 <= k < given.phases.len() && given.phases[k].phase_key == phase_key && (forall|j: int|
        0 <= j < k ==> (#[trigger] given.phases[j]).phase_key != phase_key) {
        assoc::lemma_key_index_unique::<PhaseValues>(given.phases, phase_key, k);
    }
    if forall|j: int|
        0 <= j < given.phases.len() ==> (#[trigger] given.phases[j]).phase_key != phase_key {
        assoc::lemma_key_index_unique::<PhaseValues>(
            given.phases,
            phase_key,
            given.phases.len() as int,
        );
    }
}

/// A file of values is read only where it lies in the directory of the
/// procedure, name by name; where it does not, or where either cannot be
/// found, the reason is told.
pub proof fn law_values_lie_in_the_procedure(
    path: Seq<char>,
    procedure_dir: Seq<char>,
    file: ResolvedPathView,
    dir: ResolvedPathView,
    e: Seq<char>,
    root: Result<ResolvedPathView, Seq<char>>,
)
    ensures
        location_fault(path, procedure_dir, Ok(file), Ok(dir)) is None <==> (
        file.components.len() >= dir.components.len() && forall|i: int|
            0 <= i < dir.components.len() ==> #[trigger] file.components[i] == dir.components[i]),
        location_fault(path, procedure_dir, Ok(file), Ok(dir)) matches Some(reason) ==> reason
            == "--ui-values path "@ + file.display + " must be inside procedure directory "@
            + dir.display,
        location_fault(path, procedure_dir, Ok(file), Err(e)) == Some(
            "Failed to resolve procedure dir "@ + procedure_dir + ": "@ + e,
        ),
        location_fault(path, procedure_dir, Err(e), root) == Some(
            "Failed to resolve "@ + path + ": "@ + e,
        ),
{
    let a = file.components;
    let b = dir.components;
    if b.is_prefix_of(a) {
        assert forall|i: int| 0 <= i < b.len() implies #[trigger] a[i] == b[i] by {
            assert(a.subrange(0, b.len() as int)[i] == a[i]);
        }
    }
    if a.len() >= b.len() && forall|i: int| 0 <= i < b.len() ==> #[trigger] a[i] == b[i] {
        assert(a.subrange(0, b.len() as int) =~= b);
    }
}

/// An agent drives a run exactly in JSON mode without the terminal interface.
pub proof fn law_agents_drive_without_a_terminal(json_mode: bool)
    ensures
        agent_drives(true, false),
        !agent_drives(json_mode, true),
        !agent_drives(false, false),
{
}

} // verus!
