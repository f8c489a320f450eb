//! What each event of a connector leads to.

use vstd::prelude::*;
use crate::agent_proto::events::{CliEventView, PhasePlanPayload, PhasePlanPayloadView};
use crate::assoc;
use crate::assoc::lookup;
use crate::connector::events::PythonEventView;
use crate::connector::pump::{
    answer_reply, attributed_key, canonical_key, concluded, handled, line_notice, notice, plan_of,
    prompt_answered, response_of, unit_identified, unit_reply, AnswerView, IdentificationView,
    NameAttempt, NameAttemptView, PromptTimeoutView, PumpActionView, PumpView, StartedAttemptView,
    WaitingView,
};
use crate::connector::request::{live_measurements_in, request_of, Connector, RunContextView};
use crate::connector::unit_config::config_of;
use crate::double::double_less;
use crate::engine::model::{EngineUnitView, KeyText, KeyTextView};
use crate::engine::sink_laws::{one_each, tells_unit};
use crate::event_router::{agent_components, stamp_text, EmissionView};
use crate::json::{json_member, json_of_text, json_size, json_text, JsonView};
use crate::protocol::StationEventView;
use crate::text::decimal;
use crate::time::{millis_instant, Instant};
use crate::ui::{ComponentType, ComponentValueView, UiComponentView};

verus! {

/// The phases of a test are planned in order, with keys that tell phases of the
/// same name apart.
pub proof fn law_phases_are_planned(names: Seq<Seq<char>>)
    ensures
        plan_of(names).len() == names.len(),
        forall|i: int|
            0 <= i < names.len() ==> (#[trigger] plan_of(names)[i]).name == names[i] && plan_of(
                names,
            )[i].key == decimal(i as nat) + seq!['_'] + names[i],
{
    reveal_strlit("_");
    assert("_"@ =~= seq!['_']);
}

/// The key of a phase is that of the first phase of its name in the plan, or
/// its name where the plan has none.
pub proof fn law_phases_are_keyed(plan: Seq<PhasePlanPayloadView>, name: Seq<char>, k: int)
    ensures
        0 <= k < plan.len() && plan[k].name == name && (forall|j: int|
            0 <= j < k ==> (#[trigger] plan[j]).name != name) ==> canonical_key(plan, name)
            == plan[k].key,
        (forall|j: int| 0 <= j < plan.len() ==> (#[trigger] plan[j]).name != name) ==> canonical_key(
            plan,
            name,
        ) == name,
{
    if 0 <= k < plan.len() && plan[k].name == name && (forall|j: int|
        0 <= j < k ==> (#[trigger] plan[j]).name != name) {
        assoc::lemma_key_index_unique::<PhasePlanPayload>(plan, name, k);
    }
    if forall|j: int| 0 <= j < plan.len() ==> (#[trigger] plan[j]).name != name {
        assoc::lemma_key_index_unique::<PhasePlanPayload>(plan, name, plan.len() as int);
    }
}

/// What an event tells of belongs to the phase that it names, and to the
/// current one where it names none.
pub proof fn law_events_are_attributed(p: PumpView, phase_name: Option<Seq<char>>)
    ensures
        phase_name is None ==> attributed_key(p, phase_name) == p.current,
        phase_name matches Some(name) ==> (canonical_key(p.plan, name).len() > 0 ==> attributed_key(
            p,
            phase_name,
        ) == canonical_key(p.plan, name)) && (canonical_key(p.plan, name).len() == 0
            ==> attributed_key(p, phase_name) == p.current),
{
}

/// Whether what goes out announces the start of an attempt.
pub open spec fn tells_start(
    out: Seq<EmissionView>,
    p: PumpView,
    key: Seq<char>,
    name: Seq<char>,
    attempt: int,
    now: Instant,
) -> bool {
    &&& out.len() == one_each(p.router.agent)
    &&& out[0] matches EmissionView::Station(
        StationEventView::PhaseStarted {
            phase_key,
            name: told,
            slot_id,
            attempt: no,
            stage,
            timestamp,
            execution_id,
        },
    ) && phase_key == key && told == name && slot_id is None && no == attempt && stage is None
        && timestamp == Some(stamp_text(now)) && execution_id == Some(p.router.execution_id)
    &&& p.router.agent ==> (out[1] matches EmissionView::Agent(
        CliEventView::PhaseStarted { phase_key, attempt: no, slot_id, started_at },
    ) && phase_key == key && no == attempt && slot_id is None && started_at == stamp_text(now))
}

/// Whether the start of an attempt was announced.
pub open spec fn was_announced(p: PumpView, key: Seq<char>, attempt: int) -> bool {
    exists|i: int|
        0 <= i < p.started.len() && (#[trigger] p.started[i]).phase_key == key
            && p.started[i].attempt == attempt
}

proof fn lemma_announced(p: PumpView, key: Seq<char>, attempt: u32)
    ensures
        was_announced(p, key, attempt as int) <==> p.started.contains(
            StartedAttemptView { phase_key: key, attempt },
        ),
{
    let wanted = StartedAttemptView { phase_key: key, attempt };
    if p.started.contains(wanted) {
        let i = choose|i: int| 0 <= i < p.started.len() && p.started[i] == wanted;
        assert(p.started[i].phase_key == key);
    }
    if was_announced(p, key, attempt as int) {
        let i = choose|i: int|
            0 <= i < p.started.len() && (#[trigger] p.started[i]).phase_key == key
                && p.started[i].attempt == attempt;
        assert(p.started[i] == wanted);
    }
}

/// A phase that begins is announced, unless it was: of OpenHTF as one attempt
/// more than it has begun, of Robot Framework as its first and as the current
/// phase.
pub proof fn law_phases_begin(
    p: PumpView,
    event: JsonView,
    name: Seq<char>,
    key: Seq<char>,
    count: u32,
    now: Instant,
)
    requires
        key == canonical_key(p.plan, name),
        match lookup::<NameAttempt>(p.attempts, name) {
            Some(a) => a.count == count,
            None => count == 0,
        },
        count < u32::MAX,
    ensures
        ({
            let after = handled(p, event, PythonEventView::PhaseBegin { name }, now);
            let attempt = if p.connector == Connector::OpenHtf {
                count + 1
            } else {
                1
            };
            &&& after.step.action is Next
            &&& after.step.reply is None
            &&& after.step.later.len() == 0
            &&& was_announced(p, key, attempt) ==> after.step.emissions.len() == 0
                && after.pump.started == p.started
            &&& !was_announced(p, key, attempt) ==> tells_start(
                after.step.emissions,
                p,
                key,
                name,
                attempt,
                now,
            ) && after.pump.started.len() == p.started.len() + 1
            &&& was_announced(after.pump, key, attempt)
            &&& p.connector == Connector::OpenHtf ==> lookup::<NameAttempt>(
                after.pump.attempts,
                name,
            ) == Some(NameAttemptView { name, count: attempt as u32 }) && after.pump.current
                == p.current
            &&& p.connector == Connector::Robot ==> after.pump.current == key
                && after.pump.attempts == p.attempts
            &&& after.pump.phases == p.phases
            &&& after.pump.attachments == p.attachments
            &&& after.pump.waiting == p.waiting
            &&& after.pump.test_end == p.test_end
        }),
{
    let attempt: u32 = if p.connector == Connector::OpenHtf {
        (count + 1) as u32
    } else {
        1
    };
    let counted = crate::connector::pump::with_attempt(p, name, attempt);
    lemma_announced(p, key, attempt);
    lemma_announced(counted, key, attempt);
    let after = handled(p, event, PythonEventView::PhaseBegin { name }, now);
    lemma_announced(after.pump, key, attempt);
    assoc::lemma_with_value::<NameAttempt>(
        p.attempts,
        NameAttemptView { name, count: attempt },
        name,
    );
    crate::connector::laws::law_started_once(counted, key, name, attempt, now);
    crate::connector::laws::law_started_once(p, key, name, attempt, now);
}

/// Whether a text is that of a point in time in milliseconds; empty where it is
/// not on the calendar.
pub open spec fn tells_millis(text: Option<Seq<char>>, millis: Option<i64>) -> bool {
    match millis {
        Some(ms) => match millis_instant(ms) {
            Some(at) => text == Some(stamp_text(at)),
            None => text is Some && text->0.len() == 0,
        },
        None => text is None,
    }
}

/// The end of a phase is announced with what the event tells, and the event is
/// kept for the upload.
pub proof fn law_phases_end(
    p: PumpView,
    event: JsonView,
    name: Seq<char>,
    outcome: Seq<char>,
    retry_count: u64,
    start_time_millis: Option<i64>,
    end_time_millis: Option<i64>,
    error: Option<Seq<char>>,
    now: Instant,
)
    requires
        retry_count < u32::MAX,
    ensures
        ({
            let typed = PythonEventView::PhaseEnd {
                name,
                outcome,
                retry_count,
                start_time_millis,
                end_time_millis,
                error,
            };
            let after = handled(p, event, typed, now);
            let key = canonical_key(p.plan, name);
            let out = after.step.emissions;
            let n = if was_announced(p, key, retry_count + 1) {
                0
            } else {
                one_each(p.router.agent)
            };
            &&& out.len() == n + one_each(p.router.agent)
            &&& n > 0 ==> tells_start(out.take(n), p, key, name, retry_count + 1, now)
            &&& out[n] matches EmissionView::Station(
                StationEventView::PhaseComplete {
                    phase_key,
                    name: told,
                    outcome: word,
                    measurements,
                    slot_id,
                    attempt,
                    started_at,
                    ended_at,
                    duration_ms,
                    error: reason,
                    logs,
                    execution_id,
                },
            ) && {
                &&& phase_key == key
                &&& told == name
                &&& word == outcome
                &&& measurements == live_measurements_in(event)
                &&& slot_id is None
                &&& attempt == retry_count + 1
                &&& tells_millis(started_at, start_time_millis)
                &&& tells_millis(ended_at, end_time_millis)
                &&& start_time_millis is Some && end_time_millis is Some && 0 <= end_time_millis->0
                    - start_time_millis->0 <= u32::MAX ==> duration_ms is Some && duration_ms->0
                    == end_time_millis->0 - start_time_millis->0
                &&& start_time_millis is None || end_time_millis is None || end_time_millis->0
                    < start_time_millis->0 ==> duration_ms is None
                &&& reason == error
                &&& logs.len() == 0
                &&& execution_id == Some(p.router.execution_id)
            }
            &&& p.router.agent ==> (out[n + 1] matches EmissionView::Agent(
                CliEventView::PhaseFinished {
                    phase_key,
                    outcome: word,
                    attempt,
                    slot_id,
                    error: reason,
                    started_at,
                    ended_at,
                    duration_ms,
                },
            ) && {
                &&& phase_key == key
                &&& word == outcome
                &&& attempt == retry_count + 1
                &&& slot_id is None
                &&& reason == error
                &&& tells_millis(started_at, start_time_millis)
                &&& tells_millis(ended_at, end_time_millis)
                &&& start_time_millis is Some && end_time_millis is Some && end_time_millis->0
                    >= start_time_millis->0 ==> duration_ms is Some && duration_ms->0
                    == end_time_millis->0 - start_time_millis->0
                &&& start_time_millis is None || end_time_millis is None || end_time_millis->0
                    < start_time_millis->0 ==> duration_ms is None
            })
            &&& after.pump.phases == p.phases.push(event)
            &&& after.step.action is Next
            &&& after.step.reply is None
            &&& after.step.later.len() == 0
        }),
{
    let key = canonical_key(p.plan, name);
    let attempt = (retry_count + 1) as u32;
    lemma_announced(p, key, attempt);
    let typed = PythonEventView::PhaseEnd {
        name,
        outcome,
        retry_count,
        start_time_millis,
        end_time_millis,
        error,
    };
    let out = handled(p, event, typed, now).step.emissions;
    if !was_announced(p, key, retry_count + 1) {
        let n = one_each(p.router.agent);
        let start = crate::connector::pump::start_emissions(p, key, name, attempt, now);
        assert(out.take(n) =~= start);
    }
}

/// The end of a test is announced with the outcome that it reports, and the
/// event is kept for the upload.
pub proof fn law_tests_end(p: PumpView, event: JsonView, outcome: Seq<char>, now: Instant)
    ensures
        ({
            let after = handled(p, event, PythonEventView::TestEnd { outcome }, now);
            &&& after.pump == (PumpView { test_end: Some(event), ..p })
            &&& after.step.emissions.len() == 1
            &&& after.step.emissions[0] matches EmissionView::Station(
                StationEventView::RunComplete {
                    outcome: told,
                    run_id,
                    execution_id,
                    slot_outcomes,
                },
            ) && told == outcome && run_id is None && execution_id == Some(p.router.execution_id)
                && slot_outcomes.len() == 0
            &&& after.step.action is Next
            &&& after.step.reply is None
        }),
{
}

/// Whether what goes out announces the start of a run.
pub open spec fn tells_run_start(
    out: Seq<EmissionView>,
    p: PumpView,
    plan: Seq<PhasePlanPayloadView>,
    unit: Option<EngineUnitView>,
    now: Instant,
) -> bool {
    &&& out.len() == one_each(p.router.agent)
    &&& out[0] matches EmissionView::Station(
        StationEventView::RunStarted {
            procedure_id,
            procedure_name,
            execution_id,
            phases,
            slots,
            slot_names,
            slot_units,
            plugs,
            timestamp,
            run_id,
            deployment_id,
            unit: told,
            only_phase,
        },
    ) && {
        &&& procedure_id == p.procedure_id
        &&& procedure_name == p.procedure_name
        &&& execution_id == p.router.execution_id
        &&& phases.len() == plan.len()
        &&& forall|i: int|
            0 <= i < plan.len() ==> (#[trigger] phases[i]).key == plan[i].key && phases[i].name
                == plan[i].name && phases[i].stage.len() == 0
        &&& slots.len() == 0
        &&& slot_names.len() == 0
        &&& slot_units.len() == 0
        &&& plugs.len() == 0
        &&& timestamp == Some(stamp_text(now))
        &&& run_id is None
        &&& deployment_id == p.deployment_id
        &&& told is Some <==> unit is Some
        &&& unit is Some ==> tells_unit(told->0, unit->0)
        &&& only_phase is None
    }
    &&& p.router.agent ==> out[1] == EmissionView::Agent(CliEventView::Plan { phases: plan })
}

/// A test that wants no unit starts at once; any other waits for its unit: for
/// one to be identified, or for the one that is tested again to be checked.
pub proof fn law_tests_start(
    p: PumpView,
    event: JsonView,
    test_name: Seq<char>,
    phases: Seq<Seq<char>>,
    identify: bool,
    auto_identify: bool,
    unit_kwargs: Seq<KeyTextView>,
    now: Instant,
)
    ensures
        ({
            let typed = PythonEventView::TestStart {
                test_name,
                phases,
                identify,
                auto_identify,
                unit_kwargs,
            };
            let after = handled(p, event, typed, now);
            &&& after.pump.plan == plan_of(phases)
            &&& after.step.emissions.len() == 0
            &&& !identify ==> {
                &&& after.pump == (PumpView {
                    plan: plan_of(phases),
                    test_start: Some(event),
                    waiting: WaitingView::Nothing,
                    ..p
                })
                &&& after.step.reply == Some(unit_reply(None))
                &&& after.step.action is Next
                &&& tells_run_start(after.step.later, p, plan_of(phases), None, now)
            }
            &&& identify ==> {
                &&& after.pump == (PumpView {
                    plan: plan_of(phases),
                    waiting: WaitingView::Unit { event, reused: p.reuse_unit is Some },
                    ..p
                })
                &&& after.step.reply is None
                &&& after.step.later.len() == 0
                &&& p.reuse_unit is None ==> after.step.action == (PumpActionView::Identify {
                    config: config_of(unit_kwargs, auto_identify),
                })
                &&& p.reuse_unit matches Some(wire) ==> (after.step.action
                    matches PumpActionView::Validate { unit, config } && config == config_of(
                    unit_kwargs,
                    auto_identify,
                ) && tells_unit(wire, unit) && unit.operated_by is None && unit.metadata is None)
            }
        }),
{
    if let Some(wire) = p.reuse_unit {
        if wire.sub_units.len() == 0 {
            assert(wire.sub_units =~= Seq::empty());
        }
    }
}

/// A unit that was identified is told to the connector and announced, and the
/// run starts with it.
pub proof fn law_identified_units_start_the_run(p: PumpView, unit: EngineUnitView, now: Instant)
    requires
        p.waiting is Unit,
    ensures
        ({
            let after = unit_identified(p, IdentificationView::Resolved(unit), now);
            let out = after.step.emissions;
            &&& after.pump == (PumpView {
                unit: after.pump.unit,
                test_start: Some(p.waiting->Unit_event),
                waiting: WaitingView::Nothing,
                ..p
            })
            &&& after.pump.unit.serial_number == unit.serial_number
            &&& after.pump.unit.part_number == unit.part_number
            &&& after.pump.unit.revision_number == unit.revision_number
            &&& after.pump.unit.batch_number == unit.batch_number
            &&& unit.sub_units is Some ==> after.pump.unit.sub_units == unit.sub_units->0
            &&& unit.sub_units is None ==> after.pump.unit.sub_units.len() == 0
            &&& after.step.reply == Some(unit_reply(Some(unit)))
            &&& after.step.action is Next
            &&& tells_run_start(after.step.later, p, p.plan, Some(unit), now)
            &&& out.len() == one_each(p.router.agent)
            &&& out[0] matches EmissionView::Station(
                StationEventView::IdentifyResolved { slot_id, unit: told, timestamp, execution_id },
            ) && slot_id is None && tells_unit(told, unit) && timestamp == Some(stamp_text(now))
                && execution_id == Some(p.router.execution_id)
        }),
{
}

/// A unit that could not be identified ends the run: it is told as a crash, the
/// connector hears of no unit, and nothing more is read.
pub proof fn law_unknown_units_end_the_run(p: PumpView, error: Seq<char>, now: Instant)
    requires
        p.waiting is Unit,
    ensures
        ({
            let after = unit_identified(p, IdentificationView::Failed(error), now);
            let out = after.step.emissions;
            let reason = if p.waiting->reused {
                "reuse_unit failed validation: "@ + error
            } else {
                error
            };
            &&& after.pump == (PumpView {
                identify_error: Some(reason),
                waiting: WaitingView::Nothing,
                ..p
            })
            &&& after.step.action is Stop
            &&& after.step.reply == Some(unit_reply(None))
            &&& after.step.later.len() == 0
            &&& out.len() == 2
            &&& out[0] == EmissionView::Station(
                StationEventView::RunCrashed {
                    procedure_id: p.procedure_id,
                    error: reason,
                    error_kind: "identify_unit_failed"@,
                    execution_id: Some(p.router.execution_id),
                },
            )
            &&& out[1] matches EmissionView::Station(
                StationEventView::RunComplete { outcome, run_id, execution_id, slot_outcomes },
            ) && outcome == "ERROR"@ && run_id is None && execution_id == Some(
                p.router.execution_id,
            ) && slot_outcomes.len() == 0
        }),
{
}

/// Whether a value is a text, or null where there is none.
pub open spec fn is_text_or_null(value: JsonView, text: Option<Seq<char>>) -> bool {
    match text {
        Some(s) => value == JsonView::Text(s),
        None => value is Null,
    }
}

/// The connector is told the unit in a line of JSON, field by field; a field
/// that is not known is null.
pub proof fn law_connectors_are_told_the_unit(unit: Option<EngineUnitView>)
    ensures
        exists|fields: Seq<crate::json::JsonFieldView>|
            {
                &&& unit_reply(unit) == #[trigger] json_text(JsonView::Object(fields)) + seq!['\n']
                &&& fields.len() == 6
                &&& fields[0].key == "type"@
                &&& fields[0].value == JsonView::Text("set_unit_resolved"@)
                &&& fields[1].key == "serial_number"@
                &&& is_text_or_null(
                    fields[1].value,
                    if unit is Some {
                        unit->0.serial_number
                    } else {
                        None
                    },
                )
                &&& fields[2].key == "part_number"@
                &&& is_text_or_null(
                    fields[2].value,
                    if unit is Some {
                        unit->0.part_number
                    } else {
                        None
                    },
                )
                &&& fields[3].key == "revision_number"@
                &&& is_text_or_null(
                    fields[3].value,
                    if unit is Some {
                        unit->0.revision_number
                    } else {
                        None
                    },
                )
                &&& fields[4].key == "batch_number"@
                &&& is_text_or_null(
                    fields[4].value,
                    if unit is Some {
                        unit->0.batch_number
                    } else {
                        None
                    },
                )
                &&& fields[5].key == "sub_units"@
                &&& unit is None || unit->0.sub_units is None || unit->0.sub_units->0.len() == 0
                    ==> fields[5].value is Null
                &&& unit is Some && unit->0.sub_units is Some && unit->0.sub_units->0.len() > 0
                    ==> (fields[5].value matches JsonView::Array(items) && items.len()
                    == unit->0.sub_units->0.len() && forall|i: int|
                    0 <= i < items.len() ==> #[trigger] items[i] == JsonView::Text(
                        unit->0.sub_units->0[i].text,
                    ))
            },
{
    reveal_strlit("\n");
    assert("\n"@ =~= seq!['\n']);
    let fields = match unit {
        Some(u) => seq![
            crate::engine::caps::member("type"@, JsonView::Text("set_unit_resolved"@)),
            crate::engine::caps::member(
                "serial_number"@,
                crate::connector::pump::text_json(u.serial_number),
            ),
            crate::engine::caps::member(
                "part_number"@,
                crate::connector::pump::text_json(u.part_number),
            ),
            crate::engine::caps::member(
                "revision_number"@,
                crate::connector::pump::text_json(u.revision_number),
            ),
            crate::engine::caps::member(
                "batch_number"@,
                crate::connector::pump::text_json(u.batch_number),
            ),
            crate::engine::caps::member("sub_units"@, crate::connector::pump::subs_json(u.sub_units)),
        ],
        None => seq![
            crate::engine::caps::member("type"@, JsonView::Text("set_unit_resolved"@)),
            crate::engine::caps::member("serial_number"@, JsonView::Null),
            crate::engine::caps::member("part_number"@, JsonView::Null),
            crate::engine::caps::member("revision_number"@, JsonView::Null),
            crate::engine::caps::member("batch_number"@, JsonView::Null),
            crate::engine::caps::member("sub_units"@, JsonView::Null),
        ],
    };
    assert(unit_reply(unit) == json_text(JsonView::Object(fields)) + seq!['\n']);
}

/// The components of a prompt: its image and its message where it has them, and
/// then a text to write or a switch to acknowledge, which is required.
pub open spec fn is_prompt(
    components: Seq<UiComponentView>,
    message: Seq<char>,
    text_input: bool,
    image_url: Option<Seq<char>>,
) -> bool {
    let n = (if image_url is Some {
        1int
    } else {
        0
    });
    let m = n + (if message.len() > 0 {
        1int
    } else {
        0
    });
    let last = components[m];
    &&& components.len() == m + 1
    &&& image_url matches Some(url) ==> {
        &&& components[0].key == "image"@
        &&& components[0].component_type == ComponentType::Image
        &&& !components[0].is_input
        &&& !components[0].required
        &&& components[0].default_value == Some(ComponentValueView::String(url))
    }
    &&& message.len() > 0 ==> {
        &&& components[n].key == "message"@
        &&& components[n].component_type == ComponentType::Text
        &&& !components[n].is_input
        &&& !components[n].required
        &&& components[n].default_value == Some(ComponentValueView::String(message))
    }
    &&& last.is_input
    &&& last.required
    &&& last.default_value is None
    &&& text_input ==> last.key == "response"@ && last.component_type == ComponentType::TextInput
        && last.label == Some("Response"@)
    &&& !text_input ==> last.key == "acknowledge"@ && last.component_type == ComponentType::Switch
        && last.label == Some("Acknowledge"@)
}

/// A prompt of OpenHTF is put to the station, to the terminal form and to the
/// agent, where there are such, and the connector waits for its answer.
pub proof fn law_prompts_are_put(
    p: PumpView,
    event: JsonView,
    prompt_id: Seq<char>,
    message: Seq<char>,
    text_input: bool,
    image_url: Option<Seq<char>>,
    timeout_s: Option<u64>,
    now: Instant,
)
    requires
        p.connector == Connector::OpenHtf,
    ensures
        ({
            let typed = PythonEventView::Prompt {
                prompt_id,
                phase_name: None,
                message,
                text_input,
                image_url,
                timeout_s,
            };
            let after = handled(p, event, typed, now);
            let out = after.step.emissions;
            &&& after.pump == (PumpView {
                waiting: WaitingView::Answer { prompt_id, phase_key: p.current },
                ..p
            })
            &&& after.step.reply is None
            &&& after.step.later.len() == 0
            &&& after.step.action matches PumpActionView::Ask { request, timeout } && {
                &&& request.request_id == prompt_id
                &&& request.phase_key == p.current
                &&& request.slot_id is None
                &&& request.requires_user_input
                &&& request.requires_input == Some(true)
                &&& is_prompt(request.components, message, text_input, image_url)
                &&& timeout_s is Some && double_less(0, timeout_s->0) ==> timeout
                    == PromptTimeoutView::Seconds(timeout_s->0)
                &&& !(timeout_s is Some && double_less(0, timeout_s->0)) && p.agent_timeout is Some
                    ==> timeout == PromptTimeoutView::Millis(p.agent_timeout->0)
                &&& !(timeout_s is Some && double_less(0, timeout_s->0)) && p.agent_timeout is None
                    ==> timeout == PromptTimeoutView::Never
                &&& out.len() == 1 + (if p.has_terminal {
                    1int
                } else {
                    0
                }) + (if p.router.agent {
                    1int
                } else {
                    0
                })
                &&& out[0] matches EmissionView::Station(
                    StationEventView::UiRequest {
                        request_id,
                        phase_key,
                        slot_id,
                        components,
                        requires_input,
                        timestamp,
                        execution_id,
                    },
                ) && request_id == prompt_id && phase_key == p.current && slot_id is None
                    && components == Some(request.components) && requires_input && timestamp
                    == Some(stamp_text(now)) && execution_id == Some(p.router.execution_id)
                &&& p.has_terminal ==> out[1] == EmissionView::Terminal(request)
                &&& p.router.agent ==> (out.last() matches EmissionView::Agent(
                    CliEventView::UiRequest {
                        request_id,
                        phase_key,
                        phase_description,
                        requires_input,
                        components,
                    },
                ) && request_id == prompt_id && phase_key == p.current && phase_description == Some(
                    message,
                ) && requires_input && components == agent_components(request.components))
            }
        }),
{
}

/// Whether an emission puts a prompt to the station.
pub open spec fn is_question(emission: EmissionView) -> bool {
    emission matches EmissionView::Station(StationEventView::UiRequest { .. })
}

/// A prompt that names its phase makes it the current one, and announces its
/// start where it was not announced.
pub proof fn law_prompts_name_their_phase(
    p: PumpView,
    event: JsonView,
    prompt_id: Seq<char>,
    name: Seq<char>,
    message: Seq<char>,
    text_input: bool,
    image_url: Option<Seq<char>>,
    timeout_s: Option<u64>,
    count: u32,
    now: Instant,
)
    requires
        p.connector == Connector::OpenHtf,
        match lookup::<NameAttempt>(p.attempts, name) {
            Some(a) => a.count == count,
            None => count == 1,
        },
    ensures
        ({
            let typed = PythonEventView::Prompt {
                prompt_id,
                phase_name: Some(name),
                message,
                text_input,
                image_url,
                timeout_s,
            };
            let after = handled(p, event, typed, now);
            let key = canonical_key(p.plan, name);
            let n = one_each(p.router.agent);
            &&& after.pump.current == key
            &&& after.pump.waiting == (WaitingView::Answer { prompt_id, phase_key: key })
            &&& after.step.action matches PumpActionView::Ask { request, timeout } && request.phase_key
                == key && request.request_id == prompt_id && is_prompt(
                request.components,
                message,
                text_input,
                image_url,
            )
            &&& was_announced(after.pump, key, count as int)
            &&& was_announced(p, key, count as int) ==> is_question(after.step.emissions[0])
            &&& !was_announced(p, key, count as int) ==> tells_start(
                after.step.emissions.take(n),
                p,
                key,
                name,
                count as int,
                now,
            ) && is_question(after.step.emissions[n])
        }),
{
    let key = canonical_key(p.plan, name);
    let counted = crate::connector::pump::with_attempt(p, name, count);
    let typed = PythonEventView::Prompt {
        prompt_id,
        phase_name: Some(name),
        message,
        text_input,
        image_url,
        timeout_s,
    };
    let after = handled(p, event, typed, now);
    lemma_announced(p, key, count);
    lemma_announced(after.pump, key, count);
    crate::connector::laws::law_started_once(counted, key, name, count, now);
    if !was_announced(p, key, count as int) {
        let start = crate::connector::pump::start_emissions(p, key, name, count, now);
        assert(after.step.emissions.take(one_each(p.router.agent)) =~= start);
    }
}

/// Robot Framework has no prompts.
pub proof fn law_robot_has_no_prompts(
    p: PumpView,
    event: JsonView,
    typed: PythonEventView,
    now: Instant,
)
    requires
        p.connector == Connector::Robot,
        typed is Prompt,
    ensures
        handled(p, event, typed, now).pump == p,
        handled(p, event, typed, now).step.emissions.len() == 0,
        handled(p, event, typed, now).step.action is Next,
        handled(p, event, typed, now).step.reply is None,
{
}

/// An answer is told to the connector in a line of JSON: what was written under
/// `response`, and nothing where nobody answered. The agent hears of a prompt
/// that timed out.
pub proof fn law_answers_are_told(p: PumpView, answer: AnswerView)
    requires
        p.waiting is Answer,
    ensures
        ({
            let after = prompt_answered(p, answer);
            let text = match answer {
                AnswerView::Values(values) => response_of(values),
                _ => Seq::<char>::empty(),
            };
            &&& after.pump == (PumpView { waiting: WaitingView::Nothing, ..p })
            &&& after.step.reply == Some(answer_reply(text))
            &&& after.step.action is Next
            &&& after.step.later.len() == 0
            &&& answer is TimedOut && p.router.agent ==> after.step.emissions.len() == 1
                && after.step.emissions[0] == EmissionView::Agent(
                CliEventView::UiTimeout {
                    request_id: p.waiting->prompt_id,
                    phase_key: p.waiting->Answer_phase_key,
                },
            )
            &&& !(answer is TimedOut && p.router.agent) ==> after.step.emissions.len() == 0
        }),
{
}

/// The answer to a prompt is the text under `response`, and its line holds it
/// under the same name.
pub proof fn law_answers_are_responses(values: Seq<KeyTextView>, k: int, text: Seq<char>)
    ensures
        0 <= k < values.len() && values[k].key == "response"@ && (forall|j: int|
            0 <= j < k ==> (#[trigger] values[j]).key != "response"@) ==> response_of(values)
            == values[k].text,
        (forall|j: int| 0 <= j < values.len() ==> (#[trigger] values[j]).key != "response"@)
            ==> response_of(values).len() == 0,
        exists|fields: Seq<crate::json::JsonFieldView>|
            answer_reply(text) == #[trigger] json_text(JsonView::Object(fields)) + seq!['\n']
                && fields.len() == 1 && fields[0].key == "response"@ && fields[0].value
                == JsonView::Text(text),
{
    if 0 <= k < values.len() && values[k].key == "response"@ && (forall|j: int|
        0 <= j < k ==> (#[trigger] values[j]).key != "response"@) {
        assoc::lemma_key_index_unique::<KeyText>(values, "response"@, k);
    }
    if forall|j: int| 0 <= j < values.len() ==> (#[trigger] values[j]).key != "response"@ {
        assoc::lemma_key_index_unique::<KeyText>(values, "response"@, values.len() as int);
    }
    reveal_strlit("\n");
    assert("\n"@ =~= seq!['\n']);
    let fields = seq![crate::engine::caps::member("response"@, JsonView::Text(text))];
    assert(answer_reply(text) == json_text(JsonView::Object(fields)) + seq!['\n']);
}

/// A file that is attached while its phase runs is told to the agent; one that
/// is attached after the test joins the upload.
pub proof fn law_files_are_attached(
    p: PumpView,
    event: JsonView,
    name: Seq<char>,
    path: Seq<char>,
    mimetype: Seq<char>,
    live: bool,
    phase_name: Option<Seq<char>>,
    now: Instant,
)
    ensures
        ({
            let typed = PythonEventView::Attachment { name, path, mimetype, live, phase_name };
            let after = handled(p, event, typed, now);
            let n = p.attachments.len() as int;
            &&& after.step.action is Next
            &&& after.step.reply is None
            &&& live ==> after.pump == p
            &&& live && p.router.agent ==> after.step.emissions.len() == 1
                && after.step.emissions[0] == EmissionView::Agent(
                CliEventView::AttachmentAdded {
                    phase_key: attributed_key(p, phase_name),
                    name,
                    path: Some(path),
                    mimetype: Some(mimetype),
                    slot_id: None,
                },
            )
            &&& !(live && p.router.agent) ==> after.step.emissions.len() == 0
            &&& !live ==> {
                &&& after.pump == (PumpView { attachments: after.pump.attachments, ..p })
                &&& after.pump.attachments.len() == n + 1
                &&& after.pump.attachments.take(n) == p.attachments
                &&& after.pump.attachments[n].name == name
                &&& after.pump.attachments[n].path == path
                &&& after.pump.attachments[n].mimetype == mimetype
                &&& p.connector == Connector::OpenHtf
                    ==> after.pump.attachments[n].phase_key.len() == 0
                &&& p.connector == Connector::Robot ==> after.pump.attachments[n].phase_key
                    == attributed_key(p, phase_name)
            }
        }),
{
    let typed = PythonEventView::Attachment { name, path, mimetype, live, phase_name };
    let after = handled(p, event, typed, now);
    if !live {
        assert(after.pump.attachments.take(p.attachments.len() as int) =~= p.attachments);
    }
}

/// A recorded value and a log line are told to the agent as they are.
pub proof fn law_agents_hear_of_phases(
    p: PumpView,
    event: JsonView,
    name: Seq<char>,
    value: JsonView,
    unit: Option<Seq<char>>,
    level: Seq<char>,
    message: Seq<char>,
    timestamp: Seq<char>,
    phase_name: Option<Seq<char>>,
    file: Option<Seq<char>>,
    line: Option<u32>,
    now: Instant,
)
    ensures
        ({
            let measured = handled(
                p,
                event,
                PythonEventView::Measurement { name, value, phase_name, unit },
                now,
            );
            let logged = handled(
                p,
                event,
                PythonEventView::PhaseLog { level, message, timestamp, phase_name, file, line },
                now,
            );
            let phase_key = attributed_key(p, phase_name);
            &&& measured.pump == p
            &&& logged.pump == p
            &&& !p.router.agent ==> measured.step.emissions.len() == 0
                && logged.step.emissions.len() == 0
            &&& p.router.agent ==> {
                &&& measured.step.emissions.len() == 1
                &&& measured.step.emissions[0] == EmissionView::Agent(
                    CliEventView::MeasurementRecorded {
                        phase_key,
                        name,
                        value,
                        outcome: "unset"@,
                        unit,
                        slot_id: None,
                    },
                )
                &&& logged.step.emissions.len() == 1
                &&& logged.step.emissions[0] == EmissionView::Agent(
                    CliEventView::PhaseLog {
                        phase_key,
                        level,
                        message,
                        timestamp,
                        slot_id: None,
                        file,
                        line,
                    },
                )
            }
        }),
{
}

/// An event of an unknown type is told to the agent of an OpenHTF test, with
/// the event itself where it is small.
pub proof fn law_unknown_events_are_told(p: PumpView, event: JsonView, now: Instant)
    ensures
        ({
            let after = handled(p, event, PythonEventView::Unknown, now);
            let kind = match json_member(event, "type"@) {
                Some(JsonView::Text(s)) => s,
                _ => "?"@,
            };
            &&& after.pump == p
            &&& after.step.action is Next
            &&& !(p.router.agent && p.connector == Connector::OpenHtf)
                ==> after.step.emissions.len() == 0
            &&& p.router.agent && p.connector == Connector::OpenHtf ==> {
                &&& after.step.emissions.len() == 1
                &&& after.step.emissions[0] matches EmissionView::Agent(
                    CliEventView::InternalWarning { kind: what, message, detail },
                ) && what == "unknown_python_event"@ && message
                    == "python connector emitted event type '"@ + kind
                    + "' with no matching Rust variant (CLI/connector version mismatch)"@ && (
                json_size(event) <= 4096 ==> detail == Some(event)) && (json_size(event) > 4096
                    ==> detail is Some && crate::engine::data_laws::marks_size(
                    detail->0,
                    json_size(event),
                ) && detail->0->Object_0[2].key == "type"@ && detail->0->Object_0[2].value
                    == JsonView::Text(kind))
            }
        }),
{
}

/// That the bridge is ready, and a warning, lead to nothing.
pub proof fn law_notices_lead_to_nothing(
    p: PumpView,
    event: JsonView,
    message: Seq<char>,
    now: Instant,
)
    ensures
        handled(p, event, PythonEventView::BridgeReady, now).pump == p,
        handled(p, event, PythonEventView::BridgeReady, now).step.emissions.len() == 0,
        handled(p, event, PythonEventView::BridgeReady, now).step.action is Next,
        handled(p, event, PythonEventView::Warning { message }, now).pump == p,
        handled(p, event, PythonEventView::Warning { message }, now).step.emissions.len() == 0,
        handled(p, event, PythonEventView::Warning { message }, now).step.action is Next,
{
}

/// The terminal is told what a warning says, of an event that is unknown and of
/// one that cannot be read; of nothing else.
pub proof fn law_terminals_are_told(
    line: Seq<char>,
    event: JsonView,
    typed: Option<PythonEventView>,
    message: Seq<char>,
)
    ensures
        notice(line, event, None) == Some("[tofupilot] unparseable connector event: "@ + line),
        notice(line, event, Some(PythonEventView::Warning { message })) == Some(
            "[tofupilot-connector] "@ + message,
        ),
        notice(line, event, Some(PythonEventView::Unknown)) == Some(
            "[tofupilot] unknown connector event type (rust lacks a variant): "@ + (
            match json_member(event, "type"@) {
                Some(JsonView::Text(s)) => s,
                _ => "?"@,
            }),
        ),
        typed matches Some(t) ==> (!(t is Warning) && !(t is Unknown) ==> notice(
            line,
            event,
            typed,
        ) is None),
        json_of_text(line) is None ==> line_notice(line) is None,
        json_of_text(line) matches Some(v) ==> line_notice(line) == notice(
            line,
            v,
            crate::connector::events::event_of(v),
        ),
{
}

/// A run that was stopped is aborted, whatever came of it.
pub proof fn law_stopped_runs_are_aborted(
    p: PumpView,
    ctx: RunContextView,
    exit_code: i32,
    stderr_tail: Seq<char>,
    now: Instant,
)
    ensures
        ({
            let end = concluded(p, ctx, true, exit_code, stderr_tail, now);
            &&& end.exit_code == exit_code
            &&& end.queued is None
            &&& end.emissions.len() == one_each(p.router.agent)
            &&& end.emissions[0] matches EmissionView::Station(
                StationEventView::RunComplete { outcome, run_id, execution_id, slot_outcomes },
            ) && outcome == "ABORTED"@ && run_id is None && execution_id == Some(
                p.router.execution_id,
            ) && slot_outcomes.len() == 0
            &&& p.router.agent ==> (end.emissions[1] matches EmissionView::Agent(
                CliEventView::RunCrashed { exit_code: told, stderr_tail: tail },
            ) && told == exit_code && tail.len() == 0)
        }),
{
}

/// A run whose unit could not be identified fails, and the agent hears why.
pub proof fn law_unidentified_runs_fail(
    p: PumpView,
    ctx: RunContextView,
    exit_code: i32,
    stderr_tail: Seq<char>,
    now: Instant,
)
    requires
        p.identify_error is Some,
    ensures
        ({
            let end = concluded(p, ctx, false, exit_code, stderr_tail, now);
            &&& end.exit_code == 1
            &&& end.queued is None
            &&& !p.router.agent ==> end.emissions.len() == 0
            &&& p.router.agent ==> end.emissions.len() == 1 && end.emissions[0]
                == EmissionView::Agent(
                CliEventView::RunCrashed { exit_code: 1, stderr_tail: p.identify_error->0 },
            )
        }),
{
}

/// A run whose test never ended crashed, and what the process said last is
/// told.
pub proof fn law_unfinished_runs_crash(
    p: PumpView,
    ctx: RunContextView,
    exit_code: i32,
    stderr_tail: Seq<char>,
    now: Instant,
)
    requires
        p.identify_error is None,
        p.test_end is None,
    ensures
        ({
            let end = concluded(p, ctx, false, exit_code, stderr_tail, now);
            &&& end.exit_code == exit_code
            &&& end.queued is None
            &&& end.emissions.len() == 1 + one_each(p.router.agent)
            &&& end.emissions[0] == EmissionView::Station(
                StationEventView::RunCrashed {
                    procedure_id: p.procedure_id,
                    error: stderr_tail,
                    error_kind: "subprocess_crash"@,
                    execution_id: Some(p.router.execution_id),
                },
            )
            &&& end.emissions[1] matches EmissionView::Station(
                StationEventView::RunComplete { outcome, run_id, execution_id, slot_outcomes },
            ) && outcome == "ERROR"@ && run_id is None && execution_id == Some(
                p.router.execution_id,
            ) && slot_outcomes.len() == 0
            &&& p.router.agent ==> end.emissions[2] == EmissionView::Agent(
                CliEventView::RunCrashed { exit_code, stderr_tail },
            )
        }),
{
}

/// A run whose test ended is queued with what was reported, and exits by the
/// outcome of the test: zero for a pass; five for an error of Robot Framework,
/// also where no outcome is given; one for anything else.
pub proof fn law_finished_runs_are_queued(
    p: PumpView,
    ctx: RunContextView,
    test_end: JsonView,
    exit_code: i32,
    stderr_tail: Seq<char>,
    now: Instant,
)
    requires
        p.identify_error is None,
        p.test_end == Some(test_end),
    ensures
        ({
            let end = concluded(p, ctx, false, exit_code, stderr_tail, now);
            let said = json_member(test_end, "outcome"@);
            &&& end.emissions.len() == 0
            &&& end.exit_code == 0 <==> said == Some(JsonView::Text("PASS"@))
            &&& end.exit_code == 5 <==> p.connector == Connector::Robot && (said == Some(
                JsonView::Text("ERROR"@),
            ) || !(said matches Some(JsonView::Text(_))))
            &&& end.exit_code == 0 || end.exit_code == 1 || end.exit_code == 5
            &&& end.queued matches Some(run) && {
                &&& run.request == request_of(
                    p.connector,
                    test_end,
                    p.test_start,
                    p.phases,
                    p.unit,
                    ctx,
                    now,
                )
                &&& run.attachments == p.attachments
                &&& run.run_id is None
                &&& run.attempt_count == 0
                &&& run.last_attempt_at is None
                &&& run.next_retry_at is None
                &&& !run.parked
                &&& run.last_error is None
                &&& run.queued_at is None
            }
        }),
{
    reveal_strlit("PASS");
    reveal_strlit("ERROR");
    assert("PASS"@[0] == 'P' && "ERROR"@[0] == 'E');
}

} // verus!
