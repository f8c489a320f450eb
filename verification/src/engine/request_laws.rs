//! What the upload of a slot tells of the execution, field by field.

use vstd::prelude::*;
use crate::assoc::lemma_key_index_unique;
use crate::engine::measurement_laws::{law_measurements_are_uploaded, tells_measurement};
use crate::engine::metadata::{as_map, capped_keys, distinct_keys, folded};
use crate::engine::model::{
    CompletedPhaseView, LogEntryView, MetadataSourceView, Outcome, RunDataView, SlotOutcome,
    SlotUnit,
};
use crate::engine::request::{
    is_metadata, is_run_request, upload_log, upload_logs, upload_phase, upload_phases, window,
    RequestContextView, SlotStampView,
};
use crate::json::{JsonField, JsonFieldView};
use crate::log_source::source_name;
use crate::order::{lemma_sorted, sorted};
use crate::sdk::{RunCreateRequestView, RunGetOutcome};
use crate::text::trimmed;
use crate::time::{before, rfc3339_instant, Instant};

verus! {

/// The phases that a slot uploads: those of the slot and those of no slot.
pub open spec fn own_phases(phases: Seq<CompletedPhaseView>, slot: Seq<char>) -> Seq<
    CompletedPhaseView,
> {
    phases.filter(|p: CompletedPhaseView| p.slot_id is None || p.slot_id == Some(slot))
}

/// The log lines that a slot uploads, phase by phase.
pub open spec fn own_lines(phases: Seq<CompletedPhaseView>, slot: Seq<char>) -> Seq<LogEntryView>
    decreases phases.len(),
{
    if phases.len() == 0 {
        Seq::empty()
    } else if phases.last().slot_id is None || phases.last().slot_id == Some(slot) {
        own_lines(phases.drop_last(), slot) + phases.last().logs
    } else {
        own_lines(phases.drop_last(), slot)
    }
}

proof fn lemma_upload_phases(
    phases: Seq<CompletedPhaseView>,
    slot: Seq<char>,
    span: (Instant, Instant),
)
    ensures
        upload_phases(phases, slot, span).len() == own_phases(phases, slot).len(),
        forall|i: int|
            0 <= i < own_phases(phases, slot).len() ==> #[trigger] upload_phases(
                phases,
                slot,
                span,
            )[i] == upload_phase(own_phases(phases, slot)[i], span),
    decreases phases.len(),
{
    reveal(Seq::filter);
    if phases.len() > 0 {
        lemma_upload_phases(phases.drop_last(), slot, span);
    }
}

proof fn lemma_upload_logs(
    phases: Seq<CompletedPhaseView>,
    slot: Seq<char>,
    dir: Seq<char>,
    now: Instant,
)
    ensures
        upload_logs(phases, slot, dir, now).len() == own_lines(phases, slot).len(),
        forall|i: int|
            0 <= i < own_lines(phases, slot).len() ==> #[trigger] upload_logs(
                phases,
                slot,
                dir,
                now,
            )[i] == upload_log(own_lines(phases, slot)[i], dir, now),
    decreases phases.len(),
{
    if phases.len() > 0 {
        lemma_upload_logs(phases.drop_last(), slot, dir, now);
    }
}

/// Every phase that is of the slot or of no slot is uploaded, in order, and no
/// other: under its name, with its error, with its measurements, with the
/// times it tells, and with its number of retries where there were any.
pub proof fn law_phases_are_uploaded(
    req: RunCreateRequestView,
    data: RunDataView,
    slot: Seq<char>,
    stamp: Option<SlotStampView>,
    ctx: RequestContextView,
    now: Instant,
)
    requires
        is_run_request(req, data, slot, stamp, ctx, now),
    ensures
        req.phases.len() == own_phases(data.phases, slot).len(),
        forall|i: int|
            0 <= i < req.phases.len() ==> {
                let out = #[trigger] req.phases[i];
                let p = own_phases(data.phases, slot)[i];
                &&& out.name == p.name
                &&& out.docstring == p.error
                &&& out.measurements.len() == p.measurements.len()
                &&& forall|j: int|
                    0 <= j < p.measurements.len() ==> tells_measurement(
                        #[trigger] out.measurements[j],
                        p.measurements[j],
                    )
                &&& out.retry_count is Some <==> p.retry_count > 0
                &&& (0 < p.retry_count <= i64::MAX) ==> out.retry_count->0 == p.retry_count
                &&& rfc3339_instant(p.started_at) is Some ==> out.started_at == rfc3339_instant(
                    p.started_at,
                )->0
                &&& rfc3339_instant(p.started_at) is None ==> out.started_at == req.started_at
                &&& rfc3339_instant(p.completed_at) is Some ==> out.ended_at == rfc3339_instant(
                    p.completed_at,
                )->0
                &&& rfc3339_instant(p.completed_at) is None ==> out.ended_at == req.ended_at
            },
{
    lemma_upload_phases(data.phases, slot, (req.started_at, req.ended_at));
    assert forall|i: int, j: int|
        0 <= i < req.phases.len() && 0 <= j < own_phases(
            data.phases,
            slot,
        )[i].measurements.len() implies tells_measurement(
        #[trigger] req.phases[i].measurements[j],
        own_phases(data.phases, slot)[i].measurements[j],
    ) by {
        law_measurements_are_uploaded(own_phases(data.phases, slot)[i].measurements[j]);
    }
}

/// An uploaded phase passed exactly where the engine passed it, was skipped
/// exactly where the engine skipped it, and is an error exactly where the
/// engine says so; whatever else the engine says of it, it failed.
pub proof fn law_phases_keep_their_verdict(
    req: RunCreateRequestView,
    data: RunDataView,
    slot: Seq<char>,
    stamp: Option<SlotStampView>,
    ctx: RequestContextView,
    now: Instant,
)
    requires
        is_run_request(req, data, slot, stamp, ctx, now),
    ensures
        forall|i: int|
            0 <= i < req.phases.len() ==> {
                let out = (#[trigger] req.phases[i]).outcome;
                let said = own_phases(data.phases, slot)[i].outcome;
                &&& out is Pass <==> said is Pass
                &&& out is Skip <==> said is Skip
                &&& out is Error <==> said is Error
                &&& out is Fail <==> (said is Fail || said is Timeout || said is Stop
                    || said is Retry)
            },
{
    lemma_upload_phases(data.phases, slot, (req.started_at, req.ended_at));
}

/// What an outcome of the engine is told as: a skip counts as a pass, a retry
/// as a fail, a stop as an abort.
pub open spec fn tells_outcome(told: RunGetOutcome, said: Outcome) -> bool {
    &&& told is Pass <==> (said is Pass || said is Skip)
    &&& told is Fail <==> (said is Fail || said is Retry)
    &&& told is Error <==> said is Error
    &&& told is Timeout <==> said is Timeout
    &&& told is Aborted <==> said is Stop
}

/// The upload of a run with one slot tells the outcome of the run; a run
/// without an outcome is an error.
pub proof fn law_outcome_of_the_run_is_told(
    req: RunCreateRequestView,
    data: RunDataView,
    slot: Seq<char>,
    ctx: RequestContextView,
    now: Instant,
)
    requires
        is_run_request(req, data, slot, None, ctx, now),
    ensures
        data.run_outcome matches Some(said) ==> tells_outcome(req.outcome, said),
        data.run_outcome is None ==> req.outcome is Error,
        req.outcome is Pass ==> data.run_outcome == Some(Outcome::Pass) || data.run_outcome == Some(
            Outcome::Skip,
        ),
{
}

/// The upload of a slot of several tells the outcome of that slot, and that of
/// the run only where the engine says nothing of the slot.
pub proof fn law_outcome_of_the_slot_is_told(
    req: RunCreateRequestView,
    data: RunDataView,
    slot: Seq<char>,
    stamp: SlotStampView,
    ctx: RequestContextView,
    now: Instant,
    k: int,
)
    requires
        is_run_request(req, data, slot, Some(stamp), ctx, now),
        0 <= k <= data.slot_outcomes.len(),
        forall|j: int| 0 <= j < k ==> (#[trigger] data.slot_outcomes[j]).slot != slot,
        k < data.slot_outcomes.len() ==> data.slot_outcomes[k].slot == slot,
    ensures
        k < data.slot_outcomes.len() ==> tells_outcome(req.outcome, data.slot_outcomes[k].outcome),
        k == data.slot_outcomes.len() ==> {
            &&& data.run_outcome matches Some(said) ==> tells_outcome(req.outcome, said)
            &&& data.run_outcome is None ==> req.outcome is Error
        },
{
    lemma_key_index_unique::<SlotOutcome>(data.slot_outcomes, slot, k);
}

/// The upload names the unit of its slot, field for field; where no serial
/// number is known it says so, and a slot without a unit has no fields.
pub proof fn law_unit_is_uploaded(
    req: RunCreateRequestView,
    data: RunDataView,
    slot: Seq<char>,
    stamp: Option<SlotStampView>,
    ctx: RequestContextView,
    now: Instant,
    k: int,
)
    requires
        is_run_request(req, data, slot, stamp, ctx, now),
        0 <= k <= data.units.len(),
        forall|j: int| 0 <= j < k ==> (#[trigger] data.units[j]).slot != slot,
        k < data.units.len() ==> data.units[k].slot == slot,
    ensures
        k < data.units.len() ==> {
            let unit = data.units[k].unit;
            &&& unit.serial is Some ==> req.serial_number == unit.serial->0
            &&& unit.serial is None ==> req.serial_number == "UNKNOWN"@
            &&& req.part_number == unit.part
            &&& req.revision_number == unit.revision
            &&& req.batch_number == unit.batch
            &&& req.sub_units == unit.sub_units
        },
        k == data.units.len() ==> {
            &&& req.serial_number == "UNKNOWN"@
            &&& req.part_number is None
            &&& req.revision_number is None
            &&& req.batch_number is None
            &&& req.sub_units is None
        },
{
    lemma_key_index_unique::<SlotUnit>(data.units, slot, k);
}

/// The upload is filed under its procedure, version and deployment; it names
/// the execution and the slot exactly where there are several slots.
pub proof fn law_upload_is_filed(
    req: RunCreateRequestView,
    data: RunDataView,
    slot: Seq<char>,
    stamp: Option<SlotStampView>,
    ctx: RequestContextView,
    now: Instant,
)
    requires
        is_run_request(req, data, slot, stamp, ctx, now),
    ensures
        req.procedure_id == ctx.procedure_id,
        req.procedure_version == ctx.procedure_version,
        req.deployment_id == ctx.deployment_id,
        stamp is None ==> req.execution_id is None && req.slot_key is None && req.slot_name is None,
        stamp matches Some(s) ==> {
            &&& req.execution_id == Some(s.execution_id)
            &&& req.slot_key == Some(s.slot_key)
            &&& req.slot_name == s.slot_name
        },
{
}

/// The run is attributed to the operator of the unit; where that one is
/// missing or blank, to the session. A name is kept whole as far as the server
/// takes it, and a blank one is no name.
pub proof fn law_run_is_attributed(
    req: RunCreateRequestView,
    data: RunDataView,
    slot: Seq<char>,
    stamp: Option<SlotStampView>,
    ctx: RequestContextView,
    now: Instant,
    k: int,
    name: Seq<char>,
)
    requires
        is_run_request(req, data, slot, stamp, ctx, now),
        0 <= k < data.units.len(),
        forall|j: int| 0 <= j < k ==> (#[trigger] data.units[j]).slot != slot,
        data.units[k].slot == slot,
    ensures
        ({
            let scanned = data.units[k].unit.operated_by;
            let blank = scanned is None || trimmed(scanned->0).len() == 0;
            let max = ctx.operated_by_max;
            &&& (scanned == Some(name) && trimmed(name).len() > 0 && name.len() <= max)
                ==> req.operated_by == Some(name)
            &&& (scanned == Some(name) && trimmed(name).len() > 0 && name.len() > max)
                ==> req.operated_by == Some(name.take(max as int))
            &&& (blank && ctx.operated_by is None) ==> req.operated_by is None
            &&& (blank && ctx.operated_by == Some(name) && trimmed(name).len() == 0)
                ==> req.operated_by is None
            &&& (blank && ctx.operated_by == Some(name) && trimmed(name).len() > 0 && name.len()
                <= max) ==> req.operated_by == Some(name)
        }),
{
    lemma_key_index_unique::<SlotUnit>(data.units, slot, k);
}

/// Every log line of the phases of the slot and of no slot is uploaded, in
/// order, with its message, its line, its level and the time it tells.
pub proof fn law_logs_are_uploaded(
    req: RunCreateRequestView,
    data: RunDataView,
    slot: Seq<char>,
    stamp: Option<SlotStampView>,
    ctx: RequestContextView,
    now: Instant,
)
    requires
        is_run_request(req, data, slot, stamp, ctx, now),
    ensures
        req.logs is Some <==> own_lines(data.phases, slot).len() > 0,
        req.logs is Some ==> req.logs->0.len() == own_lines(data.phases, slot).len(),
        req.logs is Some ==> forall|i: int|
            0 <= i < req.logs->0.len() ==> {
                let out = #[trigger] req.logs->0[i];
                let l = own_lines(data.phases, slot)[i];
                &&& out.message == l.message
                &&& l.line is Some ==> out.line_number == l.line->0
                &&& l.line is None ==> out.line_number == 0
                &&& rfc3339_instant(l.timestamp) is Some ==> out.timestamp == rfc3339_instant(
                    l.timestamp,
                )->0
                &&& rfc3339_instant(l.timestamp) is None ==> out.timestamp == now
                &&& l.file is Some ==> out.source_file == source_name(
                    l.file->0,
                    ctx.procedure_dir,
                )
                &&& out.level is Debug <==> l.level == "DEBUG"@
                &&& out.level is Warning <==> l.level == "WARNING"@
                &&& out.level is Error <==> l.level == "ERROR"@
                &&& out.level is Critical <==> l.level == "CRITICAL"@
            },
{
    lemma_upload_logs(data.phases, slot, ctx.procedure_dir, now);
    crate::outcomes::lemma_level_words();
}

/// Whether a phase gives a slot a time window: it counts, and tells both its
/// times.
pub open spec fn gives_window(p: CompletedPhaseView, slot: Seq<char>, own_only: bool) -> bool {
    &&& if own_only {
        p.slot_id == Some(slot)
    } else {
        p.slot_id is None || p.slot_id == Some(slot)
    }
    &&& rfc3339_instant(p.started_at) is Some
    &&& rfc3339_instant(p.completed_at) is Some
}

/// Whether a window reaches from the earliest start to the latest end.
pub open spec fn spans(
    phases: Seq<CompletedPhaseView>,
    slot: Seq<char>,
    own_only: bool,
    start: Instant,
    end: Instant,
) -> bool {
    &&& exists|i: int|
        0 <= i < phases.len() && gives_window(#[trigger] phases[i], slot, own_only)
            && rfc3339_instant(phases[i].started_at) == Some(start)
    &&& exists|i: int|
        0 <= i < phases.len() && gives_window(#[trigger] phases[i], slot, own_only)
            && rfc3339_instant(phases[i].completed_at) == Some(end)
    &&& forall|i: int|
        0 <= i < phases.len() && gives_window(#[trigger] phases[i], slot, own_only) ==> !before(
            rfc3339_instant(phases[i].started_at)->0,
            start,
        ) && !before(end, rfc3339_instant(phases[i].completed_at)->0)
}

proof fn lemma_window(phases: Seq<CompletedPhaseView>, slot: Seq<char>, own_only: bool)
    ensures
        window(phases, slot, own_only) matches Some(w) ==> spans(phases, slot, own_only, w.0, w.1),
        window(phases, slot, own_only) is None ==> forall|i: int|
            0 <= i < phases.len() ==> !gives_window(#[trigger] phases[i], slot, own_only),
    decreases phases.len(),
{
    if phases.len() > 0 {
        let rest = phases.drop_last();
        lemma_window(rest, slot, own_only);
        let p = phases.last();
        assert(phases[phases.len() - 1] == p);
        assert forall|i: int| 0 <= i < rest.len() implies rest[i] == #[trigger] phases[i] by {}
        let held = window(rest, slot, own_only);
        let now = window(phases, slot, own_only);
        if held is Some {
            let (start, end) = held->0;
            let a = choose|i: int|
                0 <= i < rest.len() && gives_window(#[trigger] rest[i], slot, own_only)
                    && rfc3339_instant(rest[i].started_at) == Some(start);
            let b = choose|i: int|
                0 <= i < rest.len() && gives_window(#[trigger] rest[i], slot, own_only)
                    && rfc3339_instant(rest[i].completed_at) == Some(end);
            assert(gives_window(phases[a], slot, own_only));
            assert(gives_window(phases[b], slot, own_only));
        }
        if now is Some {
            let (start, end) = now->0;
            assert forall|i: int|
                0 <= i < phases.len() && gives_window(
                    #[trigger] phases[i],
                    slot,
                    own_only,
                ) implies !before(rfc3339_instant(phases[i].started_at)->0, start) && !before(
                end,
                rfc3339_instant(phases[i].completed_at)->0,
            ) by {
                if i < rest.len() {
                    assert(gives_window(rest[i], slot, own_only));
                }
            }
        } else {
            assert forall|i: int| 0 <= i < phases.len() implies !gives_window(
                #[trigger] phases[i],
                slot,
                own_only,
            ) by {
                if i < rest.len() {
                    assert(!gives_window(rest[i], slot, own_only));
                }
            }
        }
    }
}

/// An upload begins with the earliest start and ends with the latest end of
/// the phases of its slot; where none of these tells its times, of the phases
/// of no slot; and where none of those does, with the execution.
pub proof fn law_upload_spans_its_phases(
    req: RunCreateRequestView,
    data: RunDataView,
    slot: Seq<char>,
    stamp: Option<SlotStampView>,
    ctx: RequestContextView,
    now: Instant,
)
    requires
        is_run_request(req, data, slot, stamp, ctx, now),
    ensures
        ({
            let own = exists|i: int|
                0 <= i < data.phases.len() && gives_window(#[trigger] data.phases[i], slot, true);
            let any = exists|i: int|
                0 <= i < data.phases.len() && gives_window(#[trigger] data.phases[i], slot, false);
            &&& own ==> spans(data.phases, slot, true, req.started_at, req.ended_at)
            &&& (!own && any) ==> spans(data.phases, slot, false, req.started_at, req.ended_at)
            &&& (!own && !any) ==> {
                &&& data.start_time is Some ==> req.started_at == data.start_time->0
                &&& data.start_time is None ==> req.started_at == now
                &&& data.end_time is Some ==> req.ended_at == data.end_time->0
                &&& data.end_time is None ==> req.ended_at == now
            }
        }),
{
    lemma_window(data.phases, slot, true);
    lemma_window(data.phases, slot, false);
}

/// Whether an entry is the last word of the sources of a slot on its key: it
/// stands in a source of the slot or of no slot, and neither a later entry of
/// that source nor a later such source has the key.
pub open spec fn is_last_word(
    sources: Seq<MetadataSourceView>,
    slot: Seq<char>,
    k: int,
    e: int,
) -> bool {
    &&& 0 <= k < sources.len()
    &&& sources[k].slot is None || sources[k].slot == Some(slot)
    &&& 0 <= e < sources[k].entries.len()
    &&& forall|f: int|
        e < f < sources[k].entries.len() ==> (#[trigger] sources[k].entries[f]).key
            != sources[k].entries[e].key
    &&& forall|j: int, f: int|
        k < j < sources.len() && (sources[j].slot is None || sources[j].slot == Some(slot)) && 0
            <= f < sources[j].entries.len() ==> (#[trigger] sources[j].entries[f]).key
            != sources[k].entries[e].key
}

/// Whether the sources of a slot say nothing of a key.
pub open spec fn is_unsaid(
    sources: Seq<MetadataSourceView>,
    slot: Seq<char>,
    key: Seq<char>,
) -> bool {
    forall|j: int, f: int|
        0 <= j < sources.len() && (sources[j].slot is None || sources[j].slot == Some(slot)) && 0
            <= f < sources[j].entries.len() ==> (#[trigger] sources[j].entries[f]).key != key
}

proof fn lemma_entry_counts(entries: Seq<JsonFieldView>, e: int)
    requires
        0 <= e < entries.len(),
        forall|f: int| e < f < entries.len() ==> (#[trigger] entries[f]).key != entries[e].key,
    ensures
        as_map(entries).contains_key(entries[e].key),
        as_map(entries)[entries[e].key] == entries[e].value,
    decreases entries.len(),
{
    let rest = entries.drop_last();
    if e < rest.len() {
        assert(rest[e] == entries[e]);
        assert(entries[entries.len() - 1].key != entries[e].key);
        assert forall|f: int| e < f < rest.len() implies (#[trigger] rest[f]).key
            != rest[e].key by {
            assert(rest[f] == entries[f]);
        }
        lemma_entry_counts(rest, e);
    }
}

proof fn lemma_no_entry(entries: Seq<JsonFieldView>, key: Seq<char>)
    requires
        forall|f: int| 0 <= f < entries.len() ==> (#[trigger] entries[f]).key != key,
    ensures
        !as_map(entries).contains_key(key),
    decreases entries.len(),
{
    if entries.len() > 0 {
        let rest = entries.drop_last();
        assert(entries[entries.len() - 1].key != key);
        assert forall|f: int| 0 <= f < rest.len() implies (#[trigger] rest[f]).key != key by {
            assert(rest[f] == entries[f]);
        }
        lemma_no_entry(rest, key);
    }
}

proof fn lemma_has_entry(entries: Seq<JsonFieldView>, key: Seq<char>) -> (e: int)
    requires
        as_map(entries).contains_key(key),
    ensures
        0 <= e < entries.len(),
        entries[e].key == key,
    decreases entries.len(),
{
    if entries.last().key == key {
        entries.len() - 1
    } else {
        lemma_has_entry(entries.drop_last(), key)
    }
}

proof fn lemma_last_word(sources: Seq<MetadataSourceView>, slot: Seq<char>, k: int, e: int)
    requires
        is_last_word(sources, slot, k, e),
    ensures
        folded(sources, slot).contains_key(sources[k].entries[e].key),
        folded(sources, slot)[sources[k].entries[e].key] == sources[k].entries[e].value,
    decreases sources.len(),
{
    let rest = sources.drop_last();
    let n = sources.len() - 1;
    let key = sources[k].entries[e].key;
    if k == n {
        lemma_entry_counts(sources[k].entries, e);
    } else {
        assert(rest[k] == sources[k]);
        assert forall|f: int| e < f < rest[k].entries.len() implies (
        #[trigger] rest[k].entries[f]).key != rest[k].entries[e].key by {
            assert(sources[k].entries[f].key != key);
        }
        assert forall|j: int, f: int|
            k < j < rest.len() && (rest[j].slot is None || rest[j].slot == Some(slot)) && 0 <= f
                < rest[j].entries.len() implies (#[trigger] rest[j].entries[f]).key
            != rest[k].entries[e].key by {
            assert(rest[j] == sources[j]);
            assert(sources[j].entries[f].key != key);
        }
        lemma_last_word(rest, slot, k, e);
        if sources[n].slot is None || sources[n].slot == Some(slot) {
            assert forall|f: int| 0 <= f < sources[n].entries.len() implies (
            #[trigger] sources[n].entries[f]).key != key by {
            }
            lemma_no_entry(sources[n].entries, key);
        }
    }
}

proof fn lemma_unsaid(sources: Seq<MetadataSourceView>, slot: Seq<char>, key: Seq<char>)
    requires
        is_unsaid(sources, slot, key),
    ensures
        !folded(sources, slot).contains_key(key),
    decreases sources.len(),
{
    if sources.len() > 0 {
        let rest = sources.drop_last();
        let n = sources.len() - 1;
        assert forall|j: int, f: int|
            0 <= j < rest.len() && (rest[j].slot is None || rest[j].slot == Some(slot)) && 0 <= f
                < rest[j].entries.len() implies (#[trigger] rest[j].entries[f]).key != key by {
            assert(rest[j] == sources[j]);
            assert(sources[j].entries[f].key != key);
        }
        lemma_unsaid(rest, slot, key);
        if sources[n].slot is None || sources[n].slot == Some(slot) {
            assert forall|f: int| 0 <= f < sources[n].entries.len() implies (
            #[trigger] sources[n].entries[f]).key != key by {
            }
            lemma_no_entry(sources[n].entries, key);
        }
    }
}

/// The entries of metadata.
pub open spec fn told_entries(out: Option<Seq<JsonFieldView>>) -> Seq<JsonFieldView> {
    if out is Some {
        out->0
    } else {
        Seq::empty()
    }
}

/// Whether metadata says nothing but what the sources of a slot say last, and
/// all of it where fewer than fifty keys are told.
pub open spec fn tells_metadata(
    out: Option<Seq<JsonFieldView>>,
    sources: Seq<MetadataSourceView>,
    slot: Seq<char>,
) -> bool {
    let told = told_entries(out);
    &&& out is Some ==> told.len() > 0
    &&& forall|i: int, k: int, e: int|
        0 <= i < told.len() && #[trigger] is_last_word(sources, slot, k, e) && (
        #[trigger] told[i]).key == sources[k].entries[e].key ==> told[i].value
            == sources[k].entries[e].value
    &&& forall|i: int|
        0 <= i < told.len() ==> !is_unsaid(sources, slot, (#[trigger] told[i]).key)
    &&& told.len() < 50 ==> forall|k: int, e: int| #[trigger]
        is_last_word(sources, slot, k, e) ==> exists|i: int|
            0 <= i < told.len() && (#[trigger] told[i]).key == sources[k].entries[e].key
}

proof fn lemma_tells_metadata(
    out: Option<Seq<JsonFieldView>>,
    sources: Seq<MetadataSourceView>,
    slot: Seq<char>,
)
    requires
        is_metadata(out, sources, slot),
    ensures
        tells_metadata(out, sources, slot),
{
    broadcast use vstd::seq_lib::group_to_multiset_ensures;

    let merged = choose|merged: Seq<JsonFieldView>|
        {
            &&& distinct_keys(merged)
            &&& as_map(merged) == folded(sources, slot)
            &&& out == (if capped_keys(merged).len() > 0 {
                Some(#[trigger] capped_keys(merged))
            } else {
                None
            })
        };
    let told = told_entries(out);
    let kept = capped_keys(merged);
    assert(told =~= kept);
    lemma_sorted::<JsonField>(merged);
    let all = sorted::<JsonField>(merged);
    assert forall|i: int| 0 <= i < told.len() implies as_map(merged).contains_key(
        (#[trigger] told[i]).key,
    ) && as_map(merged)[told[i].key] == told[i].value by {
        if merged.len() > 50 {
            assert(told[i] == all[i]);
            assert(all.contains(all[i]));
            assert(all.to_multiset().count(all[i]) > 0);
        } else {
            assert(told[i] == merged[i]);
        }
        assert(merged.contains(told[i]));
        let j = choose|j: int| 0 <= j < merged.len() && merged[j] == told[i];
        lemma_entry_counts(merged, j);
    }
    assert forall|i: int, k: int, e: int|
        0 <= i < told.len() && #[trigger] is_last_word(sources, slot, k, e) && (
        #[trigger] told[i]).key == sources[k].entries[e].key implies told[i].value
        == sources[k].entries[e].value by {
        lemma_last_word(sources, slot, k, e);
    }
    assert forall|i: int| 0 <= i < told.len() implies !is_unsaid(
        sources,
        slot,
        (#[trigger] told[i]).key,
    ) by {
        if is_unsaid(sources, slot, told[i].key) {
            lemma_unsaid(sources, slot, told[i].key);
        }
    }
    if told.len() < 50 {
        assert forall|k: int, e: int| #[trigger]
            is_last_word(sources, slot, k, e) implies exists|i: int|
            0 <= i < told.len() && (#[trigger] told[i]).key == sources[k].entries[e].key by {
            lemma_last_word(sources, slot, k, e);
            let i = lemma_has_entry(merged, sources[k].entries[e].key);
            assert(told[i].key == sources[k].entries[e].key);
        }
    }
}

/// The metadata of an upload is what the sources of the run say last, and that
/// of its unit what the sources of the unit say last; each is complete where
/// it has fewer than fifty keys.
pub proof fn law_metadata_is_uploaded(
    req: RunCreateRequestView,
    data: RunDataView,
    slot: Seq<char>,
    stamp: Option<SlotStampView>,
    ctx: RequestContextView,
    now: Instant,
)
    requires
        is_run_request(req, data, slot, stamp, ctx, now),
    ensures
        tells_metadata(req.metadata, data.run_metadata_sources, slot),
        tells_metadata(req.unit_metadata, data.unit_metadata_sources, slot),
{
    lemma_tells_metadata(req.metadata, data.run_metadata_sources, slot);
    lemma_tells_metadata(req.unit_metadata, data.unit_metadata_sources, slot);
}

} // verus!
