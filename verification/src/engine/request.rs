//! The upload of one slot, projected out of what the execution left.

use vstd::prelude::*;
use crate::assoc;
use crate::assoc::lookup;
use crate::dup::{push, Dup};
use crate::engine::measurement::{build_measurement, upload_measurement};
use crate::engine::metadata::{
    as_map, belongs, belongs_to_slot, cap_metadata_keys, capped_keys, distinct_keys, dropped_keys,
    fold_metadata_sources, folded, lemma_as_map_dom, lemma_sorted_is_one, MAX_KEYS,
};
use crate::engine::model::{
    CompletedPhase, CompletedPhaseView, LogEntryView, MeasurementView, MetadataSource,
    MetadataSourceView, Outcome, RunData, RunDataView, SlotOutcome, SlotOutcomeView,
};
use crate::engine::unit::{slot_unit, unit_of};
use crate::json::{JsonField, JsonFieldView};
use crate::log_source::{sanitize_source_file, source_name};
use crate::order::{lemma_less_irreflexive, lemma_sorted, sorted, text_less, Keyed};
use crate::outcomes::{level_of, parse_log_level};
use crate::sdk::{
    RunCreateLog, RunCreateLogView, RunCreateMeasurement, RunCreatePhase, RunCreatePhaseView,
    RunCreateRequest, RunCreateRequestView, RunGetOutcome, RunGetPhasesOutcome,
};
use crate::text;
use crate::text::trimmed;
use crate::time::{
    earlier, instant_or, is_before, later, parse_rfc3339, read_or, rfc3339_instant, Instant,
};

verus! {

/// The grouping fields of a multi-slot upload.
#[derive(Debug, PartialEq, Eq)]
pub struct SlotStamp {
    pub execution_id: String,
    pub slot_key: String,
    pub slot_name: Option<String>,
}

/// View of [`SlotStamp`].
pub struct SlotStampView {
    pub execution_id: Seq<char>,
    pub slot_key: Seq<char>,
    pub slot_name: Option<Seq<char>>,
}

impl DeepView for SlotStamp {
    type V = SlotStampView;

    open spec fn deep_view(&self) -> SlotStampView {
        SlotStampView {
            execution_id: self.execution_id.deep_view(),
            slot_key: self.slot_key.deep_view(),
            slot_name: self.slot_name.deep_view(),
        }
    }
}

impl Dup for SlotStamp {
    fn dup(&self) -> (copy: Self) {
        SlotStamp {
            execution_id: self.execution_id.dup(),
            slot_key: self.slot_key.dup(),
            slot_name: self.slot_name.dup(),
        }
    }
}

/// What an upload takes from around the run.
#[derive(Debug, PartialEq, Eq)]
pub struct RequestContext {
    pub procedure_id: String,
    pub procedure_dir: String,
    /// The version that the procedure file declares, if any.
    pub procedure_version: Option<String>,
    pub deployment_id: Option<String>,
    /// The email of the session that started the run.
    pub operated_by: Option<String>,
    /// Longest operator name that the server takes, in characters.
    pub operated_by_max: u32,
}

/// View of [`RequestContext`].
pub struct RequestContextView {
    pub procedure_id: Seq<char>,
    pub procedure_dir: Seq<char>,
    pub procedure_version: Option<Seq<char>>,
    pub deployment_id: Option<Seq<char>>,
    pub operated_by: Option<Seq<char>>,
    pub operated_by_max: u32,
}

impl DeepView for RequestContext {
    type V = RequestContextView;

    open spec fn deep_view(&self) -> RequestContextView {
        RequestContextView {
            procedure_id: self.procedure_id.deep_view(),
            procedure_dir: self.procedure_dir.deep_view(),
            procedure_version: self.procedure_version.deep_view(),
            deployment_id: self.deployment_id.deep_view(),
            operated_by: self.operated_by.deep_view(),
            operated_by_max: self.operated_by_max.deep_view(),
        }
    }
}

impl Dup for RequestContext {
    fn dup(&self) -> (copy: Self) {
        RequestContext {
            procedure_id: self.procedure_id.dup(),
            procedure_dir: self.procedure_dir.dup(),
            procedure_version: self.procedure_version.dup(),
            deployment_id: self.deployment_id.dup(),
            operated_by: self.operated_by.dup(),
            operated_by_max: self.operated_by_max.dup(),
        }
    }
}

impl Keyed for SlotOutcome {
    open spec fn sort_key(value: SlotOutcomeView) -> Seq<char> {
        value.slot
    }

    fn key_text(&self) -> (key: &str) {
        self.slot.as_str()
    }
}

// ---------------------------------------------------------------------------
// Outcomes
// ---------------------------------------------------------------------------

/// The upload outcome of an engine outcome.
pub open spec fn run_outcome(outcome: Outcome) -> RunGetOutcome {
    match outcome {
        Outcome::Pass => RunGetOutcome::Pass,
        Outcome::Fail => RunGetOutcome::Fail,
        Outcome::Error => RunGetOutcome::Error,
        Outcome::Timeout => RunGetOutcome::Timeout,
        Outcome::Stop => RunGetOutcome::Aborted,
        Outcome::Skip => RunGetOutcome::Pass,
        Outcome::Retry => RunGetOutcome::Fail,
    }
}

/// Maps an engine outcome to that of an uploaded run.
pub fn engine_outcome_to_sdk(outcome: Outcome) -> (out: RunGetOutcome)
    ensures
        out == run_outcome(outcome),
{
    match outcome {
        Outcome::Pass => RunGetOutcome::Pass,
        Outcome::Fail => RunGetOutcome::Fail,
        Outcome::Error => RunGetOutcome::Error,
        Outcome::Timeout => RunGetOutcome::Timeout,
        Outcome::Stop => RunGetOutcome::Aborted,
        Outcome::Skip => RunGetOutcome::Pass,
        Outcome::Retry => RunGetOutcome::Fail,
    }
}

/// The upload outcome of a phase.
pub open spec fn phase_outcome(outcome: Outcome) -> RunGetPhasesOutcome {
    match outcome {
        Outcome::Pass => RunGetPhasesOutcome::Pass,
        Outcome::Skip => RunGetPhasesOutcome::Skip,
        Outcome::Error => RunGetPhasesOutcome::Error,
        _ => RunGetPhasesOutcome::Fail,
    }
}

/// Maps an engine outcome to that of an uploaded phase.
pub fn engine_outcome_to_phase(outcome: Outcome) -> (out: RunGetPhasesOutcome)
    ensures
        out == phase_outcome(outcome),
{
    match outcome {
        Outcome::Pass => RunGetPhasesOutcome::Pass,
        Outcome::Skip => RunGetPhasesOutcome::Skip,
        Outcome::Error => RunGetPhasesOutcome::Error,
        _ => RunGetPhasesOutcome::Fail,
    }
}

/// The engine outcome that an upload reports: that of the slot on a
/// multi-slot run, else that of the run.
pub open spec fn reported_outcome(data: RunDataView, slot: Seq<char>, multi: bool) -> Option<
    Outcome,
> {
    match (multi, lookup::<SlotOutcome>(data.slot_outcomes, slot)) {
        (true, Some(entry)) => Some(entry.outcome),
        _ => data.run_outcome,
    }
}

/// The outcome of an upload; without any it is an error.
pub open spec fn upload_outcome(data: RunDataView, slot: Seq<char>, multi: bool) -> RunGetOutcome {
    match reported_outcome(data, slot, multi) {
        Some(outcome) => run_outcome(outcome),
        None => RunGetOutcome::Error,
    }
}

fn outcome_of(data: &RunData, slot: &str, multi: bool) -> (out: RunGetOutcome)
    ensures
        out == upload_outcome(data.deep_view(), slot@, multi),
{
    if multi {
        match assoc::get(&data.slot_outcomes, slot) {
            Some(entry) => {
                return engine_outcome_to_sdk(entry.outcome);
            },
            None => {},
        }
    }
    match data.run_outcome {
        Some(outcome) => engine_outcome_to_sdk(outcome),
        None => RunGetOutcome::Error,
    }
}

// ---------------------------------------------------------------------------
// The time window of a slot
// ---------------------------------------------------------------------------

/// Whether a phase counts for the window of a slot: it belongs to the slot,
/// and is its own where only those count.
pub open spec fn in_window(p: CompletedPhaseView, slot: Seq<char>, own_only: bool) -> bool {
    &&& belongs(p.slot_id, slot)
    &&& own_only ==> p.slot_id is Some
}

/// A window that also takes in a phase, where both its times are known.
pub open spec fn widened(
    held: Option<(Instant, Instant)>,
    started: Option<Instant>,
    completed: Option<Instant>,
) -> Option<(Instant, Instant)> {
    match (started, completed) {
        (Some(s), Some(e)) => match held {
            Some((start, end)) => Some((earlier(start, s), later(end, e))),
            None => Some((s, e)),
        },
        _ => held,
    }
}

/// Widens a window to take in a phase, where both its times are known.
pub fn widen(
    held: Option<(Instant, Instant)>,
    started: Option<Instant>,
    completed: Option<Instant>,
) -> (out: Option<(Instant, Instant)>)
    ensures
        out == widened(held, started, completed),
{
    match (started, completed) {
        (Some(s), Some(e)) => match held {
            Some((start, end)) => {
                let first = if is_before(s, start) {
                    s
                } else {
                    start
                };
                let last = if is_before(end, e) {
                    e
                } else {
                    end
                };
                Some((first, last))
            },
            None => Some((s, e)),
        },
        _ => held,
    }
}

/// From the earliest start to the latest end of the phases that count.
pub open spec fn window(phases: Seq<CompletedPhaseView>, slot: Seq<char>, own_only: bool) -> Option<
    (Instant, Instant),
>
    decreases phases.len(),
{
    if phases.len() == 0 {
        None
    } else {
        let rest = window(phases.drop_last(), slot, own_only);
        let p = phases.last();
        if in_window(p, slot, own_only) {
            widened(rest, rfc3339_instant(p.started_at), rfc3339_instant(p.completed_at))
        } else {
            rest
        }
    }
}

fn phase_window(phases: &Vec<CompletedPhase>, slot: &str, own_only: bool) -> (out: Option<
    (Instant, Instant),
>)
    ensures
        out == window(phases.deep_view(), slot@, own_only),
{
    let mut out: Option<(Instant, Instant)> = None;
    let mut i: usize = 0;
    while i < phases.len()
        invariant
            i <= phases@.len(),
            out == window(phases.deep_view().take(i as int), slot@, own_only),
        decreases phases@.len() - i,
    {
        let ghost now = phases.deep_view().take(i + 1);
        assert(now.drop_last() =~= phases.deep_view().take(i as int));
        assert(now.last() == phases@[i as int].deep_view());
        let p = &phases[i];
        if belongs_to_slot(&p.slot_id, slot) && (!own_only || p.slot_id.is_some()) {
            out = widen(
                out,
                parse_rfc3339(p.started_at.as_str()),
                parse_rfc3339(p.completed_at.as_str()),
            );
        }
        i += 1;
    }
    assert(phases.deep_view().take(phases@.len() as int) =~= phases.deep_view());
    out
}

/// The time span of an upload: that of the slot's own phases, else that of
/// the shared stages, else that of the execution.
pub open spec fn upload_span(data: RunDataView, slot: Seq<char>, now: Instant) -> (Instant, Instant) {
    match window(data.phases, slot, true) {
        Some(span) => span,
        None => match window(data.phases, slot, false) {
            Some(span) => span,
            None => (
                match data.start_time {
                    Some(t) => t,
                    None => now,
                },
                match data.end_time {
                    Some(t) => t,
                    None => now,
                },
            ),
        },
    }
}

fn span_of(data: &RunData, slot: &str, now: Instant) -> (span: (Instant, Instant))
    ensures
        span == upload_span(data.deep_view(), slot@, now),
{
    match phase_window(&data.phases, slot, true) {
        Some(span) => span,
        None => match phase_window(&data.phases, slot, false) {
            Some(span) => span,
            None => {
                let start = match data.start_time {
                    Some(t) => t,
                    None => now,
                };
                let end = match data.end_time {
                    Some(t) => t,
                    None => now,
                };
                (start, end)
            },
        },
    }
}

// ---------------------------------------------------------------------------
// Phases and logs
// ---------------------------------------------------------------------------

/// The time of a text, or another where it cannot be read.
pub open spec fn time_or(text: Seq<char>, other: Instant) -> Instant {
    read_or(rfc3339_instant(text), other)
}

fn read_time_or(text: &str, other: Instant) -> (t: Instant)
    ensures
        t == time_or(text@, other),
{
    instant_or(parse_rfc3339(text), other)
}

/// A phase of the upload.
pub open spec fn upload_phase(p: CompletedPhaseView, span: (Instant, Instant)) -> RunCreatePhaseView {
    RunCreatePhaseView {
        name: p.name,
        outcome: phase_outcome(p.outcome),
        started_at: time_or(p.started_at, span.0),
        ended_at: time_or(p.completed_at, span.1),
        measurements: p.measurements.map_values(|m: MeasurementView| upload_measurement(m)),
        retry_count: if p.retry_count > 0 {
            Some(p.retry_count as i64)
        } else {
            None
        },
        docstring: p.error,
    }
}

fn build_phase(p: &CompletedPhase, span: (Instant, Instant)) -> (out: RunCreatePhase)
    ensures
        out.deep_view() == upload_phase(p.deep_view(), span),
{
    let mut measurements: Vec<RunCreateMeasurement> = Vec::new();
    let mut i: usize = 0;
    while i < p.measurements.len()
        invariant
            i <= p.measurements@.len(),
            measurements@.len() == i,
            forall|k: int|
                0 <= k < i ==> (#[trigger] measurements@[k]).deep_view() == upload_measurement(
                    p.measurements@[k].deep_view(),
                ),
        decreases p.measurements@.len() - i,
    {
        measurements.push(build_measurement(&p.measurements[i]));
        i += 1;
    }
    assert(measurements.deep_view() =~= p.measurements.deep_view().map_values(
        |m: MeasurementView| upload_measurement(m),
    ));
    let retry_count: Option<i64> = if p.retry_count > 0 {
        Some(p.retry_count as i64)
    } else {
        None
    };
    RunCreatePhase {
        name: p.name.dup(),
        outcome: engine_outcome_to_phase(p.outcome),
        started_at: read_time_or(p.started_at.as_str(), span.0),
        ended_at: read_time_or(p.completed_at.as_str(), span.1),
        measurements,
        retry_count,
        docstring: p.error.dup(),
    }
}

/// The phases of the upload of a slot: its own and the shared ones, in order.
pub open spec fn upload_phases(
    phases: Seq<CompletedPhaseView>,
    slot: Seq<char>,
    span: (Instant, Instant),
) -> Seq<RunCreatePhaseView>
    decreases phases.len(),
{
    if phases.len() == 0 {
        Seq::empty()
    } else {
        let rest = upload_phases(phases.drop_last(), slot, span);
        if belongs(phases.last().slot_id, slot) {
            rest.push(upload_phase(phases.last(), span))
        } else {
            rest
        }
    }
}

fn build_phases(phases: &Vec<CompletedPhase>, slot: &str, span: (Instant, Instant)) -> (out: Vec<
    RunCreatePhase,
>)
    ensures
        out.deep_view() == upload_phases(phases.deep_view(), slot@, span),
{
    let mut out: Vec<RunCreatePhase> = Vec::new();
    let mut i: usize = 0;
    assert(out.deep_view() =~= upload_phases(phases.deep_view().take(0), slot@, span));
    while i < phases.len()
        invariant
            i <= phases@.len(),
            out.deep_view() == upload_phases(phases.deep_view().take(i as int), slot@, span),
        decreases phases@.len() - i,
    {
        let ghost now = phases.deep_view().take(i + 1);
        assert(now.drop_last() =~= phases.deep_view().take(i as int));
        assert(now.last() == phases@[i as int].deep_view());
        if belongs_to_slot(&phases[i].slot_id, slot) {
            push(&mut out, build_phase(&phases[i], span));
        }
        i += 1;
    }
    assert(phases.deep_view().take(phases@.len() as int) =~= phases.deep_view());
    out
}

/// A log line of the upload.
pub open spec fn upload_log(l: LogEntryView, dir: Seq<char>, now: Instant) -> RunCreateLogView {
    RunCreateLogView {
        level: level_of(l.level),
        timestamp: time_or(l.timestamp, now),
        message: l.message,
        source_file: source_name(
            match l.file {
                Some(file) => file,
                None => Seq::empty(),
            },
            dir,
        ),
        line_number: match l.line {
            Some(line) => line as i64,
            None => 0,
        },
    }
}

/// The log lines of the upload of a slot, phase by phase.
pub open spec fn upload_logs(
    phases: Seq<CompletedPhaseView>,
    slot: Seq<char>,
    dir: Seq<char>,
    now: Instant,
) -> Seq<RunCreateLogView>
    decreases phases.len(),
{
    if phases.len() == 0 {
        Seq::empty()
    } else {
        let rest = upload_logs(phases.drop_last(), slot, dir, now);
        if belongs(phases.last().slot_id, slot) {
            rest + phases.last().logs.map_values(|l: LogEntryView| upload_log(l, dir, now))
        } else {
            rest
        }
    }
}

fn push_logs(out: &mut Vec<RunCreateLog>, p: &CompletedPhase, dir: &str, now: Instant)
    ensures
        final(out).deep_view() == old(out).deep_view() + p.logs.deep_view().map_values(
            |l: LogEntryView| upload_log(l, dir@, now),
        ),
{
    let ghost before = out.deep_view();
    let ghost all = p.logs.deep_view().map_values(|l: LogEntryView| upload_log(l, dir@, now));
    let mut i: usize = 0;
    assert(before + all.take(0) =~= before);
    proof {
        reveal_strlit("");
        assert(""@ =~= Seq::<char>::empty());
    }
    while i < p.logs.len()
        invariant
            i <= p.logs@.len(),
            all == p.logs.deep_view().map_values(|l: LogEntryView| upload_log(l, dir@, now)),
            out.deep_view() == before + all.take(i as int),
            ""@ == Seq::<char>::empty(),
        decreases p.logs@.len() - i,
    {
        let l = &p.logs[i];
        let source_file = match &l.file {
            Some(file) => sanitize_source_file(file.as_str(), dir),
            None => sanitize_source_file("", dir),
        };
        let line_number: i64 = match l.line {
            Some(line) => line as i64,
            None => 0,
        };
        let log = RunCreateLog {
            level: parse_log_level(l.level.as_str()),
            timestamp: read_time_or(l.timestamp.as_str(), now),
            message: l.message.dup(),
            source_file,
            line_number,
        };
        assert(log.deep_view() == all[i as int]);
        push(out, log);
        assert(out.deep_view() =~= before + all.take(i + 1));
        i += 1;
    }
    assert(all.take(p.logs@.len() as int) =~= all);
}

fn build_logs(phases: &Vec<CompletedPhase>, slot: &str, dir: &str, now: Instant) -> (out: Vec<
    RunCreateLog,
>)
    ensures
        out.deep_view() == upload_logs(phases.deep_view(), slot@, dir@, now),
{
    let mut out: Vec<RunCreateLog> = Vec::new();
    let mut i: usize = 0;
    assert(out.deep_view() =~= upload_logs(phases.deep_view().take(0), slot@, dir@, now));
    while i < phases.len()
        invariant
            i <= phases@.len(),
            out.deep_view() == upload_logs(phases.deep_view().take(i as int), slot@, dir@, now),
        decreases phases@.len() - i,
    {
        let ghost part = phases.deep_view().take(i + 1);
        assert(part.drop_last() =~= phases.deep_view().take(i as int));
        assert(part.last() == phases@[i as int].deep_view());
        if belongs_to_slot(&phases[i].slot_id, slot) {
            push_logs(&mut out, &phases[i], dir, now);
        }
        i += 1;
    }
    assert(phases.deep_view().take(phases@.len() as int) =~= phases.deep_view());
    out
}

// ---------------------------------------------------------------------------
// Attribution
// ---------------------------------------------------------------------------

/// Whether a text holds more than white space.
pub open spec fn not_blank(s: Seq<char>) -> bool {
    trimmed(s).len() > 0
}

/// An operator name within `max` characters; a blank one is none.
pub open spec fn clamped_operator(name: Option<Seq<char>>, max: nat) -> Option<Seq<char>> {
    match name {
        Some(name) => if !not_blank(name) {
            None
        } else if name.len() <= max {
            Some(name)
        } else {
            Some(name.take(max as int))
        },
        None => None,
    }
}

/// Bounds an operator name. One that is too long is cut, not dropped.
pub fn clamp_operated_by(name: &Option<String>, max: u32) -> (out: Option<String>)
    ensures
        out.deep_view() == clamped_operator(name.deep_view(), max as nat),
{
    match name {
        Some(name) => {
            if text::trim(name.as_str()).as_str().is_empty() {
                return None;
            }
            let chars = text::chars_of(name.as_str());
            if chars.len() <= max as usize {
                Some(name.dup())
            } else {
                let cut = text::string_between(&chars, 0, max as usize);
                assert(cut@ =~= name@.take(max as int));
                Some(cut)
            }
        },
        None => None,
    }
}

/// Who operated the run: the operator of the unit where it is not blank,
/// else the session.
pub open spec fn operator_of(unit: Option<Seq<char>>, session: Option<Seq<char>>) -> Option<
    Seq<char>,
> {
    match unit {
        Some(name) => if not_blank(name) {
            unit
        } else {
            session
        },
        None => session,
    }
}

fn pick_operator(unit: &Option<String>, session: &Option<String>) -> (out: Option<String>)
    ensures
        out.deep_view() == operator_of(unit.deep_view(), session.deep_view()),
{
    match unit {
        Some(name) => {
            if text::trim(name.as_str()).as_str().is_empty() {
                session.dup()
            } else {
                Some(name.dup())
            }
        },
        None => session.dup(),
    }
}

// ---------------------------------------------------------------------------
// The request
// ---------------------------------------------------------------------------

/// Whether a list of entries is the metadata of a slot: the bounded form of
/// some list that says of each key what the sources of the slot say; left
/// out where it is empty.
pub open spec fn is_metadata(
    out: Option<Seq<JsonFieldView>>,
    sources: Seq<MetadataSourceView>,
    slot: Seq<char>,
) -> bool {
    exists|merged: Seq<JsonFieldView>|
        {
            &&& distinct_keys(merged)
            &&& as_map(merged) == folded(sources, slot)
            &&& out == (if capped_keys(merged).len() > 0 {
                Some(#[trigger] capped_keys(merged))
            } else {
                None
            })
        }
}

/// Whether a request is the upload of a slot.
pub open spec fn is_run_request(
    req: RunCreateRequestView,
    data: RunDataView,
    slot: Seq<char>,
    stamp: Option<SlotStampView>,
    ctx: RequestContextView,
    now: Instant,
) -> bool {
    let unit = unit_of(data.units, slot);
    let span = upload_span(data, slot, now);
    let logs = upload_logs(data.phases, slot, ctx.procedure_dir, now);
    &&& req.outcome == upload_outcome(data, slot, stamp is Some)
    &&& req.procedure_id == ctx.procedure_id
    &&& req.serial_number == (match unit.serial {
        Some(serial) => serial,
        None => "UNKNOWN"@,
    })
    &&& req.started_at == span.0
    &&& req.ended_at == span.1
    &&& req.phases == upload_phases(data.phases, slot, span)
    &&& req.logs == (if logs.len() > 0 {
        Some(logs)
    } else {
        None
    })
    &&& req.part_number == unit.part
    &&& req.revision_number == unit.revision
    &&& req.batch_number == unit.batch
    &&& req.sub_units == unit.sub_units
    &&& req.execution_id == (match stamp {
        Some(stamp) => Some(stamp.execution_id),
        None => None,
    })
    &&& req.slot_key == (match stamp {
        Some(stamp) => Some(stamp.slot_key),
        None => None,
    })
    &&& req.slot_name == (match stamp {
        Some(stamp) => stamp.slot_name,
        None => None,
    })
    &&& is_metadata(req.metadata, data.run_metadata_sources, slot)
    &&& is_metadata(req.unit_metadata, data.unit_metadata_sources, slot)
    &&& req.docstring is None
    &&& req.procedure_version == ctx.procedure_version
    &&& req.deployment_id == ctx.deployment_id
    &&& req.operated_by == clamped_operator(
        operator_of(unit.operated_by, ctx.operated_by),
        ctx.operated_by_max as nat,
    )
}

fn metadata_of(
    sources: &Vec<MetadataSource>,
    slot: &str,
) -> (out: Option<Vec<JsonField>>)
    ensures
        is_metadata(out.deep_view(), sources.deep_view(), slot@),
{
    let merged = fold_metadata_sources(sources, slot);
    let (kept, _) = cap_metadata_keys(&merged);
    if kept.len() > 0 {
        Some(kept)
    } else {
        None
    }
}

/// Whether metadata has a key.
pub open spec fn has_key(metadata: Option<Seq<JsonFieldView>>, key: Seq<char>) -> bool {
    metadata matches Some(entries) && exists|i: int|
        0 <= i < entries.len() && (#[trigger] entries[i]).key == key
}

/// Whether keys are those that the bound drops of the metadata of a slot: of
/// some list that says of each key what the sources of the slot say.
pub open spec fn are_dropped(
    keys: Seq<Seq<char>>,
    sources: Seq<MetadataSourceView>,
    slot: Seq<char>,
) -> bool {
    exists|merged: Seq<JsonFieldView>|
        {
            &&& distinct_keys(merged)
            &&& as_map(merged) == folded(sources, slot)
            &&& keys == #[trigger] dropped_keys(merged)
        }
}

/// The keys that the upload of a slot leaves out of its metadata, in order.
pub fn dropped_metadata(sources: &Vec<MetadataSource>, slot: &str) -> (keys: Vec<String>)
    ensures
        are_dropped(keys.deep_view(), sources.deep_view(), slot@),
{
    let merged = fold_metadata_sources(sources, slot);
    let (_, dropped) = cap_metadata_keys(&merged);
    dropped
}

/// Builds the upload of one slot: its own phases and the shared ones, its
/// unit, its metadata, and the outcome the engine computed for it. A stamp
/// marks a multi-slot run.
pub fn build_run_request(
    data: &RunData,
    slot: &str,
    stamp: &Option<SlotStamp>,
    ctx: &RequestContext,
    now: Instant,
) -> (req: RunCreateRequest)
    ensures
        is_run_request(
            req.deep_view(),
            data.deep_view(),
            slot@,
            stamp.deep_view(),
            ctx.deep_view(),
            now,
        ),
{
    let outcome = outcome_of(data, slot, stamp.is_some());
    let span = span_of(data, slot, now);
    let phases = build_phases(&data.phases, slot, span);
    let lines = build_logs(&data.phases, slot, ctx.procedure_dir.as_str(), now);
    let logs = if lines.len() > 0 {
        Some(lines)
    } else {
        None
    };
    let unit = slot_unit(&data.units, slot);
    let serial_number = match &unit.serial {
        Some(serial) => serial.dup(),
        None => "UNKNOWN".to_string(),
    };
    let candidate = pick_operator(&unit.operated_by, &ctx.operated_by);
    let (execution_id, slot_key, slot_name) = match stamp {
        Some(stamp) => (
            Some(stamp.execution_id.dup()),
            Some(stamp.slot_key.dup()),
            stamp.slot_name.dup(),
        ),
        None => (None, None, None),
    };
    RunCreateRequest {
        outcome,
        procedure_id: ctx.procedure_id.dup(),
        serial_number,
        started_at: span.0,
        ended_at: span.1,
        phases,
        logs,
        part_number: unit.part,
        revision_number: unit.revision,
        batch_number: unit.batch,
        sub_units: unit.sub_units,
        execution_id,
        slot_key,
        slot_name,
        metadata: metadata_of(&data.run_metadata_sources, slot),
        unit_metadata: metadata_of(&data.unit_metadata_sources, slot),
        docstring: None,
        procedure_version: ctx.procedure_version.dup(),
        deployment_id: ctx.deployment_id.dup(),
        operated_by: clamp_operated_by(&candidate, ctx.operated_by_max),
    }
}

// ---------------------------------------------------------------------------
// Laws
// ---------------------------------------------------------------------------

/// A phase of another slot changes nothing in the upload of a slot: neither
/// its phases, nor its logs, nor its time span.
pub proof fn law_other_slots_do_not_show(
    data: RunDataView,
    other: CompletedPhaseView,
    slot: Seq<char>,
    span: (Instant, Instant),
    dir: Seq<char>,
    now: Instant,
)
    requires
        other.slot_id is Some,
        other.slot_id != Some(slot),
    ensures
        upload_phases(data.phases.push(other), slot, span) == upload_phases(
            data.phases,
            slot,
            span,
        ),
        upload_logs(data.phases.push(other), slot, dir, now) == upload_logs(
            data.phases,
            slot,
            dir,
            now,
        ),
        upload_span(RunDataView { phases: data.phases.push(other), ..data }, slot, now)
            == upload_span(data, slot, now),
{
    assert(data.phases.push(other).drop_last() =~= data.phases);
}

/// A shared stage does not stretch the time span of a slot that has phases
/// of its own.
pub proof fn law_shared_stage_keeps_window(
    phases: Seq<CompletedPhaseView>,
    shared: CompletedPhaseView,
    slot: Seq<char>,
)
    requires
        shared.slot_id is None,
    ensures
        window(phases.push(shared), slot, true) == window(phases, slot, true),
{
    assert(phases.push(shared).drop_last() =~= phases);
}

/// On a multi-slot run the outcome of a slot does not depend on that of the
/// run as long as the engine reports the slot.
pub proof fn law_slot_outcome_wins(
    data: RunDataView,
    slot: Seq<char>,
    rollup: Option<Outcome>,
)
    requires
        lookup::<SlotOutcome>(data.slot_outcomes, slot) is Some,
    ensures
        upload_outcome(RunDataView { run_outcome: rollup, ..data }, slot, true) == upload_outcome(
            data,
            slot,
            true,
        ),
{
}

/// The metadata of an upload has at most fifty keys.
pub proof fn law_metadata_bounded(
    out: Option<Seq<JsonFieldView>>,
    sources: Seq<MetadataSourceView>,
    slot: Seq<char>,
)
    requires
        is_metadata(out, sources, slot),
    ensures
        out is Some ==> 0 < out->0.len() <= MAX_KEYS,
{
    let merged = choose|merged: Seq<JsonFieldView>|
        {
            &&& distinct_keys(merged)
            &&& as_map(merged) == folded(sources, slot)
            &&& out == (if capped_keys(merged).len() > 0 {
                Some(#[trigger] capped_keys(merged))
            } else {
                None
            })
        };
    crate::engine::metadata::law_capped_keys(merged);
}

/// The keys that are told as dropped are those that the upload leaves out: of
/// every key of the metadata, either the upload has it or it is told, and
/// never both.
pub proof fn law_dropped_keys_are_told(
    out: Option<Seq<JsonFieldView>>,
    keys: Seq<Seq<char>>,
    sources: Seq<MetadataSourceView>,
    slot: Seq<char>,
    key: Seq<char>,
)
    requires
        is_metadata(out, sources, slot),
        are_dropped(keys, sources, slot),
    ensures
        folded(sources, slot).contains_key(key) <==> has_key(out, key) || keys.contains(key),
        !(has_key(out, key) && keys.contains(key)),
{
    let kept = choose|merged: Seq<JsonFieldView>|
        {
            &&& distinct_keys(merged)
            &&& as_map(merged) == folded(sources, slot)
            &&& out == (if capped_keys(merged).len() > 0 {
                Some(#[trigger] capped_keys(merged))
            } else {
                None
            })
        };
    let told = choose|merged: Seq<JsonFieldView>|
        {
            &&& distinct_keys(merged)
            &&& as_map(merged) == folded(sources, slot)
            &&& keys == #[trigger] dropped_keys(merged)
        };
    lemma_sorted_is_one(kept, told);
    lemma_as_map_dom(kept, key);
    if kept.len() > MAX_KEYS {
        let all = sorted::<JsonField>(kept);
        lemma_sorted::<JsonField>(kept);
        lemma_as_map_dom(all, key);
        assert(out == Some(all.take(MAX_KEYS as int)));
        assert forall|i: int| 0 <= i < keys.len() implies #[trigger] keys[i] == all[MAX_KEYS
            + i].key by {}
        if folded(sources, slot).contains_key(key) {
            let i = choose|i: int| 0 <= i < all.len() && (#[trigger] all[i]).key == key;
            if i < MAX_KEYS {
                assert(out->0[i].key == key);
            } else {
                assert(keys[i - MAX_KEYS] == key);
            }
        }
        if has_key(out, key) {
            let i = choose|i: int| 0 <= i < out->0.len() && (#[trigger] out->0[i]).key == key;
            assert(all[i].key == key);
            if keys.contains(key) {
                let j = choose|j: int| 0 <= j < keys.len() && keys[j] == key;
                assert(text_less(all[i].key, all[MAX_KEYS + j].key));
                lemma_less_irreflexive(key);
            }
        }
        if keys.contains(key) {
            let j = choose|j: int| 0 <= j < keys.len() && keys[j] == key;
            assert(all[MAX_KEYS + j].key == key);
        }
    } else if kept.len() > 0 {
        assert(out == Some(kept));
    }
}

} // verus!
