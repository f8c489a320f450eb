//! A run as lines for a person: phases, their logs and measurements, the
//! reason of a crash, the upload and the outcome.

use vstd::prelude::*;
use vstd::string::*;
use crate::dup::{push, Dup};
use crate::json::{json_text, Json, JsonView};
use crate::outcomes::{PASS, RETRY, SKIP, XPASS};
use crate::protocol::{RunMeasurement, RunMeasurementView, StationEvent, StationEventView};
use crate::text;
use crate::text::{drop_end_while, is_space, same_ignoring_case};

verus! {

/// How a line is shown.
#[derive(Debug, Clone, Copy, PartialEq, Eq, Structural)]
pub enum ConsoleLevel {
    Info,
    Success,
    Warn,
    Error,
}

impl DeepView for ConsoleLevel {
    type V = ConsoleLevel;

    open spec fn deep_view(&self) -> ConsoleLevel {
        *self
    }
}

impl Dup for ConsoleLevel {
    fn dup(&self) -> (copy: Self) {
        *self
    }
}

/// A line for the operator.
#[derive(Debug, PartialEq, Eq)]
pub struct ConsoleLine {
    pub level: ConsoleLevel,
    pub text: String,
}

/// View of [`ConsoleLine`].
pub struct ConsoleLineView {
    pub level: ConsoleLevel,
    pub text: Seq<char>,
}

impl DeepView for ConsoleLine {
    type V = ConsoleLineView;

    open spec fn deep_view(&self) -> ConsoleLineView {
        ConsoleLineView {
            level: self.level.deep_view(),
            text: self.text.deep_view(),
        }
    }
}

/// How a log line is shown, by the word of its level.
pub open spec fn log_level_of(level: Seq<char>) -> ConsoleLevel {
    if same_ignoring_case(level, "ERROR"@) || same_ignoring_case(level, "CRITICAL"@) {
        ConsoleLevel::Error
    } else if same_ignoring_case(level, "WARNING"@) || same_ignoring_case(level, "WARN"@) {
        ConsoleLevel::Warn
    } else {
        ConsoleLevel::Info
    }
}

/// How an outcome is shown, by its word.
pub open spec fn outcome_level(outcome: Seq<char>) -> ConsoleLevel {
    if outcome == PASS@ || outcome == XPASS@ {
        ConsoleLevel::Success
    } else if outcome == SKIP@ {
        ConsoleLevel::Info
    } else if outcome == RETRY@ {
        ConsoleLevel::Warn
    } else {
        ConsoleLevel::Error
    }
}

impl ConsoleLevel {
    /// How a log line is shown, by the word of its level in whatever case.
    pub fn from_log_level(level: &str) -> (out: Self)
        ensures
            out == log_level_of(level@),
    {
        if text::eq_ignore_ascii_case(level, "ERROR") || text::eq_ignore_ascii_case(
            level,
            "CRITICAL",
        ) {
            ConsoleLevel::Error
        } else if text::eq_ignore_ascii_case(level, "WARNING") || text::eq_ignore_ascii_case(
            level,
            "WARN",
        ) {
            ConsoleLevel::Warn
        } else {
            ConsoleLevel::Info
        }
    }

    /// How an outcome is shown, by its word.
    pub fn from_outcome(outcome: &str) -> (out: Self)
        ensures
            out == outcome_level(outcome@),
    {
        if text::same(outcome, PASS) || text::same(outcome, XPASS) {
            ConsoleLevel::Success
        } else if text::same(outcome, SKIP) {
            ConsoleLevel::Info
        } else if text::same(outcome, RETRY) {
            ConsoleLevel::Warn
        } else {
            ConsoleLevel::Error
        }
    }
}

/// The slot that is worth showing.
pub open spec fn shown_slot(slot_id: Option<Seq<char>>) -> Option<Seq<char>> {
    match slot_id {
        Some(s) => if s.len() > 0 && s != "default"@ {
            Some(s)
        } else {
            None
        },
        None => None,
    }
}

fn show_slot(slot_id: &Option<String>) -> (out: Option<&String>)
    ensures
        out.deep_view() == shown_slot(slot_id.deep_view()),
{
    match slot_id {
        Some(s) => if !s.as_str().is_empty() && !text::same(s.as_str(), "default") {
            Some(s)
        } else {
            None
        },
        None => None,
    }
}

/// The slot behind a line.
pub open spec fn slot_suffix(slot_id: Option<Seq<char>>) -> Seq<char> {
    match shown_slot(slot_id) {
        Some(s) => " (slot "@ + s + ")"@,
        None => Seq::empty(),
    }
}

/// The slot behind a line; nothing where there is only one.
pub fn slot(slot_id: &Option<String>) -> (out: String)
    ensures
        out@ == slot_suffix(slot_id.deep_view()),
{
    match show_slot(slot_id) {
        Some(s) => text::concat3(" (slot ", s.as_str(), ")"),
        None => String::new(),
    }
}

/// The slot before a line.
pub open spec fn slot_lead(slot_id: Option<Seq<char>>) -> Seq<char> {
    match shown_slot(slot_id) {
        Some(s) => "[slot "@ + s + "] "@,
        None => Seq::empty(),
    }
}

/// The slot before a line; nothing where there is only one.
pub fn slot_prefix(slot_id: &Option<String>) -> (out: String)
    ensures
        out@ == slot_lead(slot_id.deep_view()),
{
    match show_slot(slot_id) {
        Some(s) => text::concat3("[slot ", s.as_str(), "] "),
        None => String::new(),
    }
}

/// The value of a measurement: a text as it is, nothing as a dash, anything
/// else as JSON.
pub open spec fn shown_value(value: Option<JsonView>) -> Seq<char> {
    match value {
        Some(JsonView::Text(s)) => s,
        Some(JsonView::Null) => "—"@,
        Some(other) => json_text(other),
        None => "—"@,
    }
}

fn show_value(value: &Option<Json>) -> (out: String)
    ensures
        out@ == shown_value(value.deep_view()),
{
    match value {
        Some(json) => match json {
            Json::Text(s) => s.dup(),
            Json::Null => "—".to_string(),
            _ => json.render(),
        },
        None => "—".to_string(),
    }
}

/// A measurement in a line.
pub open spec fn measurement_text(m: RunMeasurementView) -> Seq<char> {
    m.name + " = "@ + shown_value(m.measured_value) + (match m.units {
        Some(u) => " "@ + u,
        None => Seq::empty(),
    }) + " ["@ + m.outcome + "]"@
}

/// A measurement in a line: its name, value, unit and outcome.
pub fn measurement_line(m: &RunMeasurement) -> (line: String)
    ensures
        line@ == measurement_text(m.deep_view()),
{
    let value = show_value(&m.measured_value);
    let unit = match &m.units {
        Some(u) => text::concat2(" ", u.as_str()),
        None => String::new(),
    };
    let mut line = text::concat3(m.name.as_str(), " = ", value.as_str());
    line.append(unit.as_str());
    line.append(" [");
    line.append(m.outcome.as_str());
    line.append("]");
    line
}

// ---------------------------------------------------------------------------
// Events
// ---------------------------------------------------------------------------

/// A line.
pub open spec fn line_of(level: ConsoleLevel, text: Seq<char>) -> ConsoleLineView {
    ConsoleLineView { level, text }
}

/// An error, without the white space at its end; nothing where it is blank.
pub open spec fn error_lines(error: Seq<char>) -> Seq<ConsoleLineView> {
    let kept = drop_end_while(error, is_space());
    if kept.len() > 0 {
        seq![line_of(ConsoleLevel::Error, kept)]
    } else {
        Seq::empty()
    }
}

/// The lines of measurements.
pub open spec fn measurement_lines(ms: Seq<RunMeasurementView>) -> Seq<ConsoleLineView> {
    ms.map_values(
        |m: RunMeasurementView| line_of(ConsoleLevel::Info, "  "@ + measurement_text(m)),
    )
}

/// An event as lines for a person.
pub open spec fn console_lines(event: StationEventView) -> Seq<ConsoleLineView> {
    match event {
        StationEventView::PhaseStarted { name, slot_id, .. } => seq![
            line_of(ConsoleLevel::Info, "Phase: "@ + name + slot_suffix(slot_id)),
        ],
        StationEventView::PhaseLog { level, message, slot_id, .. } => seq![
            line_of(log_level_of(level), slot_lead(slot_id) + message),
        ],
        StationEventView::PlugLog { plug_name, level, message, slot_id, .. } => if log_level_of(
            level,
        ) is Warn || log_level_of(level) is Error {
            seq![
                line_of(
                    log_level_of(level),
                    slot_lead(slot_id) + "["@ + plug_name + "] "@ + message,
                ),
            ]
        } else {
            Seq::empty()
        },
        StationEventView::PhaseComplete { name, outcome, measurements, error, slot_id, .. } =>
            seq![
            line_of(
                outcome_level(outcome),
                "Phase "@ + name + ": "@ + outcome + slot_suffix(slot_id),
            ),
        ] + measurement_lines(measurements) + (match error {
            Some(e) => error_lines(e),
            None => Seq::empty(),
        }),
        StationEventView::RunCrashed { error, .. } => error_lines(error),
        StationEventView::RunUploaded { dashboard_url, .. } => seq![
            line_of(
                ConsoleLevel::Success,
                "Uploaded to dashboard"@ + (match dashboard_url {
                    Some(u) => " — "@ + u,
                    None => Seq::empty(),
                }),
            ),
        ],
        StationEventView::RunUploadFailed { error, .. } => seq![
            line_of(ConsoleLevel::Error, "Upload failed: "@ + error),
        ],
        StationEventView::RunComplete { outcome, .. } => seq![
            line_of(outcome_level(outcome), "Run complete: "@ + outcome),
        ],
        _ => Seq::empty(),
    }
}

fn one(level: ConsoleLevel, text: String) -> (out: Vec<ConsoleLine>)
    ensures
        out.deep_view() == seq![line_of(level, text@)],
{
    let mut out: Vec<ConsoleLine> = Vec::new();
    push(&mut out, ConsoleLine { level, text });
    assert(out.deep_view() =~= seq![line_of(level, text@)]);
    out
}

fn none() -> (out: Vec<ConsoleLine>)
    ensures
        out.deep_view() == Seq::<ConsoleLineView>::empty(),
{
    let out: Vec<ConsoleLine> = Vec::new();
    assert(out.deep_view() =~= Seq::empty());
    out
}

fn push_error(out: &mut Vec<ConsoleLine>, error: &str)
    ensures
        final(out).deep_view() == old(out).deep_view() + error_lines(error@),
{
    let ghost before = out.deep_view();
    let kept = text::trim_end(error);
    if !kept.as_str().is_empty() {
        push(out, ConsoleLine { level: ConsoleLevel::Error, text: kept });
    }
    assert(out.deep_view() =~= before + error_lines(error@));
}

fn phase_lines(
    name: &str,
    outcome: &str,
    measurements: &Vec<RunMeasurement>,
    error: &Option<String>,
    slot_id: &Option<String>,
) -> (out: Vec<ConsoleLine>)
    ensures
        out.deep_view() == seq![
            line_of(
                outcome_level(outcome@),
                "Phase "@ + name@ + ": "@ + outcome@ + slot_suffix(slot_id.deep_view()),
            ),
        ] + measurement_lines(measurements.deep_view()) + (match error.deep_view() {
            Some(e) => error_lines(e),
            None => Seq::empty(),
        }),
{
    let mut head = text::concat3("Phase ", name, ": ");
    head.append(outcome);
    let behind = slot(slot_id);
    head.append(behind.as_str());
    let mut out = one(ConsoleLevel::from_outcome(outcome), head);
    let ghost first = out.deep_view();
    let ghost all = measurement_lines(measurements.deep_view());
    let mut i: usize = 0;
    assert(first + all.take(0) =~= first);
    while i < measurements.len()
        invariant
            i <= measurements@.len(),
            all == measurement_lines(measurements.deep_view()),
            out.deep_view() == first + all.take(i as int),
        decreases measurements@.len() - i,
    {
        let line = measurement_line(&measurements[i]);
        let ghost held = out.deep_view();
        push(
            &mut out,
            ConsoleLine { level: ConsoleLevel::Info, text: text::concat2("  ", line.as_str()) },
        );
        assert(all[i as int] == line_of(
            ConsoleLevel::Info,
            "  "@ + measurement_text(measurements@[i as int].deep_view()),
        ));
        assert(all.take(i + 1) =~= all.take(i as int).push(all[i as int]));
        assert(out.deep_view() =~= first + all.take(i + 1));
        i += 1;
    }
    assert(all.take(measurements@.len() as int) =~= all);
    match error {
        Some(e) => {
            push_error(&mut out, e.as_str());
        },
        None => {
            assert(out.deep_view() + Seq::<ConsoleLineView>::empty() =~= out.deep_view());
        },
    }
    out
}

/// Renders an event as lines for a person.
pub fn console_log_event(event: &StationEvent) -> (lines: Vec<ConsoleLine>)
    ensures
        lines.deep_view() == console_lines(event.deep_view()),
{
    match event {
        StationEvent::PhaseStarted { name, slot_id, .. } => {
            let behind = slot(slot_id);
            one(ConsoleLevel::Info, text::concat3("Phase: ", name.as_str(), behind.as_str()))
        },
        StationEvent::PhaseLog { level, message, slot_id, .. } => {
            let lead = slot_prefix(slot_id);
            one(
                ConsoleLevel::from_log_level(level.as_str()),
                text::concat2(lead.as_str(), message.as_str()),
            )
        },
        StationEvent::PlugLog { plug_name, level, message, slot_id, .. } => {
            let shown = ConsoleLevel::from_log_level(level.as_str());
            match shown {
                ConsoleLevel::Warn | ConsoleLevel::Error => {
                    let lead = slot_prefix(slot_id);
                    let mut line = text::concat3(lead.as_str(), "[", plug_name.as_str());
                    line.append("] ");
                    line.append(message.as_str());
                    one(shown, line)
                },
                _ => none(),
            }
        },
        StationEvent::PhaseComplete { name, outcome, measurements, error, slot_id, .. } =>
            phase_lines(
            name.as_str(),
            outcome.as_str(),
            measurements,
            error,
            slot_id,
        ),
        StationEvent::RunCrashed { error, .. } => {
            let mut lines = none();
            push_error(&mut lines, error.as_str());
            assert(Seq::<ConsoleLineView>::empty() + error_lines(error@) =~= error_lines(error@));
            lines
        },
        StationEvent::RunUploaded { dashboard_url, .. } => {
            let mut line = "Uploaded to dashboard".to_string();
            match dashboard_url {
                Some(u) => {
                    let behind = text::concat2(" — ", u.as_str());
                    line.append(behind.as_str());
                },
                None => {
                    assert(line@ + Seq::<char>::empty() =~= line@);
                },
            }
            one(ConsoleLevel::Success, line)
        },
        StationEvent::RunUploadFailed { error, .. } => one(
            ConsoleLevel::Error,
            text::concat2("Upload failed: ", error.as_str()),
        ),
        StationEvent::RunComplete { outcome, .. } => one(
            ConsoleLevel::from_outcome(outcome.as_str()),
            text::concat2("Run complete: ", outcome.as_str()),
        ),
        _ => none(),
    }
}

// ---------------------------------------------------------------------------
// Laws
// ---------------------------------------------------------------------------

/// Every measurement of a phase that ends has a line, in order behind that of
/// the phase.
pub proof fn law_measurements_are_shown(
    event: StationEventView,
    measurements: Seq<RunMeasurementView>,
    i: int,
)
    requires
        event is PhaseComplete,
        event->PhaseComplete_measurements == measurements,
        0 <= i < measurements.len(),
    ensures
        console_lines(event)[i + 1] == line_of(
            ConsoleLevel::Info,
            "  "@ + measurement_text(measurements[i]),
        ),
{
}

/// A run is never silent about its outcome, nor a crash about its reason
/// unless it has none.
pub proof fn law_ends_are_shown(event: StationEventView)
    ensures
        event is RunComplete ==> console_lines(event).len() == 1,
        event is PhaseComplete ==> console_lines(event).len() >= 1,
        event is RunCrashed && drop_end_while(event->RunCrashed_error, is_space()).len() > 0
            ==> console_lines(event).len() == 1,
{
}

/// The chatter of plugs is not shown: only their warnings and errors.
pub proof fn law_plug_chatter_is_hidden(event: StationEventView)
    requires
        event is PlugLog,
    ensures
        console_lines(event).len() > 0 <==> !(log_level_of(event->PlugLog_level) is Info),
{
}

} // verus!
