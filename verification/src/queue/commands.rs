//! The queue commands: what they print, and how they exit.

use vstd::prelude::*;
use vstd::string::*;
use crate::assoc;
use crate::assoc::{lookup, with_value};
use crate::connector::pump::text_json;
use crate::dup::{push, Dup};
use crate::engine::caps::{field, member};
use crate::json::{int_number, json_text, Json, JsonField, JsonView};
use crate::queue::policy::{brought_back, retry_one, QueueEntry, QueueEntryView};
use crate::queue::upload::{outcome_label, outcome_text};
use crate::queue::{QueuedAttachment, QueuedAttachmentView, QueuedRun, QueuedRunView};
use crate::text;
use crate::text::decimal;

verus! {

/// Why the queue cannot be read.
#[derive(Debug, PartialEq, Eq)]
pub enum QueueFault {
    Open(String),
    Read(String),
    /// It was read before a retry.
    Reread(String),
}

/// View of [`QueueFault`].
pub enum QueueFaultView {
    Open(Seq<char>),
    Read(Seq<char>),
    Reread(Seq<char>),
}

impl DeepView for QueueFault {
    type V = QueueFaultView;

    open spec fn deep_view(&self) -> QueueFaultView {
        match self {
            QueueFault::Open(v) => QueueFaultView::Open(v.deep_view()),
            QueueFault::Read(v) => QueueFaultView::Read(v.deep_view()),
            QueueFault::Reread(v) => QueueFaultView::Reread(v.deep_view()),
        }
    }
}

/// What a command prints, and how it exits.
#[derive(Debug, PartialEq, Eq)]
pub struct CommandOutput {
    /// Lines.
    pub stdout: Vec<String>,
    /// Lines.
    pub stderr: Vec<String>,
    pub exit_code: i32,
}

/// View of [`CommandOutput`].
pub struct CommandOutputView {
    pub stdout: Seq<Seq<char>>,
    pub stderr: Seq<Seq<char>>,
    pub exit_code: i32,
}

impl DeepView for CommandOutput {
    type V = CommandOutputView;

    open spec fn deep_view(&self) -> CommandOutputView {
        CommandOutputView {
            stdout: self.stdout.deep_view(),
            stderr: self.stderr.deep_view(),
            exit_code: self.exit_code.deep_view(),
        }
    }
}

/// A column of the table of entries.
#[derive(Debug, PartialEq, Eq)]
pub struct Column {
    pub header: String,
    /// The field of the entry that it shows.
    pub path: String,
    pub width: u32,
    /// Whether what is too wide is cut.
    pub truncate: bool,
}

/// View of [`Column`].
pub struct ColumnView {
    pub header: Seq<char>,
    pub path: Seq<char>,
    pub width: u32,
    pub truncate: bool,
}

impl DeepView for Column {
    type V = ColumnView;

    open spec fn deep_view(&self) -> ColumnView {
        ColumnView {
            header: self.header.deep_view(),
            path: self.path.deep_view(),
            width: self.width.deep_view(),
            truncate: self.truncate.deep_view(),
        }
    }
}

/// What a drop command does.
#[derive(Debug, PartialEq, Eq)]
pub struct DropPlan {
    /// The entries to drop, in order.
    pub ids: Vec<String>,
    pub output: CommandOutput,
}

/// View of [`DropPlan`].
pub struct DropPlanView {
    pub ids: Seq<Seq<char>>,
    pub output: CommandOutputView,
}

impl DeepView for DropPlan {
    type V = DropPlanView;

    open spec fn deep_view(&self) -> DropPlanView {
        DropPlanView {
            ids: self.ids.deep_view(),
            output: self.output.deep_view(),
        }
    }
}

fn json_of(s: &Option<String>) -> (json: Json)
    ensures
        json.deep_view() == text_json(s.deep_view()),
{
    match s {
        Some(s) => Json::Text(s.dup()),
        None => Json::Null,
    }
}

// ---------------------------------------------------------------------------
// Entries
// ---------------------------------------------------------------------------

/// The state of an entry in a word. One that is parked or waits is not done,
/// though its run is created.
pub open spec fn status_of(q: QueuedRunView) -> Seq<char> {
    if q.parked {
        "parked"@
    } else if q.next_retry_at is Some {
        "backoff"@
    } else if q.run_id is Some {
        "attachments pending"@
    } else {
        "pending"@
    }
}

/// The state of an entry in a word.
pub fn entry_status(q: &QueuedRun) -> (word: &'static str)
    ensures
        word@ == status_of(q.deep_view()),
{
    if q.parked {
        "parked"
    } else if q.next_retry_at.is_some() {
        "backoff"
    } else if q.run_id.is_some() {
        "attachments pending"
    } else {
        "pending"
    }
}

/// The kind of the last failure of an entry.
pub open spec fn error_kind(q: QueuedRunView) -> Option<Seq<char>> {
    match q.last_error {
        Some(e) => Some(e.kind),
        None => None,
    }
}

/// An entry as a flat JSON object.
pub open spec fn summary_of(id: Seq<char>, q: QueuedRunView) -> JsonView {
    JsonView::Object(
        seq![
            member("queue_id"@, JsonView::Text(id)),
            member("procedure_id"@, JsonView::Text(q.request.procedure_id)),
            member("outcome"@, JsonView::Text(outcome_label(q.request.outcome))),
            member("serial_number"@, JsonView::Text(q.request.serial_number)),
            member("run_id"@, text_json(q.run_id)),
            member("status"@, JsonView::Text(status_of(q))),
            member("attempts"@, JsonView::Number(int_number(q.attempt_count as nat))),
            member("attachments"@, JsonView::Number(int_number(q.attachments.len()))),
            member("parked"@, JsonView::Bool(q.parked)),
            member("queued_at"@, text_json(q.queued_at)),
            member("last_attempt_at"@, text_json(q.last_attempt_at)),
            member("next_retry_at"@, text_json(q.next_retry_at)),
            member("last_error"@, text_json(error_kind(q))),
        ],
    )
}

/// An entry as a flat JSON object.
pub fn entry_summary(id: &str, q: &QueuedRun) -> (json: Json)
    ensures
        json.deep_view() == summary_of(id@, q.deep_view()),
{
    let kind = match &q.last_error {
        Some(e) => Some(e.kind.dup()),
        None => None,
    };
    let mut fields: Vec<JsonField> = Vec::new();
    push(&mut fields, field("queue_id", Json::Text(id.to_string())));
    push(&mut fields, field("procedure_id", Json::Text(q.request.procedure_id.dup())));
    push(&mut fields, field("outcome", Json::Text(outcome_text(q.request.outcome).to_string())));
    push(&mut fields, field("serial_number", Json::Text(q.request.serial_number.dup())));
    push(&mut fields, field("run_id", json_of(&q.run_id)));
    push(&mut fields, field("status", Json::Text(entry_status(q).to_string())));
    push(&mut fields, field("attempts", Json::integer(q.attempt_count as u64)));
    push(&mut fields, field("attachments", Json::integer(q.attachments.len() as u64)));
    push(&mut fields, field("parked", Json::Bool(q.parked)));
    push(&mut fields, field("queued_at", json_of(&q.queued_at)));
    push(&mut fields, field("last_attempt_at", json_of(&q.last_attempt_at)));
    push(&mut fields, field("next_retry_at", json_of(&q.next_retry_at)));
    push(&mut fields, field("last_error", json_of(&kind)));
    assert(fields.deep_view() =~= summary_of(id@, q.deep_view())->Object_0);
    Json::object(fields)
}

/// The entries as flat JSON objects.
pub open spec fn summaries(pending: Seq<QueueEntryView>) -> Seq<JsonView> {
    pending.map_values(|e: QueueEntryView| summary_of(e.queue_id, e.run))
}

/// The entries as flat JSON objects: the rows of the table.
pub fn entry_summaries(pending: &Vec<QueueEntry>) -> (rows: Vec<Json>)
    ensures
        rows.deep_view() == summaries(pending.deep_view()),
{
    let mut rows: Vec<Json> = Vec::new();
    let mut i: usize = 0;
    while i < pending.len()
        invariant
            i <= pending@.len(),
            rows@.len() == i,
            forall|k: int|
                0 <= k < i ==> (#[trigger] rows@[k]).deep_view() == summary_of(
                    pending@[k].queue_id@,
                    pending@[k].run.deep_view(),
                ),
        decreases pending@.len() - i,
    {
        rows.push(entry_summary(pending[i].queue_id.as_str(), &pending[i].run));
        i += 1;
    }
    assert(rows.deep_view() =~= summaries(pending.deep_view()));
    rows
}

/// The columns of the table of entries.
pub fn list_columns() -> (columns: Vec<Column>)
    ensures
        columns.deep_view() == seq![
            ColumnView { header: "QUEUE ID"@, path: "queue_id"@, width: 20, truncate: true },
            ColumnView { header: "PROCEDURE"@, path: "procedure_id"@, width: 20, truncate: true },
            ColumnView { header: "OUTCOME"@, path: "outcome"@, width: 8, truncate: false },
            ColumnView { header: "SERIAL"@, path: "serial_number"@, width: 20, truncate: true },
            ColumnView { header: "STATUS"@, path: "status"@, width: 20, truncate: false },
            ColumnView { header: "ATTEMPTS"@, path: "attempts"@, width: 8, truncate: false },
            ColumnView { header: "ATTACHMENTS"@, path: "attachments"@, width: 5, truncate: false },
        ],
{
    let mut columns: Vec<Column> = Vec::new();
    push(
        &mut columns,
        Column {
            header: "QUEUE ID".to_string(),
            path: "queue_id".to_string(),
            width: 20,
            truncate: true,
        },
    );
    push(
        &mut columns,
        Column {
            header: "PROCEDURE".to_string(),
            path: "procedure_id".to_string(),
            width: 20,
            truncate: true,
        },
    );
    push(
        &mut columns,
        Column {
            header: "OUTCOME".to_string(),
            path: "outcome".to_string(),
            width: 8,
            truncate: false,
        },
    );
    push(
        &mut columns,
        Column {
            header: "SERIAL".to_string(),
            path: "serial_number".to_string(),
            width: 20,
            truncate: true,
        },
    );
    push(
        &mut columns,
        Column {
            header: "STATUS".to_string(),
            path: "status".to_string(),
            width: 20,
            truncate: false,
        },
    );
    push(
        &mut columns,
        Column {
            header: "ATTEMPTS".to_string(),
            path: "attempts".to_string(),
            width: 8,
            truncate: false,
        },
    );
    push(
        &mut columns,
        Column {
            header: "ATTACHMENTS".to_string(),
            path: "attachments".to_string(),
            width: 5,
            truncate: false,
        },
    );
    assert(columns.deep_view() =~= seq![
        ColumnView { header: "QUEUE ID"@, path: "queue_id"@, width: 20, truncate: true },
        ColumnView { header: "PROCEDURE"@, path: "procedure_id"@, width: 20, truncate: true },
        ColumnView { header: "OUTCOME"@, path: "outcome"@, width: 8, truncate: false },
        ColumnView { header: "SERIAL"@, path: "serial_number"@, width: 20, truncate: true },
        ColumnView { header: "STATUS"@, path: "status"@, width: 20, truncate: false },
        ColumnView { header: "ATTEMPTS"@, path: "attempts"@, width: 8, truncate: false },
        ColumnView { header: "ATTACHMENTS"@, path: "attachments"@, width: 5, truncate: false },
    ]);
    columns
}

// ---------------------------------------------------------------------------
// Outputs
// ---------------------------------------------------------------------------

/// One line on the error stream.
pub open spec fn complains(line: Seq<char>, exit_code: i32) -> CommandOutputView {
    CommandOutputView { stdout: Seq::empty(), stderr: seq![line], exit_code }
}

fn complain(line: String, exit_code: i32) -> (out: CommandOutput)
    ensures
        out.deep_view() == complains(line@, exit_code),
{
    let stdout: Vec<String> = Vec::new();
    let mut stderr: Vec<String> = Vec::new();
    push(&mut stderr, line);
    assert(stdout.deep_view() =~= Seq::empty());
    assert(stderr.deep_view() =~= seq![line@]);
    CommandOutput { stdout, stderr, exit_code }
}

/// Lines on the output.
pub open spec fn prints(lines: Seq<Seq<char>>, exit_code: i32) -> CommandOutputView {
    CommandOutputView { stdout: lines, stderr: Seq::empty(), exit_code }
}

fn print(stdout: Vec<String>, exit_code: i32) -> (out: CommandOutput)
    ensures
        out.deep_view() == prints(stdout.deep_view(), exit_code),
{
    let stderr: Vec<String> = Vec::new();
    assert(stderr.deep_view() =~= Seq::empty());
    CommandOutput { stdout, stderr, exit_code }
}

fn one_line(line: String) -> (lines: Vec<String>)
    ensures
        lines.deep_view() == seq![line@],
{
    let mut lines: Vec<String> = Vec::new();
    push(&mut lines, line);
    assert(lines.deep_view() =~= seq![line@]);
    lines
}

/// What a command says where the queue cannot be read.
pub open spec fn fault_text(fault: QueueFaultView) -> Seq<char> {
    match fault {
        QueueFaultView::Open(e) => "Failed to open database: "@ + e,
        QueueFaultView::Read(e) => "Failed to read queue: "@ + e,
        QueueFaultView::Reread(e) => "Failed to read queue after retry: "@ + e,
    }
}

/// Ends a command that cannot read the queue.
pub fn queue_unreadable(fault: &QueueFault) -> (out: CommandOutput)
    ensures
        out.deep_view() == complains(fault_text(fault.deep_view()), 1),
{
    let line = match fault {
        QueueFault::Open(e) => text::concat2("Failed to open database: ", e.as_str()),
        QueueFault::Read(e) => text::concat2("Failed to read queue: ", e.as_str()),
        QueueFault::Reread(e) => text::concat2("Failed to read queue after retry: ", e.as_str()),
    };
    complain(line, 1)
}

/// What a command says of an entry that is not there.
pub open spec fn missing_text(queue_id: Seq<char>) -> Seq<char> {
    "Queue entry '"@ + queue_id + "' not found."@
}

/// Ends a command whose entry is not there.
pub fn entry_missing(queue_id: &str) -> (out: CommandOutput)
    ensures
        out.deep_view() == complains(missing_text(queue_id@), 1),
{
    complain(text::concat3("Queue entry '", queue_id, "' not found."), 1)
}

/// The entry of an identity.
pub fn find_entry<'a>(pending: &'a Vec<QueueEntry>, queue_id: &str) -> (entry: Option<
    &'a QueueEntry,
>)
    ensures
        entry.deep_view() == lookup::<QueueEntry>(pending.deep_view(), queue_id@),
{
    assoc::get(pending, queue_id)
}

/// JSON values as lines.
pub open spec fn rendered(values: Seq<JsonView>) -> Seq<Seq<char>> {
    values.map_values(|v: JsonView| json_text(v))
}

fn render_all(values: &Vec<Json>) -> (lines: Vec<String>)
    ensures
        lines.deep_view() == rendered(values.deep_view()),
{
    let mut lines: Vec<String> = Vec::new();
    let mut i: usize = 0;
    while i < values.len()
        invariant
            i <= values@.len(),
            lines@.len() == i,
            forall|k: int|
                0 <= k < i ==> (#[trigger] lines@[k])@ == json_text(values@[k].deep_view()),
        decreases values@.len() - i,
    {
        lines.push(values[i].render());
        i += 1;
    }
    assert(lines.deep_view() =~= rendered(values.deep_view()));
    lines
}

/// Lists the entries: in JSON one a line; else `None` stands for the table of
/// [`entry_summaries`] and [`list_columns`].
pub fn list_cmd(pending: &Vec<QueueEntry>, json_mode: bool) -> (out: Option<CommandOutput>)
    ensures
        out.deep_view() == (if json_mode {
            Some(prints(rendered(summaries(pending.deep_view())), 0))
        } else if pending@.len() == 0 {
            Some(complains("Queue is empty."@, 0))
        } else {
            None
        }),
{
    if json_mode {
        let rows = entry_summaries(pending);
        return Some(print(render_all(&rows), 0));
    }
    if pending.len() == 0 {
        return Some(complain("Queue is empty.".to_string(), 0));
    }
    None
}

// ---------------------------------------------------------------------------
// get
// ---------------------------------------------------------------------------

/// A line with a label, where there is something to show.
pub open spec fn labelled(label: Seq<char>, value: Option<Seq<char>>) -> Seq<Seq<char>> {
    match value {
        Some(v) => seq![label + v],
        None => Seq::empty(),
    }
}

fn push_labelled(lines: &mut Vec<String>, label: &str, value: &Option<String>)
    ensures
        final(lines).deep_view() == old(lines).deep_view() + labelled(label@, value.deep_view()),
{
    let ghost before = lines.deep_view();
    match value {
        Some(v) => {
            push(lines, text::concat2(label, v.as_str()));
        },
        None => {},
    }
    assert(lines.deep_view() =~= before + labelled(label@, value.deep_view()));
}

/// The last failure of an entry in words.
pub open spec fn error_line(q: QueuedRunView) -> Option<Seq<char>> {
    match q.last_error {
        Some(e) => Some(
            e.kind + (match e.status {
                Some(s) => " (HTTP "@ + decimal(s as nat) + ")"@,
                None => Seq::empty(),
            }) + ": "@ + e.error,
        ),
        None => None,
    }
}

fn make_error_line(q: &QueuedRun) -> (line: Option<String>)
    ensures
        line.deep_view() == error_line(q.deep_view()),
{
    match &q.last_error {
        Some(e) => {
            let status = match e.status {
                Some(s) => {
                    let n = text::decimal_text(s as u64);
                    text::concat3(" (HTTP ", n.as_str(), ")")
                },
                None => String::new(),
            };
            let mut line = text::concat3(e.kind.as_str(), status.as_str(), ": ");
            line.append(e.error.as_str());
            Some(line)
        },
        None => None,
    }
}

/// A file in words.
pub open spec fn file_line(a: QueuedAttachmentView, there: bool) -> Seq<char> {
    "  "@ + a.name + " ("@ + a.mimetype + ") "@ + a.path + (if there {
        ""@
    } else {
        " (missing)"@
    })
}

/// The files of an entry in words; those that are marked are there.
pub open spec fn file_lines(files: Seq<QueuedAttachmentView>, there: Seq<bool>) -> Seq<Seq<char>> {
    Seq::new(files.len(), |i: int| file_line(files[i], i < there.len() && there[i]))
}

fn push_file_lines(lines: &mut Vec<String>, files: &Vec<QueuedAttachment>, there: &Vec<bool>)
    ensures
        final(lines).deep_view() == old(lines).deep_view() + file_lines(files.deep_view(), there@),
{
    let ghost before = lines.deep_view();
    let mut i: usize = 0;
    assert(before + file_lines(files.deep_view(), there@).take(0) =~= before);
    while i < files.len()
        invariant
            i <= files@.len(),
            lines.deep_view() == before + file_lines(files.deep_view(), there@).take(i as int),
        decreases files@.len() - i,
    {
        let present = i < there.len() && there[i];
        let a = &files[i];
        let mut line = text::concat3("  ", a.name.as_str(), " (");
        line.append(a.mimetype.as_str());
        line.append(") ");
        line.append(a.path.as_str());
        line.append(
            if present {
                ""
            } else {
                " (missing)"
            },
        );
        assert(line@ =~= file_line(a.deep_view(), present));
        let ghost held = lines.deep_view();
        push(lines, line);
        assert(file_lines(files.deep_view(), there@).take(i + 1) =~= file_lines(
            files.deep_view(),
            there@,
        ).take(i as int).push(line@));
        assert(lines.deep_view() =~= before + file_lines(files.deep_view(), there@).take(i + 1));
        i += 1;
    }
    assert(file_lines(files.deep_view(), there@).take(files@.len() as int) =~= file_lines(
        files.deep_view(),
        there@,
    ));
}

/// An entry in words.
pub open spec fn entry_lines(id: Seq<char>, q: QueuedRunView, there: Seq<bool>) -> Seq<Seq<char>> {
    seq![
        "Queue ID:     "@ + id,
        "Status:       "@ + status_of(q),
        "Procedure:    "@ + q.request.procedure_id,
        "Serial:       "@ + q.request.serial_number,
        "Outcome:      "@ + outcome_label(q.request.outcome),
    ] + labelled(
        "Run ID:       "@,
        match q.run_id {
            Some(id) => Some(id + " (run created server-side)"@),
            None => None,
        },
    ) + seq!["Attempts:     "@ + decimal(q.attempt_count as nat)] + labelled(
        "Queued at:    "@,
        q.queued_at,
    ) + labelled("Last attempt: "@, q.last_attempt_at) + labelled(
        "Next retry:   "@,
        q.next_retry_at,
    ) + labelled("Last error:   "@, error_line(q)) + (if q.attachments.len() == 0 {
        seq!["Attachments:  none"@]
    } else {
        seq!["Attachments:"@] + file_lines(q.attachments, there)
    })
}

/// Shows an entry in words; the files that are marked are there.
pub fn get_cmd(id: &str, q: &QueuedRun, there: &Vec<bool>) -> (out: CommandOutput)
    ensures
        out.deep_view() == prints(entry_lines(id@, q.deep_view(), there@), 0),
{
    let mut lines: Vec<String> = Vec::new();
    push(&mut lines, text::concat2("Queue ID:     ", id));
    push(&mut lines, text::concat2("Status:       ", entry_status(q)));
    push(&mut lines, text::concat2("Procedure:    ", q.request.procedure_id.as_str()));
    push(&mut lines, text::concat2("Serial:       ", q.request.serial_number.as_str()));
    push(&mut lines, text::concat2("Outcome:      ", outcome_text(q.request.outcome)));
    assert(lines.deep_view() =~= seq![
        "Queue ID:     "@ + id@,
        "Status:       "@ + status_of(q.deep_view()),
        "Procedure:    "@ + q.request.procedure_id@,
        "Serial:       "@ + q.request.serial_number@,
        "Outcome:      "@ + outcome_label(q.request.outcome),
    ]);
    let run = match &q.run_id {
        Some(run_id) => Some(text::concat2(run_id.as_str(), " (run created server-side)")),
        None => None,
    };
    push_labelled(&mut lines, "Run ID:       ", &run);
    let ghost so_far = lines.deep_view();
    let n = text::decimal_text(q.attempt_count as u64);
    push(&mut lines, text::concat2("Attempts:     ", n.as_str()));
    assert(lines.deep_view() =~= so_far + seq![
        "Attempts:     "@ + decimal(q.attempt_count as nat),
    ]);
    push_labelled(&mut lines, "Queued at:    ", &q.queued_at);
    push_labelled(&mut lines, "Last attempt: ", &q.last_attempt_at);
    push_labelled(&mut lines, "Next retry:   ", &q.next_retry_at);
    push_labelled(&mut lines, "Last error:   ", &make_error_line(q));
    let ghost so_far = lines.deep_view();
    if q.attachments.len() == 0 {
        push(&mut lines, "Attachments:  none".to_string());
        assert(lines.deep_view() =~= so_far + seq!["Attachments:  none"@]);
    } else {
        push(&mut lines, "Attachments:".to_string());
        push_file_lines(&mut lines, &q.attachments, there);
        assert(lines.deep_view() =~= so_far + (seq!["Attachments:"@] + file_lines(
            q.attachments.deep_view(),
            there@,
        )));
    }
    print(lines, 0)
}

/// An entry in its JSON form, with its identity and state in it.
pub open spec fn tagged_entry(value: JsonView, id: Seq<char>, status: Seq<char>) -> JsonView {
    match value {
        JsonView::Object(fields) => JsonView::Object(
            with_value::<JsonField>(
                with_value::<JsonField>(fields, member("queue_id"@, JsonView::Text(id))),
                member("status"@, JsonView::Text(status)),
            ),
        ),
        _ => value,
    }
}

/// Puts the identity and state of an entry into its JSON form.
pub fn tag_entry(value: Json, id: &str, q: &QueuedRun) -> (out: Json)
    ensures
        out.deep_view() == tagged_entry(value.deep_view(), id@, status_of(q.deep_view())),
{
    match value {
        Json::Object(fields) => {
            let ghost seen = value.deep_view()->Object_0;
            let mut fields = fields;
            assert(seen =~= fields.deep_view());
            assoc::put(&mut fields, field("queue_id", Json::Text(id.to_string())));
            assoc::put(&mut fields, field("status", Json::Text(entry_status(q).to_string())));
            Json::object(fields)
        },
        other => other,
    }
}

// ---------------------------------------------------------------------------
// export
// ---------------------------------------------------------------------------

/// What an export says once the file is written.
pub fn export_cmd(queue_id: &str, path: &str, json_mode: bool) -> (out: CommandOutput)
    ensures
        out.deep_view() == (if json_mode {
            prints(
                seq![
                    json_text(
                        JsonView::Object(
                            seq![
                                member("type"@, JsonView::Text("exported"@)),
                                member("queue_id"@, JsonView::Text(queue_id@)),
                                member("path"@, JsonView::Text(path@)),
                            ],
                        ),
                    ),
                ],
                0,
            )
        } else {
            complains("Exported "@ + queue_id@ + " to "@ + path@, 0)
        }),
{
    if json_mode {
        let mut fields: Vec<JsonField> = Vec::new();
        push(&mut fields, field("type", Json::Text("exported".to_string())));
        push(&mut fields, field("queue_id", Json::Text(queue_id.to_string())));
        push(&mut fields, field("path", Json::Text(path.to_string())));
        assert(fields.deep_view() =~= seq![
            member("type"@, JsonView::Text("exported"@)),
            member("queue_id"@, JsonView::Text(queue_id@)),
            member("path"@, JsonView::Text(path@)),
        ]);
        print(one_line(Json::object(fields).render()), 0)
    } else {
        let mut line = text::concat3("Exported ", queue_id, " to ");
        line.append(path);
        complain(line, 0)
    }
}

// ---------------------------------------------------------------------------
// retry
// ---------------------------------------------------------------------------

/// The entries that a retry of everything brings back: those that are parked
/// or wait.
pub open spec fn retried(pending: Seq<QueueEntryView>) -> Seq<QueueEntryView>
    decreases pending.len(),
{
    if pending.len() == 0 {
        Seq::empty()
    } else {
        let rest = retried(pending.drop_last());
        let e = pending.last();
        if e.run.parked || e.run.next_retry_at is Some {
            rest.push(QueueEntryView { queue_id: e.queue_id, run: brought_back(e.run) })
        } else {
            rest
        }
    }
}

/// Brings back every entry that is parked or waits: gives those to keep anew.
pub fn retry_all(pending: &Vec<QueueEntry>) -> (out: Vec<QueueEntry>)
    ensures
        out.deep_view() == retried(pending.deep_view()),
{
    let mut out: Vec<QueueEntry> = Vec::new();
    let mut i: usize = 0;
    assert(out.deep_view() =~= retried(pending.deep_view().take(0)));
    while i < pending.len()
        invariant
            i <= pending@.len(),
            out.deep_view() == retried(pending.deep_view().take(i as int)),
        decreases pending@.len() - i,
    {
        let ghost seen = pending.deep_view().take(i + 1);
        assert(seen.drop_last() =~= pending.deep_view().take(i as int));
        assert(seen.last() == pending@[i as int].deep_view());
        if pending[i].run.parked || pending[i].run.next_retry_at.is_some() {
            push(
                &mut out,
                QueueEntry {
                    queue_id: pending[i].queue_id.dup(),
                    run: retry_one(&pending[i].run),
                },
            );
        }
        i += 1;
    }
    assert(pending.deep_view().take(pending@.len() as int) =~= pending.deep_view());
    out
}

/// What a retry of everything says: how many entries are still there. Success
/// is an empty queue.
pub open spec fn retry_summary(remaining: u64, json_mode: bool) -> CommandOutputView {
    let code: i32 = if remaining > 0 {
        1
    } else {
        0
    };
    if json_mode {
        prints(
            seq![
                json_text(
                    JsonView::Object(
                        seq![
                            member("type"@, JsonView::Text("retried"@)),
                            member(
                                "remaining"@,
                                JsonView::Number(int_number(remaining as nat)),
                            ),
                        ],
                    ),
                ),
            ],
            code,
        )
    } else if remaining > 0 {
        complains(
            decimal(remaining as nat) + " entr"@ + (if remaining == 1 {
                "y"@
            } else {
                "ies"@
            }) + " still queued."@,
            code,
        )
    } else {
        prints(Seq::empty(), code)
    }
}

/// Ends a retry of everything.
pub fn retry_all_done(remaining: u64, json_mode: bool) -> (out: CommandOutput)
    ensures
        out.deep_view() == retry_summary(remaining, json_mode),
{
    let code: i32 = if remaining > 0 {
        1
    } else {
        0
    };
    if json_mode {
        let mut fields: Vec<JsonField> = Vec::new();
        push(&mut fields, field("type", Json::Text("retried".to_string())));
        push(&mut fields, field("remaining", Json::integer(remaining)));
        assert(fields.deep_view() =~= seq![
            member("type"@, JsonView::Text("retried"@)),
            member("remaining"@, JsonView::Number(int_number(remaining as nat))),
        ]);
        return print(one_line(Json::object(fields).render()), code);
    }
    if remaining > 0 {
        let n = text::decimal_text(remaining);
        let ending = if remaining == 1 {
            "y"
        } else {
            "ies"
        };
        let mut line = text::concat3(n.as_str(), " entr", ending);
        line.append(" still queued.");
        return complain(line, code);
    }
    let none: Vec<String> = Vec::new();
    assert(none.deep_view() =~= Seq::empty());
    print(none, code)
}

/// The failure of an entry in JSON.
pub open spec fn failure_json(entry: Option<QueuedRunView>) -> JsonView {
    match entry {
        Some(q) => match q.last_error {
            Some(e) => JsonView::Object(
                seq![
                    member("kind"@, JsonView::Text(e.kind)),
                    member(
                        "status"@,
                        match e.status {
                            Some(s) => JsonView::Number(int_number(s as nat)),
                            None => JsonView::Null,
                        },
                    ),
                    member("error"@, JsonView::Text(e.error)),
                ],
            ),
            None => JsonView::Null,
        },
        None => JsonView::Null,
    }
}

fn make_failure_json(entry: &Option<QueuedRun>) -> (json: Json)
    ensures
        json.deep_view() == failure_json(entry.deep_view()),
{
    match entry {
        Some(q) => match &q.last_error {
            Some(e) => {
                let status = match e.status {
                    Some(s) => Json::integer(s as u64),
                    None => Json::Null,
                };
                let mut fields: Vec<JsonField> = Vec::new();
                push(&mut fields, field("kind", Json::Text(e.kind.dup())));
                push(&mut fields, field("status", status));
                push(&mut fields, field("error", Json::Text(e.error.dup())));
                assert(fields.deep_view() =~= failure_json(entry.deep_view())->Object_0);
                Json::object(fields)
            },
            None => Json::Null,
        },
        None => Json::Null,
    }
}

/// The line of an entry that was uploaded.
pub open spec fn uploaded_json(queue_id: Seq<char>, run_id: Seq<char>) -> JsonView {
    JsonView::Object(
        seq![
            member("type"@, JsonView::Text("uploaded"@)),
            member("queue_id"@, JsonView::Text(queue_id)),
            member("run_id"@, JsonView::Text(run_id)),
        ],
    )
}

/// The line of an entry that could not be uploaded.
pub open spec fn failed_json(queue_id: Seq<char>, entry: Option<QueuedRunView>) -> JsonView {
    JsonView::Object(
        seq![
            member("type"@, JsonView::Text("failed"@)),
            member("queue_id"@, JsonView::Text(queue_id)),
            member(
                "run_id"@,
                text_json(
                    match entry {
                        Some(q) => q.run_id,
                        None => None,
                    },
                ),
            ),
            member("error"@, failure_json(entry)),
        ],
    )
}

/// What the retry of one entry says, by the run that it gave or by the entry
/// that is still there. In words the failure was said before.
pub open spec fn retry_one_summary(
    queue_id: Seq<char>,
    run_id: Option<Seq<char>>,
    entry: Option<QueuedRunView>,
    json_mode: bool,
) -> CommandOutputView {
    let code: i32 = if run_id is Some {
        0
    } else {
        1
    };
    if json_mode {
        let line = match run_id {
            Some(id) => uploaded_json(queue_id, id),
            None => failed_json(queue_id, entry),
        };
        prints(seq![json_text(line)], code)
    } else {
        prints(Seq::empty(), code)
    }
}

/// Ends the retry of one entry.
pub fn retry_cmd(
    queue_id: &str,
    run_id: &Option<String>,
    entry: &Option<QueuedRun>,
    json_mode: bool,
) -> (out: CommandOutput)
    ensures
        out.deep_view() == retry_one_summary(
            queue_id@,
            run_id.deep_view(),
            entry.deep_view(),
            json_mode,
        ),
{
    let code: i32 = if run_id.is_some() {
        0
    } else {
        1
    };
    if !json_mode {
        let none: Vec<String> = Vec::new();
        assert(none.deep_view() =~= Seq::empty());
        return print(none, code);
    }
    let mut fields: Vec<JsonField> = Vec::new();
    match run_id {
        Some(id) => {
            push(&mut fields, field("type", Json::Text("uploaded".to_string())));
            push(&mut fields, field("queue_id", Json::Text(queue_id.to_string())));
            push(&mut fields, field("run_id", Json::Text(id.dup())));
            assert(fields.deep_view() =~= uploaded_json(queue_id@, id@)->Object_0);
            print(one_line(Json::object(fields).render()), code)
        },
        None => {
            let known = match entry {
                Some(q) => q.run_id.dup(),
                None => None,
            };
            push(&mut fields, field("type", Json::Text("failed".to_string())));
            push(&mut fields, field("queue_id", Json::Text(queue_id.to_string())));
            push(&mut fields, field("run_id", json_of(&known)));
            push(&mut fields, field("error", make_failure_json(entry)));
            assert(fields.deep_view() =~= failed_json(queue_id@, entry.deep_view())->Object_0);
            print(one_line(Json::object(fields).render()), code)
        },
    }
}

// ---------------------------------------------------------------------------
// drop
// ---------------------------------------------------------------------------

/// The line of an entry that was removed.
pub open spec fn removed_line(queue_id: Seq<char>) -> Seq<char> {
    json_text(
        JsonView::Object(
            seq![
                member("type"@, JsonView::Text("removed"@)),
                member("queue_id"@, JsonView::Text(queue_id)),
            ],
        ),
    )
}

fn make_removed_line(queue_id: &str) -> (line: String)
    ensures
        line@ == removed_line(queue_id@),
{
    let mut fields: Vec<JsonField> = Vec::new();
    push(&mut fields, field("type", Json::Text("removed".to_string())));
    push(&mut fields, field("queue_id", Json::Text(queue_id.to_string())));
    assert(fields.deep_view() =~= seq![
        member("type"@, JsonView::Text("removed"@)),
        member("queue_id"@, JsonView::Text(queue_id@)),
    ]);
    Json::object(fields).render()
}

/// The identities of the entries.
pub open spec fn ids_of(pending: Seq<QueueEntryView>) -> Seq<Seq<char>> {
    pending.map_values(|e: QueueEntryView| e.queue_id)
}

/// A plan that drops nothing.
pub open spec fn drops_nothing(output: CommandOutputView) -> DropPlanView {
    DropPlanView { ids: Seq::empty(), output }
}

/// What a drop command does with the queue as it was found: a queue that cannot
/// be opened ends it, and then a command that names no target; only then it
/// matters whether the queue could be read.
pub open spec fn drop_found(
    found: Result<Seq<QueueEntryView>, QueueFaultView>,
    queue_id: Option<Seq<char>>,
    all: bool,
    json_mode: bool,
) -> DropPlanView {
    match found {
        Ok(pending) => drop_plan(pending, queue_id, all, json_mode),
        Err(fault) => if !(fault is Open) && queue_id is None && !all {
            drop_plan(Seq::empty(), queue_id, all, json_mode)
        } else {
            drops_nothing(complains(fault_text(fault), 1))
        },
    }
}

/// What was found of the queue, by its view.
pub open spec fn found_view(found: Result<Vec<QueueEntry>, QueueFault>) -> Result<
    Seq<QueueEntryView>,
    QueueFaultView,
> {
    match found {
        Ok(pending) => Ok(pending.deep_view()),
        Err(fault) => Err(fault.deep_view()),
    }
}

/// What a drop command does: one entry, or all, or a complaint.
pub open spec fn drop_plan(
    pending: Seq<QueueEntryView>,
    queue_id: Option<Seq<char>>,
    all: bool,
    json_mode: bool,
) -> DropPlanView {
    match queue_id {
        Some(id) => if lookup::<QueueEntry>(pending, id) is Some {
            DropPlanView {
                ids: seq![id],
                output: if json_mode {
                    prints(seq![removed_line(id)], 0)
                } else {
                    complains("Removed: "@ + id, 0)
                },
            }
        } else {
            DropPlanView { ids: Seq::empty(), output: complains(missing_text(id), 1) }
        },
        None => if !all {
            DropPlanView {
                ids: Seq::empty(),
                output: complains("Specify a queue ID or use --all to remove everything."@, 1),
            }
        } else if json_mode {
            DropPlanView {
                ids: ids_of(pending),
                output: prints(ids_of(pending).map_values(|id: Seq<char>| removed_line(id)), 0),
            }
        } else if pending.len() == 0 {
            DropPlanView { ids: Seq::empty(), output: complains("Queue is empty."@, 0) }
        } else {
            DropPlanView {
                ids: ids_of(pending),
                output: complains("Removed "@ + decimal(pending.len()) + " entries."@, 0),
            }
        },
    }
}

/// Plans a drop command.
pub fn drop_cmd(
    found: &Result<Vec<QueueEntry>, QueueFault>,
    queue_id: &Option<String>,
    all: bool,
    json_mode: bool,
) -> (plan: DropPlan)
    ensures
        plan.deep_view() == drop_found(found_view(*found), queue_id.deep_view(), all, json_mode),
{
    match found {
        Ok(pending) => plan_drop(pending, queue_id, all, json_mode),
        Err(fault) => {
            let none: Vec<QueueEntry> = Vec::new();
            assert(none.deep_view() =~= Seq::empty());
            let opened = match fault {
                QueueFault::Open(_) => false,
                _ => true,
            };
            if opened && queue_id.is_none() && !all {
                plan_drop(&none, queue_id, all, json_mode)
            } else {
                let ids: Vec<String> = Vec::new();
                assert(ids.deep_view() =~= Seq::empty());
                DropPlan { ids, output: queue_unreadable(fault) }
            }
        },
    }
}

fn plan_drop(
    pending: &Vec<QueueEntry>,
    queue_id: &Option<String>,
    all: bool,
    json_mode: bool,
) -> (plan: DropPlan)
    ensures
        plan.deep_view() == drop_plan(pending.deep_view(), queue_id.deep_view(), all, json_mode),
{
    let none: Vec<String> = Vec::new();
    assert(none.deep_view() =~= Seq::empty());
    match queue_id {
        Some(id) => {
            return match assoc::get(pending, id.as_str()) {
                Some(_) => DropPlan {
                    ids: one_line(id.dup()),
                    output: if json_mode {
                        print(one_line(make_removed_line(id.as_str())), 0)
                    } else {
                        complain(text::concat2("Removed: ", id.as_str()), 0)
                    },
                },
                None => DropPlan { ids: none, output: entry_missing(id.as_str()) },
            };
        },
        None => {},
    }
    if !all {
        return DropPlan {
            ids: none,
            output: complain(
                "Specify a queue ID or use --all to remove everything.".to_string(),
                1,
            ),
        };
    }
    let mut ids: Vec<String> = Vec::new();
    let mut lines: Vec<String> = Vec::new();
    let mut i: usize = 0;
    while i < pending.len()
        invariant
            i <= pending@.len(),
            ids@.len() == i,
            lines@.len() == i,
            forall|k: int| 0 <= k < i ==> (#[trigger] ids@[k])@ == pending@[k].queue_id@,
            forall|k: int|
                0 <= k < i ==> (#[trigger] lines@[k])@ == removed_line(pending@[k].queue_id@),
        decreases pending@.len() - i,
    {
        ids.push(pending[i].queue_id.dup());
        lines.push(make_removed_line(pending[i].queue_id.as_str()));
        i += 1;
    }
    assert(ids.deep_view() =~= ids_of(pending.deep_view()));
    assert(lines.deep_view() =~= ids_of(pending.deep_view()).map_values(
        |id: Seq<char>| removed_line(id),
    ));
    if json_mode {
        return DropPlan { ids, output: print(lines, 0) };
    }
    if pending.len() == 0 {
        return DropPlan { ids: none, output: complain("Queue is empty.".to_string(), 0) };
    }
    let n = text::decimal_text(pending.len() as u64);
    DropPlan { ids, output: complain(text::concat3("Removed ", n.as_str(), " entries."), 0) }
}

// ---------------------------------------------------------------------------
// Laws
// ---------------------------------------------------------------------------

/// The state of an entry: parked before waiting, waiting before what is left
/// of the upload.
pub proof fn law_status_precedence(q: QueuedRunView)
    ensures
        q.parked ==> status_of(q) == "parked"@,
        !q.parked && q.next_retry_at is Some ==> status_of(q) == "backoff"@,
        !q.parked && q.next_retry_at is None && q.run_id is Some ==> status_of(q)
            == "attachments pending"@,
        !q.parked && q.next_retry_at is None && q.run_id is None ==> status_of(q) == "pending"@,
{
}

/// After a retry of everything no entry that was brought back is parked or
/// waits.
pub proof fn law_retry_brings_everything_back(pending: Seq<QueueEntryView>, i: int)
    requires
        0 <= i < retried(pending).len(),
    ensures
        !retried(pending)[i].run.parked,
        retried(pending)[i].run.next_retry_at is None,
    decreases pending.len(),
{
    if i < retried(pending.drop_last()).len() {
        law_retry_brings_everything_back(pending.drop_last(), i);
    }
}

/// A command that could not read the queue, could not find the entry, or was
/// not told which, drops nothing and says so by its exit code.
pub proof fn law_drop_needs_a_target(
    found: Result<Seq<QueueEntryView>, QueueFaultView>,
    queue_id: Option<Seq<char>>,
    all: bool,
    json_mode: bool,
)
    ensures
        drop_found(found, queue_id, all, json_mode).output.exit_code == 0 <==> (match found {
            Ok(pending) => match queue_id {
                Some(id) => lookup::<QueueEntry>(pending, id) is Some,
                None => all,
            },
            Err(_) => false,
        }),
        drop_found(found, queue_id, all, json_mode).output.exit_code != 0 ==> drop_found(
            found,
            queue_id,
            all,
            json_mode,
        ).ids.len() == 0,
{
}

} // verus!
