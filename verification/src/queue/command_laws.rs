//! What the queue commands show.

use vstd::prelude::*;
use crate::assoc;
use crate::assoc::lookup;
use crate::json::{json_text, JsonField, JsonFieldView, JsonView};
use crate::queue::commands::{
    complains, drop_found, entry_lines, fault_text, prints, removed_line, rendered, retried,
    retry_one_summary, retry_summary, status_of, summaries, tagged_entry, QueueFaultView,
};
use crate::queue::policy::{QueueEntry, QueueEntryView};
use crate::queue::QueuedRunView;
use crate::sdk::RunGetOutcome;
use crate::text::decimal;

verus! {

/// A complaint is one line on the error stream; what is printed goes to the
/// output.
pub proof fn law_streams(line: Seq<char>, lines: Seq<Seq<char>>, code: i32)
    ensures
        complains(line, code).stderr == seq![line],
        complains(line, code).stdout.len() == 0,
        complains(line, code).exit_code == code,
        prints(lines, code).stdout == lines,
        prints(lines, code).stderr.len() == 0,
        prints(lines, code).exit_code == code,
{
}

/// An entry is parked, waits, has files left, or is pending, in this order.
pub proof fn law_states_of_entries(q: QueuedRunView)
    ensures
        status_of(q) == "parked"@ <==> q.parked,
        status_of(q) == "backoff"@ <==> !q.parked && q.next_retry_at is Some,
        status_of(q) == "attachments pending"@ <==> !q.parked && q.next_retry_at is None && q.run_id
            is Some,
        status_of(q) == "pending"@ <==> !q.parked && q.next_retry_at is None && q.run_id is None,
{
    reveal_strlit("parked");
    reveal_strlit("backoff");
    reveal_strlit("attachments pending");
    reveal_strlit("pending");
    assert("parked"@.len() == 6 && "backoff"@.len() == 7 && "attachments pending"@.len() == 19
        && "pending"@.len() == 7);
    assert("backoff"@[0] == 'b' && "pending"@[0] == 'p');
}

/// Whether a member is a text, or null where there is none.
pub open spec fn holds(field: JsonFieldView, key: Seq<char>, text: Option<Seq<char>>) -> bool {
    &&& field.key == key
    &&& text is Some ==> field.value == JsonView::Text(text->0)
    &&& text is None ==> field.value is Null
}

/// Whether a member is a natural number.
pub open spec fn counts(field: JsonFieldView, key: Seq<char>, n: nat) -> bool {
    &&& field.key == key
    &&& field.value matches JsonView::Number(number) && number.text == decimal(n)
}

/// Whether a word is that of an outcome.
pub open spec fn says(word: Seq<char>, outcome: RunGetOutcome) -> bool {
    match outcome {
        RunGetOutcome::Pass => word == "PASS"@,
        RunGetOutcome::Fail => word == "FAIL"@,
        RunGetOutcome::Error => word == "ERROR"@,
        RunGetOutcome::Timeout => word == "TIMEOUT"@,
        RunGetOutcome::Aborted => word == "ABORTED"@,
    }
}

/// An entry is summed up with its identity, its run, its state and its history.
pub proof fn law_entries_are_summed_up(pending: Seq<QueueEntryView>, i: int)
    requires
        0 <= i < pending.len(),
    ensures
        summaries(pending).len() == pending.len(),
        rendered(summaries(pending)).len() == pending.len(),
        rendered(summaries(pending))[i] == json_text(summaries(pending)[i]),
        ({
            let id = pending[i].queue_id;
            let q = pending[i].run;
            summaries(pending)[i] matches JsonView::Object(fields) && {
                &&& fields.len() == 13
                &&& holds(fields[0], "queue_id"@, Some(id))
                &&& holds(fields[1], "procedure_id"@, Some(q.request.procedure_id))
                &&& fields[2].key == "outcome"@
                &&& fields[2].value matches JsonView::Text(word) && says(word, q.request.outcome)
                &&& holds(fields[3], "serial_number"@, Some(q.request.serial_number))
                &&& holds(fields[4], "run_id"@, q.run_id)
                &&& holds(fields[5], "status"@, Some(status_of(q)))
                &&& counts(fields[6], "attempts"@, q.attempt_count as nat)
                &&& counts(fields[7], "attachments"@, q.attachments.len())
                &&& fields[8].key == "parked"@
                &&& fields[8].value == JsonView::Bool(q.parked)
                &&& holds(fields[9], "queued_at"@, q.queued_at)
                &&& holds(fields[10], "last_attempt_at"@, q.last_attempt_at)
                &&& holds(fields[11], "next_retry_at"@, q.next_retry_at)
                &&& holds(
                    fields[12],
                    "last_error"@,
                    if q.last_error is Some {
                        Some(q.last_error->0.kind)
                    } else {
                        None
                    },
                )
            }
        }),
{
}

/// One where there is something to show.
pub open spec fn one_if(shown: bool) -> int {
    if shown {
        1
    } else {
        0
    }
}

/// An entry is shown line by line: what it is, what is known of its attempts,
/// and its files, with those that are missing marked.
pub proof fn law_entries_are_shown(id: Seq<char>, q: QueuedRunView, there: Seq<bool>)
    ensures
        ({
            let lines = entry_lines(id, q, there);
            let a = 5 + one_if(q.run_id is Some);
            let b = a + 1 + one_if(q.queued_at is Some);
            let c = b + one_if(q.last_attempt_at is Some);
            let d = c + one_if(q.next_retry_at is Some);
            let e = d + one_if(q.last_error is Some);
            &&& lines[0] == "Queue ID:     "@ + id
            &&& lines[1] == "Status:       "@ + status_of(q)
            &&& lines[2] == "Procedure:    "@ + q.request.procedure_id
            &&& lines[3] == "Serial:       "@ + q.request.serial_number
            &&& exists|word: Seq<char>|
                lines[4] == "Outcome:      "@ + word && #[trigger] says(word, q.request.outcome)
            &&& q.run_id matches Some(run) ==> lines[5] == "Run ID:       "@ + (run
                + " (run created server-side)"@)
            &&& lines[a] == "Attempts:     "@ + decimal(q.attempt_count as nat)
            &&& q.queued_at matches Some(at) ==> lines[b - 1] == "Queued at:    "@ + at
            &&& q.last_attempt_at matches Some(at) ==> lines[c - 1] == "Last attempt: "@ + at
            &&& q.next_retry_at matches Some(at) ==> lines[d - 1] == "Next retry:   "@ + at
            &&& q.last_error matches Some(err) ==> {
                &&& err.status is None ==> lines[e - 1] == "Last error:   "@ + (err.kind + ": "@
                    + err.error)
                &&& err.status matches Some(s) ==> lines[e - 1] == "Last error:   "@ + (err.kind
                    + (" (HTTP "@ + decimal(s as nat) + ")"@) + ": "@ + err.error)
            }
            &&& q.attachments.len() == 0 ==> lines.len() == e + 1 && lines[e]
                == "Attachments:  none"@
            &&& q.attachments.len() > 0 ==> {
                &&& lines.len() == e + 1 + q.attachments.len()
                &&& lines[e] == "Attachments:"@
                &&& forall|i: int|
                    0 <= i < q.attachments.len() ==> #[trigger] lines[e + 1 + i] == "  "@
                        + q.attachments[i].name + " ("@ + q.attachments[i].mimetype + ") "@
                        + q.attachments[i].path + (if i < there.len() && there[i] {
                        Seq::<char>::empty()
                    } else {
                        " (missing)"@
                    })
            }
        }),
{
    let lines = entry_lines(id, q, there);
    reveal_strlit("");
    assert(""@ =~= Seq::<char>::empty());
    let word = crate::queue::upload::outcome_label(q.request.outcome);
    assert(says(word, q.request.outcome));
    assert(lines[4] == "Outcome:      "@ + word);
    if let Some(err) = q.last_error {
        if err.status is None {
            assert(err.kind + Seq::<char>::empty() + ": "@ + err.error =~= err.kind + ": "@
                + err.error);
        }
    }
}

/// An entry in its JSON form carries its identity and its state, and every
/// other member as it was.
pub proof fn law_entries_are_tagged(
    fields: Seq<JsonFieldView>,
    id: Seq<char>,
    status: Seq<char>,
    key: Seq<char>,
)
    ensures
        tagged_entry(JsonView::Object(fields), id, status) matches JsonView::Object(after) && {
            &&& lookup::<JsonField>(after, "queue_id"@) matches Some(f) && f.value
                == JsonView::Text(id)
            &&& lookup::<JsonField>(after, "status"@) matches Some(f) && f.value == JsonView::Text(
                status,
            )
            &&& key != "queue_id"@ && key != "status"@ ==> lookup::<JsonField>(after, key)
                == lookup::<JsonField>(fields, key)
        },
{
    reveal_strlit("queue_id");
    reveal_strlit("status");
    assert("queue_id"@[0] == 'q' && "status"@[0] == 's');
    let first = crate::engine::caps::member("queue_id"@, JsonView::Text(id));
    let second = crate::engine::caps::member("status"@, JsonView::Text(status));
    let once = crate::assoc::with_value::<JsonField>(fields, first);
    assoc::lemma_with_value::<JsonField>(fields, first, key);
    assoc::lemma_with_value::<JsonField>(once, second, key);
    assoc::lemma_with_value::<JsonField>(once, second, "queue_id"@);
}

/// A retry of everything brings back the entries that are parked or wait, in
/// order, and leaves the others.
pub proof fn law_retries_bring_back(pending: Seq<QueueEntryView>, e: QueueEntryView)
    ensures
        retried(Seq::empty()).len() == 0,
        ({
            let before = retried(pending);
            let after = retried(pending.push(e));
            let n = before.len() as int;
            &&& !e.run.parked && e.run.next_retry_at is None ==> after == before
            &&& e.run.parked || e.run.next_retry_at is Some ==> {
                &&& after.len() == n + 1
                &&& after.take(n) == before
                &&& after[n].queue_id == e.queue_id
                &&& after[n].run == (QueuedRunView { parked: false, next_retry_at: None, ..e.run })
            }
        }),
{
    assert(pending.push(e).drop_last() =~= pending);
    let before = retried(pending);
    let after = retried(pending.push(e));
    if e.run.parked || e.run.next_retry_at is Some {
        assert(after.take(before.len() as int) =~= before);
    }
}

/// A retry of everything succeeds where nothing is left; it says how much is.
pub proof fn law_retries_say_what_is_left(remaining: u64)
    ensures
        retry_summary(remaining, true).exit_code == 0 <==> remaining == 0,
        retry_summary(remaining, false).exit_code == 0 <==> remaining == 0,
        remaining > 0 ==> retry_summary(remaining, true).exit_code == 1 && retry_summary(
            remaining,
            false,
        ).exit_code == 1,
        retry_summary(remaining, true).stderr.len() == 0,
        retry_summary(remaining, true).stdout.len() == 1,
        exists|fields: Seq<JsonFieldView>|
            retry_summary(remaining, true).stdout[0] == #[trigger] json_text(
                JsonView::Object(fields),
            ) && fields.len() == 2 && holds(fields[0], "type"@, Some("retried"@)) && counts(
                fields[1],
                "remaining"@,
                remaining as nat,
            ),
        retry_summary(remaining, false).stdout.len() == 0,
        remaining == 0 ==> retry_summary(remaining, false).stderr.len() == 0,
        remaining == 1 ==> retry_summary(remaining, false).stderr == seq![
            decimal(1) + " entr"@ + "y"@ + " still queued."@,
        ],
        remaining > 1 ==> retry_summary(remaining, false).stderr == seq![
            decimal(remaining as nat) + " entr"@ + "ies"@ + " still queued."@,
        ],
{
    let fields = seq![
        crate::engine::caps::member("type"@, JsonView::Text("retried"@)),
        crate::engine::caps::member(
            "remaining"@,
            JsonView::Number(crate::json::int_number(remaining as nat)),
        ),
    ];
    assert(retry_summary(remaining, true).stdout[0] == json_text(JsonView::Object(fields)));
}

/// The retry of an entry says the run that it gave, or the failure that is on
/// record; it succeeds where it gave a run.
pub proof fn law_retry_of_one_entry(
    queue_id: Seq<char>,
    run_id: Option<Seq<char>>,
    entry: Option<QueuedRunView>,
)
    ensures
        ({
            let told = retry_one_summary(queue_id, run_id, entry, true);
            let quiet = retry_one_summary(queue_id, run_id, entry, false);
            &&& told.exit_code == quiet.exit_code
            &&& told.exit_code == (if run_id is Some {
                0i32
            } else {
                1i32
            })
            &&& quiet.stdout.len() == 0
            &&& quiet.stderr.len() == 0
            &&& told.stderr.len() == 0
            &&& told.stdout.len() == 1
            &&& run_id matches Some(run) ==> exists|fields: Seq<JsonFieldView>|
                told.stdout[0] == #[trigger] json_text(JsonView::Object(fields)) && fields.len()
                    == 3 && holds(fields[0], "type"@, Some("uploaded"@)) && holds(
                    fields[1],
                    "queue_id"@,
                    Some(queue_id),
                ) && holds(fields[2], "run_id"@, Some(run))
            &&& run_id is None ==> exists|fields: Seq<JsonFieldView>|
                {
                    &&& told.stdout[0] == #[trigger] json_text(JsonView::Object(fields))
                    &&& fields.len() == 4
                    &&& holds(fields[0], "type"@, Some("failed"@))
                    &&& holds(fields[1], "queue_id"@, Some(queue_id))
                    &&& holds(
                        fields[2],
                        "run_id"@,
                        if entry is Some {
                            entry->0.run_id
                        } else {
                            None
                        },
                    )
                    &&& fields[3].key == "error"@
                    &&& entry is None || entry->0.last_error is None ==> fields[3].value is Null
                    &&& entry is Some && entry->0.last_error is Some ==> {
                        let err = entry->0.last_error->0;
                        fields[3].value matches JsonView::Object(inner) && {
                            &&& inner.len() == 3
                            &&& holds(inner[0], "kind"@, Some(err.kind))
                            &&& inner[1].key == "status"@
                            &&& err.status is None ==> inner[1].value is Null
                            &&& err.status is Some ==> counts(
                                inner[1],
                                "status"@,
                                err.status->0 as nat,
                            )
                            &&& holds(inner[2], "error"@, Some(err.error))
                        }
                    }
                }
        }),
{
    let told = retry_one_summary(queue_id, run_id, entry, true);
    match run_id {
        Some(run) => {
            let line = crate::queue::commands::uploaded_json(queue_id, run);
            assert(told.stdout[0] == json_text(JsonView::Object(line->Object_0)));
        },
        None => {
            let line = crate::queue::commands::failed_json(queue_id, entry);
            assert(told.stdout[0] == json_text(JsonView::Object(line->Object_0)));
        },
    }
}

/// What is said of an entry that was removed.
pub proof fn law_removals_are_said(queue_id: Seq<char>)
    ensures
        exists|fields: Seq<JsonFieldView>|
            removed_line(queue_id) == #[trigger] json_text(JsonView::Object(fields))
                && fields.len() == 2 && holds(fields[0], "type"@, Some("removed"@)) && holds(
                fields[1],
                "queue_id"@,
                Some(queue_id),
            ),
{
    let fields = seq![
        crate::engine::caps::member("type"@, JsonView::Text("removed"@)),
        crate::engine::caps::member("queue_id"@, JsonView::Text(queue_id)),
    ];
    assert(removed_line(queue_id) == json_text(JsonView::Object(fields)));
}

/// Whether an entry of an identity is in the queue.
pub open spec fn is_queued(pending: Seq<QueueEntryView>, id: Seq<char>) -> bool {
    exists|i: int| 0 <= i < pending.len() && (#[trigger] pending[i]).queue_id == id
}

/// A drop command drops the entry that it names, where it is there, or all of
/// them where it says so, and says what it dropped or why it did not.
pub proof fn law_drops(
    pending: Seq<QueueEntryView>,
    id: Seq<char>,
    all: bool,
    json_mode: bool,
)
    ensures
        ({
            let one = drop_found(Ok(pending), Some(id), all, json_mode);
            let none = drop_found(Ok(pending), None, false, json_mode);
            let every = drop_found(Ok(pending), None, true, json_mode);
            &&& is_queued(pending, id) ==> {
                &&& one.ids == seq![id]
                &&& one.output.exit_code == 0
                &&& json_mode ==> one.output.stdout == seq![removed_line(id)]
                    && one.output.stderr.len() == 0
                &&& !json_mode ==> one.output.stderr == seq!["Removed: "@ + id]
                    && one.output.stdout.len() == 0
            }
            &&& !is_queued(pending, id) ==> {
                &&& one.ids.len() == 0
                &&& one.output.exit_code == 1
                &&& one.output.stderr == seq!["Queue entry '"@ + id + "' not found."@]
                &&& one.output.stdout.len() == 0
            }
            &&& none.ids.len() == 0
            &&& none.output.exit_code == 1
            &&& none.output.stderr == seq![
                "Specify a queue ID or use --all to remove everything."@,
            ]
            &&& every.ids.len() == pending.len()
            &&& forall|i: int|
                0 <= i < pending.len() ==> #[trigger] every.ids[i] == pending[i].queue_id
            &&& every.output.exit_code == 0
            &&& json_mode ==> every.output.stdout.len() == pending.len() && forall|i: int|
                0 <= i < pending.len() ==> #[trigger] every.output.stdout[i] == removed_line(
                    pending[i].queue_id,
                )
            &&& !json_mode && pending.len() == 0 ==> every.output.stderr == seq!["Queue is empty."@]
            &&& !json_mode && pending.len() > 0 ==> every.output.stderr == seq![
                "Removed "@ + decimal(pending.len()) + " entries."@,
            ]
        }),
{
    assoc::lemma_key_index::<QueueEntry>(pending, id);
    let i = assoc::key_index::<QueueEntry>(pending, id);
    if i < pending.len() {
        assert(pending[i].queue_id == id);
    }
}

/// A queue that cannot be read drops nothing, and the command says why; but one
/// that names no target is told so before the queue is read, once it could be
/// opened.
pub proof fn law_drops_of_unreadable_queues(
    fault: QueueFaultView,
    queue_id: Option<Seq<char>>,
    all: bool,
    json_mode: bool,
)
    ensures
        ({
            let plan = drop_found(Err(fault), queue_id, all, json_mode);
            let aimless = queue_id is None && !all && !(fault is Open);
            &&& plan.ids.len() == 0
            &&& plan.output.exit_code == 1
            &&& plan.output.stdout.len() == 0
            &&& aimless ==> plan.output.stderr == seq![
                "Specify a queue ID or use --all to remove everything."@,
            ]
            &&& !aimless ==> plan.output.stderr == seq![fault_text(fault)]
        }),
        fault matches QueueFaultView::Open(e) ==> fault_text(fault) == "Failed to open database: "@
            + e,
        fault matches QueueFaultView::Read(e) ==> fault_text(fault) == "Failed to read queue: "@
            + e,
        fault matches QueueFaultView::Reread(e) ==> fault_text(fault)
            == "Failed to read queue after retry: "@ + e,
{
}

} // verus!
