//! The stream of events to the agent, one JSON value a line.
//!
//! Events are numbered as they are written, so that the numbers stand in the
//! order of the lines.

use vstd::prelude::*;
use vstd::string::*;
use crate::agent_proto::events::{CliEvent, CliEventView};
use crate::assoc;
use crate::assoc::with_value;
use crate::dup::{push, Dup};
use crate::engine::caps::{field, member};
use crate::json::{int_number, json_text, Json, JsonField, JsonView};

verus! {

/// An event with its place in the stream.
#[derive(Debug, PartialEq, Eq)]
pub struct NumberedEvent {
    pub seq: u64,
    pub event: CliEvent,
}

/// View of [`NumberedEvent`].
pub struct NumberedEventView {
    pub seq: u64,
    pub event: CliEventView,
}

impl DeepView for NumberedEvent {
    type V = NumberedEventView;

    open spec fn deep_view(&self) -> NumberedEventView {
        NumberedEventView {
            seq: self.seq.deep_view(),
            event: self.event.deep_view(),
        }
    }
}

/// The stream of events to the agent.
#[derive(Debug, PartialEq, Eq)]
pub struct Emitter {
    /// What is not written yet, in order.
    pub queued: Vec<CliEvent>,
    /// The number of the next event.
    pub seq: u64,
    /// Whether the last event was taken.
    pub finalized: bool,
    /// Whether nothing can be written any more.
    pub dead: bool,
}

/// View of [`Emitter`].
pub struct EmitterView {
    pub queued: Seq<CliEventView>,
    pub seq: u64,
    pub finalized: bool,
    pub dead: bool,
}

impl DeepView for Emitter {
    type V = EmitterView;

    open spec fn deep_view(&self) -> EmitterView {
        EmitterView {
            queued: self.queued.deep_view(),
            seq: self.seq.deep_view(),
            finalized: self.finalized.deep_view(),
            dead: self.dead.deep_view(),
        }
    }
}

impl Emitter {
    /// A stream with nothing in it.
    pub fn new() -> (emitter: Self)
        ensures
            emitter.deep_view() == (EmitterView {
                queued: Seq::empty(),
                seq: 0,
                finalized: false,
                dead: false,
            }),
    {
        let emitter = Emitter { queued: Vec::new(), seq: 0, finalized: false, dead: false };
        assert(emitter.queued.deep_view() =~= Seq::empty());
        emitter
    }

    /// Takes an event in, and says whether it did: not after the last event,
    /// nor where nothing can be written any more.
    pub fn enqueue(&mut self, event: CliEvent) -> (taken: bool)
        ensures
            taken == takes(old(self).deep_view()),
            final(self).deep_view() == with_event(old(self).deep_view(), event.deep_view()),
    {
        if self.finalized || self.dead {
            return false;
        }
        push(&mut self.queued, event);
        true
    }

    /// Takes no more events from now on.
    pub fn finalize(&mut self)
        ensures
            final(self).deep_view() == (EmitterView { finalized: true, ..old(self).deep_view() }),
    {
        self.finalized = true;
    }

    /// Gives the next event to write, with its number.
    pub fn next(&mut self) -> (event: Option<NumberedEvent>)
        ensures
            event.deep_view() == next_event(old(self).deep_view()),
            final(self).deep_view() == after_next(old(self).deep_view()),
    {
        if self.dead || self.queued.len() == 0 {
            return None;
        }
        let ghost before = self.queued.deep_view();
        let event = self.queued.remove(0);
        assert(self.queued.deep_view() =~= before.remove(0));
        let seq: u64 = self.seq;
        if self.seq < u64::MAX {
            self.seq += 1;
        }
        Some(NumberedEvent { seq, event })
    }

    /// The reader of the stream is gone: nothing is written any more.
    pub fn die(&mut self)
        ensures
            final(self).deep_view() == (EmitterView { dead: true, ..old(self).deep_view() }),
    {
        self.dead = true;
    }
}

/// Whether the stream takes events.
pub open spec fn takes(e: EmitterView) -> bool {
    !e.finalized && !e.dead
}

/// The stream with one more event, where it takes any.
pub open spec fn with_event(e: EmitterView, event: CliEventView) -> EmitterView {
    if takes(e) {
        EmitterView { queued: e.queued.push(event), ..e }
    } else {
        e
    }
}

/// The next event to write.
pub open spec fn next_event(e: EmitterView) -> Option<NumberedEventView> {
    if e.dead || e.queued.len() == 0 {
        None
    } else {
        Some(NumberedEventView { seq: e.seq, event: e.queued[0] })
    }
}

/// The stream after its next event was given.
pub open spec fn after_next(e: EmitterView) -> EmitterView {
    if e.dead || e.queued.len() == 0 {
        e
    } else {
        EmitterView {
            queued: e.queued.remove(0),
            seq: if e.seq < u64::MAX {
                (e.seq + 1) as u64
            } else {
                e.seq
            },
            ..e
        }
    }
}

/// The line of an event: its JSON form with its number in it.
pub open spec fn numbered(value: JsonView, seq: u64) -> JsonView {
    match value {
        JsonView::Object(fields) => JsonView::Object(
            with_value::<JsonField>(
                fields,
                member("seq"@, JsonView::Number(int_number(seq as nat))),
            ),
        ),
        _ => value,
    }
}

/// What is written in place of an event that has no JSON form.
pub open spec fn internal_error(seq: u64, stage: Seq<char>, detail: Seq<char>) -> JsonView {
    JsonView::Object(
        seq![
            member("type"@, JsonView::Text("internal_error"@)),
            member("seq"@, JsonView::Number(int_number(seq as nat))),
            member("stage"@, JsonView::Text(stage)),
            member("detail"@, JsonView::Text(detail)),
        ],
    )
}

/// The line that is written in place of an event that has no JSON form.
pub fn fallback_internal_error(seq: u64, stage: &str, detail: &str) -> (line: String)
    ensures
        line@ == json_text(internal_error(seq, stage@, detail@)),
{
    let mut fields: Vec<JsonField> = Vec::new();
    push(&mut fields, field("type", Json::Text("internal_error".to_string())));
    push(&mut fields, field("seq", Json::integer(seq)));
    push(&mut fields, field("stage", Json::Text(stage.to_string())));
    push(&mut fields, field("detail", Json::Text(detail.to_string())));
    assert(fields.deep_view() =~= seq![
        member("type"@, JsonView::Text("internal_error"@)),
        member("seq"@, JsonView::Number(int_number(seq as nat))),
        member("stage"@, JsonView::Text(stage@)),
        member("detail"@, JsonView::Text(detail@)),
    ]);
    Json::object(fields).render()
}

/// The line of an event, by its JSON form or by why it has none.
pub fn event_line(serialized: Result<Json, String>, seq: u64) -> (line: String)
    ensures
        line@ == (match serialized {
            Ok(value) => json_text(numbered(value.deep_view(), seq)),
            Err(detail) => json_text(internal_error(seq, "serialize"@, detail@)),
        }) + "\n"@,
{
    let mut line = match serialized {
        Ok(value) => match value {
            Json::Object(fields) => {
                let ghost seen = value.deep_view()->Object_0;
                let mut fields = fields;
                assert(seen =~= fields.deep_view());
                assoc::put(&mut fields, field("seq", Json::integer(seq)));
                Json::object(fields).render()
            },
            other => other.render(),
        },
        Err(detail) => fallback_internal_error(seq, "serialize", detail.as_str()),
    };
    line.append("\n");
    line
}

// ---------------------------------------------------------------------------
// Laws
// ---------------------------------------------------------------------------

/// After the last event was taken no other is: what is queued then is all that
/// is ever written.
pub proof fn law_last_event_is_last(e: EmitterView, last: CliEventView, late: CliEventView)
    requires
        takes(e),
    ensures
        ({
            let closed = EmitterView { finalized: true, ..with_event(e, last) };
            &&& with_event(closed, late) == closed
            &&& closed.queued.last() == last
            &&& !takes(closed)
        }),
{
}

/// Events are written in the order in which they were taken, and their numbers
/// go up by one.
pub proof fn law_numbers_follow_the_lines(e: EmitterView)
    requires
        !e.dead,
        e.queued.len() >= 2,
        e.seq < u64::MAX,
    ensures
        next_event(e) == Some(NumberedEventView { seq: e.seq, event: e.queued[0] }),
        next_event(after_next(e)) == Some(
            NumberedEventView { seq: (e.seq + 1) as u64, event: e.queued[1] },
        ),
{
}

/// Taking an event in changes neither what is written before it nor its
/// number.
pub proof fn law_enqueue_keeps_the_order(e: EmitterView, event: CliEventView)
    requires
        e.queued.len() > 0,
    ensures
        next_event(with_event(e, event)) == next_event(e),
        with_event(e, event).seq == e.seq,
{
}

} // verus!
