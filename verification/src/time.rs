//! Points in time, as seconds and nanoseconds since the Unix epoch.

use vstd::prelude::*;
use crate::dup::Dup;

verus! {

/// A point in time. `nanos` reaches two thousand million inside a leap second.
#[derive(Debug, Clone, Copy, PartialEq, Eq, Structural)]
pub struct Instant {
    pub secs: i64,
    pub nanos: u32,
}

impl DeepView for Instant {
    type V = Instant;

    open spec fn deep_view(&self) -> Instant {
        *self
    }
}

impl Dup for Instant {
    fn dup(&self) -> (copy: Self) {
        *self
    }
}

/// Whether `a` comes before `b`.
pub open spec fn before(a: Instant, b: Instant) -> bool {
    a.secs < b.secs || (a.secs == b.secs && a.nanos < b.nanos)
}

/// Whether `a` comes before `b`.
pub fn is_before(a: Instant, b: Instant) -> (yes: bool)
    ensures
        yes == before(a, b),
{
    a.secs < b.secs || (a.secs == b.secs && a.nanos < b.nanos)
}

/// The earlier of two points in time.
pub open spec fn earlier(a: Instant, b: Instant) -> Instant {
    if before(b, a) {
        b
    } else {
        a
    }
}

/// The later of two points in time.
pub open spec fn later(a: Instant, b: Instant) -> Instant {
    if before(a, b) {
        b
    } else {
        a
    }
}

/// The point in time that `chrono` reads an RFC 3339 text as.
pub uninterp spec fn rfc3339_instant(text: Seq<char>) -> Option<Instant>;

/// The point in time of an RFC 3339 text; `None` where it is not one.
///
/// Trusted: what `chrono::DateTime::parse_from_rfc3339` reads depends on the
/// text alone; its `timestamp` and `timestamp_subsec_nanos` are taken.
#[verifier::external_body]
pub(crate) fn parse_rfc3339(text: &str) -> (at: Option<Instant>)
    ensures
        at == rfc3339_instant(text@),
{
    let at = chrono::DateTime::parse_from_rfc3339(text).ok()?;
    Some(Instant { secs: at.timestamp(), nanos: at.timestamp_subsec_nanos() })
}

/// The whole milliseconds from one point in time to another, rounded towards
/// zero; negative where the second comes first.
pub open spec fn millis_from(start: Instant, end: Instant) -> int {
    let nanos = (end.secs - start.secs) * 1_000_000_000 + (end.nanos - start.nanos);
    if nanos >= 0 {
        nanos / 1_000_000
    } else {
        -((-nanos) / 1_000_000)
    }
}

/// Whether both ends of a span of time are read and lie outside leap seconds.
pub open spec fn plain_span(start: Option<Instant>, end: Option<Instant>) -> bool {
    &&& start matches Some(at) && at.nanos < 1_000_000_000
    &&& end matches Some(at) && at.nanos < 1_000_000_000
}

/// The whole milliseconds that `chrono` counts between two RFC 3339 texts.
pub uninterp spec fn rfc3339_millis(start: Seq<char>, end: Seq<char>) -> Option<i64>;

/// The whole milliseconds from one RFC 3339 text to another, rounded towards
/// zero; negative where the second comes first.
///
/// Trusted: the difference of two `chrono::DateTime` values and its
/// `num_milliseconds` depend on the two texts alone, and exist exactly where
/// `chrono::DateTime::parse_from_rfc3339` reads both; outside leap seconds they
/// are the milliseconds between the two points in time.
#[verifier::external_body]
fn millis_between(start: &str, end: &str) -> (millis: Option<i64>)
    ensures
        millis == rfc3339_millis(start@, end@),
        (millis is Some) == (rfc3339_instant(start@) is Some && rfc3339_instant(end@) is Some),
        plain_span(rfc3339_instant(start@), rfc3339_instant(end@)) ==> millis->0 == millis_from(
            rfc3339_instant(start@)->0,
            rfc3339_instant(end@)->0,
        ),
{
    let s = chrono::DateTime::parse_from_rfc3339(start).ok()?;
    let e = chrono::DateTime::parse_from_rfc3339(end).ok()?;
    Some((e - s).num_milliseconds())
}

/// A span of time that does not run backwards.
pub open spec fn forward(millis: Option<i64>) -> Option<u64> {
    match millis {
        Some(ms) => if ms >= 0 {
            Some(ms as u64)
        } else {
            None
        },
        None => None,
    }
}

/// A span of time, where it is known and does not run backwards.
pub fn forward_millis(millis: Option<i64>) -> (span: Option<u64>)
    ensures
        span == forward(millis),
{
    match millis {
        Some(ms) => if ms >= 0 {
            Some(ms as u64)
        } else {
            None
        },
        None => None,
    }
}

/// A point in time that was read, or another where it was not.
pub open spec fn read_or(read: Option<Instant>, other: Instant) -> Instant {
    match read {
        Some(at) => at,
        None => other,
    }
}

/// A point in time that was read, or another where it was not.
pub fn instant_or(read: Option<Instant>, other: Instant) -> (at: Instant)
    ensures
        at == read_or(read, other),
{
    match read {
        Some(at) => at,
        None => other,
    }
}

/// The duration of a start and an end, where both can be read and the end
/// does not come first.
pub open spec fn iso_duration(start: Seq<char>, end: Seq<char>) -> Option<u64> {
    forward(rfc3339_millis(start, end))
}

/// Milliseconds between two RFC 3339 texts; `None` where either cannot be
/// read or the end comes first.
pub fn duration_from_iso_pair(start: &str, end: &str) -> (millis: Option<u64>)
    ensures
        millis == iso_duration(start@, end@),
        millis is Some ==> rfc3339_instant(start@) is Some && rfc3339_instant(end@) is Some,
        plain_span(rfc3339_instant(start@), rfc3339_instant(end@)) ==> {
            let span = millis_from(rfc3339_instant(start@)->0, rfc3339_instant(end@)->0);
            &&& (millis is Some) == (span >= 0)
            &&& span >= 0 ==> millis->0 == span
        },
{
    forward_millis(millis_between(start, end))
}

/// Whether the calendar of `chrono` has a second: it reaches from the first of
/// the year -262143 to the last of the year 262142.
pub open spec fn in_calendar(secs: int) -> bool {
    -8_334_601_228_800 <= secs <= 8_210_266_876_799
}

/// Whether `chrono` has a point in time; a leap second ends a minute.
pub open spec fn on_calendar(at: Instant) -> bool {
    &&& in_calendar(at.secs as int)
    &&& at.nanos < 1_000_000_000 || (at.nanos < 2_000_000_000 && at.secs % 60 == 59)
}

/// The RFC 3339 text that `chrono` gives a point in time.
pub uninterp spec fn instant_text(at: Instant) -> Option<Seq<char>>;

/// The RFC 3339 text of a point in time, in UTC; `None` where `chrono` has no
/// such point.
///
/// Trusted: `chrono::DateTime::from_timestamp` and `to_rfc3339` depend on the
/// two numbers alone, and give a text exactly where the point is on the
/// calendar.
#[verifier::external_body]
pub(crate) fn render_rfc3339(at: Instant) -> (text: Option<String>)
    ensures
        text.deep_view() == instant_text(at),
        (text is Some) == on_calendar(at),
{
    chrono::DateTime::from_timestamp(at.secs, at.nanos).map(|t| t.to_rfc3339())
}

/// The point in time some seconds later, where there is one on the calendar. A
/// leap second is left for the same part of the second before or after it.
pub open spec fn instant_after(at: Instant, seconds: i64) -> Option<Instant> {
    let leaves = at.nanos >= 1_000_000_000 && seconds != 0;
    let secs = at.secs + seconds + if leaves && seconds < 0 {
        1int
    } else {
        0
    };
    if on_calendar(at) && in_calendar(secs) {
        Some(
            Instant {
                secs: secs as i64,
                nanos: if leaves {
                    (at.nanos - 1_000_000_000) as u32
                } else {
                    at.nanos
                },
            },
        )
    } else {
        None
    }
}

/// A point in time some seconds later; `None` where `chrono` has no such
/// point.
///
/// Trusted: `chrono::DateTime::checked_add_signed` adds the seconds where the
/// calendar has both points, and leaves the part of the second as it is.
#[verifier::external_body]
pub(crate) fn after_seconds(at: Instant, seconds: i64) -> (moved: Option<Instant>)
    ensures
        moved == instant_after(at, seconds),
{
    let step = chrono::TimeDelta::try_seconds(seconds)?;
    let t = chrono::DateTime::from_timestamp(at.secs, at.nanos)?.checked_add_signed(step)?;
    Some(Instant { secs: t.timestamp(), nanos: t.timestamp_subsec_nanos() })
}

/// The point in time so many milliseconds after the epoch, where it is on the
/// calendar.
pub open spec fn millis_instant(millis: i64) -> Option<Instant> {
    let secs = millis as int / 1000;
    if in_calendar(secs) {
        Some(Instant { secs: secs as i64, nanos: ((millis as int % 1000) * 1_000_000) as u32 })
    } else {
        None
    }
}

/// The point in time so many milliseconds after the epoch; `None` where
/// `chrono` has no such point.
///
/// Trusted: `chrono::DateTime::from_timestamp_millis` splits the number into
/// whole seconds and what is left of the last one, where the calendar has that
/// second.
#[verifier::external_body]
pub(crate) fn from_millis(millis: i64) -> (at: Option<Instant>)
    ensures
        at == millis_instant(millis),
{
    let at = chrono::DateTime::from_timestamp_millis(millis)?;
    Some(Instant { secs: at.timestamp(), nanos: at.timestamp_subsec_nanos() })
}

} // verus!
