//! What holds of points in time, numbers, JSON values and paths.

use vstd::prelude::*;
use crate::assoc;
use crate::double::{double_less, finite, not_a_number};
use crate::json::{
    int_number, json_member, member_bool, member_int, member_items, member_text, JsonField,
    JsonFieldView, JsonView,
};
use crate::paths::{extension_of, last_dot, last_name_start, name_of, path_of, under, PathPartsView};
use crate::text::decimal;
use crate::time::{
    before, earlier, instant_after, iso_duration, later, millis_from, millis_instant, on_calendar,
    rfc3339_millis, Instant,
};

verus! {

/// Of two points in time one comes before the other, or they are the same; by
/// the second first, and then by the part of it.
pub proof fn law_order_of_time(a: Instant, b: Instant)
    ensures
        a.secs < b.secs ==> before(a, b),
        a.secs == b.secs ==> (before(a, b) <==> a.nanos < b.nanos),
        a.secs > b.secs ==> !before(a, b),
        before(a, b) || before(b, a) || a == b,
        !(before(a, b) && before(b, a)),
{
}

/// The earlier of two points in time is one of them, and comes not after the
/// other; the later likewise.
pub proof fn law_earlier_and_later(a: Instant, b: Instant)
    ensures
        earlier(a, b) == a || earlier(a, b) == b,
        !before(a, earlier(a, b)),
        !before(b, earlier(a, b)),
        later(a, b) == a || later(a, b) == b,
        !before(later(a, b), a),
        !before(later(a, b), b),
{
}

/// The milliseconds between two points in time are as many as fit, towards
/// whichever side the second lies.
pub proof fn law_milliseconds_between(a: Instant, b: Instant)
    ensures
        ({
            let nanos = (b.secs - a.secs) * 1_000_000_000 + (b.nanos - a.nanos);
            let ms = millis_from(a, b);
            &&& nanos >= 0 ==> 0 <= ms && ms * 1_000_000 <= nanos < (ms + 1) * 1_000_000
            &&& nanos < 0 ==> ms <= 0 && (ms - 1) * 1_000_000 < nanos <= ms * 1_000_000
        }),
        millis_from(b, a) == -millis_from(a, b),
{
}

/// Milliseconds since the epoch are a point in time wherever the calendar
/// reaches.
pub proof fn law_milliseconds_since_the_epoch(millis: i64)
    ensures
        millis_instant(millis) matches Some(at) ==> at.secs * 1000 + at.nanos as int / 1_000_000
            == millis && at.nanos as int % 1_000_000 == 0 && at.nanos < 1_000_000_000,
        millis_instant(millis) is Some <==> -8_334_601_228_800_000 <= millis
            < 8_210_266_876_800_000,
{
}

/// Seconds later is that many seconds later, in the same part of the second,
/// wherever the calendar reaches.
pub proof fn law_seconds_later(at: Instant, seconds: i64)
    requires
        on_calendar(at),
        at.nanos < 1_000_000_000,
    ensures
        instant_after(at, seconds) is Some <==> -8_334_601_228_800 <= at.secs + seconds
            <= 8_210_266_876_799,
        instant_after(at, seconds) matches Some(then) ==> then.secs == at.secs + seconds
            && then.nanos == at.nanos,
{
}

/// A duration is the milliseconds between two times that can be read, where the
/// second is not the earlier.
pub proof fn law_durations(start: Seq<char>, end: Seq<char>)
    ensures
        iso_duration(start, end) is Some <==> rfc3339_millis(start, end) is Some && rfc3339_millis(
            start,
            end,
        )->0 >= 0,
        iso_duration(start, end) is Some ==> iso_duration(start, end)->0 == rfc3339_millis(
            start,
            end,
        )->0,
{
}

/// A double is finite where its exponent is not the largest, and not a number
/// where it is and anything follows it.
pub proof fn law_finite_doubles(bits: u64)
    ensures
        finite(bits) <==> (bits < 0x7FF0_0000_0000_0000 || 0x8000_0000_0000_0000 <= bits
            < 0xFFF0_0000_0000_0000),
        not_a_number(bits) <==> (0x7FF0_0000_0000_0000 < bits < 0x8000_0000_0000_0000 || bits
            > 0xFFF0_0000_0000_0000),
{
}

/// Positive doubles are ordered as their patterns are, negative ones the other
/// way round; a negative one comes before a positive one, but for the zeros,
/// and what is not a number has no order.
pub proof fn law_order_of_doubles(a: u64, b: u64)
    ensures
        not_a_number(a) || not_a_number(b) ==> !double_less(a, b),
        !not_a_number(a) && !not_a_number(b) ==> {
            let neg_a = a >= 0x8000_0000_0000_0000;
            let neg_b = b >= 0x8000_0000_0000_0000;
            &&& !neg_a && !neg_b ==> (double_less(a, b) <==> a < b)
            &&& neg_a && neg_b ==> (double_less(a, b) <==> b < a)
            &&& neg_a && !neg_b ==> (double_less(a, b) <==> !(a == 0x8000_0000_0000_0000 && b == 0))
            &&& !neg_a && neg_b ==> !double_less(a, b)
        },
{
}

/// A member of an object is the value of the first field of its name.
pub proof fn law_members(fields: Seq<JsonFieldView>, key: Seq<char>, k: int)
    ensures
        0 <= k < fields.len() && fields[k].key == key && (forall|j: int|
            0 <= j < k ==> (#[trigger] fields[j]).key != key) ==> json_member(
            JsonView::Object(fields),
            key,
        ) == Some(fields[k].value),
        (forall|j: int| 0 <= j < fields.len() ==> (#[trigger] fields[j]).key != key)
            ==> json_member(JsonView::Object(fields), key) is None,
{
    if 0 <= k < fields.len() && fields[k].key == key && (forall|j: int|
        0 <= j < k ==> (#[trigger] fields[j]).key != key) {
        assoc::lemma_key_index_unique::<JsonField>(fields, key, k);
    }
    if forall|j: int| 0 <= j < fields.len() ==> (#[trigger] fields[j]).key != key {
        assoc::lemma_key_index_unique::<JsonField>(fields, key, fields.len() as int);
    }
}

/// Only objects have members, and a member of a kind is one of no other kind.
pub proof fn law_kinds_of_members(
    value: JsonView,
    key: Seq<char>,
    text: Seq<char>,
    items: Seq<JsonView>,
    truth: bool,
    n: i64,
)
    ensures
        !(value is Object) ==> json_member(value, key) is None,
        member_text(value, key) == Some(text) <==> json_member(value, key) == Some(
            JsonView::Text(text),
        ),
        member_items(value, key) == Some(items) <==> json_member(value, key) == Some(
            JsonView::Array(items),
        ),
        member_bool(value, key) == Some(truth) <==> json_member(value, key) == Some(
            JsonView::Bool(truth),
        ),
        member_int(value, key) == Some(n) <==> (json_member(value, key) matches Some(
            JsonView::Number(number),
        ) && number.int == Some(n)),
{
}

/// A natural number in JSON is its decimal text, and its integer where it fits.
pub proof fn law_numbers_in_json(n: nat)
    ensures
        int_number(n).text == decimal(n),
        n <= i64::MAX ==> int_number(n).int is Some && int_number(n).int->0 == n,
        n > i64::MAX ==> int_number(n).int is None,
{
}

/// A path is a directory and the names below it, in order.
pub proof fn law_paths(base: Seq<char>, path: PathPartsView, name: Seq<char>)
    ensures
        path_of(base).base == base,
        path_of(base).parts.len() == 0,
        under(path, name).base == path.base,
        under(path, name).parts == path.parts.push(name),
{
}

/// Whether a character parts the names of a path: a slash, and on Windows a
/// backslash.
pub open spec fn parts_names(c: char, windows: bool) -> bool {
    c == '/' || (c == '\\' && windows)
}

proof fn lemma_name_start(path: Seq<char>, windows: bool)
    ensures
        ({
            let n = last_name_start(path, windows) as int;
            &&& 0 <= n <= path.len()
            &&& n > 0 ==> parts_names(path[n - 1], windows)
            &&& forall|i: int| n <= i < path.len() ==> !parts_names(#[trigger] path[i], windows)
        }),
    decreases path.len(),
{
    if path.len() > 0 && !crate::paths::is_separator(path.last(), windows) {
        lemma_name_start(path.drop_last(), windows);
        let n = last_name_start(path, windows) as int;
        assert forall|i: int| n <= i < path.len() implies !parts_names(
            #[trigger] path[i],
            windows,
        ) by {
            if i < path.len() - 1 {
                assert(path.drop_last()[i] == path[i]);
            }
        }
    }
}

/// The last name of a path stands behind its last separator.
pub proof fn law_last_names(dir: Seq<char>, sep: char, name: Seq<char>, windows: bool)
    requires
        parts_names(sep, windows),
        name.len() > 0,
        name != seq!['.'],
        name != seq!['.', '.'],
        forall|i: int| 0 <= i < name.len() ==> !parts_names(#[trigger] name[i], windows),
    ensures
        name_of(name, windows) == Some(name),
        name_of(dir.push(sep) + name, windows) == Some(name),
{
    lemma_name_start(name, windows);
    let n = last_name_start(name, windows) as int;
    assert(n == 0) by {
        if n > 0 {
            assert(!parts_names(name[n - 1], windows));
        }
    }
    assert(name.skip(0) =~= name);
    let path = dir.push(sep) + name;
    lemma_name_start(path, windows);
    let m = last_name_start(path, windows) as int;
    assert(path[dir.len() as int] == sep);
    if m > dir.len() + 1 {
        assert(path[m - 1] == name[m - 1 - dir.len() - 1]);
    }
    if m <= dir.len() {
        assert(!parts_names(path[dir.len() as int], windows));
    }
    assert(path.skip(m) =~= name);
}

/// A separator at the end of a path does not change its last name, nor does a
/// dot behind one; a path that goes up has none.
pub proof fn law_names_of_directories(path: Seq<char>, sep: char, windows: bool)
    requires
        parts_names(sep, windows),
    ensures
        name_of(path.push(sep), windows) == name_of(path, windows),
        name_of(path.push(sep).push('.'), windows) == name_of(path, windows),
        name_of(path.push(sep) + seq!['.', '.'], windows) is None,
        name_of(Seq::empty(), windows) is None,
{
    let ended = path.push(sep);
    assert(ended.skip(ended.len() as int).len() == 0);
    assert(ended.take(ended.len() - 1) =~= path);
    let dotted = ended.push('.');
    assert(dotted.drop_last() =~= ended);
    assert(!crate::paths::is_separator('.', windows));
    assert(last_name_start(dotted, windows) == ended.len());
    assert(dotted.skip(ended.len() as int) =~= seq!['.']);
    assert(dotted.take(ended.len() - 1) =~= path);
    let up = ended + seq!['.', '.'];
    assert(up.drop_last() =~= dotted);
    assert(last_name_start(up, windows) == ended.len());
    assert(up.skip(ended.len() as int) =~= seq!['.', '.']);
    assert(seq!['.', '.'].len() == 2 && seq!['.'].len() == 1);
}

proof fn lemma_last_dot(name: Seq<char>)
    ensures
        ({
            let n = last_dot(name) as int;
            &&& 0 <= n <= name.len()
            &&& n < name.len() ==> name[n] == '.'
            &&& forall|i: int| n < i < name.len() ==> #[trigger] name[i] != '.'
            &&& n == name.len() ==> forall|i: int|
                0 <= i < name.len() ==> #[trigger] name[i] != '.'
        }),
    decreases name.len(),
{
    if name.len() > 0 && name.last() != '.' {
        lemma_last_dot(name.drop_last());
        let n = last_dot(name) as int;
        assert forall|i: int| n < i < name.len() implies #[trigger] name[i] != '.' by {
            if i < name.len() - 1 {
                assert(name.drop_last()[i] == name[i]);
            }
        }
        if n == name.len() {
            assert forall|i: int| 0 <= i < name.len() implies #[trigger] name[i] != '.' by {
                if i < name.len() - 1 {
                    assert(name.drop_last()[i] == name[i]);
                }
            }
        }
    }
}

/// The extension of a name is what follows its last dot; a name without a dot,
/// or with no other than its first character, has none.
pub proof fn law_extensions(stem: Seq<char>, ext: Seq<char>)
    requires
        forall|i: int| 0 <= i < ext.len() ==> #[trigger] ext[i] != '.',
    ensures
        stem.len() > 0 ==> extension_of(stem.push('.') + ext) == Some(ext),
        extension_of(ext) is None,
        extension_of(seq!['.'] + ext) is None,
{
    let name = stem.push('.') + ext;
    lemma_last_dot(name);
    let n = last_dot(name) as int;
    assert(name[stem.len() as int] == '.');
    if n > stem.len() && n < name.len() {
        assert(name[n] == ext[n - stem.len() - 1]);
    }
    assert(name.skip(stem.len() as int + 1) =~= ext);
    lemma_last_dot(ext);
    let m = last_dot(ext) as int;
    if m < ext.len() {
        assert(ext[m] == '.');
    }
    let hidden = seq!['.'] + ext;
    lemma_last_dot(hidden);
    let k = last_dot(hidden) as int;
    assert(hidden[0] == '.');
    if 0 < k < hidden.len() {
        assert(hidden[k] == ext[k - 1]);
    }
}

} // verus!
