//! The order of texts, and lists sorted by a text.

use vstd::prelude::*;
use crate::dup::Dup;
use crate::text::chars_of;

verus! {

/// Whether `a` comes before `b`, character by character.
pub open spec fn text_less(a: Seq<char>, b: Seq<char>) -> bool
    decreases b.len(),
{
    if b.len() == 0 {
        false
    } else if a.len() == 0 {
        true
    } else if a[0] != b[0] {
        a[0] < b[0]
    } else {
        text_less(a.drop_first(), b.drop_first())
    }
}

/// Whether `a` comes before `b`, character by character.
pub fn less(a: &str, b: &str) -> (yes: bool)
    ensures
        yes == text_less(a@, b@),
{
    let x = chars_of(a);
    let y = chars_of(b);
    let mut i: usize = 0;
    assert(x@.skip(0) =~= x@);
    assert(y@.skip(0) =~= y@);
    while i < x.len() && i < y.len() && x[i] == y[i]
        invariant
            i <= x@.len(),
            i <= y@.len(),
            x@ == a@,
            y@ == b@,
            text_less(a@, b@) == text_less(x@.skip(i as int), y@.skip(i as int)),
        decreases x@.len() - i,
    {
        assert(x@.skip(i as int).drop_first() =~= x@.skip(i + 1));
        assert(y@.skip(i as int).drop_first() =~= y@.skip(i + 1));
        i += 1;
    }
    if i == y.len() {
        false
    } else if i == x.len() {
        true
    } else {
        x[i] < y[i]
    }
}

/// No text comes before itself.
pub proof fn lemma_less_irreflexive(a: Seq<char>)
    ensures
        !text_less(a, a),
    decreases a.len(),
{
    if a.len() > 0 {
        lemma_less_irreflexive(a.drop_first());
    }
}

/// Of two different texts one comes before the other.
pub proof fn lemma_less_total(a: Seq<char>, b: Seq<char>)
    ensures
        a == b || text_less(a, b) || text_less(b, a),
    decreases a.len(),
{
    if a.len() > 0 && b.len() > 0 && a[0] == b[0] {
        lemma_less_total(a.drop_first(), b.drop_first());
        if a.drop_first() == b.drop_first() {
            assert(a =~= seq![a[0]] + a.drop_first());
            assert(b =~= seq![b[0]] + b.drop_first());
        }
    } else if a.len() == 0 && b.len() == 0 {
        assert(a =~= b);
    }
}

/// What comes before a text comes before all that follow it.
pub proof fn lemma_less_transitive(a: Seq<char>, b: Seq<char>, c: Seq<char>)
    requires
        text_less(a, b),
        text_less(b, c),
    ensures
        text_less(a, c),
    decreases a.len(),
{
    if a.len() > 0 && b.len() > 0 && c.len() > 0 && a[0] == b[0] && b[0] == c[0] {
        lemma_less_transitive(a.drop_first(), b.drop_first(), c.drop_first());
    }
}

/// A type whose values are sorted by a text.
pub trait Keyed: Dup {
    /// The text that a value is sorted by.
    spec fn sort_key(value: Self::V) -> Seq<char>;

    fn key_text(&self) -> (key: &str)
        ensures
            key@ == Self::sort_key(self.deep_view()),
    ;
}

impl Keyed for String {
    open spec fn sort_key(value: Seq<char>) -> Seq<char> {
        value
    }

    fn key_text(&self) -> (key: &str) {
        self.as_str()
    }
}

/// `s` with `x` before the values whose text comes after that of `x`.
pub open spec fn insert_sorted<T: Keyed>(s: Seq<T::V>, x: T::V) -> Seq<T::V>
    decreases s.len(),
{
    if s.len() > 0 && text_less(T::sort_key(x), T::sort_key(s.last())) {
        insert_sorted::<T>(s.drop_last(), x).push(s.last())
    } else {
        s.push(x)
    }
}

/// `s` in the order of its texts; equal ones keep their order.
pub open spec fn sorted<T: Keyed>(s: Seq<T::V>) -> Seq<T::V>
    decreases s.len(),
{
    if s.len() == 0 {
        Seq::empty()
    } else {
        insert_sorted::<T>(sorted::<T>(s.drop_last()), s.last())
    }
}

/// Whether no text comes before an earlier one.
pub open spec fn ascending<T: Keyed>(s: Seq<T::V>) -> bool {
    forall|i: int, j: int|
        0 <= i < j < s.len() ==> !text_less(
            T::sort_key(#[trigger] s[j]),
            T::sort_key(#[trigger] s[i]),
        )
}

proof fn lemma_insert_sorted<T: Keyed>(s: Seq<T::V>, x: T::V)
    requires
        ascending::<T>(s),
    ensures
        ascending::<T>(insert_sorted::<T>(s, x)),
        insert_sorted::<T>(s, x).to_multiset() == s.to_multiset().insert(x),
        insert_sorted::<T>(s, x).len() == s.len() + 1,
        forall|i: int|
            0 <= i < insert_sorted::<T>(s, x).len() ==> (#[trigger] insert_sorted::<T>(s, x)[i] == x
                || s.contains(insert_sorted::<T>(s, x)[i])),
    decreases s.len(),
{
    broadcast use vstd::seq_lib::group_to_multiset_ensures;

    let r = insert_sorted::<T>(s, x);
    if s.len() > 0 && text_less(T::sort_key(x), T::sort_key(s.last())) {
        let front = s.drop_last();
        lemma_insert_sorted::<T>(front, x);
        let inner = insert_sorted::<T>(front, x);
        assert forall|i: int| 0 <= i < inner.len() implies !text_less(
            T::sort_key(s.last()),
            T::sort_key(#[trigger] inner[i]),
        ) by {
            if inner[i] == x {
                if text_less(T::sort_key(s.last()), T::sort_key(x)) {
                    lemma_less_transitive(
                        T::sort_key(x),
                        T::sort_key(s.last()),
                        T::sort_key(x),
                    );
                    lemma_less_irreflexive(T::sort_key(x));
                }
            } else {
                let k = choose|k: int| 0 <= k < front.len() && front[k] == inner[i];
                assert(front[k] == s[k]);
            }
        }
        assert forall|i: int| 0 <= i < r.len() implies (#[trigger] r[i] == x || s.contains(r[i])) by {
            if i < inner.len() {
                if inner[i] != x {
                    let k = choose|k: int| 0 <= k < front.len() && front[k] == inner[i];
                    assert(s[k] == r[i]);
                }
            } else {
                assert(s[s.len() - 1] == r[i]);
            }
        }
        assert(s =~= front.push(s.last()));
        assert(r.to_multiset() =~= s.to_multiset().insert(x));
    } else {
        assert forall|i: int, j: int| 0 <= i < j < r.len() implies !text_less(
            T::sort_key(#[trigger] r[j]),
            T::sort_key(#[trigger] r[i]),
        ) by {
            if j == s.len() {
                if i < s.len() - 1 && text_less(T::sort_key(x), T::sort_key(s[i])) {
                    lemma_less_total(T::sort_key(s[i]), T::sort_key(s.last()));
                    if T::sort_key(s[i]) != T::sort_key(s.last()) {
                        lemma_less_transitive(
                            T::sort_key(x),
                            T::sort_key(s[i]),
                            T::sort_key(s.last()),
                        );
                    }
                }
            }
        }
        assert forall|i: int| 0 <= i < r.len() implies (#[trigger] r[i] == x || s.contains(r[i])) by {
            if i < s.len() {
                assert(s[i] == r[i]);
            }
        }
    }
}

/// A sorted list is ascending, and holds what the list held.
pub proof fn lemma_sorted<T: Keyed>(s: Seq<T::V>)
    ensures
        ascending::<T>(sorted::<T>(s)),
        sorted::<T>(s).to_multiset() == s.to_multiset(),
        sorted::<T>(s).len() == s.len(),
    decreases s.len(),
{
    broadcast use vstd::seq_lib::group_to_multiset_ensures;

    if s.len() > 0 {
        lemma_sorted::<T>(s.drop_last());
        lemma_insert_sorted::<T>(sorted::<T>(s.drop_last()), s.last());
        assert(s =~= s.drop_last().push(s.last()));
    } else {
        assert(s =~= Seq::<T::V>::empty());
    }
}

fn insert_value<T: Keyed>(list: &mut Vec<T>, x: T)
    ensures
        final(list).deep_view() == insert_sorted::<T>(old(list).deep_view(), x.deep_view()),
{
    let ghost s = list.deep_view();
    let ghost v = x.deep_view();
    let mut i: usize = list.len();
    assert(s.take(i as int) =~= s);
    assert(s.skip(i as int) =~= Seq::<T::V>::empty());
    assert(insert_sorted::<T>(s.take(i as int), v) + s.skip(i as int) =~= insert_sorted::<T>(s, v));
    while i > 0 && less(x.key_text(), list[i - 1].key_text())
        invariant
            i <= list@.len(),
            s == list.deep_view(),
            v == x.deep_view(),
            insert_sorted::<T>(s, v) == insert_sorted::<T>(s.take(i as int), v) + s.skip(i as int),
        decreases i,
    {
        let ghost front = s.take(i as int);
        assert(front.last() == list@[i - 1].deep_view());
        assert(front.drop_last() =~= s.take(i - 1));
        assert(s.skip(i - 1) =~= seq![front.last()] + s.skip(i as int));
        assert(insert_sorted::<T>(front, v) + s.skip(i as int) =~= insert_sorted::<T>(
            s.take(i - 1),
            v,
        ) + s.skip(i - 1));
        i -= 1;
    }
    proof {
        if i > 0 {
            assert(s.take(i as int).last() == list@[i - 1].deep_view());
        }
        assert(insert_sorted::<T>(s.take(i as int), v) == s.take(i as int).push(v));
    }
    list.insert(i, x);
    assert(list.deep_view() =~= s.take(i as int).push(v) + s.skip(i as int));
}

/// The values in the order of their texts; equal ones keep their order.
pub fn sort_by_text<T: Keyed>(list: &Vec<T>) -> (out: Vec<T>)
    ensures
        out.deep_view() == sorted::<T>(list.deep_view()),
{
    let mut out: Vec<T> = Vec::new();
    let mut i: usize = 0;
    assert(out.deep_view() =~= sorted::<T>(list.deep_view().take(0)));
    while i < list.len()
        invariant
            i <= list@.len(),
            out.deep_view() == sorted::<T>(list.deep_view().take(i as int)),
        decreases list@.len() - i,
    {
        let ghost now = list.deep_view().take(i + 1);
        assert(now.drop_last() =~= list.deep_view().take(i as int));
        assert(now.last() == list@[i as int].deep_view());
        insert_value(&mut out, list[i].dup());
        i += 1;
    }
    assert(list.deep_view().take(list@.len() as int) =~= list.deep_view());
    out
}

} // verus!
