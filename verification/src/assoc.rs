//! Lists that hold one value per key.

use vstd::prelude::*;
use crate::order::Keyed;
use crate::text;

verus! {

/// The first index at which the key stands, or the length.
pub open spec fn key_index<T: Keyed>(s: Seq<T::V>, key: Seq<char>) -> int
    decreases s.len(),
{
    if s.len() == 0 {
        0
    } else {
        let i = key_index::<T>(s.drop_last(), key);
        if i < s.len() - 1 || T::sort_key(s.last()) == key {
            i
        } else {
            s.len() as int
        }
    }
}

/// The value of a key.
pub open spec fn lookup<T: Keyed>(s: Seq<T::V>, key: Seq<char>) -> Option<T::V> {
    let i = key_index::<T>(s, key);
    if i < s.len() {
        Some(s[i])
    } else {
        None
    }
}

/// `s` with a value put in the place of the one of its key, or at the end
/// where there is none.
pub open spec fn with_value<T: Keyed>(s: Seq<T::V>, value: T::V) -> Seq<T::V> {
    let i = key_index::<T>(s, T::sort_key(value));
    if i < s.len() {
        s.update(i, value)
    } else {
        s.push(value)
    }
}

/// `s` without the value of a key.
pub open spec fn without_key<T: Keyed>(s: Seq<T::V>, key: Seq<char>) -> Seq<T::V> {
    let i = key_index::<T>(s, key);
    if i < s.len() {
        s.remove(i)
    } else {
        s
    }
}

/// Whether no two values have the same key.
pub open spec fn one_per_key<T: Keyed>(s: Seq<T::V>) -> bool {
    forall|i: int, j: int|
        0 <= i < j < s.len() ==> T::sort_key(#[trigger] s[i]) != T::sort_key(#[trigger] s[j])
}

/// The index is the first at which the key stands.
pub proof fn lemma_key_index<T: Keyed>(s: Seq<T::V>, key: Seq<char>)
    ensures
        0 <= key_index::<T>(s, key) <= s.len(),
        key_index::<T>(s, key) < s.len() ==> T::sort_key(s[key_index::<T>(s, key)]) == key,
        forall|k: int|
            0 <= k < key_index::<T>(s, key) ==> T::sort_key(#[trigger] s[k]) != key,
    decreases s.len(),
{
    if s.len() > 0 {
        lemma_key_index::<T>(s.drop_last(), key);
        let i = key_index::<T>(s.drop_last(), key);
        if i < s.len() - 1 {
            assert(s.drop_last()[i] == s[i]);
        }
        assert forall|k: int| 0 <= k < key_index::<T>(s, key) implies T::sort_key(#[trigger] s[k])
            != key by {
            if k < s.len() - 1 {
                assert(s.drop_last()[k] == s[k]);
            }
        }
    }
}

/// The index is known by being the first at which the key stands.
pub proof fn lemma_key_index_unique<T: Keyed>(s: Seq<T::V>, key: Seq<char>, i: int)
    requires
        0 <= i <= s.len(),
        forall|k: int| 0 <= k < i ==> T::sort_key(#[trigger] s[k]) != key,
        i < s.len() ==> T::sort_key(s[i]) == key,
    ensures
        key_index::<T>(s, key) == i,
{
    lemma_key_index::<T>(s, key);
    let j = key_index::<T>(s, key);
    if j < i {
        assert(T::sort_key(s[j]) == key);
    }
    if i < j {
        assert(T::sort_key(s[i]) != key);
    }
}

/// A value that was put is found, and no other key is touched.
pub proof fn lemma_with_value<T: Keyed>(s: Seq<T::V>, value: T::V, key: Seq<char>)
    ensures
        lookup::<T>(with_value::<T>(s, value), T::sort_key(value)) == Some(value),
        key != T::sort_key(value) ==> lookup::<T>(with_value::<T>(s, value), key) == lookup::<T>(
            s,
            key,
        ),
        one_per_key::<T>(s) ==> one_per_key::<T>(with_value::<T>(s, value)),
{
    let own = T::sort_key(value);
    let i = key_index::<T>(s, own);
    lemma_key_index::<T>(s, own);
    let after = with_value::<T>(s, value);
    assert forall|k: int| 0 <= k < i implies T::sort_key(#[trigger] after[k]) != own by {
        assert(after[k] == s[k]);
    }
    lemma_key_index_unique::<T>(after, own, i);
    if key != own {
        lemma_key_index::<T>(s, key);
        let j = key_index::<T>(s, key);
        assert forall|k: int| 0 <= k < j implies T::sort_key(#[trigger] after[k]) != key by {
            if k != i {
                assert(after[k] == s[k]);
            }
        }
        if j < s.len() {
            lemma_key_index_unique::<T>(after, key, j);
        } else {
            assert forall|k: int| 0 <= k < after.len() implies T::sort_key(#[trigger] after[k])
                != key by {
                if k != i {
                    assert(after[k] == s[k]);
                }
            }
            lemma_key_index_unique::<T>(after, key, after.len() as int);
        }
    }
    if one_per_key::<T>(s) {
        assert forall|a: int, b: int| 0 <= a < b < after.len() implies T::sort_key(
            #[trigger] after[a],
        ) != T::sort_key(#[trigger] after[b]) by {
            if a != i {
                assert(after[a] == s[a]);
            }
            if b != i {
                assert(after[b] == s[b]);
            }
        }
    }
}

/// A key that was taken out is not found, and no other key is touched.
pub proof fn lemma_without_key<T: Keyed>(s: Seq<T::V>, gone: Seq<char>, key: Seq<char>)
    requires
        one_per_key::<T>(s),
    ensures
        lookup::<T>(without_key::<T>(s, gone), gone) is None,
        key != gone ==> lookup::<T>(without_key::<T>(s, gone), key) == lookup::<T>(s, key),
        one_per_key::<T>(without_key::<T>(s, gone)),
{
    let i = key_index::<T>(s, gone);
    lemma_key_index::<T>(s, gone);
    let after = without_key::<T>(s, gone);
    if i < s.len() {
        assert forall|k: int| 0 <= k < after.len() implies #[trigger] after[k] == (if k < i {
            s[k]
        } else {
            s[k + 1]
        }) by {}
        assert forall|k: int| 0 <= k < after.len() implies T::sort_key(#[trigger] after[k])
            != gone by {
            if k < i {
                assert(T::sort_key(s[k]) != T::sort_key(s[i]));
            } else {
                assert(T::sort_key(s[i]) != T::sort_key(s[k + 1]));
            }
        }
        lemma_key_index_unique::<T>(after, gone, after.len() as int);
        if key != gone {
            lemma_key_index::<T>(s, key);
            let j = key_index::<T>(s, key);
            let at = if j < i {
                j
            } else {
                j - 1
            };
            assert forall|k: int| 0 <= k < at implies T::sort_key(#[trigger] after[k]) != key by {
                if k < i {
                    assert(after[k] == s[k]);
                } else {
                    assert(after[k] == s[k + 1]);
                }
            }
            lemma_key_index_unique::<T>(after, key, at);
        }
        assert forall|a: int, b: int| 0 <= a < b < after.len() implies T::sort_key(
            #[trigger] after[a],
        ) != T::sort_key(#[trigger] after[b]) by {
            let a0 = if a < i {
                a
            } else {
                a + 1
            };
            let b0 = if b < i {
                b
            } else {
                b + 1
            };
            assert(T::sort_key(s[a0]) != T::sort_key(s[b0]));
        }
    }
}

/// The first index at which the key stands, or the length.
pub fn index_of<T: Keyed>(list: &Vec<T>, key: &str) -> (i: usize)
    ensures
        i == key_index::<T>(list.deep_view(), key@),
        i <= list@.len(),
{
    let mut i: usize = 0;
    while i < list.len()
        invariant
            i <= list@.len(),
            forall|k: int|
                0 <= k < i ==> T::sort_key(#[trigger] list.deep_view()[k]) != key@,
        decreases list@.len() - i,
    {
        assert(list.deep_view()[i as int] == list@[i as int].deep_view());
        if text::same(list[i].key_text(), key) {
            proof {
                lemma_key_index_unique::<T>(list.deep_view(), key@, i as int);
            }
            return i;
        }
        i += 1;
    }
    proof {
        lemma_key_index_unique::<T>(list.deep_view(), key@, i as int);
    }
    i
}

/// The value of a key.
pub fn get<'a, T: Keyed>(list: &'a Vec<T>, key: &str) -> (value: Option<&'a T>)
    ensures
        value.deep_view() == lookup::<T>(list.deep_view(), key@),
{
    let i: usize = index_of(list, key);
    if i < list.len() {
        Some(&list[i])
    } else {
        None
    }
}

/// Puts a value in the place of the one of its key, or at the end.
pub fn put<T: Keyed>(list: &mut Vec<T>, value: T)
    ensures
        final(list).deep_view() == with_value::<T>(old(list).deep_view(), value.deep_view()),
{
    let ghost before = list.deep_view();
    let i: usize = index_of(list, value.key_text());
    if i < list.len() {
        list.set(i, value);
        assert(list.deep_view() =~= before.update(i as int, value.deep_view()));
    } else {
        crate::dup::push(list, value);
    }
}

/// Takes the value of a key out, and gives it.
pub fn take<T: Keyed>(list: &mut Vec<T>, key: &str) -> (value: Option<T>)
    ensures
        value.deep_view() == lookup::<T>(old(list).deep_view(), key@),
        final(list).deep_view() == without_key::<T>(old(list).deep_view(), key@),
{
    let ghost before = list.deep_view();
    let i: usize = index_of(list, key);
    if i < list.len() {
        let value = list.remove(i);
        assert(list.deep_view() =~= before.remove(i as int));
        Some(value)
    } else {
        None
    }
}

} // verus!
