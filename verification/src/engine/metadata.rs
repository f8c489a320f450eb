//! Metadata that phases and the identify form contribute to a run.

use vstd::prelude::*;
use crate::dup::{push, Dup};
use crate::engine::model::{MetadataSource, MetadataSourceView};
use crate::json::{Json, JsonField, JsonFieldView, JsonView};
use crate::order::{
    insert_sorted, lemma_less_irreflexive, lemma_less_total, lemma_less_transitive, lemma_sorted,
    sort_by_text, sorted, text_less,
};
use crate::text;

verus! {

/// Most metadata keys of one entity that the server takes.
pub const MAX_KEYS: usize = 50;

/// What a list of entries says of each key; a later entry wins.
pub open spec fn as_map(entries: Seq<JsonFieldView>) -> Map<Seq<char>, JsonView>
    decreases entries.len(),
{
    if entries.len() == 0 {
        Map::empty()
    } else {
        as_map(entries.drop_last()).insert(entries.last().key, entries.last().value)
    }
}

/// Whether no two entries have the same key.
pub open spec fn distinct_keys(entries: Seq<JsonFieldView>) -> bool {
    forall|i: int, j: int|
        0 <= i < j < entries.len() ==> (#[trigger] entries[i]).key != (#[trigger] entries[j]).key
}

/// Whether an item of `item_slot` belongs in the run of `slot`: its own, or
/// shared.
pub open spec fn belongs(item_slot: Option<Seq<char>>, slot: Seq<char>) -> bool {
    item_slot is None || item_slot == Some(slot)
}

/// Whether an item of `item_slot` belongs in the run of `slot`.
pub fn belongs_to_slot(item_slot: &Option<String>, slot: &str) -> (yes: bool)
    ensures
        yes == belongs(item_slot.deep_view(), slot@),
{
    match item_slot {
        None => true,
        Some(item) => text::same(item.as_str(), slot),
    }
}

// ---------------------------------------------------------------------------
// Replacing a source
// ---------------------------------------------------------------------------

/// Whether a source is the one of `slot` and `source`.
pub open spec fn is_source(
    m: MetadataSourceView,
    slot: Option<Seq<char>>,
    source: Seq<char>,
) -> bool {
    m.slot == slot && m.source == source
}

/// The index of the first entry of `slot` and `source`, or the length.
pub open spec fn source_index(
    sources: Seq<MetadataSourceView>,
    slot: Option<Seq<char>>,
    source: Seq<char>,
) -> int
    decreases sources.len(),
{
    if sources.len() == 0 {
        0
    } else {
        let i = source_index(sources.drop_last(), slot, source);
        if i < sources.len() - 1 || is_source(sources.last(), slot, source) {
            i
        } else {
            sources.len() as int
        }
    }
}

/// `sources` with the entries of one source replaced where it stands; a new
/// source is added at the end, unless it has no entries.
pub open spec fn upserted(
    sources: Seq<MetadataSourceView>,
    slot: Option<Seq<char>>,
    source: Seq<char>,
    entries: Seq<JsonFieldView>,
) -> Seq<MetadataSourceView> {
    let i = source_index(sources, slot, source);
    if i < sources.len() {
        sources.update(i, MetadataSourceView { slot, source, entries })
    } else if entries.len() > 0 {
        sources.push(MetadataSourceView { slot, source, entries })
    } else {
        sources
    }
}

/// The index is the first at which the source stands.
pub proof fn lemma_source_index(
    sources: Seq<MetadataSourceView>,
    slot: Option<Seq<char>>,
    source: Seq<char>,
)
    ensures
        0 <= source_index(sources, slot, source) <= sources.len(),
        source_index(sources, slot, source) < sources.len() ==> is_source(
            sources[source_index(sources, slot, source)],
            slot,
            source,
        ),
        forall|k: int|
            0 <= k < source_index(sources, slot, source) ==> !is_source(
                #[trigger] sources[k],
                slot,
                source,
            ),
    decreases sources.len(),
{
    if sources.len() > 0 {
        lemma_source_index(sources.drop_last(), slot, source);
        let i = source_index(sources.drop_last(), slot, source);
        if i < sources.len() - 1 {
            assert(sources.drop_last()[i] == sources[i]);
        }
        assert forall|k: int| 0 <= k < source_index(sources, slot, source) implies !is_source(
            #[trigger] sources[k],
            slot,
            source,
        ) by {
            if k < sources.len() - 1 {
                assert(sources.drop_last()[k] == sources[k]);
            }
        }
    }
}

proof fn lemma_source_index_unique(
    sources: Seq<MetadataSourceView>,
    slot: Option<Seq<char>>,
    source: Seq<char>,
    i: int,
)
    requires
        0 <= i <= sources.len(),
        forall|k: int| 0 <= k < i ==> !is_source(#[trigger] sources[k], slot, source),
        i < sources.len() ==> is_source(sources[i], slot, source),
    ensures
        source_index(sources, slot, source) == i,
{
    lemma_source_index(sources, slot, source);
    let j = source_index(sources, slot, source);
    if j < i {
        assert(is_source(sources[j], slot, source));
    }
    if i < j {
        assert(!is_source(sources[i], slot, source));
    }
}

/// Replaces the entries of one source in place, or appends a new source.
pub fn upsert_metadata_source(
    sources: &mut Vec<MetadataSource>,
    slot: &Option<String>,
    source: &str,
    entries: Vec<JsonField>,
)
    ensures
        final(sources).deep_view() == upserted(
            old(sources).deep_view(),
            slot.deep_view(),
            source@,
            entries.deep_view(),
        ),
{
    let ghost before = sources.deep_view();
    let mut i: usize = 0;
    while i < sources.len()
        invariant
            i <= sources@.len(),
            before == sources.deep_view(),
            before == old(sources).deep_view(),
            forall|k: int|
                0 <= k < i ==> !is_source(#[trigger] before[k], slot.deep_view(), source@),
        decreases sources@.len() - i,
    {
        assert(before[i as int] == sources@[i as int].deep_view());
        if text::same_option(&sources[i].slot, slot) && text::same(
            sources[i].source.as_str(),
            source,
        ) {
            proof {
                lemma_source_index_unique(before, slot.deep_view(), source@, i as int);
            }
            let renewed = MetadataSource {
                slot: slot.dup(),
                source: source.to_string(),
                entries,
            };
            sources.set(i, renewed);
            assert(sources.deep_view() =~= before.update(i as int, renewed.deep_view()));
            return;
        }
        i += 1;
    }
    proof {
        lemma_source_index_unique(before, slot.deep_view(), source@, i as int);
    }
    if entries.len() > 0 {
        push(
            sources,
            MetadataSource { slot: slot.dup(), source: source.to_string(), entries },
        );
    }
}

// ---------------------------------------------------------------------------
// Folding the sources
// ---------------------------------------------------------------------------

/// The metadata of `slot`: the entries of the sources that belong to it, in
/// order; a later source wins per key.
pub open spec fn folded(sources: Seq<MetadataSourceView>, slot: Seq<char>) -> Map<
    Seq<char>,
    JsonView,
>
    decreases sources.len(),
{
    if sources.len() == 0 {
        Map::empty()
    } else {
        let rest = folded(sources.drop_last(), slot);
        if belongs(sources.last().slot, slot) {
            rest.union_prefer_right(as_map(sources.last().entries))
        } else {
            rest
        }
    }
}

proof fn lemma_as_map_contains(entries: Seq<JsonFieldView>, i: int)
    requires
        0 <= i < entries.len(),
    ensures
        as_map(entries).contains_key(entries[i].key),
    decreases entries.len(),
{
    if i < entries.len() - 1 {
        lemma_as_map_contains(entries.drop_last(), i);
    }
}

/// Every key of the map is the key of an entry.
pub proof fn lemma_as_map_dom(entries: Seq<JsonFieldView>, key: Seq<char>)
    ensures
        as_map(entries).contains_key(key) <==> exists|i: int|
            0 <= i < entries.len() && (#[trigger] entries[i]).key == key,
    decreases entries.len(),
{
    if entries.len() > 0 {
        lemma_as_map_dom(entries.drop_last(), key);
        if as_map(entries.drop_last()).contains_key(key) {
            let i = choose|i: int|
                0 <= i < entries.drop_last().len() && (#[trigger] entries.drop_last()[i]).key
                    == key;
            assert(entries[i].key == key);
        }
        if exists|i: int| 0 <= i < entries.len() && (#[trigger] entries[i]).key == key {
            let i = choose|i: int| 0 <= i < entries.len() && (#[trigger] entries[i]).key == key;
            lemma_as_map_contains(entries, i);
        }
        if as_map(entries).contains_key(key) && entries.last().key == key {
            assert(entries[entries.len() - 1].key == key);
        }
    }
}

/// With distinct keys each entry is what the map says of its key.
pub proof fn lemma_as_map_value(entries: Seq<JsonFieldView>, i: int)
    requires
        distinct_keys(entries),
        0 <= i < entries.len(),
    ensures
        as_map(entries).contains_key(entries[i].key),
        as_map(entries)[entries[i].key] == entries[i].value,
    decreases entries.len(),
{
    if i < entries.len() - 1 {
        assert(distinct_keys(entries.drop_last())) by {
            assert forall|a: int, b: int| 0 <= a < b < entries.drop_last().len() implies (
            #[trigger] entries.drop_last()[a]).key != (#[trigger] entries.drop_last()[b]).key by {
                assert(entries[a].key != entries[b].key);
            }
        }
        lemma_as_map_value(entries.drop_last(), i);
        assert(entries[i].key != entries[entries.len() - 1].key);
    }
}

proof fn lemma_update_as_map(entries: Seq<JsonFieldView>, i: int, value: JsonView)
    requires
        distinct_keys(entries),
        0 <= i < entries.len(),
    ensures
        as_map(entries.update(i, JsonFieldView { key: entries[i].key, value })) == as_map(
            entries,
        ).insert(entries[i].key, value),
        distinct_keys(entries.update(i, JsonFieldView { key: entries[i].key, value })),
    decreases entries.len(),
{
    let x = JsonFieldView { key: entries[i].key, value };
    let updated = entries.update(i, x);
    assert forall|a: int, b: int| 0 <= a < b < updated.len() implies (#[trigger] updated[a]).key
        != (#[trigger] updated[b]).key by {
        assert(entries[a].key != entries[b].key);
    }
    if i < entries.len() - 1 {
        let front = entries.drop_last();
        assert(distinct_keys(front)) by {
            assert forall|a: int, b: int| 0 <= a < b < front.len() implies (#[trigger] front[a]).key
                != (#[trigger] front[b]).key by {
                assert(entries[a].key != entries[b].key);
            }
        }
        lemma_update_as_map(front, i, value);
        assert(updated.drop_last() =~= front.update(i, x));
        assert(entries[i].key != entries[entries.len() - 1].key);
        assert(as_map(updated) =~= as_map(entries).insert(entries[i].key, value));
    } else {
        assert(updated.drop_last() =~= entries.drop_last());
        assert(as_map(updated) =~= as_map(entries).insert(entries[i].key, value));
    }
}

/// Sets what a list of entries says of one key.
pub fn put(entries: &mut Vec<JsonField>, key: &str, value: Json)
    requires
        distinct_keys(old(entries).deep_view()),
    ensures
        distinct_keys(final(entries).deep_view()),
        as_map(final(entries).deep_view()) == as_map(old(entries).deep_view()).insert(
            key@,
            value.deep_view(),
        ),
{
    let ghost before = entries.deep_view();
    let mut i: usize = 0;
    while i < entries.len()
        invariant
            i <= entries@.len(),
            before == entries.deep_view(),
            before == old(entries).deep_view(),
            distinct_keys(before),
            forall|k: int| 0 <= k < i ==> (#[trigger] before[k]).key != key@,
        decreases entries@.len() - i,
    {
        assert(before[i as int] == entries@[i as int].deep_view());
        if text::same(entries[i].key.as_str(), key) {
            proof {
                lemma_update_as_map(before, i as int, value.deep_view());
            }
            let renewed = JsonField { key: key.to_string(), value };
            entries.set(i, renewed);
            assert(entries.deep_view() =~= before.update(i as int, renewed.deep_view()));
            return;
        }
        i += 1;
    }
    push(entries, JsonField { key: key.to_string(), value });
    assert(entries.deep_view().drop_last() =~= before);
}

fn put_all(entries: &mut Vec<JsonField>, more: &Vec<JsonField>)
    requires
        distinct_keys(old(entries).deep_view()),
    ensures
        distinct_keys(final(entries).deep_view()),
        as_map(final(entries).deep_view()) == as_map(
            old(entries).deep_view(),
        ).union_prefer_right(as_map(more.deep_view())),
{
    let ghost before = as_map(entries.deep_view());
    let mut i: usize = 0;
    assert(before.union_prefer_right(as_map(more.deep_view().take(0))) =~= before);
    while i < more.len()
        invariant
            i <= more@.len(),
            distinct_keys(entries.deep_view()),
            as_map(entries.deep_view()) == before.union_prefer_right(
                as_map(more.deep_view().take(i as int)),
            ),
        decreases more@.len() - i,
    {
        let ghost now = more.deep_view().take(i + 1);
        assert(now.drop_last() =~= more.deep_view().take(i as int));
        assert(now.last() == more@[i as int].deep_view());
        put(entries, more[i].key.as_str(), more[i].value.dup());
        assert(as_map(entries.deep_view()) =~= before.union_prefer_right(as_map(now)));
        i += 1;
    }
    assert(more.deep_view().take(more@.len() as int) =~= more.deep_view());
}

/// Folds the sources that belong to a slot into its metadata.
pub fn fold_metadata_sources(sources: &Vec<MetadataSource>, slot: &str) -> (merged: Vec<JsonField>)
    ensures
        distinct_keys(merged.deep_view()),
        as_map(merged.deep_view()) == folded(sources.deep_view(), slot@),
{
    let mut merged: Vec<JsonField> = Vec::new();
    let mut i: usize = 0;
    assert(as_map(merged.deep_view()) =~= folded(sources.deep_view().take(0), slot@));
    while i < sources.len()
        invariant
            i <= sources@.len(),
            distinct_keys(merged.deep_view()),
            as_map(merged.deep_view()) == folded(sources.deep_view().take(i as int), slot@),
        decreases sources@.len() - i,
    {
        let ghost now = sources.deep_view().take(i + 1);
        assert(now.drop_last() =~= sources.deep_view().take(i as int));
        assert(now.last() == sources@[i as int].deep_view());
        if belongs_to_slot(&sources[i].slot, slot) {
            put_all(&mut merged, &sources[i].entries);
        }
        i += 1;
    }
    assert(sources.deep_view().take(sources@.len() as int) =~= sources.deep_view());
    merged
}

// ---------------------------------------------------------------------------
// The bound on keys
// ---------------------------------------------------------------------------

/// At most [`MAX_KEYS`] entries: all of them where they fit, the first in
/// the order of the keys where they do not.
pub open spec fn capped_keys(entries: Seq<JsonFieldView>) -> Seq<JsonFieldView> {
    if entries.len() <= MAX_KEYS {
        entries
    } else {
        sorted::<JsonField>(entries).take(MAX_KEYS as int)
    }
}

/// The keys that the bound drops, in order.
pub open spec fn dropped_keys(entries: Seq<JsonFieldView>) -> Seq<Seq<char>> {
    if entries.len() <= MAX_KEYS {
        Seq::empty()
    } else {
        sorted::<JsonField>(entries).skip(MAX_KEYS as int).map_values(|e: JsonFieldView| e.key)
    }
}

/// Bounds the number of keys; gives the entries that stay and the keys that
/// are dropped.
pub fn cap_metadata_keys(entries: &Vec<JsonField>) -> (out: (Vec<JsonField>, Vec<String>))
    ensures
        out.0.deep_view() == capped_keys(entries.deep_view()),
        out.1.deep_view() == dropped_keys(entries.deep_view()),
{
    let mut dropped: Vec<String> = Vec::new();
    if entries.len() <= MAX_KEYS {
        assert(dropped.deep_view() =~= Seq::empty());
        return (entries.dup(), dropped);
    }
    let all = sort_by_text(entries);
    proof {
        lemma_sorted::<JsonField>(entries.deep_view());
    }
    let mut kept: Vec<JsonField> = Vec::new();
    let mut i: usize = 0;
    assert(all.deep_view().len() == all@.len());
    while i < all.len()
        invariant
            i <= all@.len(),
            all@.len() > MAX_KEYS,
            kept@.len() == if i <= MAX_KEYS {
                i as int
            } else {
                MAX_KEYS as int
            },
            dropped@.len() == if i <= MAX_KEYS {
                0
            } else {
                i - MAX_KEYS
            },
            forall|k: int|
                0 <= k < kept@.len() ==> (#[trigger] kept@[k]).deep_view() == all@[k].deep_view(),
            forall|k: int|
                0 <= k < dropped@.len() ==> (#[trigger] dropped@[k])@ == all@[MAX_KEYS + k].key@,
        decreases all@.len() - i,
    {
        if i < MAX_KEYS {
            kept.push(all[i].dup());
        } else {
            dropped.push(all[i].key.dup());
        }
        i += 1;
    }
    assert(kept.deep_view() =~= all.deep_view().take(MAX_KEYS as int));
    assert(dropped.deep_view() =~= dropped_keys(entries.deep_view()));
    (kept, dropped)
}

/// Whether every key comes before the next.
pub open spec fn rising(entries: Seq<JsonFieldView>) -> bool {
    forall|i: int, j: int|
        0 <= i < j < entries.len() ==> text_less(
            (#[trigger] entries[i]).key,
            (#[trigger] entries[j]).key,
        )
}

proof fn lemma_insert_rising(s: Seq<JsonFieldView>, x: JsonFieldView)
    requires
        rising(s),
        !as_map(s).contains_key(x.key),
    ensures
        rising(insert_sorted::<JsonField>(s, x)),
        as_map(insert_sorted::<JsonField>(s, x)) == as_map(s).insert(x.key, x.value),
        forall|i: int|
            0 <= i < insert_sorted::<JsonField>(s, x).len() ==> (#[trigger] insert_sorted::<
                JsonField,
            >(s, x)[i] == x || s.contains(insert_sorted::<JsonField>(s, x)[i])),
    decreases s.len(),
{
    let r = insert_sorted::<JsonField>(s, x);
    if s.len() == 0 {
        assert(r.drop_last() =~= s);
    } else {
        let front = s.drop_last();
        let last = s.last();
        lemma_as_map_contains(s, s.len() - 1);
        if text_less(x.key, last.key) {
            lemma_insert_rising(front, x);
            let inner = insert_sorted::<JsonField>(front, x);
            assert(r.drop_last() =~= inner);
            assert forall|i: int| 0 <= i < inner.len() implies text_less(
                (#[trigger] inner[i]).key,
                last.key,
            ) && (inner[i] == x || s.contains(inner[i])) by {
                if inner[i] != x {
                    let k = choose|k: int| 0 <= k < front.len() && front[k] == inner[i];
                    assert(s[k] == inner[i]);
                }
            }
            assert(s[s.len() - 1] == last);
            assert(as_map(r) =~= as_map(s).insert(x.key, x.value));
        } else {
            assert(r.drop_last() =~= s);
            assert forall|i: int| 0 <= i < s.len() implies text_less(
                (#[trigger] s[i]).key,
                x.key,
            ) by {
                lemma_less_total(last.key, x.key);
                if i < s.len() - 1 {
                    lemma_less_transitive(s[i].key, last.key, x.key);
                }
            }
            assert forall|i: int| 0 <= i < r.len() implies (#[trigger] r[i] == x || s.contains(
                r[i],
            )) by {
                if i < s.len() {
                    assert(s[i] == r[i]);
                }
            }
        }
    }
}

proof fn lemma_sorted_rising(entries: Seq<JsonFieldView>)
    requires
        distinct_keys(entries),
    ensures
        rising(sorted::<JsonField>(entries)),
        as_map(sorted::<JsonField>(entries)) == as_map(entries),
    decreases entries.len(),
{
    if entries.len() > 0 {
        let front = entries.drop_last();
        assert(distinct_keys(front)) by {
            assert forall|a: int, b: int| 0 <= a < b < front.len() implies (#[trigger] front[a]).key
                != (#[trigger] front[b]).key by {
                assert(entries[a].key != entries[b].key);
            }
        }
        lemma_sorted_rising(front);
        lemma_as_map_dom(front, entries.last().key);
        assert forall|i: int| 0 <= i < front.len() implies (#[trigger] front[i]).key
            != entries.last().key by {
            assert(entries[i].key != entries[entries.len() - 1].key);
        }
        lemma_insert_rising(sorted::<JsonField>(front), entries.last());
    }
}

proof fn lemma_rising_is_one(s: Seq<JsonFieldView>, t: Seq<JsonFieldView>)
    requires
        rising(s),
        rising(t),
        as_map(s) == as_map(t),
    ensures
        s == t,
    decreases s.len(),
{
    if s.len() == 0 || t.len() == 0 {
        if s.len() > 0 {
            lemma_as_map_contains(s, 0);
        }
        if t.len() > 0 {
            lemma_as_map_contains(t, 0);
        }
        assert(s =~= t);
    } else {
        let a = s.last().key;
        let b = t.last().key;
        lemma_as_map_dom(s, b);
        lemma_as_map_dom(t, a);
        lemma_as_map_contains(s, s.len() - 1);
        lemma_as_map_contains(t, t.len() - 1);
        let i = choose|i: int| 0 <= i < s.len() && (#[trigger] s[i]).key == b;
        let j = choose|j: int| 0 <= j < t.len() && (#[trigger] t[j]).key == a;
        if a != b {
            assert(text_less(s[i].key, s[s.len() - 1].key));
            assert(text_less(t[j].key, t[t.len() - 1].key));
            lemma_less_transitive(a, b, a);
            lemma_less_irreflexive(a);
        }
        lemma_rising_last(s);
        lemma_rising_last(t);
        lemma_rising_is_one(s.drop_last(), t.drop_last());
        assert(s =~= s.drop_last().push(s.last()));
        assert(t =~= t.drop_last().push(t.last()));
    }
}

proof fn lemma_rising_last(s: Seq<JsonFieldView>)
    requires
        rising(s),
        s.len() > 0,
    ensures
        rising(s.drop_last()),
        as_map(s)[s.last().key] == s.last().value,
        as_map(s.drop_last()) == as_map(s).remove(s.last().key),
{
    let front = s.drop_last();
    lemma_as_map_dom(front, s.last().key);
    assert forall|i: int| 0 <= i < front.len() implies (#[trigger] front[i]).key
        != s.last().key by {
        assert(text_less(s[i].key, s[s.len() - 1].key));
        lemma_less_irreflexive(s.last().key);
    }
    assert forall|i: int, j: int| 0 <= i < j < front.len() implies text_less(
        (#[trigger] front[i]).key,
        (#[trigger] front[j]).key,
    ) by {
        assert(text_less(s[i].key, s[j].key));
    }
    assert(as_map(front) =~= as_map(s).remove(s.last().key));
}

/// Lists that say the same of every key have the same order of keys.
pub proof fn lemma_sorted_is_one(a: Seq<JsonFieldView>, b: Seq<JsonFieldView>)
    requires
        distinct_keys(a),
        distinct_keys(b),
        as_map(a) == as_map(b),
    ensures
        sorted::<JsonField>(a) == sorted::<JsonField>(b),
        a.len() == b.len(),
        rising(sorted::<JsonField>(a)),
        as_map(sorted::<JsonField>(a)) == as_map(a),
{
    lemma_sorted_rising(a);
    lemma_sorted_rising(b);
    lemma_rising_is_one(sorted::<JsonField>(a), sorted::<JsonField>(b));
    lemma_sorted::<JsonField>(a);
    lemma_sorted::<JsonField>(b);
}

// ---------------------------------------------------------------------------
// Laws
// ---------------------------------------------------------------------------

/// A retry replaces its source: what an attempt contributed and the next did
/// not is gone.
pub proof fn law_retry_replaces_source(
    sources: Seq<MetadataSourceView>,
    slot: Option<Seq<char>>,
    source: Seq<char>,
    first: Seq<JsonFieldView>,
    second: Seq<JsonFieldView>,
)
    requires
        first.len() > 0,
    ensures
        upserted(upserted(sources, slot, source, first), slot, source, second) == (if source_index(
            sources,
            slot,
            source,
        ) < sources.len() {
            upserted(sources, slot, source, second)
        } else {
            sources.push(MetadataSourceView { slot, source, entries: second })
        }),
{
    let i = source_index(sources, slot, source);
    lemma_source_index(sources, slot, source);
    let once = upserted(sources, slot, source, first);
    assert forall|k: int| 0 <= k < i implies !is_source(#[trigger] once[k], slot, source) by {
        assert(once[k] == sources[k]);
    }
    assert(is_source(once[i], slot, source));
    lemma_source_index_unique(once, slot, source, i);
    if i < sources.len() {
        assert(upserted(once, slot, source, second) =~= upserted(sources, slot, source, second));
    } else {
        assert(upserted(once, slot, source, second) =~= sources.push(
            MetadataSourceView { slot, source, entries: second },
        ));
    }
}

/// Replacing a source leaves every other source at its place.
pub proof fn law_upsert_keeps_positions(
    sources: Seq<MetadataSourceView>,
    slot: Option<Seq<char>>,
    source: Seq<char>,
    entries: Seq<JsonFieldView>,
)
    ensures
        upserted(sources, slot, source, entries).len() >= sources.len(),
        forall|k: int|
            0 <= k < sources.len() ==> (#[trigger] upserted(
                sources,
                slot,
                source,
                entries,
            )[k]).source == sources[k].source && upserted(sources, slot, source, entries)[k].slot
                == sources[k].slot,
        forall|k: int|
            0 <= k < sources.len() && k != source_index(sources, slot, source) ==> #[trigger] upserted(
                sources,
                slot,
                source,
                entries,
            )[k] == sources[k],
{
    lemma_source_index(sources, slot, source);
}

/// A later source wins per key: the metadata of a slot says of a key what
/// the last source that belongs to the slot and has the key says.
pub proof fn law_later_source_wins(
    sources: Seq<MetadataSourceView>,
    slot: Seq<char>,
    last: MetadataSourceView,
    key: Seq<char>,
)
    requires
        belongs(last.slot, slot),
        as_map(last.entries).contains_key(key),
    ensures
        folded(sources.push(last), slot).contains_key(key),
        folded(sources.push(last), slot)[key] == as_map(last.entries)[key],
{
    assert(sources.push(last).drop_last() =~= sources);
}

/// Metadata of one slot does not reach another.
pub proof fn law_slots_do_not_leak(
    sources: Seq<MetadataSourceView>,
    slot: Seq<char>,
    other: MetadataSourceView,
)
    requires
        other.slot is Some,
        other.slot != Some(slot),
    ensures
        folded(sources.push(other), slot) == folded(sources, slot),
{
    assert(sources.push(other).drop_last() =~= sources);
}

/// The bound keeps at most [`MAX_KEYS`] entries; nothing is lost where they
/// fit.
pub proof fn law_capped_keys(entries: Seq<JsonFieldView>)
    ensures
        capped_keys(entries).len() <= MAX_KEYS,
        entries.len() <= MAX_KEYS ==> capped_keys(entries) == entries,
        entries.len() > MAX_KEYS ==> capped_keys(entries).len() == MAX_KEYS,
        capped_keys(entries).len() + dropped_keys(entries).len() == entries.len(),
        forall|i: int, j: int|
            0 <= i < capped_keys(entries).len() && 0 <= j < dropped_keys(entries).len()
                ==> !text_less(
                #[trigger] dropped_keys(entries)[j],
                (#[trigger] capped_keys(entries)[i]).key,
            ),
{
    lemma_sorted::<JsonField>(entries);
    let all = sorted::<JsonField>(entries);
    if entries.len() > MAX_KEYS {
        assert forall|i: int, j: int|
            0 <= i < capped_keys(entries).len() && 0 <= j < dropped_keys(
                entries,
            ).len() implies !text_less(
            #[trigger] dropped_keys(entries)[j],
            (#[trigger] capped_keys(entries)[i]).key,
        ) by {
            assert(dropped_keys(entries)[j] == all[MAX_KEYS + j].key);
            assert(capped_keys(entries)[i] == all[i]);
        }
    }
}

} // verus!
