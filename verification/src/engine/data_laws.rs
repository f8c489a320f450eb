//! What holds of the data of a run: its metadata, its units, and the bounds of
//! what the live stream carries.

use vstd::prelude::*;
use crate::engine::caps::{capped_detail, capped_option, capped_value, logged_name, option_exceeds};
use crate::engine::metadata::{
    as_map, capped_keys, dropped_keys, folded, lemma_source_index, source_index, upserted,
};
use crate::engine::model::{
    EngineUnitView, KeyText, KeyTextView, MetadataSourceView, RunDataView,
};
use crate::engine::unit::{engine_unit, unit_of, with_unit_info};
use crate::json::{json_size, JsonField, JsonFieldView, JsonView};
use crate::order::{ascending, lemma_sorted, sorted};
use crate::protocol::UnitInfoView;
use crate::text::{decimal, lemma_fitting_prefix, utf8_size};
use crate::engine::sink_laws::{is_option_within, is_within};

verus! {

/// Whether a value marks one that was too large, and says how large it was.
pub open spec fn marks_size(value: JsonView, size: nat) -> bool {
    &&& value is Object
    &&& value->Object_0.len() >= 2
    &&& value->Object_0[0].key == "truncated"@
    &&& value->Object_0[0].value == JsonView::Bool(true)
    &&& value->Object_0[1].key == "original_size_bytes"@
    &&& value->Object_0[1].value matches JsonView::Number(n) && n.text == decimal(size) && (size
        <= i64::MAX ==> n.int is Some && n.int->0 == size)
}

/// A recorded value of up to a million bytes is passed on as it is; a larger
/// one by a mark of its size.
pub proof fn law_large_values_are_marked(value: JsonView)
    ensures
        json_size(value) <= 1_000_000 ==> capped_value(value) == value,
        json_size(value) > 1_000_000 ==> marks_size(capped_value(value), json_size(value))
            && capped_value(value)->Object_0.len() == 2,
{
}

/// The detail of a warning of up to ten kibibytes is passed on as it is; a
/// larger one by a mark of its size and the reason.
pub proof fn law_large_details_are_marked(detail: JsonView)
    ensures
        json_size(detail) <= 10_240 ==> capped_detail(detail) == detail,
        json_size(detail) > 10_240 ==> {
            &&& marks_size(capped_detail(detail), json_size(detail))
            &&& capped_detail(detail)->Object_0.len() == 3
            &&& capped_detail(detail)->Object_0[2].key == "reason"@
            &&& capped_detail(detail)->Object_0[2].value == JsonView::Text(
                "detail exceeded MAX_WARNING_DETAIL_BYTES"@,
            )
        },
{
}

/// A name of up to 128 bytes is shown in messages as it is; a longer one by as
/// much of its beginning as fits, and an ellipsis.
pub proof fn law_long_names_are_cut(s: Seq<char>)
    ensures
        utf8_size(s) <= 128 ==> logged_name(s) == s,
        utf8_size(s) > 128 ==> logged_name(s).len() > 0 && logged_name(s).last() == '…' && is_within(
            logged_name(s).drop_last(),
            s,
            128,
        ),
{
    reveal_strlit("…");
    lemma_fitting_prefix(s, 128);
    if utf8_size(s) > 128 {
        let kept = crate::text::fitting_prefix(s, 128);
        assert(logged_name(s).drop_last() =~= kept);
    }
}

/// An optional text is bounded as a text is, and exceeds a bound where it
/// does.
pub proof fn law_optional_texts_are_bounded(s: Option<Seq<char>>, max: nat)
    ensures
        is_option_within(capped_option(s, max), s, max),
        option_exceeds(s, max) <==> s is Some && utf8_size(s->0) > max,
{
    if s is Some {
        lemma_fitting_prefix(s->0, max);
    }
}

/// Metadata of a source takes the place of what the source of the slot had;
/// a new source comes last, unless it has nothing to say.
pub proof fn law_sources_are_replaced(
    sources: Seq<MetadataSourceView>,
    slot: Option<Seq<char>>,
    source: Seq<char>,
    entries: Seq<JsonFieldView>,
    k: int,
)
    requires
        0 <= k <= sources.len(),
        k < sources.len() ==> sources[k].slot == slot && sources[k].source == source,
        forall|j: int|
            0 <= j < k ==> !((#[trigger] sources[j]).slot == slot && sources[j].source == source),
    ensures
        ({
            let after = upserted(sources, slot, source, entries);
            let new = MetadataSourceView { slot, source, entries };
            &&& k < sources.len() ==> after == sources.update(k, new)
            &&& k == sources.len() && entries.len() > 0 ==> after == sources.push(new)
            &&& k == sources.len() && entries.len() == 0 ==> after == sources
        }),
{
    lemma_source_index(sources, slot, source);
    let i = source_index(sources, slot, source);
    if i < k {
        assert(sources[i].slot == slot && sources[i].source == source);
    }
    if k < i {
        assert(crate::engine::metadata::is_source(sources[k], slot, source));
    }
}

/// Of entries with the same key the last counts.
pub proof fn law_last_entry_counts(entries: Seq<JsonFieldView>, e: JsonFieldView, key: Seq<char>)
    ensures
        !as_map(Seq::empty()).contains_key(key),
        as_map(entries.push(e)).contains_key(key) <==> e.key == key || as_map(
            entries,
        ).contains_key(key),
        e.key == key ==> as_map(entries.push(e))[key] == e.value,
        e.key != key && as_map(entries).contains_key(key) ==> as_map(entries.push(e))[key]
            == as_map(entries)[key],
{
    assert(entries.push(e).drop_last() =~= entries);
}

/// The metadata of a slot is that of its own and of the shared sources; a later
/// source counts before an earlier one, key by key.
pub proof fn law_sources_are_merged(
    sources: Seq<MetadataSourceView>,
    last: MetadataSourceView,
    slot: Seq<char>,
    key: Seq<char>,
)
    ensures
        !folded(Seq::empty(), slot).contains_key(key),
        ({
            let before = folded(sources, slot);
            let after = folded(sources.push(last), slot);
            let own = last.slot is None || last.slot->0 == slot;
            &&& !own ==> after == before
            &&& own ==> {
                &&& after.contains_key(key) <==> before.contains_key(key) || as_map(
                    last.entries,
                ).contains_key(key)
                &&& as_map(last.entries).contains_key(key) ==> after[key] == as_map(
                    last.entries,
                )[key]
                &&& !as_map(last.entries).contains_key(key) && before.contains_key(key)
                    ==> after[key] == before[key]
            }
        }),
{
    assert(sources.push(last).drop_last() =~= sources);
}

/// Metadata of up to fifty keys is uploaded as it is; of more, the first fifty
/// in the order of the keys, and the others are named.
pub proof fn law_fifty_keys_are_kept(entries: Seq<JsonFieldView>)
    ensures
        entries.len() <= 50 ==> capped_keys(entries) == entries && dropped_keys(entries).len() == 0,
        entries.len() > 50 ==> {
            let all = sorted::<JsonField>(entries);
            &&& ascending::<JsonField>(all)
            &&& all.to_multiset() == entries.to_multiset()
            &&& capped_keys(entries) == all.take(50)
            &&& dropped_keys(entries).len() == entries.len() - 50
            &&& forall|i: int|
                0 <= i < dropped_keys(entries).len() ==> #[trigger] dropped_keys(entries)[i]
                    == all[50 + i].key
        },
{
    lemma_sorted::<JsonField>(entries);
}

/// A unit of the wire is the same unit for the engine; the wire carries neither
/// an operator nor metadata.
pub proof fn law_units_of_the_wire(wire: UnitInfoView)
    ensures
        ({
            let unit = engine_unit(wire);
            &&& unit.serial_number == wire.serial_number
            &&& unit.part_number == wire.part_number
            &&& unit.revision_number == wire.revision_number
            &&& unit.batch_number == wire.batch_number
            &&& wire.sub_units.len() == 0 ==> unit.sub_units is None
            &&& wire.sub_units.len() > 0 ==> unit.sub_units == Some(wire.sub_units)
            &&& unit.operated_by is None
            &&& unit.metadata is None
            &&& unit.status.len() == 0
        }),
{
}

/// The sub-units of an update are known by their serial numbers, in the order
/// of their keys.
pub proof fn law_sub_units_are_ordered(data: RunDataView, slot: Seq<char>, info: EngineUnitView)
    requires
        info.sub_units is Some,
    ensures
        ({
            let after = unit_of(with_unit_info(data, slot, info).units, slot);
            let by_key = sorted::<KeyText>(info.sub_units->0);
            &&& ascending::<KeyText>(by_key)
            &&& by_key.to_multiset() == info.sub_units->0.to_multiset()
            &&& after.sub_units is Some
            &&& after.sub_units->0.len() == by_key.len()
            &&& forall|i: int|
                0 <= i < by_key.len() ==> #[trigger] after.sub_units->0[i] == by_key[i].text
        }),
{
    lemma_sorted::<KeyText>(info.sub_units->0);
    assert(slot.push('x').len() != slot.len());
    crate::engine::unit::law_unit_updates_are_scoped(data, slot, slot.push('x'), info);
}

/// What the identify form tells of a unit replaces what it told before; the
/// rest of the data is not touched.
pub proof fn law_forms_are_kept(data: RunDataView, slot: Seq<char>, info: EngineUnitView)
    ensures
        ({
            let after = with_unit_info(data, slot, info);
            &&& info.metadata is None ==> after.unit_metadata_sources == data.unit_metadata_sources
            &&& info.metadata matches Some(form) ==> after.unit_metadata_sources == upserted(
                data.unit_metadata_sources,
                Some(slot),
                "identify_unit"@,
                form.map_values(
                    |e: KeyTextView| JsonFieldView { key: e.key, value: JsonView::Text(e.text) },
                ),
            )
            &&& after == (RunDataView {
                units: after.units,
                unit_metadata_sources: after.unit_metadata_sources,
                ..data
            })
        }),
{
}

} // verus!
