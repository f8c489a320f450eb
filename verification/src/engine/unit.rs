//! Units on their way between the wire, the engine and the upload.

use vstd::prelude::*;
use crate::assoc;
use crate::assoc::{lookup, with_value};
use crate::dup::{push, Dup};
use crate::engine::metadata::{upsert_metadata_source, upserted};
use crate::engine::model::{
    EngineUnit, EngineUnitView, KeyText, KeyTextView, MetadataSourceView, RunData, RunDataView,
    SlotUnit, SlotUnitView, UnitSnapshot, UnitSnapshotView,
};
use crate::json::{Json, JsonField, JsonFieldView, JsonView};
use crate::order::{sort_by_text, sorted, Keyed};
use crate::protocol::{UnitInfo, UnitInfoView};

verus! {

impl Keyed for KeyText {
    open spec fn sort_key(value: KeyTextView) -> Seq<char> {
        value.key
    }

    fn key_text(&self) -> (key: &str) {
        self.key.as_str()
    }
}

impl Keyed for SlotUnit {
    open spec fn sort_key(value: SlotUnitView) -> Seq<char> {
        value.slot
    }

    fn key_text(&self) -> (key: &str) {
        self.slot.as_str()
    }
}

/// A unit as the wire carries it.
pub open spec fn wire_unit(unit: EngineUnitView) -> UnitInfoView {
    UnitInfoView {
        serial_number: unit.serial_number,
        part_number: unit.part_number,
        revision_number: unit.revision_number,
        batch_number: unit.batch_number,
        sub_units: match unit.sub_units {
            Some(subs) => subs,
            None => Seq::empty(),
        },
    }
}

/// Converts a unit of the engine to the wire.
pub fn unit_info_to_wire(unit: &EngineUnit) -> (wire: UnitInfo)
    ensures
        wire.deep_view() == wire_unit(unit.deep_view()),
{
    let sub_units = match &unit.sub_units {
        Some(subs) => subs.dup(),
        None => Vec::new(),
    };
    assert(unit.sub_units is None ==> sub_units.deep_view() =~= Seq::empty());
    UnitInfo {
        serial_number: unit.serial_number.dup(),
        part_number: unit.part_number.dup(),
        revision_number: unit.revision_number.dup(),
        batch_number: unit.batch_number.dup(),
        sub_units,
    }
}

/// A unit of the wire as the engine takes it: without sub-units where there
/// are none, and without an operator or metadata, which the wire does not
/// carry.
pub open spec fn engine_unit(wire: UnitInfoView) -> EngineUnitView {
    EngineUnitView {
        serial_number: wire.serial_number,
        part_number: wire.part_number,
        revision_number: wire.revision_number,
        batch_number: wire.batch_number,
        operated_by: None,
        sub_units: if wire.sub_units.len() == 0 {
            None
        } else {
            Some(wire.sub_units)
        },
        status: Seq::empty(),
        metadata: None,
    }
}

/// Converts a unit of the wire to the engine.
pub fn wire_unit_to_engine(wire: UnitInfo) -> (unit: EngineUnit)
    ensures
        unit.deep_view() == engine_unit(wire.deep_view()),
{
    let sub_units = if wire.sub_units.len() == 0 {
        None
    } else {
        Some(wire.sub_units)
    };
    EngineUnit {
        serial_number: wire.serial_number,
        part_number: wire.part_number,
        revision_number: wire.revision_number,
        batch_number: wire.batch_number,
        operated_by: None,
        sub_units,
        status: String::new(),
        metadata: None,
    }
}

/// A unit that is reused comes back on the wire as it went in.
pub proof fn law_wire_round_trip(wire: UnitInfoView)
    ensures
        wire_unit(engine_unit(wire)) == wire,
{
    if wire.sub_units.len() == 0 {
        assert(wire.sub_units =~= Seq::empty());
    }
}

// ---------------------------------------------------------------------------
// The unit of a slot
// ---------------------------------------------------------------------------

/// A unit of which nothing is known.
pub open spec fn no_unit() -> UnitSnapshotView {
    UnitSnapshotView {
        serial: None,
        part: None,
        revision: None,
        batch: None,
        operated_by: None,
        sub_units: None,
    }
}

/// What is known of the unit of a slot.
pub open spec fn unit_of(units: Seq<SlotUnitView>, slot: Seq<char>) -> UnitSnapshotView {
    match lookup::<SlotUnit>(units, slot) {
        Some(entry) => entry.unit,
        None => no_unit(),
    }
}

/// The unit of a slot.
pub fn slot_unit(units: &Vec<SlotUnit>, slot: &str) -> (unit: UnitSnapshot)
    ensures
        unit.deep_view() == unit_of(units.deep_view(), slot@),
{
    match assoc::get(units, slot) {
        Some(entry) => entry.unit.dup(),
        None => UnitSnapshot {
            serial: None,
            part: None,
            revision: None,
            batch: None,
            operated_by: None,
            sub_units: None,
        },
    }
}

/// The first value that is there.
pub open spec fn first_some<A>(a: Option<A>, b: Option<A>) -> Option<A> {
    if a is Some {
        a
    } else {
        b
    }
}

fn updated_text(new: &Option<String>, held: &Option<String>) -> (out: Option<String>)
    ensures
        out.deep_view() == first_some(new.deep_view(), held.deep_view()),
{
    match new {
        Some(text) => Some(text.dup()),
        None => held.dup(),
    }
}

/// The serial numbers of sub-units, in the order of their keys.
pub open spec fn sub_serials(subs: Seq<KeyTextView>) -> Seq<Seq<char>> {
    sorted::<KeyText>(subs).map_values(|e: KeyTextView| e.text)
}

/// A unit with what an update knows of it; what the update does not know
/// stays as it is.
pub open spec fn updated_unit(unit: UnitSnapshotView, info: EngineUnitView) -> UnitSnapshotView {
    UnitSnapshotView {
        serial: first_some(info.serial_number, unit.serial),
        part: first_some(info.part_number, unit.part),
        revision: first_some(info.revision_number, unit.revision),
        batch: first_some(info.batch_number, unit.batch),
        operated_by: first_some(info.operated_by, unit.operated_by),
        sub_units: match info.sub_units {
            Some(subs) => Some(sub_serials(subs)),
            None => unit.sub_units,
        },
    }
}

/// The entries of the identify form as metadata.
pub open spec fn form_entries(metadata: Seq<KeyTextView>) -> Seq<JsonFieldView> {
    metadata.map_values(|e: KeyTextView| JsonFieldView { key: e.key, value: JsonView::Text(e.text) })
}

/// The unit metadata after an update of the unit of a slot.
pub open spec fn updated_form(
    sources: Seq<MetadataSourceView>,
    slot: Seq<char>,
    info: EngineUnitView,
) -> Seq<MetadataSourceView> {
    match info.metadata {
        Some(metadata) => upserted(sources, Some(slot), "identify_unit"@, form_entries(metadata)),
        None => sources,
    }
}

/// A run after an update of the unit of a slot.
pub open spec fn with_unit_info(data: RunDataView, slot: Seq<char>, info: EngineUnitView) -> RunDataView {
    RunDataView {
        units: with_value::<SlotUnit>(
            data.units,
            SlotUnitView { slot, unit: updated_unit(unit_of(data.units, slot), info) },
        ),
        unit_metadata_sources: updated_form(data.unit_metadata_sources, slot, info),
        ..data
    }
}

fn serials_by_key(subs: &Vec<KeyText>) -> (out: Vec<String>)
    ensures
        out.deep_view() == sub_serials(subs.deep_view()),
{
    let entries = sort_by_text(subs);
    let mut out: Vec<String> = Vec::new();
    let mut i: usize = 0;
    while i < entries.len()
        invariant
            i <= entries@.len(),
            out@.len() == i,
            forall|k: int| 0 <= k < i ==> (#[trigger] out@[k])@ == entries@[k].text@,
        decreases entries@.len() - i,
    {
        out.push(entries[i].text.dup());
        i += 1;
    }
    assert(out.deep_view() =~= entries.deep_view().map_values(|e: KeyTextView| e.text));
    out
}

fn entries_of_form(metadata: &Vec<KeyText>) -> (out: Vec<JsonField>)
    ensures
        out.deep_view() == form_entries(metadata.deep_view()),
{
    let mut out: Vec<JsonField> = Vec::new();
    let mut i: usize = 0;
    while i < metadata.len()
        invariant
            i <= metadata@.len(),
            out@.len() == i,
            forall|k: int|
                0 <= k < i ==> (#[trigger] out@[k]).deep_view() == (JsonFieldView {
                    key: metadata@[k].key@,
                    value: JsonView::Text(metadata@[k].text@),
                }),
        decreases metadata@.len() - i,
    {
        out.push(
            JsonField { key: metadata[i].key.dup(), value: Json::Text(metadata[i].text.dup()) },
        );
        i += 1;
    }
    assert(out.deep_view() =~= form_entries(metadata.deep_view()));
    out
}

/// Writes what is known of a unit into the run: known fields overwrite, the
/// rest stays. Metadata of the identify form becomes the slot's own source.
pub fn apply_unit_info_to_run_data(data: &mut RunData, slot: &str, info: &EngineUnit)
    ensures
        final(data).deep_view() == with_unit_info(old(data).deep_view(), slot@, info.deep_view()),
{
    let held = slot_unit(&data.units, slot);
    let sub_units = match &info.sub_units {
        Some(subs) => Some(serials_by_key(subs)),
        None => held.sub_units.dup(),
    };
    let unit = UnitSnapshot {
        serial: updated_text(&info.serial_number, &held.serial),
        part: updated_text(&info.part_number, &held.part),
        revision: updated_text(&info.revision_number, &held.revision),
        batch: updated_text(&info.batch_number, &held.batch),
        operated_by: updated_text(&info.operated_by, &held.operated_by),
        sub_units,
    };
    assoc::put(&mut data.units, SlotUnit { slot: slot.to_string(), unit });
    match &info.metadata {
        Some(metadata) => {
            let own = Some(slot.to_string());
            upsert_metadata_source(
                &mut data.unit_metadata_sources,
                &own,
                "identify_unit",
                entries_of_form(metadata),
            );
        },
        None => {},
    }
}

/// A run after one update has been applied to several slots, in order.
pub open spec fn with_unit_info_all(
    data: RunDataView,
    slots: Seq<Seq<char>>,
    info: EngineUnitView,
) -> RunDataView
    decreases slots.len(),
{
    if slots.len() == 0 {
        data
    } else {
        with_unit_info(with_unit_info_all(data, slots.drop_last(), info), slots.last(), info)
    }
}

/// Applies one update to several slots.
pub fn apply_unit_info_to_slots(data: &mut RunData, slots: &Vec<String>, info: &EngineUnit)
    ensures
        final(data).deep_view() == with_unit_info_all(
            old(data).deep_view(),
            slots.deep_view(),
            info.deep_view(),
        ),
{
    let ghost start = data.deep_view();
    let mut i: usize = 0;
    assert(slots.deep_view().take(0) =~= Seq::empty());
    while i < slots.len()
        invariant
            i <= slots@.len(),
            data.deep_view() == with_unit_info_all(
                start,
                slots.deep_view().take(i as int),
                info.deep_view(),
            ),
        decreases slots@.len() - i,
    {
        let ghost now = slots.deep_view().take(i + 1);
        assert(now.drop_last() =~= slots.deep_view().take(i as int));
        assert(now.last() == slots@[i as int]@);
        apply_unit_info_to_run_data(data, slots[i].as_str(), info);
        i += 1;
    }
    assert(slots.deep_view().take(slots@.len() as int) =~= slots.deep_view());
}

/// An update of one slot leaves the unit of every other slot as it is.
pub proof fn law_unit_updates_are_scoped(
    data: RunDataView,
    slot: Seq<char>,
    other: Seq<char>,
    info: EngineUnitView,
)
    requires
        other != slot,
    ensures
        unit_of(with_unit_info(data, slot, info).units, other) == unit_of(data.units, other),
        unit_of(with_unit_info(data, slot, info).units, slot) == updated_unit(
            unit_of(data.units, slot),
            info,
        ),
{
    let value = SlotUnitView { slot, unit: updated_unit(unit_of(data.units, slot), info) };
    assoc::lemma_with_value::<SlotUnit>(data.units, value, other);
}

/// An update that knows nothing changes nothing.
pub proof fn law_empty_update(unit: UnitSnapshotView, info: EngineUnitView)
    requires
        info.serial_number is None,
        info.part_number is None,
        info.revision_number is None,
        info.batch_number is None,
        info.operated_by is None,
        info.sub_units is None,
    ensures
        updated_unit(unit, info) == unit,
{
}

} // verus!
