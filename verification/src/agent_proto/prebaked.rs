//! Values that answer prompts before anybody is asked.
//!
//! A prompt that they answer is never registered as pending, so a late answer
//! to it is one to an unknown request.

use vstd::prelude::*;
use vstd::string::*;
use crate::agent_proto::events::{SubmittedValue, SubmittedValueView};
use crate::assoc;
use crate::assoc::lookup;
use crate::dup::Dup;
use crate::json::{json_of_text, Json, JsonField, JsonFieldView, JsonView};
use crate::order::Keyed;
use crate::text;

verus! {

/// The values for the prompts of a phase.
#[derive(Debug, PartialEq, Eq)]
pub struct PhaseValues {
    pub phase_key: String,
    pub values: Vec<SubmittedValue>,
}

/// View of [`PhaseValues`].
pub struct PhaseValuesView {
    pub phase_key: Seq<char>,
    pub values: Seq<SubmittedValueView>,
}

impl DeepView for PhaseValues {
    type V = PhaseValuesView;

    open spec fn deep_view(&self) -> PhaseValuesView {
        PhaseValuesView {
            phase_key: self.phase_key.deep_view(),
            values: self.values.deep_view(),
        }
    }
}

impl Dup for PhaseValues {
    fn dup(&self) -> (copy: Self) {
        PhaseValues {
            phase_key: self.phase_key.dup(),
            values: self.values.dup(),
        }
    }
}

/// Values that answer prompts before anybody is asked.
#[derive(Debug, PartialEq, Eq)]
pub struct PreBakedValues {
    pub phases: Vec<PhaseValues>,
}

/// View of [`PreBakedValues`].
pub struct PreBakedValuesView {
    pub phases: Seq<PhaseValuesView>,
}

impl DeepView for PreBakedValues {
    type V = PreBakedValuesView;

    open spec fn deep_view(&self) -> PreBakedValuesView {
        PreBakedValuesView {
            phases: self.phases.deep_view(),
        }
    }
}

impl Dup for PreBakedValues {
    fn dup(&self) -> (copy: Self) {
        PreBakedValues {
            phases: self.phases.dup(),
        }
    }
}

/// A path that the platform resolved.
#[derive(Debug, PartialEq, Eq)]
pub struct ResolvedPath {
    pub display: String,
    pub components: Vec<String>,
}

/// View of [`ResolvedPath`].
pub struct ResolvedPathView {
    pub display: Seq<char>,
    pub components: Seq<Seq<char>>,
}

impl DeepView for ResolvedPath {
    type V = ResolvedPathView;

    open spec fn deep_view(&self) -> ResolvedPathView {
        ResolvedPathView {
            display: self.display.deep_view(),
            components: self.components.deep_view(),
        }
    }
}

impl Dup for ResolvedPath {
    fn dup(&self) -> (copy: Self) {
        ResolvedPath {
            display: self.display.dup(),
            components: self.components.dup(),
        }
    }
}

impl Keyed for PhaseValues {
    open spec fn sort_key(value: PhaseValuesView) -> Seq<char> {
        value.phase_key
    }

    fn key_text(&self) -> (key: &str) {
        self.phase_key.as_str()
    }
}

/// The values for the prompts of a phase.
pub open spec fn values_for(p: PreBakedValuesView, phase_key: Seq<char>) -> Option<
    Seq<SubmittedValueView>,
> {
    match lookup::<PhaseValues>(p.phases, phase_key) {
        Some(found) => Some(found.values),
        None => None,
    }
}

/// The values that the members of an object are, in order. What a text parses
/// as is not looked at here.
pub open spec fn member_values(fields: Seq<JsonFieldView>) -> Seq<SubmittedValueView> {
    fields.map_values(
        |f: JsonFieldView| SubmittedValueView { key: f.key, value: f.value, numeric: None },
    )
}

/// The values of every phase, where each member of an object is an object.
pub open spec fn phase_values(fields: Seq<JsonFieldView>) -> Option<Seq<PhaseValuesView>> {
    if forall|i: int| 0 <= i < fields.len() ==> (#[trigger] fields[i]).value is Object {
        Some(
            fields.map_values(
                |f: JsonFieldView|
                    PhaseValuesView {
                        phase_key: f.key,
                        values: member_values(f.value->Object_0),
                    },
            ),
        )
    } else {
        None
    }
}

/// The values that a JSON value holds: an object of phases, each an object of
/// the values of its components.
pub open spec fn values_of_json(json: JsonView) -> Option<PreBakedValuesView> {
    match json {
        JsonView::Object(fields) => match phase_values(fields) {
            Some(phases) => Some(PreBakedValuesView { phases }),
            None => None,
        },
        _ => None,
    }
}

/// The values that a text holds; `None` where it is not JSON of that shape.
pub open spec fn values_of_text(text: Seq<char>) -> Option<PreBakedValuesView> {
    match json_of_text(text) {
        Some(json) => values_of_json(json),
        None => None,
    }
}

fn read_members(fields: &Vec<JsonField>) -> (values: Vec<SubmittedValue>)
    ensures
        values.deep_view() == member_values(fields.deep_view()),
{
    let mut values: Vec<SubmittedValue> = Vec::new();
    let mut i: usize = 0;
    while i < fields.len()
        invariant
            i <= fields@.len(),
            values@.len() == i,
            forall|k: int|
                0 <= k < i ==> (#[trigger] values@[k]).deep_view() == (SubmittedValueView {
                    key: fields@[k].deep_view().key,
                    value: fields@[k].deep_view().value,
                    numeric: None,
                }),
        decreases fields@.len() - i,
    {
        values.push(
            SubmittedValue {
                key: fields[i].key.dup(),
                value: fields[i].value.dup(),
                numeric: None,
            },
        );
        i += 1;
    }
    assert(values.deep_view() =~= member_values(fields.deep_view()));
    values
}

/// Whether a path lies in a directory, name by name.
pub open spec fn lies_in(path: Seq<Seq<char>>, dir: Seq<Seq<char>>) -> bool {
    dir.is_prefix_of(path)
}

fn is_inside(path: &Vec<String>, dir: &Vec<String>) -> (yes: bool)
    ensures
        yes == lies_in(path.deep_view(), dir.deep_view()),
{
    if dir.len() > path.len() {
        return false;
    }
    let mut i: usize = 0;
    while i < dir.len()
        invariant
            i <= dir@.len(),
            dir@.len() <= path@.len(),
            forall|k: int| 0 <= k < i ==> (#[trigger] dir@[k])@ == path@[k]@,
        decreases dir@.len() - i,
    {
        if !text::same(dir[i].as_str(), path[i].as_str()) {
            assert(dir.deep_view()[i as int] != path.deep_view()[i as int]);
            assert(path.deep_view().subrange(0, dir@.len() as int)[i as int]
                == path.deep_view()[i as int]);
            return false;
        }
        i += 1;
    }
    assert(dir.deep_view() =~= path.deep_view().subrange(0, dir@.len() as int));
    true
}

/// Why the file of values is refused before it is read.
pub open spec fn location_fault(
    path: Seq<char>,
    procedure_dir: Seq<char>,
    canonical: Result<ResolvedPathView, Seq<char>>,
    root: Result<ResolvedPathView, Seq<char>>,
) -> Option<Seq<char>> {
    match canonical {
        Err(e) => Some("Failed to resolve "@ + path + ": "@ + e),
        Ok(file) => match root {
            Err(e) => Some("Failed to resolve procedure dir "@ + procedure_dir + ": "@ + e),
            Ok(dir) => if lies_in(file.components, dir.components) {
                None
            } else {
                Some(
                    "--ui-values path "@ + file.display + " must be inside procedure directory "@
                        + dir.display,
                )
            },
        },
    }
}

/// A resolved path by its view.
pub open spec fn path_view(r: Result<ResolvedPath, String>) -> Result<ResolvedPathView, Seq<char>> {
    match r {
        Ok(path) => Ok(path.deep_view()),
        Err(e) => Err(e@),
    }
}

impl PreBakedValues {
    /// No values.
    pub fn none() -> (values: Self)
        ensures
            values.deep_view().phases.len() == 0,
    {
        PreBakedValues { phases: Vec::new() }
    }

    /// The values that a JSON value holds.
    pub fn from_json(json: &Json) -> (values: Option<PreBakedValues>)
        ensures
            values.deep_view() == values_of_json(json.deep_view()),
    {
        let fields = match json {
            Json::Object(fields) => fields,
            _ => {
                return None;
            },
        };
        let ghost seen = json.deep_view()->Object_0;
        assert(seen =~= fields.deep_view());
        let mut phases: Vec<PhaseValues> = Vec::new();
        let mut i: usize = 0;
        while i < fields.len()
            invariant
                i <= fields@.len(),
                seen == fields.deep_view(),
                json.deep_view() == JsonView::Object(seen),
                phases@.len() == i,
                forall|k: int| 0 <= k < i ==> (#[trigger] seen[k]).value is Object,
                forall|k: int|
                    0 <= k < i ==> (#[trigger] phases@[k]).deep_view() == (PhaseValuesView {
                        phase_key: seen[k].key,
                        values: member_values(seen[k].value->Object_0),
                    }),
            decreases fields@.len() - i,
        {
            assert(seen[i as int] == fields@[i as int].deep_view());
            match &fields[i].value {
                Json::Object(members) => {
                    assert(seen[i as int].value->Object_0 =~= members.deep_view());
                    phases.push(
                        PhaseValues {
                            phase_key: fields[i].key.dup(),
                            values: read_members(members),
                        },
                    );
                },
                _ => {
                    assert(!(seen[i as int].value is Object));
                    return None;
                },
            }
            i += 1;
        }
        assert(phases.deep_view() =~= phase_values(seen)->0);
        Some(PreBakedValues { phases })
    }

    /// Reads the values that a text holds: an object of phases, each an object
    /// of the values of its components.
    pub fn parse(text: &str) -> (values: Option<PreBakedValues>)
        ensures
            values.deep_view() == values_of_text(text@),
    {
        match Json::parse(text) {
            Some(json) => PreBakedValues::from_json(&json),
            None => None,
        }
    }

    /// Looks at where the file of values lies: it must be inside the procedure
    /// directory, after links are resolved.
    pub fn check_location(
        path: &str,
        procedure_dir: &str,
        canonical: &Result<ResolvedPath, String>,
        root: &Result<ResolvedPath, String>,
    ) -> (fault: Option<String>)
        ensures
            fault.deep_view() == location_fault(
                path@,
                procedure_dir@,
                path_view(*canonical),
                path_view(*root),
            ),
    {
        let file = match canonical {
            Ok(file) => file,
            Err(e) => {
                let mut s = text::concat3("Failed to resolve ", path, ": ");
                s.append(e.as_str());
                return Some(s);
            },
        };
        let dir = match root {
            Ok(dir) => dir,
            Err(e) => {
                let mut s = text::concat3(
                    "Failed to resolve procedure dir ",
                    procedure_dir,
                    ": ",
                );
                s.append(e.as_str());
                return Some(s);
            },
        };
        if is_inside(&file.components, &dir.components) {
            None
        } else {
            let mut s = text::concat3(
                "--ui-values path ",
                file.display.as_str(),
                " must be inside procedure directory ",
            );
            s.append(dir.display.as_str());
            Some(s)
        }
    }

    /// The values for the prompts of a phase.
    pub fn for_phase(&self, phase_key: &str) -> (values: Option<&Vec<SubmittedValue>>)
        ensures
            values.deep_view() == values_for(self.deep_view(), phase_key@),
    {
        match assoc::get(&self.phases, phase_key) {
            Some(found) => Some(&found.values),
            None => None,
        }
    }
}

} // verus!
