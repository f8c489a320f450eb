//! The version of the procedure that a run records.
//!
//! A procedure file declares its own. The Python frameworks have none and take
//! that of the Python project.

use vstd::prelude::*;
use vstd::string::*;
use crate::dup::Dup;
use crate::json::{json_member, json_of_toml, member_text, Json, JsonView};
use crate::text;
use crate::text::trimmed;

verus! {

/// A version without the blanks around it; none where it is blank.
pub open spec fn cleaned(version: Seq<char>) -> Option<Seq<char>> {
    if trimmed(version).len() > 0 {
        Some(trimmed(version))
    } else {
        None
    }
}

fn clean(version: &str) -> (out: Option<String>)
    ensures
        out.deep_view() == cleaned(version@),
{
    let kept = text::trim(version);
    if kept.as_str().is_empty() {
        None
    } else {
        Some(kept)
    }
}

/// The version that a procedure file declares, where it can be loaded.
pub fn read_yaml_version(declared: &Option<String>) -> (version: Option<String>)
    ensures
        version.deep_view() == (match declared.deep_view() {
            Some(v) => cleaned(v),
            None => None,
        }),
{
    match declared {
        Some(v) => clean(v.as_str()),
        None => None,
    }
}

/// A text two tables deep.
pub open spec fn text_at(value: JsonView, table: Seq<char>, key: Seq<char>) -> Option<Seq<char>> {
    match json_member(value, table) {
        Some(inner) => member_text(inner, key),
        None => None,
    }
}

/// The version that a project file declares: the standard one, or that of
/// Poetry.
pub open spec fn project_version(value: JsonView) -> Option<Seq<char>> {
    let standard = text_at(value, "project"@, "version"@);
    let poetry = match json_member(value, "tool"@) {
        Some(tool) => text_at(tool, "poetry"@, "version"@),
        None => None,
    };
    let found = if standard is Some {
        standard
    } else {
        poetry
    };
    match found {
        Some(v) => cleaned(v),
        None => None,
    }
}

/// A text two tables deep.
pub fn read_text_at<'a>(value: &'a Json, table: &str, key: &str) -> (out: Option<&'a String>)
    ensures
        out.deep_view() == text_at(value.deep_view(), table@, key@),
{
    match value.get(table) {
        Some(inner) => inner.get_text(key),
        None => None,
    }
}

/// Reads the version out of a project file that was parsed.
pub fn version_of_project(value: &Json) -> (version: Option<String>)
    ensures
        version.deep_view() == project_version(value.deep_view()),
{
    match read_text_at(value, "project", "version") {
        Some(v) => {
            return clean(v.as_str());
        },
        None => {},
    }
    match value.get("tool") {
        Some(tool) => match read_text_at(tool, "poetry", "version") {
            Some(v) => clean(v.as_str()),
            None => None,
        },
        None => None,
    }
}

/// The version that the project file of a directory declares, by its contents
/// where it could be read.
pub fn read_pyproject_version(content: &Option<String>) -> (version: Option<String>)
    ensures
        version.deep_view() == (match content.deep_view() {
            Some(text) => match json_of_toml(text) {
                Some(value) => project_version(value),
                None => None,
            },
            None => None,
        }),
{
    match content {
        Some(text) => match Json::parse_toml(text.as_str()) {
            Some(value) => version_of_project(&value),
            None => None,
        },
        None => None,
    }
}

/// A recorded version is never blank.
pub proof fn law_versions_are_not_blank(value: JsonView)
    ensures
        project_version(value) matches Some(v) ==> v.len() > 0,
{
}

} // verus!
