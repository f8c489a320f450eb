//! Which framework a procedure directory is written for.
//!
//! A bundle records the framework in its manifest. A source tree has no
//! manifest; there the files that declare dependencies are searched.

use vstd::prelude::*;
use vstd::string::*;
use crate::dup::{push, Dup};
use crate::json::{json_of_text, member_text, Json, JsonView};
use crate::text;
use crate::text::{lowercase, stands_at};

verus! {

/// The name of the OpenHTF package.
pub const OPENHTF_PACKAGE: &'static str = "openhtf";

/// The name of the Robot Framework package.
pub const ROBOT_PACKAGE: &'static str = "robotframework";

/// Whether a character can stand in the name of a package.
pub open spec fn in_package_name(c: char) -> bool {
    ('a' <= c && c <= 'z') || ('0' <= c && c <= '9') || c == '_' || c == '-'
}

/// Whether a byte can stand in the name of a package.
pub fn is_pkgname_char(b: u8) -> (yes: bool)
    ensures
        yes == in_package_name(b as char),
{
    let c = b as char;
    ('a' <= c && c <= 'z') || ('0' <= c && c <= '9') || c == '_' || c == '-'
}

fn extends_name(c: char) -> (yes: bool)
    ensures
        yes == in_package_name(c),
{
    ('a' <= c && c <= 'z') || ('0' <= c && c <= '9') || c == '_' || c == '-'
}

/// Whether a name stands at an index and is not part of a longer one.
pub open spec fn names_at(s: Seq<char>, name: Seq<char>, i: int) -> bool {
    &&& stands_at(s, name, i)
    &&& i == 0 || !in_package_name(s[i - 1])
    &&& i + name.len() >= s.len() || !in_package_name(s[i + name.len()])
}

/// Whether a text mentions a package by its whole name.
pub open spec fn names_package(s: Seq<char>, name: Seq<char>) -> bool {
    exists|i: int| names_at(s, name, i)
}

fn mentions(s: &str, name: &str) -> (yes: bool)
    ensures
        yes == names_package(s@, name@),
{
    let hay = text::chars_of(s);
    let needle = text::chars_of(name);
    let mut i: usize = 0;
    while i < hay.len()
        invariant
            i <= hay@.len(),
            hay@ == s@,
            needle@ == name@,
            forall|j: int| 0 <= j < i ==> !names_at(s@, name@, j),
        decreases hay@.len() - i,
    {
        if text::stands_at_index(&hay, &needle, i) {
            let free_before = i == 0 || !extends_name(hay[i - 1]);
            let free_after = i + needle.len() >= hay.len() || !extends_name(hay[i + needle.len()]);
            if free_before && free_after {
                assert(names_at(s@, name@, i as int));
                return true;
            }
        }
        i += 1;
    }
    if needle.len() == 0 && text::stands_at_index(&hay, &needle, i) {
        let free_before = i == 0 || !extends_name(hay[i - 1]);
        if free_before {
            assert(names_at(s@, name@, i as int));
            return true;
        }
    }
    assert forall|j: int| !names_at(s@, name@, j) by {}
    false
}

/// Whether a lower-case text requires OpenHTF: mentions it as a package, and
/// not as part of a path or of another name.
pub fn contains_openhtf_requirement(lower: &str) -> (yes: bool)
    ensures
        yes == names_package(lower@, OPENHTF_PACKAGE@),
{
    mentions(lower, OPENHTF_PACKAGE)
}

/// Whether a lower-case text requires Robot Framework.
pub fn contains_robotframework_requirement(lower: &str) -> (yes: bool)
    ensures
        yes == names_package(lower@, ROBOT_PACKAGE@),
{
    mentions(lower, ROBOT_PACKAGE)
}

/// The files that declare dependencies, in the order they are searched.
pub fn dependency_files() -> (names: Vec<String>)
    ensures
        names.deep_view() == seq![
            "pyproject.toml"@,
            "requirements.txt"@,
            "uv.lock"@,
            "pylock.toml"@,
        ],
{
    let mut names: Vec<String> = Vec::new();
    push(&mut names, "pyproject.toml".to_string());
    push(&mut names, "requirements.txt".to_string());
    push(&mut names, "uv.lock".to_string());
    push(&mut names, "pylock.toml".to_string());
    assert(names.deep_view() =~= seq![
        "pyproject.toml"@,
        "requirements.txt"@,
        "uv.lock"@,
        "pylock.toml"@,
    ]);
    names
}

/// Whether a manifest that was parsed records a framework.
pub open spec fn records(manifest: JsonView, framework: Seq<char>) -> bool {
    member_text(manifest, "framework"@) == Some(framework)
}

/// Whether a manifest that was parsed records a framework.
pub fn records_framework(manifest: &Json, framework: &str) -> (yes: bool)
    ensures
        yes == records(manifest.deep_view(), framework@),
{
    match manifest.get_text("framework") {
        Some(name) => text::same(name.as_str(), framework),
        None => false,
    }
}

/// Whether a manifest records a framework.
pub open spec fn manifest_names(manifest: Option<Seq<char>>, framework: Seq<char>) -> bool {
    match manifest {
        Some(content) => match json_of_text(content) {
            Some(value) => records(value, framework),
            None => false,
        },
        None => false,
    }
}

fn manifest_is(manifest: &Option<String>, framework: &str) -> (yes: bool)
    ensures
        yes == manifest_names(manifest.deep_view(), framework@),
{
    match manifest {
        Some(content) => match Json::parse(content.as_str()) {
            Some(value) => records_framework(&value, framework),
            None => false,
        },
        None => false,
    }
}

/// Whether a file that could be read requires a package.
pub open spec fn requires_package(file: Option<Seq<char>>, name: Seq<char>) -> bool {
    match file {
        Some(content) => names_package(lowercase(content), name),
        None => false,
    }
}

/// Whether any of the files requires a package.
pub open spec fn any_requires(files: Seq<Option<Seq<char>>>, name: Seq<char>) -> bool {
    exists|i: int| 0 <= i < files.len() && requires_package(#[trigger] files[i], name)
}

fn some_file_requires(files: &Vec<Option<String>>, name: &str) -> (yes: bool)
    ensures
        yes == any_requires(files.deep_view(), name@),
{
    let mut i: usize = 0;
    while i < files.len()
        invariant
            i <= files@.len(),
            forall|k: int|
                0 <= k < i ==> !requires_package(#[trigger] files.deep_view()[k], name@),
        decreases files@.len() - i,
    {
        assert(files.deep_view()[i as int] == files@[i as int].deep_view());
        match &files[i] {
            Some(content) => {
                let lower = text::to_lowercase(content.as_str());
                if mentions(lower.as_str(), name) {
                    return true;
                }
            },
            None => {},
        }
        i += 1;
    }
    false
}

/// Whether a directory is written for OpenHTF, by the contents of its manifest
/// and of the files that declare dependencies, each where it could be read.
pub fn has_openhtf(manifest: &Option<String>, files: &Vec<Option<String>>) -> (yes: bool)
    ensures
        yes == (manifest_names(manifest.deep_view(), "openhtf"@) || any_requires(
            files.deep_view(),
            OPENHTF_PACKAGE@,
        )),
{
    manifest_is(manifest, "openhtf") || some_file_requires(files, OPENHTF_PACKAGE)
}

/// Whether a file is a Robot Framework suite.
pub open spec fn is_robot_file(name: Seq<char>) -> bool {
    ".robot"@.is_suffix_of(name)
}

/// Whether any of the names is that of a Robot Framework suite.
pub open spec fn any_robot_file(names: Seq<Seq<char>>) -> bool {
    exists|i: int| 0 <= i < names.len() && is_robot_file(#[trigger] names[i])
}

/// Whether any of the file names of a directory is that of a Robot Framework
/// suite.
pub fn has_robot_file(names: &Vec<String>) -> (yes: bool)
    ensures
        yes == any_robot_file(names.deep_view()),
{
    let mut i: usize = 0;
    while i < names.len()
        invariant
            i <= names@.len(),
            forall|k: int| 0 <= k < i ==> !is_robot_file(#[trigger] names.deep_view()[k]),
        decreases names@.len() - i,
    {
        assert(names.deep_view()[i as int] == names@[i as int]@);
        if text::ends_with(names[i].as_str(), ".robot") {
            return true;
        }
        i += 1;
    }
    false
}

/// Whether a directory is written for Robot Framework, by its manifest, its
/// dependencies or the names of its files.
pub fn has_robot(
    manifest: &Option<String>,
    files: &Vec<Option<String>>,
    names: &Vec<String>,
) -> (yes: bool)
    ensures
        yes == (manifest_names(manifest.deep_view(), "robot"@) || any_requires(
            files.deep_view(),
            ROBOT_PACKAGE@,
        ) || any_robot_file(names.deep_view())),
{
    manifest_is(manifest, "robot") || some_file_requires(files, ROBOT_PACKAGE) || has_robot_file(
        names,
    )
}

// ---------------------------------------------------------------------------
// Laws
// ---------------------------------------------------------------------------

/// A package name that a character of a longer name follows or precedes
/// everywhere is not a requirement.
pub proof fn law_longer_names_do_not_count(s: Seq<char>, name: Seq<char>)
    requires
        name.len() > 0,
        forall|i: int|
            #[trigger] stands_at(s, name, i) ==> (i > 0 && in_package_name(s[i - 1])) || (i
                + name.len() < s.len() && in_package_name(s[i + name.len()])),
    ensures
        !names_package(s, name),
{
}

/// A package is required by its name alone: what stands before and behind it is
/// not a lower-case letter, a digit, an underscore or a hyphen.
pub proof fn law_packages_are_named(before: Seq<char>, name: Seq<char>, after: Seq<char>)
    requires
        name.len() > 0,
    ensures
        (before.len() == 0 || !goes_on(before.last())) && (after.len() == 0 || !goes_on(after[0]))
            ==> names_package(before + name + after, name),
        names_package(before, name) ==> exists|i: int|
            0 <= i <= before.len() - name.len() && #[trigger] before.subrange(i, i + name.len())
                == name && (i == 0 || !goes_on(before[i - 1])) && (i + name.len() == before.len()
                || !goes_on(before[i + name.len()])),
{
    let s = before + name + after;
    let at = before.len() as int;
    assert(s.subrange(at, at + name.len()) =~= name);
    assert(stands_at(s, name, at));
    if (before.len() == 0 || !goes_on(before.last())) && (after.len() == 0 || !goes_on(after[0])) {
        assert(names_at(s, name, at));
    }
    if names_package(before, name) {
        let i = choose|i: int| names_at(before, name, i);
        assert(before.subrange(i, i + name.len()) == name);
    }
}

/// Whether a character goes on with the name of a package.
pub open spec fn goes_on(c: char) -> bool {
    c == '_' || c == '-' || 'a' <= c <= 'z' || '0' <= c <= '9'
}

/// A file of the deployment records its framework under `framework`; a text
/// that is not JSON records none.
pub proof fn law_frameworks_are_recorded(content: Seq<char>, framework: Seq<char>)
    ensures
        manifest_names(Some(content), framework) <==> json_of_text(content) is Some
            && crate::json::json_member(json_of_text(content)->0, "framework"@) == Some(
            JsonView::Text(framework),
        ),
        !manifest_names(None, framework),
{
}

/// A project requires a package where one of its files does, in whatever case;
/// a file that could not be read requires nothing.
pub proof fn law_any_file_requires(files: Seq<Option<Seq<char>>>, name: Seq<char>)
    ensures
        any_requires(files, name) <==> exists|i: int|
            0 <= i < files.len() && (#[trigger] files[i]) is Some && names_package(
                lowercase(files[i]->0),
                name,
            ),
{
    if any_requires(files, name) {
        let i = choose|i: int| 0 <= i < files.len() && requires_package(#[trigger] files[i], name);
        assert(files[i] is Some);
    }
    if exists|i: int|
        0 <= i < files.len() && (#[trigger] files[i]) is Some && names_package(
            lowercase(files[i]->0),
            name,
        ) {
        let i = choose|i: int|
            0 <= i < files.len() && (#[trigger] files[i]) is Some && names_package(
                lowercase(files[i]->0),
                name,
            );
        assert(requires_package(files[i], name));
    }
}

/// A suite of Robot Framework is known by the end of its name.
pub proof fn law_robot_suites(names: Seq<Seq<char>>, stem: Seq<char>)
    ensures
        is_robot_file(stem + ".robot"@),
        any_robot_file(names) <==> exists|i: int|
            0 <= i < names.len() && ".robot"@.is_suffix_of(#[trigger] names[i]),
{
    assert(".robot"@.is_suffix_of(stem + ".robot"@)) by {
        let s = stem + ".robot"@;
        let w = ".robot"@;
        assert(s.subrange(s.len() - w.len(), s.len() as int) =~= w);
    }
    if any_robot_file(names) {
        let i = choose|i: int| 0 <= i < names.len() && is_robot_file(#[trigger] names[i]);
        assert(".robot"@.is_suffix_of(names[i]));
    }
    if exists|i: int| 0 <= i < names.len() && ".robot"@.is_suffix_of(#[trigger] names[i]) {
        let i = choose|i: int| 0 <= i < names.len() && ".robot"@.is_suffix_of(#[trigger] names[i]);
        assert(is_robot_file(names[i]));
    }
}

} // verus!
