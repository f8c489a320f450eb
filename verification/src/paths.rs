//! Paths as far as the logic builds them: a directory and the names below it.
//!
//! How the names are joined is the platform's to say, so they are kept apart.

use vstd::prelude::*;
use vstd::string::*;
use crate::dup::{push, Dup};
use crate::text;

verus! {

/// A path: a directory that the platform gave, and the names below it.
#[derive(Debug, PartialEq, Eq)]
pub struct PathParts {
    pub base: String,
    pub parts: Vec<String>,
}

/// View of [`PathParts`].
pub struct PathPartsView {
    pub base: Seq<char>,
    pub parts: Seq<Seq<char>>,
}

impl DeepView for PathParts {
    type V = PathPartsView;

    open spec fn deep_view(&self) -> PathPartsView {
        PathPartsView { base: self.base@, parts: self.parts.deep_view() }
    }
}

impl Dup for PathParts {
    fn dup(&self) -> (copy: Self) {
        PathParts { base: self.base.dup(), parts: self.parts.dup() }
    }
}

/// The directory itself.
pub open spec fn path_of(base: Seq<char>) -> PathPartsView {
    PathPartsView { base, parts: Seq::empty() }
}

/// A name below a path.
pub open spec fn under(path: PathPartsView, name: Seq<char>) -> PathPartsView {
    PathPartsView { parts: path.parts.push(name), ..path }
}

impl PathParts {
    /// The directory itself.
    pub fn new(base: &str) -> (path: Self)
        ensures
            path.deep_view() == path_of(base@),
    {
        let path = PathParts { base: base.to_string(), parts: Vec::new() };
        assert(path.parts.deep_view() =~= Seq::empty());
        path
    }

    /// A name below the path.
    pub fn join(&self, name: &str) -> (path: Self)
        ensures
            path.deep_view() == under(self.deep_view(), name@),
    {
        let mut path = self.dup();
        push(&mut path.parts, name.to_string());
        path
    }
}

// ---------------------------------------------------------------------------
// Names in a path
// ---------------------------------------------------------------------------

/// Whether a character parts the names of a path.
pub open spec fn is_separator(c: char, windows: bool) -> bool {
    c == '/' || (windows && c == '\\')
}

/// Where the last name of a path begins: behind the last separator.
pub open spec fn last_name_start(path: Seq<char>, windows: bool) -> nat
    decreases path.len(),
{
    if path.len() == 0 {
        0
    } else if is_separator(path.last(), windows) {
        path.len()
    } else {
        last_name_start(path.drop_last(), windows)
    }
}

/// The last name of a path. A path that ends in a separator or in a dot is
/// that of what comes before it; one that goes up has none.
pub open spec fn name_of(path: Seq<char>, windows: bool) -> Option<Seq<char>>
    decreases path.len(),
{
    let start = last_name_start(path, windows);
    let name = path.skip(start as int);
    if name.len() == 0 || name == seq!['.'] {
        if 0 < start <= path.len() {
            name_of(path.take(start - 1), windows)
        } else {
            None
        }
    } else if name == seq!['.', '.'] {
        None
    } else {
        Some(name)
    }
}

/// The last name of a path.
pub fn file_name(path: &str, windows: bool) -> (name: Option<String>)
    ensures
        name.deep_view() == name_of(path@, windows),
{
    let chars = text::chars_of(path);
    let mut end: usize = chars.len();
    assert(chars@.take(chars@.len() as int) =~= chars@);
    loop
        invariant
            end <= chars@.len(),
            name_of(path@, windows) == name_of(chars@.take(end as int), windows),
        decreases end,
    {
        let ghost now = chars@.take(end as int);
        let mut start: usize = end;
        assert(now.take(end as int) =~= now);
        while start > 0 && !(chars[start - 1] == '/' || (windows && chars[start - 1] == '\\'))
            invariant
                start <= end <= chars@.len(),
                now == chars@.take(end as int),
                last_name_start(now, windows) == last_name_start(now.take(start as int), windows),
            decreases start,
        {
            assert(now.take(start as int).drop_last() =~= now.take(start - 1));
            start -= 1;
        }
        assert(last_name_start(now, windows) == start) by {
            if start > 0 {
                assert(now.take(start as int).last() == chars@[start - 1]);
            }
        }
        let ghost name = now.skip(start as int);
        assert(name =~= chars@.subrange(start as int, end as int));
        if end == start || (end - start == 1 && chars[start] == '.') {
            assert(name.len() == 0 || name =~= seq!['.']);
            if start == 0 {
                return None;
            }
            assert(now.take(start - 1) =~= chars@.take(start - 1));
            end = start - 1;
        } else {
            assert(name != seq!['.']) by {
                if name.len() == 1 {
                    assert(name[0] == chars@[start as int]);
                    assert(seq!['.'][0] == '.');
                }
            }
            if end - start == 2 && chars[start] == '.' && chars[start + 1] == '.' {
                assert(name =~= seq!['.', '.']);
                return None;
            }
            assert(name != seq!['.', '.']) by {
                if name.len() == 2 {
                    assert(name[0] == chars@[start as int]);
                    assert(name[1] == chars@[start + 1]);
                    assert(seq!['.', '.'][0] == '.');
                    assert(seq!['.', '.'][1] == '.');
                }
            }
            return Some(text::string_between(&chars, start, end));
        }
    }
}

/// Where the last dot of a name stands; its length where there is none.
pub open spec fn last_dot(name: Seq<char>) -> nat
    decreases name.len(),
{
    if name.len() == 0 {
        0
    } else if name.last() == '.' {
        (name.len() - 1) as nat
    } else if last_dot(name.drop_last()) == name.len() - 1 {
        name.len()
    } else {
        last_dot(name.drop_last())
    }
}

/// What follows the last dot of a name; none where it has no dot but a
/// leading one.
pub open spec fn extension_of(name: Seq<char>) -> Option<Seq<char>> {
    let dot = last_dot(name);
    if 0 < dot < name.len() {
        Some(name.skip(dot as int + 1))
    } else {
        None
    }
}

/// What follows the last dot of a name.
pub fn extension(name: &str) -> (ext: Option<String>)
    ensures
        ext.deep_view() == extension_of(name@),
{
    let chars = text::chars_of(name);
    let mut dot: usize = chars.len();
    let mut i: usize = 0;
    assert(chars@.take(0) =~= Seq::empty());
    let mut found = false;
    while i < chars.len()
        invariant
            i <= chars@.len(),
            found ==> dot < i && last_dot(chars@.take(i as int)) == dot,
            !found ==> dot == chars@.len() && last_dot(chars@.take(i as int)) == i,
        decreases chars@.len() - i,
    {
        assert(chars@.take(i + 1).drop_last() =~= chars@.take(i as int));
        if chars[i] == '.' {
            dot = i;
            found = true;
        }
        i += 1;
    }
    assert(chars@.take(chars@.len() as int) =~= chars@);
    if found && dot > 0 {
        let ext = text::string_between(&chars, dot + 1, chars.len());
        assert(chars@.subrange(dot + 1, chars@.len() as int) =~= chars@.skip(dot + 1));
        Some(ext)
    } else {
        None
    }
}

} // verus!
