//! The source file of an uploaded log line. The server takes names of one to
//! two hundred characters, so paths are shortened to what a reader needs.

use vstd::prelude::*;
use crate::text;
use crate::text::{drop_end_while, one_of, skip_while, trimmed};

verus! {

/// Longest source file name, in characters.
pub const MAX_LEN: usize = 200;

/// The prefix that Windows puts before long paths.
pub const LONG_PATH_PREFIX: &'static str = r"\\?\";

/// The characters that separate the parts of a path.
pub open spec fn separators() -> Seq<char> {
    seq!['/', '\\']
}

/// A path without the prefix for long paths.
pub open spec fn without_long_prefix(path: Seq<char>) -> Seq<char> {
    if LONG_PATH_PREFIX@.is_prefix_of(path) {
        path.skip(LONG_PATH_PREFIX@.len() as int)
    } else {
        path
    }
}

/// Whether a path lies inside a directory, or is that directory: a directory
/// whose name only begins with the same characters is another one. The
/// directory stands without separators at its end.
pub open spec fn lies_inside(path: Seq<char>, base: Seq<char>) -> bool {
    &&& base.len() > 0
    &&& base.is_prefix_of(path)
    &&& path.len() == base.len() || separators().contains(path[base.len() as int])
}

/// A path relative to a directory where it lies inside, and as it is where it
/// does not.
pub open spec fn relative_to(path: Seq<char>, dir: Seq<char>) -> Seq<char> {
    let base = drop_end_while(dir, one_of(separators()));
    if lies_inside(path, base) {
        skip_while(path.skip(base.len() as int), one_of(separators()))
    } else {
        path
    }
}

/// The last `n` characters of a text, or all where there are fewer.
pub open spec fn tail(s: Seq<char>, n: nat) -> Seq<char> {
    if s.len() <= n {
        s
    } else {
        s.skip(s.len() - n)
    }
}

/// The source file name of a raw path: without the prefix for long paths,
/// relative to the procedure where it lies inside, without white space
/// around it, `unknown` where nothing is left, and cut to its tail.
pub open spec fn source_name(raw: Seq<char>, procedure_dir: Seq<char>) -> Seq<char> {
    let name = trimmed(
        relative_to(without_long_prefix(raw), without_long_prefix(procedure_dir)),
    );
    if name.len() == 0 {
        "unknown"@
    } else {
        tail(name, MAX_LEN as nat)
    }
}

fn strip_long_prefix(path: &str) -> (out: String)
    ensures
        out@ == without_long_prefix(path@),
{
    if text::starts_with(path, LONG_PATH_PREFIX) {
        let chars = text::chars_of(path);
        let prefix = text::chars_of(LONG_PATH_PREFIX);
        text::string_between(&chars, prefix.len(), chars.len())
    } else {
        path.to_string()
    }
}

fn is_inside(path: &str, base: &str) -> (b: bool)
    ensures
        b == lies_inside(path@, base@),
{
    if base.is_empty() || !text::starts_with(path, base) {
        return false;
    }
    let chars = text::chars_of(path);
    let skipped = text::chars_of(base);
    if chars.len() == skipped.len() {
        return true;
    }
    let next = chars[skipped.len()];
    proof {
        assert(separators()[0] == '/');
        assert(separators()[1] == '\\');
    }
    next == '/' || next == '\\'
}

fn relativize(path: &str, dir: &str) -> (out: String)
    ensures
        out@ == relative_to(path@, dir@),
{
    let set: [char; 2] = ['/', '\\'];
    assert(set@ =~= separators());
    let base = text::trim_end_matches(dir, set.as_slice());
    if is_inside(path, base.as_str()) {
        let chars = text::chars_of(path);
        let skipped = text::chars_of(base.as_str());
        let rest = text::string_between(&chars, skipped.len(), chars.len());
        text::trim_start_matches(rest.as_str(), set.as_slice())
    } else {
        path.to_string()
    }
}

/// The source file name of a raw path.
pub fn sanitize_source_file(raw: &str, procedure_dir: &str) -> (name: String)
    ensures
        name@ == source_name(raw@, procedure_dir@),
{
    let stripped = strip_long_prefix(raw);
    let dir = strip_long_prefix(procedure_dir);
    let working = relativize(stripped.as_str(), dir.as_str());
    let name = text::trim(working.as_str());
    if name.as_str().is_empty() {
        return "unknown".to_string();
    }
    let chars = text::chars_of(name.as_str());
    if chars.len() <= MAX_LEN {
        return name;
    }
    text::string_between(&chars, chars.len() - MAX_LEN, chars.len())
}

/// A source file name always has one to [`MAX_LEN`] characters.
pub proof fn law_source_name_length(raw: Seq<char>, procedure_dir: Seq<char>)
    ensures
        1 <= source_name(raw, procedure_dir).len() <= MAX_LEN,
{
    reveal_strlit("unknown");
}

/// A long source file name keeps its end.
pub proof fn law_source_name_keeps_tail(raw: Seq<char>, procedure_dir: Seq<char>)
    ensures
        ({
            let name = trimmed(
                relative_to(without_long_prefix(raw), without_long_prefix(procedure_dir)),
            );
            name.len() > 0 ==> source_name(raw, procedure_dir).is_suffix_of(name)
        }),
{
}

/// A path outside the procedure keeps its whole name: only white space around
/// it is left out, and what is beyond the longest name.
pub proof fn law_outside_paths_stay_whole(raw: Seq<char>, procedure_dir: Seq<char>)
    requires
        !lies_inside(
            without_long_prefix(raw),
            drop_end_while(without_long_prefix(procedure_dir), one_of(separators())),
        ),
        trimmed(without_long_prefix(raw)).len() > 0,
    ensures
        source_name(raw, procedure_dir) == tail(
            trimmed(without_long_prefix(raw)),
            MAX_LEN as nat,
        ),
{
}

/// Whether a character separates the parts of a path.
pub open spec fn separates(c: char) -> bool {
    c == '/' || c == '\\'
}

/// Whether a text begins as Windows begins long paths.
pub open spec fn begins_long(path: Seq<char>) -> bool {
    &&& path.len() >= 4
    &&& path[0] == '\\'
    &&& path[1] == '\\'
    &&& path[2] == '?'
    &&& path[3] == '\\'
}

proof fn lemma_long_prefix(path: Seq<char>)
    ensures
        begins_long(path) ==> without_long_prefix(path) == path.skip(4),
        !begins_long(path) ==> without_long_prefix(path) == path,
{
    reveal_strlit(r"\\?\");
    let p = LONG_PATH_PREFIX@;
    assert(p.len() == 4);
    assert(p[0] == '\\' && p[1] == '\\' && p[2] == '?' && p[3] == '\\');
    if begins_long(path) {
        assert(path.subrange(0, 4) =~= p);
    }
    if p.is_prefix_of(path) {
        assert(path.subrange(0, 4) =~= p);
        assert(path.subrange(0, 4)[0] == path[0] && path.subrange(0, 4)[1] == path[1]
            && path.subrange(0, 4)[2] == path[2] && path.subrange(0, 4)[3] == path[3]);
    }
}

/// The beginning of long paths on Windows does not count, neither of a path nor
/// of the procedure.
pub proof fn law_long_paths_are_paths(raw: Seq<char>, procedure_dir: Seq<char>)
    requires
        !begins_long(raw),
        !begins_long(procedure_dir),
    ensures
        source_name(seq!['\\', '\\', '?', '\\'] + raw, procedure_dir) == source_name(
            raw,
            procedure_dir,
        ),
        source_name(raw, seq!['\\', '\\', '?', '\\'] + procedure_dir) == source_name(
            raw,
            procedure_dir,
        ),
{
    let long = seq!['\\', '\\', '?', '\\'];
    lemma_long_prefix(raw);
    lemma_long_prefix(procedure_dir);
    lemma_long_prefix(long + raw);
    lemma_long_prefix(long + procedure_dir);
    assert((long + raw).skip(4) =~= raw);
    assert((long + procedure_dir).skip(4) =~= procedure_dir);
}

/// Whether a name is a text without the white space around it, the last two
/// hundred characters of it where it is longer, and `unknown` where nothing is
/// left.
pub open spec fn names(name: Seq<char>, text: Seq<char>) -> bool {
    let kept = trimmed(text);
    &&& kept.len() == 0 ==> name == "unknown"@
    &&& 0 < kept.len() <= 200 ==> name == kept
    &&& kept.len() > 200 ==> name == kept.skip(kept.len() - 200)
}

proof fn lemma_base(dir: Seq<char>)
    ensures
        ({
            let base = drop_end_while(dir, one_of(separators()));
            &&& base.len() <= dir.len()
            &&& base == dir.take(base.len() as int)
            &&& forall|i: int| base.len() <= i < dir.len() ==> separates(#[trigger] dir[i])
            &&& base.len() > 0 ==> !separates(base.last())
        }),
{
    let p = one_of(separators());
    crate::text_laws::law_dropping(dir, p);
    let base = drop_end_while(dir, p);
    assert(separators()[0] == '/' && separators()[1] == '\\');
    assert forall|i: int| base.len() <= i < dir.len() implies separates(#[trigger] dir[i]) by {
        assert(dir.skip(base.len() as int)[i - base.len()] == dir[i]);
        assert(p(dir.skip(base.len() as int)[i - base.len()]));
        let k = choose|k: int| 0 <= k < separators().len() && separators()[k] == dir[i];
        assert(k == 0 || k == 1);
    }
    if base.len() > 0 {
        assert(!p(base.last()));
        if separates(base.last()) {
            assert(separators().contains(base.last()));
        }
    }
}

/// A path inside the procedure is named relative to it, whatever separators
/// end the procedure or stand between.
pub proof fn law_inside_paths_are_relative(
    dir: Seq<char>,
    ending: Seq<char>,
    between: Seq<char>,
    rest: Seq<char>,
)
    requires
        dir.len() > 0,
        !separates(dir.last()),
        !begins_long(dir + ending),
        !begins_long(dir + between + rest),
        forall|i: int| 0 <= i < ending.len() ==> separates(#[trigger] ending[i]),
        forall|i: int| 0 <= i < between.len() ==> separates(#[trigger] between[i]),
        between.len() > 0 || rest.len() == 0,
        rest.len() > 0 ==> !separates(rest[0]),
    ensures
        names(source_name(dir + between + rest, dir + ending), rest),
{
    let raw = dir + between + rest;
    let at = dir + ending;
    let p = one_of(separators());
    lemma_long_prefix(raw);
    lemma_long_prefix(at);
    lemma_base(at);
    let base = drop_end_while(at, p);
    assert(separators()[0] == '/' && separators()[1] == '\\');
    assert(base.len() == dir.len()) by {
        if base.len() < dir.len() {
            assert(at[dir.len() - 1] == dir.last());
            assert(separates(at[dir.len() - 1]));
        }
        if base.len() > dir.len() {
            assert(base.last() == at[base.len() - 1]);
            assert(at[base.len() - 1] == ending[base.len() - 1 - dir.len()]);
        }
    }
    assert(base =~= dir);
    assert(base.is_prefix_of(raw)) by {
        assert(raw.subrange(0, base.len() as int) =~= base);
    }
    if raw.len() > base.len() {
        assert(raw[base.len() as int] == between[0]);
        assert(separators().contains(raw[base.len() as int]));
    }
    assert(lies_inside(raw, base));
    let left = raw.skip(base.len() as int);
    assert(left =~= between + rest);
    crate::text_laws::law_skipping(left, p);
    let kept = skip_while(left, p);
    assert(kept =~= rest) by {
        let n = left.len() - kept.len();
        if n < between.len() {
            assert(kept[0] == left[n]);
            assert(left[n] == between[n]);
            assert(separators().contains(left[n]));
        }
        if n > between.len() {
            assert(left[between.len() as int] == rest[0]);
            assert(left.take(n)[between.len() as int] == rest[0]);
            assert(p(left.take(n)[between.len() as int]));
            let k = choose|k: int| 0 <= k < separators().len() && separators()[k] == rest[0];
            assert(k == 0 || k == 1);
        }
    }
}

/// A path that does not begin with the procedure, or goes on with another name
/// where the procedure ends, is named as it is.
pub proof fn law_outside_paths_are_kept(raw: Seq<char>, dir: Seq<char>)
    requires
        !begins_long(raw),
        !begins_long(dir),
        dir.len() > 0 ==> !separates(dir.last()),
        dir.len() == 0 || raw.len() < dir.len() || raw.take(dir.len() as int) != dir || (raw.len()
            > dir.len() && !separates(raw[dir.len() as int])),
    ensures
        names(source_name(raw, dir), raw),
{
    lemma_long_prefix(raw);
    lemma_long_prefix(dir);
    lemma_base(dir);
    let base = drop_end_while(dir, one_of(separators()));
    assert(base =~= dir) by {
        if base.len() < dir.len() {
            assert(separates(dir[dir.len() - 1]));
        }
    }
    assert(separators()[0] == '/' && separators()[1] == '\\');
    if lies_inside(raw, base) {
        assert(raw.take(dir.len() as int) =~= raw.subrange(0, dir.len() as int));
        if raw.len() > dir.len() {
            let c = raw[dir.len() as int];
            let k = choose|k: int| 0 <= k < separators().len() && separators()[k] == c;
            assert(k == 0 || k == 1);
        }
    }
}

} // verus!
