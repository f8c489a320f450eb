//! Text helpers over the `Seq<char>` view of strings.

use vstd::prelude::*;
use vstd::string::*;
use vstd::utf8::*;

verus! {

// ---------------------------------------------------------------------------
// Equality and conversion
// ---------------------------------------------------------------------------

/// Whether two strings hold the same characters.
pub fn same(a: &str, b: &str) -> (equal: bool)
    ensures
        equal == (a@ == b@),
{
    let x = a.as_bytes();
    let y = b.as_bytes();
    proof {
        encode_utf8_decode_utf8(a@);
        encode_utf8_decode_utf8(b@);
    }
    if x.len() != y.len() {
        return false;
    }
    let mut i: usize = 0;
    while i < x.len()
        invariant
            i <= x.len(),
            x.len() == y.len(),
            x@ == encode_utf8(a@),
            y@ == encode_utf8(b@),
            forall|k: int| 0 <= k < i ==> x@[k] == y@[k],
        decreases x.len() - i,
    {
        if x[i] != y[i] {
            return false;
        }
        i += 1;
    }
    assert(x@ =~= y@);
    true
}

/// Whether two optional strings are both absent or hold the same characters.
pub fn same_option(a: &Option<String>, b: &Option<String>) -> (equal: bool)
    ensures
        equal == (a.deep_view() == b.deep_view()),
{
    match (a, b) {
        (None, None) => true,
        (Some(x), Some(y)) => same(x.as_str(), y.as_str()),
        _ => false,
    }
}

/// The characters of a string, in order.
pub fn chars_of(s: &str) -> (chars: Vec<char>)
    ensures
        chars@ == s@,
{
    let mut chars: Vec<char> = Vec::new();
    for c in it: s.chars()
        invariant
            chars@ == s@.take(it.index()),
            it.seq() == s@,
    {
        chars.push(c);
    }
    chars
}

/// Collects characters into a string.
///
/// Trusted: `String::from_iter` keeps every character, in order.
#[verifier::external_body]
pub(crate) fn string_of(chars: &Vec<char>) -> (s: String)
    ensures
        s@ == chars@,
{
    String::from_iter(chars)
}

/// The characters `from..to` of `chars` as a string.
pub fn string_between(chars: &Vec<char>, from: usize, to: usize) -> (s: String)
    requires
        from <= to <= chars@.len(),
    ensures
        s@ == chars@.subrange(from as int, to as int),
{
    let mut part: Vec<char> = Vec::new();
    let mut i: usize = from;
    while i < to
        invariant
            from <= i <= to <= chars@.len(),
            part@ == chars@.subrange(from as int, i as int),
        decreases to - i,
    {
        part.push(chars[i]);
        i += 1;
    }
    string_of(&part)
}

/// One string after another.
pub fn concat2(a: &str, b: &str) -> (s: String)
    ensures
        s@ == a@ + b@,
{
    let mut s = a.to_string();
    s.append(b);
    s
}

/// Three strings in a row.
pub fn concat3(a: &str, b: &str, c: &str) -> (s: String)
    ensures
        s@ == a@ + b@ + c@,
{
    let mut s = a.to_string();
    s.append(b);
    s.append(c);
    s
}

// ---------------------------------------------------------------------------
// Trimming
// ---------------------------------------------------------------------------

/// The characters that have the White_Space property of Unicode.
pub open spec fn whitespace(c: char) -> bool {
    ||| '\u{9}' <= c <= '\u{d}'
    ||| c == ' '
    ||| c == '\u{85}'
    ||| c == '\u{a0}'
    ||| c == '\u{1680}'
    ||| '\u{2000}' <= c <= '\u{200a}'
    ||| c == '\u{2028}'
    ||| c == '\u{2029}'
    ||| c == '\u{202f}'
    ||| c == '\u{205f}'
    ||| c == '\u{3000}'
}

/// Whether a character is white space.
///
/// Trusted: `char::is_whitespace` holds of the characters with the White_Space
/// property, which Unicode gives to those of [`whitespace`].
#[verifier::external_body]
pub(crate) fn is_whitespace(c: char) -> (yes: bool)
    ensures
        yes == whitespace(c),
{
    c.is_whitespace()
}

/// `s` without its leading characters that satisfy `p`.
pub open spec fn skip_while(s: Seq<char>, p: spec_fn(char) -> bool) -> Seq<char>
    decreases s.len(),
{
    if s.len() > 0 && p(s[0]) {
        skip_while(s.drop_first(), p)
    } else {
        s
    }
}

/// `s` without its trailing characters that satisfy `p`.
pub open spec fn drop_end_while(s: Seq<char>, p: spec_fn(char) -> bool) -> Seq<char>
    decreases s.len(),
{
    if s.len() > 0 && p(s.last()) {
        drop_end_while(s.drop_last(), p)
    } else {
        s
    }
}

/// The white-space predicate as a value.
pub open spec fn is_space() -> spec_fn(char) -> bool {
    |c: char| whitespace(c)
}

/// Membership in a list of characters as a value.
pub open spec fn one_of(set: Seq<char>) -> spec_fn(char) -> bool {
    |c: char| set.contains(c)
}

/// `s` without leading and trailing white space.
pub open spec fn trimmed(s: Seq<char>) -> Seq<char> {
    drop_end_while(skip_while(s, is_space()), is_space())
}

proof fn lemma_drop_end_step(s: Seq<char>, start: int, end: int, p: spec_fn(char) -> bool)
    requires
        0 <= start <= end <= s.len(),
        end > start ==> !p(s[end - 1]),
    ensures
        drop_end_while(s.subrange(start, end), p) == s.subrange(start, end),
{
}

/// Whether `set` holds `c`.
pub fn char_in(set: &[char], c: char) -> (found: bool)
    ensures
        found == set@.contains(c),
{
    let mut i: usize = 0;
    while i < set.len()
        invariant
            i <= set@.len(),
            forall|k: int| 0 <= k < i ==> set@[k] != c,
        decreases set@.len() - i,
    {
        if set[i] == c {
            assert(set@.contains(set@[i as int]));
            return true;
        }
        i += 1;
    }
    false
}

/// `s` without leading and trailing white space.
pub fn trim(s: &str) -> (r: String)
    ensures
        r@ == trimmed(s@),
{
    let chars = chars_of(s);
    let mut start: usize = 0;
    assert(chars@.subrange(0, chars@.len() as int) =~= chars@);
    while start < chars.len() && is_whitespace(chars[start])
        invariant
            start <= chars@.len(),
            skip_while(chars@, is_space()) == skip_while(
                chars@.subrange(start as int, chars@.len() as int),
                is_space(),
            ),
        decreases chars@.len() - start,
    {
        assert(chars@.subrange(start as int, chars@.len() as int).drop_first()
            =~= chars@.subrange(start + 1, chars@.len() as int));
        start += 1;
    }
    let mut end: usize = chars.len();
    while end > start && is_whitespace(chars[end - 1])
        invariant
            start <= end <= chars@.len(),
            drop_end_while(chars@.subrange(start as int, chars@.len() as int), is_space())
                == drop_end_while(chars@.subrange(start as int, end as int), is_space()),
        decreases end,
    {
        assert(chars@.subrange(start as int, end as int).drop_last()
            =~= chars@.subrange(start as int, end - 1));
        end -= 1;
    }
    proof {
        lemma_drop_end_step(chars@, start as int, end as int, is_space());
    }
    string_between(&chars, start, end)
}

/// `s` without the leading characters that are in `set`.
pub fn trim_start_matches(s: &str, set: &[char]) -> (r: String)
    ensures
        r@ == skip_while(s@, one_of(set@)),
{
    let chars = chars_of(s);
    let mut start: usize = 0;
    assert(chars@.subrange(0, chars@.len() as int) =~= chars@);
    while start < chars.len() && char_in(set, chars[start])
        invariant
            start <= chars@.len(),
            skip_while(chars@, one_of(set@)) == skip_while(
                chars@.subrange(start as int, chars@.len() as int),
                one_of(set@),
            ),
        decreases chars@.len() - start,
    {
        assert(chars@.subrange(start as int, chars@.len() as int).drop_first()
            =~= chars@.subrange(start + 1, chars@.len() as int));
        start += 1;
    }
    string_between(&chars, start, chars.len())
}

/// `s` without the trailing characters that are in `set`.
pub fn trim_end_matches(s: &str, set: &[char]) -> (r: String)
    ensures
        r@ == drop_end_while(s@, one_of(set@)),
{
    let chars = chars_of(s);
    let mut end: usize = chars.len();
    assert(chars@.subrange(0, chars@.len() as int) =~= chars@);
    while end > 0 && char_in(set, chars[end - 1])
        invariant
            end <= chars@.len(),
            drop_end_while(chars@, one_of(set@)) == drop_end_while(
                chars@.subrange(0, end as int),
                one_of(set@),
            ),
        decreases end,
    {
        assert(chars@.subrange(0, end as int).drop_last() =~= chars@.subrange(0, end - 1));
        end -= 1;
    }
    proof {
        lemma_drop_end_step(chars@, 0, end as int, one_of(set@));
    }
    string_between(&chars, 0, end)
}

/// `s` without trailing white space.
pub fn trim_end(s: &str) -> (r: String)
    ensures
        r@ == drop_end_while(s@, is_space()),
{
    let chars = chars_of(s);
    let mut end: usize = chars.len();
    assert(chars@.subrange(0, chars@.len() as int) =~= chars@);
    while end > 0 && is_whitespace(chars[end - 1])
        invariant
            end <= chars@.len(),
            drop_end_while(chars@, is_space()) == drop_end_while(
                chars@.subrange(0, end as int),
                is_space(),
            ),
        decreases end,
    {
        assert(chars@.subrange(0, end as int).drop_last() =~= chars@.subrange(0, end - 1));
        end -= 1;
    }
    proof {
        lemma_drop_end_step(chars@, 0, end as int, is_space());
    }
    string_between(&chars, 0, end)
}

// ---------------------------------------------------------------------------
// Searching
// ---------------------------------------------------------------------------

/// Whether `sub` stands in `s` from index `i` on.
pub open spec fn stands_at(s: Seq<char>, sub: Seq<char>, i: int) -> bool {
    0 <= i <= s.len() - sub.len() && s.subrange(i, i + sub.len()) == sub
}

/// Whether `s` contains `sub` as a contiguous part.
pub open spec fn has_part(s: Seq<char>, sub: Seq<char>) -> bool {
    exists|i: int| stands_at(s, sub, i)
}

/// Whether `sub` stands in `s` from index `i` on.
pub fn stands_at_index(s: &Vec<char>, sub: &Vec<char>, i: usize) -> (yes: bool)
    ensures
        yes == stands_at(s@, sub@, i as int),
{
    if sub.len() > s.len() || i > s.len() - sub.len() {
        return false;
    }
    let mut k: usize = 0;
    while k < sub.len()
        invariant
            k <= sub@.len(),
            i + sub.len() <= s.len(),
            forall|j: int| 0 <= j < k ==> s@[i + j] == sub@[j],
        decreases sub@.len() - k,
    {
        if s[i + k] != sub[k] {
            assert(s@.subrange(i as int, i + sub@.len())[k as int] != sub@[k as int]);
            return false;
        }
        k += 1;
    }
    assert(s@.subrange(i as int, i + sub@.len()) =~= sub@);
    true
}

/// Whether `s` contains `sub` as a contiguous part.
pub fn contains(s: &str, sub: &str) -> (yes: bool)
    ensures
        yes == has_part(s@, sub@),
{
    let hay = chars_of(s);
    let needle = chars_of(sub);
    let mut i: usize = 0;
    while i <= hay.len()
        invariant
            i <= hay.len() + 1,
            hay@ == s@,
            needle@ == sub@,
            forall|j: int| 0 <= j < i ==> !stands_at(s@, sub@, j),
        decreases hay@.len() + 1 - i,
    {
        if stands_at_index(&hay, &needle, i) {
            return true;
        }
        if i == hay.len() {
            assert forall|j: int| !stands_at(s@, sub@, j) by {}
            return false;
        }
        i += 1;
    }
    false
}

/// Whether `s` holds the character `c`.
pub fn contains_char(s: &str, c: char) -> (yes: bool)
    ensures
        yes == s@.contains(c),
{
    let chars = chars_of(s);
    let mut i: usize = 0;
    while i < chars.len()
        invariant
            i <= chars@.len(),
            chars@ == s@,
            forall|k: int| 0 <= k < i ==> chars@[k] != c,
        decreases chars@.len() - i,
    {
        if chars[i] == c {
            return true;
        }
        i += 1;
    }
    false
}

/// Whether `s` begins with `prefix`.
pub fn starts_with(s: &str, prefix: &str) -> (yes: bool)
    ensures
        yes == prefix@.is_prefix_of(s@),
{
    let a = chars_of(s);
    let b = chars_of(prefix);
    let yes = stands_at_index(&a, &b, 0);
    assert(yes == prefix@.is_prefix_of(s@));
    yes
}

/// Whether `s` ends with `suffix`.
pub fn ends_with(s: &str, suffix: &str) -> (yes: bool)
    ensures
        yes == suffix@.is_suffix_of(s@),
{
    let a = chars_of(s);
    let b = chars_of(suffix);
    if b.len() > a.len() {
        return false;
    }
    let yes = stands_at_index(&a, &b, a.len() - b.len());
    assert(yes == suffix@.is_suffix_of(s@));
    yes
}

// ---------------------------------------------------------------------------
// Splitting and joining
// ---------------------------------------------------------------------------

/// The parts of `s` between occurrences of `sep`; one more part than
/// occurrences.
pub open spec fn split_on(s: Seq<char>, sep: char) -> Seq<Seq<char>>
    decreases s.len(),
{
    if s.len() == 0 {
        seq![Seq::<char>::empty()]
    } else {
        let parts = split_on(s.drop_last(), sep);
        if s.last() == sep {
            parts.push(Seq::<char>::empty())
        } else {
            parts.drop_last().push(parts.last().push(s.last()))
        }
    }
}

proof fn lemma_split_nonempty(s: Seq<char>, sep: char)
    ensures
        split_on(s, sep).len() > 0,
    decreases s.len(),
{
    if s.len() > 0 {
        lemma_split_nonempty(s.drop_last(), sep);
    }
}

/// The parts of `s` between occurrences of `sep`.
pub fn split(s: &str, sep: char) -> (parts: Vec<String>)
    ensures
        parts.deep_view() == split_on(s@, sep),
        parts@.len() > 0,
{
    let chars = chars_of(s);
    let mut parts: Vec<String> = Vec::new();
    let mut current: Vec<char> = Vec::new();
    let mut i: usize = 0;
    assert(parts.deep_view().push(current@) =~= split_on(chars@.take(0), sep));
    while i < chars.len()
        invariant
            i <= chars@.len(),
            parts.deep_view().push(current@) == split_on(chars@.take(i as int), sep),
        decreases chars@.len() - i,
    {
        let c = chars[i];
        assert(chars@.take(i + 1).drop_last() =~= chars@.take(i as int));
        let ghost before = parts.deep_view();
        let ghost held = current@;
        assert(before.push(held).drop_last() =~= before);
        if c == sep {
            parts.push(string_of(&current));
            current = Vec::new();
            assert(parts.deep_view() =~= before.push(held));
        } else {
            current.push(c);
        }
        i += 1;
    }
    assert(chars@.take(chars@.len() as int) =~= chars@);
    let ghost before = parts.deep_view();
    parts.push(string_of(&current));
    assert(parts.deep_view() =~= before.push(current@));
    parts
}

/// `parts` in a row with `sep` between neighbours.
pub open spec fn joined(parts: Seq<Seq<char>>, sep: Seq<char>) -> Seq<char>
    decreases parts.len(),
{
    if parts.len() == 0 {
        Seq::empty()
    } else if parts.len() == 1 {
        parts[0]
    } else {
        joined(parts.drop_last(), sep) + sep + parts.last()
    }
}

/// `parts` in a row with `sep` between neighbours.
pub fn join(parts: &Vec<String>, sep: &str) -> (s: String)
    ensures
        s@ == joined(parts.deep_view(), sep@),
{
    let mut s = String::new();
    let mut i: usize = 0;
    while i < parts.len()
        invariant
            i <= parts@.len(),
            s@ == joined(parts.deep_view().take(i as int), sep@),
        decreases parts@.len() - i,
    {
        let ghost now = parts.deep_view().take(i + 1);
        assert(now.drop_last() =~= parts.deep_view().take(i as int));
        if i > 0 {
            s.append(sep);
        }
        s.append(parts[i].as_str());
        assert(s@ =~= joined(now, sep@));
        i += 1;
    }
    assert(parts.deep_view().take(parts@.len() as int) =~= parts.deep_view());
    s
}

// ---------------------------------------------------------------------------
// ASCII case
// ---------------------------------------------------------------------------

/// The lower-case form of an ASCII letter; every other character as it is.
pub open spec fn ascii_lower(c: char) -> char {
    if 'A' <= c <= 'Z' {
        (c as u32 + 32) as char
    } else {
        c
    }
}

/// The lower-case form of an ASCII letter; every other character as it is.
pub fn to_ascii_lower(c: char) -> (r: char)
    ensures
        r == ascii_lower(c),
{
    if 'A' <= c && c <= 'Z' {
        (c as u8 + 32) as char
    } else {
        c
    }
}

/// Whether two strings are equal up to the case of ASCII letters.
pub open spec fn same_ignoring_case(a: Seq<char>, b: Seq<char>) -> bool {
    a.map_values(|c: char| ascii_lower(c)) == b.map_values(|c: char| ascii_lower(c))
}

/// Whether two strings are equal up to the case of ASCII letters.
pub fn eq_ignore_ascii_case(a: &str, b: &str) -> (equal: bool)
    ensures
        equal == same_ignoring_case(a@, b@),
{
    let x = chars_of(a);
    let y = chars_of(b);
    let ghost lx = a@.map_values(|c: char| ascii_lower(c));
    let ghost ly = b@.map_values(|c: char| ascii_lower(c));
    if x.len() != y.len() {
        assert(lx.len() != ly.len());
        return false;
    }
    let mut i: usize = 0;
    while i < x.len()
        invariant
            i <= x@.len(),
            x@.len() == y@.len(),
            x@ == a@,
            y@ == b@,
            lx == a@.map_values(|c: char| ascii_lower(c)),
            ly == b@.map_values(|c: char| ascii_lower(c)),
            forall|k: int| 0 <= k < i ==> lx[k] == ly[k],
        decreases x@.len() - i,
    {
        if to_ascii_lower(x[i]) != to_ascii_lower(y[i]) {
            assert(lx[i as int] != ly[i as int]);
            return false;
        }
        i += 1;
    }
    assert(lx =~= ly);
    true
}

// ---------------------------------------------------------------------------
// Numbers
// ---------------------------------------------------------------------------

/// The decimal digit of a number below ten.
pub open spec fn digit(n: nat) -> char {
    (48 + n) as char
}

/// A natural number in decimal, without leading zeros.
pub open spec fn decimal(n: nat) -> Seq<char>
    decreases n,
{
    if n < 10 {
        seq![digit(n)]
    } else {
        decimal(n / 10).push(digit(n % 10))
    }
}

/// An integer in decimal, with a minus sign where it is negative.
pub open spec fn decimal_int(n: int) -> Seq<char> {
    if n < 0 {
        seq!['-'] + decimal((-n) as nat)
    } else {
        decimal(n as nat)
    }
}

fn push_decimal(n: u128, out: &mut Vec<char>)
    ensures
        final(out)@ == old(out)@ + decimal(n as nat),
    decreases n,
{
    if n >= 10 {
        push_decimal(n / 10, out);
    }
    let d: u8 = (n % 10) as u8;
    out.push((48 + d) as char);
    assert(out@ =~= old(out)@ + decimal(n as nat));
}

/// A number in decimal.
pub fn decimal_text(n: u64) -> (s: String)
    ensures
        s@ == decimal(n as nat),
{
    let mut out: Vec<char> = Vec::new();
    push_decimal(n as u128, &mut out);
    assert(out@ =~= decimal(n as nat));
    string_of(&out)
}

/// A signed number in decimal.
pub fn decimal_int_text(n: i64) -> (s: String)
    ensures
        s@ == decimal_int(n as int),
{
    let mut out: Vec<char> = Vec::new();
    if n < 0 {
        out.push('-');
        let m: i128 = -(n as i128);
        push_decimal(m as u128, &mut out);
    } else {
        push_decimal(n as u128, &mut out);
    }
    assert(out@ =~= decimal_int(n as int));
    string_of(&out)
}

// ---------------------------------------------------------------------------
// UTF-8 sizes
// ---------------------------------------------------------------------------

/// The number of bytes that UTF-8 takes for a character.
pub open spec fn utf8_width(c: char) -> nat {
    if c as u32 <= 0x7F {
        1
    } else if c as u32 <= 0x7FF {
        2
    } else if c as u32 <= 0xFFFF {
        3
    } else {
        4
    }
}

/// The number of bytes that UTF-8 takes for a text.
pub open spec fn utf8_size(s: Seq<char>) -> nat
    decreases s.len(),
{
    if s.len() == 0 {
        0
    } else {
        utf8_size(s.drop_last()) + utf8_width(s.last())
    }
}

/// The longest leading part of `s` that takes at most `max` bytes.
pub open spec fn fitting_prefix(s: Seq<char>, max: nat) -> Seq<char>
    decreases s.len(),
{
    if utf8_size(s) <= max {
        s
    } else {
        fitting_prefix(s.drop_last(), max)
    }
}

/// The longest trailing part of `s` that takes at most `max` bytes.
pub open spec fn fitting_suffix(s: Seq<char>, max: nat) -> Seq<char>
    decreases s.len(),
{
    if utf8_size(s) <= max {
        s
    } else {
        fitting_suffix(s.drop_first(), max)
    }
}

proof fn lemma_size_first(s: Seq<char>)
    requires
        s.len() > 0,
    ensures
        utf8_size(s) == utf8_width(s[0]) + utf8_size(s.drop_first()),
    decreases s.len(),
{
    if s.len() == 1 {
        assert(s.drop_first() =~= Seq::<char>::empty());
        assert(s.drop_last() =~= Seq::<char>::empty());
        assert(utf8_size(s.drop_last()) == 0);
    } else {
        lemma_size_first(s.drop_last());
        assert(s.drop_last().drop_first() =~= s.drop_first().drop_last());
        assert(s.drop_first().last() == s.last());
    }
}

/// The size that `utf8_size` counts is the length of the UTF-8 encoding.
pub proof fn lemma_utf8_size(s: Seq<char>)
    ensures
        utf8_size(s) == encode_utf8(s).len(),
    decreases s.len(),
{
    if s.len() > 0 {
        lemma_size_first(s);
        lemma_utf8_size(s.drop_first());
        char_is_scalar(s[0]);
        assert(encode_scalar(s[0] as u32).len() == utf8_width(s[0]));
    }
}

/// The size of a part is at most that of the whole.
pub proof fn lemma_size_monotonic(s: Seq<char>, n: int)
    requires
        0 <= n <= s.len(),
    ensures
        utf8_size(s.take(n)) <= utf8_size(s),
    decreases s.len(),
{
    if n == s.len() {
        assert(s.take(n) =~= s);
    } else {
        assert(s.drop_last().take(n) =~= s.take(n));
        lemma_size_monotonic(s.drop_last(), n);
    }
}

/// The fitting prefix is a leading part, takes at most `max` bytes, and one
/// more character would not fit.
pub proof fn lemma_fitting_prefix(s: Seq<char>, max: nat)
    ensures
        fitting_prefix(s, max).is_prefix_of(s),
        utf8_size(fitting_prefix(s, max)) <= max,
        fitting_prefix(s, max).len() < s.len() ==> utf8_size(
            s.take(fitting_prefix(s, max).len() as int + 1),
        ) > max,
    decreases s.len(),
{
    if utf8_size(s) > max {
        lemma_fitting_prefix(s.drop_last(), max);
        let n = fitting_prefix(s, max).len() as int;
        if n + 1 == s.len() {
            assert(s.take(n + 1) =~= s);
        } else {
            assert(s.take(n + 1) =~= s.drop_last().take(n + 1));
        }
    }
}

proof fn lemma_prefix_found(s: Seq<char>, n: int, max: nat)
    requires
        0 <= n <= s.len(),
        utf8_size(s.take(n)) <= max,
        n < s.len() ==> utf8_size(s.take(n + 1)) > max,
    ensures
        fitting_prefix(s, max) == s.take(n),
    decreases s.len(),
{
    if n == s.len() {
        assert(s.take(n) =~= s);
    } else {
        lemma_size_monotonic(s, n + 1);
        assert(s.drop_last().take(n) =~= s.take(n));
        if n < s.len() - 1 {
            assert(s.drop_last().take(n + 1) =~= s.take(n + 1));
        }
        lemma_prefix_found(s.drop_last(), n, max);
    }
}

fn width_of(c: char) -> (w: usize)
    ensures
        w == utf8_width(c),
        1 <= w <= 4,
{
    let n: u32 = c as u32;
    if n <= 0x7F {
        1
    } else if n <= 0x7FF {
        2
    } else if n <= 0xFFFF {
        3
    } else {
        4
    }
}

/// The number of bytes of a string.
pub fn size_of(s: &str) -> (n: usize)
    ensures
        n == utf8_size(s@),
{
    proof {
        lemma_utf8_size(s@);
    }
    s.as_bytes().len()
}

/// The longest leading part of `s` that takes at most `max` bytes.
pub fn prefix_within(s: &str, max: usize) -> (r: String)
    ensures
        r@ == fitting_prefix(s@, max as nat),
{
    let chars = chars_of(s);
    let mut used: usize = 0;
    let mut i: usize = 0;
    while i < chars.len()
        invariant
            i <= chars@.len(),
            chars@ == s@,
            used == utf8_size(chars@.take(i as int)),
            used <= max,
        decreases chars@.len() - i,
    {
        let w: usize = width_of(chars[i]);
        assert(chars@.take(i + 1).drop_last() =~= chars@.take(i as int));
        if w > max - used {
            proof {
                lemma_prefix_found(chars@, i as int, max as nat);
                assert(chars@.take(i as int) =~= chars@.subrange(0, i as int));
            }
            return string_between(&chars, 0, i);
        }
        used += w;
        i += 1;
    }
    proof {
        lemma_prefix_found(chars@, chars@.len() as int, max as nat);
    }
    string_between(&chars, 0, chars.len())
}

/// The size of what follows is at most that of the whole.
proof fn lemma_size_skip(s: Seq<char>, n: int)
    requires
        0 <= n <= s.len(),
    ensures
        utf8_size(s.skip(n)) <= utf8_size(s),
    decreases n,
{
    if n == 0 {
        assert(s.skip(0) =~= s);
    } else {
        lemma_size_first(s);
        lemma_size_skip(s.drop_first(), n - 1);
        assert(s.drop_first().skip(n - 1) =~= s.skip(n));
    }
}

proof fn lemma_suffix_found(s: Seq<char>, n: int, max: nat)
    requires
        0 <= n <= s.len(),
        utf8_size(s.skip(n)) <= max,
        n > 0 ==> utf8_size(s.skip(n - 1)) > max,
    ensures
        fitting_suffix(s, max) == s.skip(n),
    decreases n,
{
    if n == 0 {
        assert(s.skip(0) =~= s);
    } else {
        lemma_size_skip(s, n - 1);
        assert(s.drop_first().skip(n - 1) =~= s.skip(n));
        if n > 1 {
            assert(s.drop_first().skip(n - 2) =~= s.skip(n - 1));
        }
        lemma_suffix_found(s.drop_first(), n - 1, max);
    }
}

/// The fitting suffix is a trailing part and takes at most `max` bytes.
pub proof fn lemma_fitting_suffix(s: Seq<char>, max: nat)
    ensures
        fitting_suffix(s, max).is_suffix_of(s),
        utf8_size(fitting_suffix(s, max)) <= max,
    decreases s.len(),
{
    if utf8_size(s) > max {
        lemma_fitting_suffix(s.drop_first(), max);
        let kept = fitting_suffix(s, max);
        assert(s.subrange(s.len() - kept.len(), s.len() as int) =~= s.drop_first().subrange(
            s.len() - 1 - kept.len(),
            s.len() - 1,
        ));
    }
}

/// The longest trailing part of `s` that takes at most `max` bytes.
pub fn suffix_within(s: &str, max: usize) -> (r: String)
    ensures
        r@ == fitting_suffix(s@, max as nat),
{
    let chars = chars_of(s);
    let mut used: usize = 0;
    let mut i: usize = chars.len();
    assert(chars@.skip(chars@.len() as int) =~= Seq::empty());
    while i > 0
        invariant
            i <= chars@.len(),
            chars@ == s@,
            used == utf8_size(chars@.skip(i as int)),
            used <= max,
        decreases i,
    {
        let w: usize = width_of(chars[i - 1]);
        proof {
            lemma_size_first(chars@.skip(i - 1));
            assert(chars@.skip(i - 1).drop_first() =~= chars@.skip(i as int));
        }
        if w > max - used {
            proof {
                lemma_suffix_found(chars@, i as int, max as nat);
                assert(chars@.skip(i as int) =~= chars@.subrange(i as int, chars@.len() as int));
            }
            return string_between(&chars, i, chars.len());
        }
        used += w;
        i -= 1;
    }
    proof {
        lemma_suffix_found(chars@, 0, max as nat);
        assert(chars@.skip(0) =~= chars@.subrange(0, chars@.len() as int));
    }
    string_between(&chars, 0, chars.len())
}

/// The lower-case form that `str::to_lowercase` gives a text.
pub uninterp spec fn lowercase(s: Seq<char>) -> Seq<char>;

/// The lower-case form of a text.
///
/// Trusted: `str::to_lowercase` depends on the text alone.
#[verifier::external_body]
pub(crate) fn to_lowercase(s: &str) -> (lower: String)
    ensures
        lower@ == lowercase(s@),
{
    s.to_lowercase()
}

// ---------------------------------------------------------------------------
// Reading numbers
// ---------------------------------------------------------------------------

/// Whether a character is a decimal digit.
pub open spec fn is_digit(c: char) -> bool {
    '0' <= c && c <= '9'
}

/// Whether a text is made of decimal digits.
pub open spec fn all_digits(s: Seq<char>) -> bool {
    forall|i: int| 0 <= i < s.len() ==> is_digit(#[trigger] s[i])
}

/// The number that decimal digits write.
pub open spec fn digits_value(s: Seq<char>) -> nat
    decreases s.len(),
{
    if s.len() == 0 {
        0
    } else {
        10 * digits_value(s.drop_last()) + (s.last() as nat - '0' as nat) as nat
    }
}

/// The natural number that a text writes in decimal digits, where it fits 64
/// bits.
pub open spec fn natural(s: Seq<char>) -> Option<u64> {
    if s.len() > 0 && all_digits(s) && digits_value(s) <= u64::MAX {
        Some(digits_value(s) as u64)
    } else {
        None
    }
}

proof fn lemma_digits_grow(s: Seq<char>, n: int)
    requires
        0 <= n <= s.len(),
    ensures
        digits_value(s.take(n)) <= digits_value(s),
    decreases s.len() - n,
{
    if n < s.len() {
        assert(s.take(n + 1).drop_last() =~= s.take(n));
        lemma_digits_grow(s, n + 1);
    } else {
        assert(s.take(n) =~= s);
    }
}

/// The natural number that a text writes in decimal digits.
pub fn parse_natural(s: &str) -> (n: Option<u64>)
    ensures
        n == natural(s@),
{
    let chars = chars_of(s);
    if chars.len() == 0 {
        return None;
    }
    let mut n: u64 = 0;
    let mut i: usize = 0;
    assert(chars@.take(0) =~= Seq::empty());
    while i < chars.len()
        invariant
            i <= chars@.len(),
            chars@ == s@,
            n == digits_value(chars@.take(i as int)),
            forall|k: int| 0 <= k < i ==> is_digit(#[trigger] chars@[k]),
        decreases chars@.len() - i,
    {
        let c = chars[i];
        if !('0' <= c && c <= '9') {
            assert(!is_digit(s@[i as int]));
            return None;
        }
        let d: u64 = c as u64 - '0' as u64;
        assert(chars@.take(i + 1).drop_last() =~= chars@.take(i as int));
        if n > (u64::MAX - d) / 10 {
            proof {
                lemma_digits_grow(chars@, i + 1);
            }
            return None;
        }
        n = n * 10 + d;
        i += 1;
    }
    assert(chars@.take(chars@.len() as int) =~= chars@);
    Some(n)
}

} // verus!
