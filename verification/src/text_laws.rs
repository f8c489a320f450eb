//! What holds of texts.

use vstd::prelude::*;
use crate::text::{
    all_digits, ascii_lower, decimal, decimal_int, digits_value, drop_end_while, fitting_suffix,
    has_part, is_space, joined, lemma_fitting_suffix, natural, same_ignoring_case, skip_while,
    split_on, stands_at, trimmed, utf8_size, whitespace,
};

verus! {

/// Whether every character of a text satisfies a predicate.
pub open spec fn all_are(s: Seq<char>, p: spec_fn(char) -> bool) -> bool {
    forall|i: int| 0 <= i < s.len() ==> p(#[trigger] s[i])
}

/// White space is what Unicode says: the control characters from tab to
/// carriage return, the space, next line, the no-break space, and the spaces
/// and separators of the general punctuation.
pub proof fn law_white_space(c: char)
    ensures
        whitespace(c) <==> {
            let n = c as u32;
            ||| 9 <= n <= 13
            ||| n == 32
            ||| n == 133
            ||| n == 160
            ||| n == 5760
            ||| 8192 <= n <= 8202
            ||| n == 8232
            ||| n == 8233
            ||| n == 8239
            ||| n == 8287
            ||| n == 12288
        },
{
}

/// Skipping takes away leading characters that satisfy the predicate, all of
/// them and no others.
pub proof fn law_skipping(s: Seq<char>, p: spec_fn(char) -> bool)
    ensures
        ({
            let rest = skip_while(s, p);
            let n = s.len() - rest.len();
            &&& 0 <= n <= s.len()
            &&& rest == s.skip(n)
            &&& all_are(s.take(n), p)
            &&& rest.len() > 0 ==> !p(rest[0])
        }),
    decreases s.len(),
{
    if s.len() > 0 && p(s[0]) {
        law_skipping(s.drop_first(), p);
        let rest = skip_while(s, p);
        let n = s.len() - rest.len();
        assert(rest =~= s.skip(n));
        assert forall|i: int| 0 <= i < s.take(n).len() implies p(#[trigger] s.take(n)[i]) by {
            if i > 0 {
                assert(s.drop_first().take(n - 1)[i - 1] == s[i]);
            }
        }
    } else {
        assert(s.skip(0) =~= s);
    }
}

/// Dropping from the end takes away trailing characters that satisfy the
/// predicate, all of them and no others.
pub proof fn law_dropping(s: Seq<char>, p: spec_fn(char) -> bool)
    ensures
        ({
            let rest = drop_end_while(s, p);
            let n = rest.len() as int;
            &&& n <= s.len()
            &&& rest == s.take(n)
            &&& all_are(s.skip(n), p)
            &&& rest.len() > 0 ==> !p(rest.last())
        }),
    decreases s.len(),
{
    if s.len() > 0 && p(s.last()) {
        law_dropping(s.drop_last(), p);
        let rest = drop_end_while(s, p);
        let n = rest.len() as int;
        assert(rest =~= s.take(n));
        assert forall|i: int| 0 <= i < s.skip(n).len() implies p(#[trigger] s.skip(n)[i]) by {
            if i < s.len() - 1 - n {
                assert(s.drop_last().skip(n)[i] == s[n + i]);
            }
        }
    } else {
        assert(s.take(s.len() as int) =~= s);
    }
}

/// A trimmed text is the text without the white space around it: nothing else
/// is gone, and none is left at its ends.
pub proof fn law_trimming(s: Seq<char>)
    ensures
        exists|a: int, b: int|
            0 <= a <= b <= s.len() && trimmed(s) == #[trigger] s.subrange(a, b) && (forall|i: int|
                0 <= i < a || b <= i < s.len() ==> whitespace(#[trigger] s[i])),
        trimmed(s).len() > 0 ==> !whitespace(trimmed(s)[0]) && !whitespace(trimmed(s).last()),
        trimmed(s).len() == 0 <==> forall|i: int|
            0 <= i < s.len() ==> whitespace(#[trigger] s[i]),
{
    law_skipping(s, is_space());
    let left = skip_while(s, is_space());
    let a = s.len() - left.len();
    law_dropping(left, is_space());
    let kept = trimmed(s);
    let b = a + kept.len();
    assert(kept =~= s.subrange(a, b));
    assert forall|i: int| 0 <= i < a || b <= i < s.len() implies whitespace(#[trigger] s[i]) by {
        if i < a {
            assert(s.take(a)[i] == s[i]);
            assert(is_space()(s.take(a)[i]));
        } else {
            assert(left.skip(kept.len() as int)[i - b] == s[i]);
            assert(is_space()(left.skip(kept.len() as int)[i - b]));
        }
    }
    if kept.len() > 0 {
        assert(!is_space()(kept.last()));
        assert(kept[0] == left[0]);
        assert(!is_space()(left[0]));
        assert(!whitespace(s[a]));
    } else {
        assert forall|i: int| 0 <= i < s.len() implies whitespace(#[trigger] s[i]) by {}
    }
}

/// A text has a part where it is something, the part and something more.
pub proof fn law_parts(s: Seq<char>, sub: Seq<char>, before: Seq<char>, after: Seq<char>)
    ensures
        s == before + sub + after ==> has_part(s, sub),
        has_part(s, sub) ==> exists|i: int|
            0 <= i <= s.len() - sub.len() && s == s.take(i) + sub + #[trigger] s.skip(
                i + sub.len(),
            ),
{
    if s == before + sub + after {
        let i = before.len() as int;
        assert(s.subrange(i, i + sub.len()) =~= sub);
        assert(stands_at(s, sub, i));
    }
    if has_part(s, sub) {
        let i = choose|i: int| stands_at(s, sub, i);
        assert forall|k: int| 0 <= k < sub.len() implies s[i + k] == sub[k] by {
            assert(s.subrange(i, i + sub.len())[k] == sub[k]);
        }
        assert(s =~= s.take(i) + sub + s.skip(i + sub.len()));
    }
}

/// Parts in a row: none give nothing, one gives itself, and one more comes
/// behind a separator.
pub proof fn law_joining(parts: Seq<Seq<char>>, part: Seq<char>, sep: Seq<char>)
    ensures
        joined(Seq::empty(), sep).len() == 0,
        joined(seq![part], sep) == part,
        parts.len() > 0 ==> joined(parts.push(part), sep) == joined(parts, sep) + sep + part,
{
    assert(parts.push(part).drop_last() =~= parts);
}

proof fn lemma_join_extends(parts: Seq<Seq<char>>, c: char, sep: Seq<char>)
    requires
        parts.len() > 0,
    ensures
        joined(parts.drop_last().push(parts.last().push(c)), sep) == joined(parts, sep).push(c),
{
    let longer = parts.drop_last().push(parts.last().push(c));
    assert(longer.drop_last() =~= parts.drop_last());
    if parts.len() == 1 {
        assert(parts[0] == parts.last());
    } else {
        assert(joined(longer, sep) =~= joined(parts, sep).push(c));
    }
}

/// Splitting is undone by joining, and no part has the separator in it.
pub proof fn law_splitting(s: Seq<char>, sep: char)
    ensures
        split_on(s, sep).len() > 0,
        joined(split_on(s, sep), seq![sep]) == s,
        forall|i: int, j: int|
            0 <= i < split_on(s, sep).len() && 0 <= j < split_on(s, sep)[i].len()
                ==> #[trigger] split_on(s, sep)[i][j] != sep,
    decreases s.len(),
{
    let sep_text = seq![sep];
    if s.len() == 0 {
        assert(joined(split_on(s, sep), sep_text) =~= s);
    } else {
        let front = s.drop_last();
        law_splitting(front, sep);
        let parts = split_on(front, sep);
        let all = split_on(s, sep);
        assert(s =~= front.push(s.last()));
        if s.last() == sep {
            assert(all.drop_last() =~= parts);
            assert(joined(all, sep_text) =~= s);
            assert forall|i: int, j: int|
                0 <= i < all.len() && 0 <= j < all[i].len() implies #[trigger] all[i][j] != sep by {
                if i < parts.len() {
                    assert(parts[i][j] != sep);
                }
            }
        } else {
            lemma_join_extends(parts, s.last(), sep_text);
            assert forall|i: int, j: int|
                0 <= i < all.len() && 0 <= j < all[i].len() implies #[trigger] all[i][j] != sep by {
                if i < parts.len() - 1 {
                    assert(parts[i][j] != sep);
                } else if j < parts.last().len() {
                    assert(parts[parts.len() - 1][j] != sep);
                }
            }
        }
    }
}

/// The letters from A to Z have the lower-case forms from a to z; no other
/// character changes.
pub proof fn law_lower_case(c: char)
    ensures
        'A' <= c <= 'Z' ==> ascii_lower(c) as u32 == c as u32 + 32 && 'a' <= ascii_lower(c) <= 'z',
        !('A' <= c <= 'Z') ==> ascii_lower(c) == c,
{
}

/// Texts are the same but for the case of their letters where each of their
/// characters is.
pub proof fn law_same_but_for_case(a: Seq<char>, b: Seq<char>)
    ensures
        same_ignoring_case(a, b) <==> a.len() == b.len() && forall|i: int|
            0 <= i < a.len() ==> ascii_lower(#[trigger] a[i]) == ascii_lower(b[i]),
{
    let x = a.map_values(|c: char| ascii_lower(c));
    let y = b.map_values(|c: char| ascii_lower(c));
    if same_ignoring_case(a, b) {
        assert(x == y);
        assert(x.len() == a.len() && y.len() == b.len());
        assert forall|i: int| 0 <= i < a.len() implies ascii_lower(#[trigger] a[i]) == ascii_lower(
            b[i],
        ) by {
            assert(x[i] == ascii_lower(a[i]));
            assert(y[i] == ascii_lower(b[i]));
        }
    }
    if a.len() == b.len() && forall|i: int|
        0 <= i < a.len() ==> ascii_lower(#[trigger] a[i]) == ascii_lower(b[i]) {
        assert(x =~= y);
    }
}

/// A number in decimal is made of digits, reads as itself, and begins with a
/// zero only where it is zero.
pub proof fn law_decimals(n: nat)
    ensures
        decimal(n).len() > 0,
        all_digits(decimal(n)),
        digits_value(decimal(n)) == n,
        n > 0 ==> decimal(n)[0] != '0',
        n == 0 ==> decimal(n) == seq!['0'],
    decreases n,
{
    if n < 10 {
        assert(decimal(n).drop_last() =~= Seq::<char>::empty());
        assert(digits_value(decimal(n).drop_last()) == 0);
        if n == 0 {
            assert(decimal(n) =~= seq!['0']);
        }
    } else {
        law_decimals(n / 10);
        let front = decimal(n / 10);
        assert(decimal(n).drop_last() =~= front);
        assert(decimal(n).last() as nat == 48 + n % 10);
        assert forall|i: int| 0 <= i < decimal(n).len() implies crate::text::is_digit(
            #[trigger] decimal(n)[i],
        ) by {
            if i < front.len() {
                assert(crate::text::is_digit(front[i]));
            }
        }
    }
}

/// An integer in decimal is that of its size, with a minus where it is
/// negative.
pub proof fn law_signed_decimals(n: int)
    ensures
        n >= 0 ==> decimal_int(n) == decimal(n as nat),
        n < 0 ==> decimal_int(n)[0] == '-' && decimal_int(n).skip(1) == decimal((-n) as nat),
{
    if n < 0 {
        assert(decimal_int(n).skip(1) =~= decimal((-n) as nat));
    }
}

/// A text reads as a natural number exactly where it is made of digits and the
/// number fits 64 bits; digits count ten times what follows them.
pub proof fn law_naturals(s: Seq<char>, c: char)
    ensures
        natural(s) is Some <==> s.len() > 0 && (forall|i: int|
            0 <= i < s.len() ==> '0' <= #[trigger] s[i] <= '9') && digits_value(s)
            <= 0xffff_ffff_ffff_ffff,
        natural(s) is Some ==> natural(s)->0 == digits_value(s),
        digits_value(Seq::empty()) == 0,
        '0' <= c <= '9' ==> digits_value(s.push(c)) == 10 * digits_value(s) + (c as u32 - 48),
{
    assert(s.push(c).drop_last() =~= s);
}

/// What is written in decimal is read again.
pub proof fn law_decimals_are_read(n: u64)
    ensures
        natural(decimal(n as nat)) == Some(n),
{
    law_decimals(n as nat);
}

/// The tail of a text within some bytes is as long as it can be.
pub proof fn law_tails(s: Seq<char>, max: nat)
    ensures
        ({
            let kept = fitting_suffix(s, max);
            &&& kept.is_suffix_of(s)
            &&& utf8_size(kept) <= max
            &&& kept.len() < s.len() ==> utf8_size(s.skip(s.len() - kept.len() - 1)) > max
        }),
    decreases s.len(),
{
    lemma_fitting_suffix(s, max);
    if utf8_size(s) > max {
        let rest = s.drop_first();
        law_tails(rest, max);
        let kept = fitting_suffix(s, max);
        if kept.len() < rest.len() {
            assert(s.skip(s.len() - kept.len() - 1) =~= rest.skip(rest.len() - kept.len() - 1));
        } else {
            assert(s.skip(0) =~= s);
        }
    }
}

} // verus!
