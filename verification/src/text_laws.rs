//! What the helpers on texts do, told by the characters of the texts.

use vstd::prelude::*;

use crate::text::{
    ascii_lowered, byte_len, byte_prefix, contains_text, decimal, decimal_int, digit_char, first_of,
    is_blank_text, is_white_space, joined, lemma_trimmed_end, lemma_trimmed_start, occurs_at,
    split_parts, starts_with_text, text_less, trimmed, trimmed_start, two_digits, utf8_len,
};

verus! {

/// Trimming takes white space from both ends and nothing else, and leaves none there.
pub proof fn law_trimming_takes_what_is_blank(s: Seq<char>) -> (from: int)
    ensures
        0 <= from,
        from + trimmed(s).len() <= s.len(),
        trimmed(s) == s.subrange(from, from + trimmed(s).len()),
        forall|i: int| 0 <= i < from ==> is_white_space(#[trigger] s[i]),
        forall|i: int| from + trimmed(s).len() <= i < s.len() ==> is_white_space(#[trigger] s[i]),
        trimmed(s).len() > 0 ==> !is_white_space(trimmed(s)[0]) && !is_white_space(
            trimmed(s).last(),
        ),
        is_blank_text(s) <==> forall|i: int| 0 <= i < s.len() ==> is_white_space(#[trigger] s[i]),
        trimmed(trimmed(s)) == trimmed(s),
{
    lemma_trimmed_start(s);
    let t = trimmed_start(s);
    lemma_trimmed_end(t);
    let from = s.len() - t.len();
    let end = trimmed(s).len();
    assert(trimmed(s) =~= s.subrange(from, from + end));
    assert forall|i: int| from + end <= i < s.len() implies is_white_space(#[trigger] s[i]) by {
        assert(s[i] == t[i - from]);
    }
    crate::text::lemma_blank(s);
    if end > 0 {
        assert(trimmed(s)[0] == t[0]);
    }
    from
}

/// White space are blanks, tabs and line ends, and no letter, digit or sign of ASCII is.
pub proof fn law_ascii_white_space(c: char)
    ensures
        c < '\u{80}' ==> (is_white_space(c) <==> c == ' ' || ('\u{9}' <= c && c <= '\u{d}')),
{
}

/// The number that digits say.
pub open spec fn number_of(digits: Seq<char>) -> int
    decreases digits.len(),
{
    if digits.len() == 0 {
        0
    } else {
        10 * number_of(digits.drop_last()) + (digits.last() as int - '0' as int)
    }
}

/// The digits of a number are digits, say the number, and have no nought in front.
pub proof fn law_digits_say_the_number(n: nat)
    ensures
        decimal(n).len() > 0,
        number_of(decimal(n)) == n,
        forall|i: int|
            0 <= i < decimal(n).len() ==> '0' <= (#[trigger] decimal(n)[i]) && decimal(n)[i] <= '9',
        n > 0 ==> decimal(n)[0] != '0',
    decreases n,
{
    let d = decimal(n);
    reveal_with_fuel(number_of, 2);
    if n < 10 {
        assert(d.drop_last() =~= Seq::<char>::empty());
        assert(d.last() == digit_char(n));
    } else {
        law_digits_say_the_number(n / 10);
        let before = decimal(n / 10);
        assert(d.drop_last() =~= before);
        assert(d.last() == digit_char(n % 10));
        assert forall|i: int| 0 <= i < d.len() implies '0' <= (#[trigger] d[i]) && d[i]
            <= '9' by {
            if i < before.len() {
                assert(d[i] == before[i]);
            }
        }
        assert(d[0] == before[0]);
    }
}

/// A negative number has a sign in front of its digits; a number of two digits at least has a nought
/// in front of the only one.
pub proof fn law_signs_and_noughts_stand_in_front(n: int, m: nat)
    ensures
        n >= 0 ==> number_of(decimal_int(n)) == n,
        n < 0 ==> decimal_int(n)[0] == '-' && number_of(decimal_int(n).drop_first()) == -n,
        number_of(two_digits(m)) == m,
        two_digits(m).len() >= 2,
        m < 10 ==> two_digits(m).len() == 2,
{
    if n >= 0 {
        law_digits_say_the_number(n as nat);
    } else {
        law_digits_say_the_number((-n) as nat);
        assert(decimal_int(n).drop_first() =~= decimal((-n) as nat));
    }
    law_digits_say_the_number(m);
    if m < 10 {
        reveal_with_fuel(number_of, 3);
        let d = two_digits(m);
        assert(d.drop_last() =~= seq!['0']);
        assert(d.drop_last().drop_last() =~= Seq::<char>::empty());
    } else {
        assert(decimal(m / 10).len() > 0) by {
            law_digits_say_the_number(m / 10);
        }
    }
}

/// What is split at a character has none of it in its parts, and is the same again when the parts are
/// joined by it.
pub proof fn law_split_parts_join_again(s: Seq<char>, separator: char)
    ensures
        split_parts(s, separator).len() > 0,
        joined(split_parts(s, separator), seq![separator]) == s,
        forall|k: int|
            0 <= k < split_parts(s, separator).len() ==> !(#[trigger] split_parts(
                s,
                separator,
            )[k]).contains(separator),
    decreases s.len(),
{
    let parts = split_parts(s, separator);
    let by = seq![separator];
    if s.len() == 0 {
        assert(joined(parts, by) =~= s);
    } else {
        law_split_parts_join_again(s.drop_last(), separator);
        let before = split_parts(s.drop_last(), separator);
        assert(s =~= s.drop_last().push(s.last()));
        if s.last() == separator {
            assert(parts.drop_last() =~= before);
            assert(joined(parts, by) =~= s.drop_last() + by + Seq::<char>::empty());
            assert(joined(parts, by) =~= s);
            assert forall|k: int| 0 <= k < parts.len() implies !(#[trigger] parts[k]).contains(
                separator,
            ) by {
                if k < before.len() {
                    assert(parts[k] == before[k]);
                }
            }
        } else {
            assert(parts.drop_last() =~= before.drop_last());
            if before.len() == 1 {
                assert(joined(parts, by) =~= s);
            } else {
                assert(joined(parts, by) =~= joined(before.drop_last(), by) + by
                    + before.last().push(s.last()));
                assert(joined(parts, by) =~= s);
            }
            assert forall|k: int| 0 <= k < parts.len() implies !(#[trigger] parts[k]).contains(
                separator,
            ) by {
                if k < before.len() - 1 {
                    assert(parts[k] == before[k]);
                } else {
                    assert(!before[before.len() - 1].contains(separator));
                    if parts[k].contains(separator) {
                        let i = parts[k].index_of(separator);
                        if i < before.last().len() {
                            assert(before.last()[i] == separator);
                        }
                    }
                }
            }
        }
    }
}

/// A text comes before another if it is the beginning of it, or if it has the smaller character where
/// the two first differ.
pub proof fn law_texts_are_ordered_where_they_differ(a: Seq<char>, b: Seq<char>)
    ensures
        text_less(a, b) <==> exists|n: int| #[trigger] differ_first_at(a, b, n),
    decreases b.len(),
{
    if b.len() > 0 && a.len() > 0 && a[0] == b[0] {
        let (x, y) = (a.drop_first(), b.drop_first());
        law_texts_are_ordered_where_they_differ(x, y);
        if text_less(x, y) {
            let n = choose|n: int| #[trigger] differ_first_at(x, y, n);
            assert forall|i: int| 0 <= i < n + 1 implies #[trigger] a[i] == b[i] by {
                if i > 0 {
                    assert(x[i - 1] == y[i - 1]);
                }
            }
            assert(differ_first_at(a, b, n + 1));
        }
        if exists|n: int| #[trigger] differ_first_at(a, b, n) {
            let n = choose|n: int| #[trigger] differ_first_at(a, b, n);
            assert(n > 0);
            assert forall|i: int| 0 <= i < n - 1 implies #[trigger] x[i] == y[i] by {
                assert(a[i + 1] == b[i + 1]);
            }
            assert(differ_first_at(x, y, n - 1));
        }
    } else if text_less(a, b) {
        assert(differ_first_at(a, b, 0));
    }
}

/// The two are the same up to `n`, where the first one ends or has the smaller character.
pub open spec fn differ_first_at(a: Seq<char>, b: Seq<char>, n: int) -> bool {
    &&& 0 <= n < b.len()
    &&& n <= a.len()
    &&& forall|i: int| 0 <= i < n ==> #[trigger] a[i] == b[i]
    &&& n < a.len() ==> a[n] < b[n]
}

/// A text contains another exactly if it is made of something, the other one and something; and begins
/// with it if there is nothing before it.
pub proof fn law_texts_contain_what_they_are_made_of(
    before: Seq<char>,
    needle: Seq<char>,
    after: Seq<char>,
    s: Seq<char>,
)
    ensures
        contains_text(before + needle + after, needle),
        starts_with_text(needle + after, needle),
        contains_text(s, needle) ==> exists|at: int|
            0 <= at <= s.len() - needle.len() && s == #[trigger] s.subrange(0, at) + needle
                + s.subrange(at + needle.len(), s.len() as int),
        starts_with_text(s, needle) ==> s == needle + s.subrange(
            needle.len() as int,
            s.len() as int,
        ),
{
    let all = before + needle + after;
    let at = before.len() as int;
    assert(all.subrange(at, at + needle.len()) =~= needle);
    assert(occurs_at(all, needle, at));
    assert((needle + after).subrange(0, needle.len() as int) =~= needle);
    if contains_text(s, needle) {
        let at = choose|at: int| occurs_at(s, needle, at);
        assert(s.subrange(at, at + needle.len()) == needle);
        assert(s =~= s.subrange(0, at) + s.subrange(at, at + needle.len()) + s.subrange(
            at + needle.len(),
            s.len() as int,
        ));
    }
    if starts_with_text(s, needle) {
        assert(s =~= s.subrange(0, needle.len() as int) + s.subrange(
            needle.len() as int,
            s.len() as int,
        ));
    }
}

/// What is cut to a length is the beginning of the text, of that length or whole.
pub proof fn law_cutting_keeps_the_beginning(s: Seq<char>, n: int)
    requires
        n >= 0,
    ensures
        first_of(s, n).len() == if s.len() <= n {
            s.len() as int
        } else {
            n
        },
        forall|i: int| 0 <= i < first_of(s, n).len() ==> #[trigger] first_of(s, n)[i] == s[i],
{
}

/// Lowering changes the capitals of ASCII and nothing else; it can be done twice.
pub proof fn law_lowering_changes_capitals(s: Seq<char>, i: int)
    requires
        0 <= i < s.len(),
    ensures
        ascii_lowered(s).len() == s.len(),
        ascii_lowered(s)[i] as int == if 'A' <= s[i] && s[i] <= 'Z' {
            s[i] as int + 32
        } else {
            s[i] as int
        },
        ascii_lowered(ascii_lowered(s)) == ascii_lowered(s),
{
    assert(ascii_lowered(ascii_lowered(s)) =~= ascii_lowered(s));
}

/// A text of ASCII has as many bytes as characters, and any other one has more; texts in a row have
/// the bytes of each.
pub proof fn law_bytes_are_counted(a: Seq<char>, b: Seq<char>)
    ensures
        byte_len(a + b) == byte_len(a) + byte_len(b),
        a.len() <= byte_len(a) <= 4 * a.len(),
        byte_len(a) == a.len() <==> forall|i: int| 0 <= i < a.len() ==> (#[trigger] a[i]) < '\u{80}',
    decreases a.len() + b.len(),
{
    if b.len() > 0 {
        law_bytes_are_counted(a, b.drop_last());
        assert((a + b).drop_last() =~= a + b.drop_last());
    } else {
        assert(a + b =~= a);
        if a.len() > 0 {
            let t = a.drop_last();
            law_bytes_are_counted(t, b);
            assert(byte_len(a) == byte_len(t) + utf8_len(a.last()));
            assert(utf8_len(a.last()) == 1 <==> a[a.len() - 1] < '\u{80}');
            assert forall|i: int| 0 <= i < t.len() implies t[i] == #[trigger] a[i] by {}
            if byte_len(a) == a.len() {
                assert forall|i: int| 0 <= i < a.len() implies (#[trigger] a[i]) < '\u{80}' by {
                    if i < t.len() {
                        assert(t[i] < '\u{80}');
                    }
                }
            }
        }
    }
}

/// What is cut to a number of bytes is the beginning of the text with so many bytes, if there is one.
pub proof fn law_cutting_at_a_byte(s: Seq<char>, n: nat)
    ensures
        match byte_prefix(s, n) {
            Some(p) => byte_len(p) == n && starts_with_text(s, p),
            None => forall|k: int| 0 <= k <= s.len() ==> byte_len(#[trigger] s.take(k)) != n,
        },
{
}

} // verus!
