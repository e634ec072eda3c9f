//! Text as sequences of characters: comparison, search, trimming, numbers and joining.

use vstd::prelude::*;
use vstd::string::*;

verus! {

/// `String::push` appends the given character to the end of the string.
pub assume_specification[ String::push ](s: &mut String, ch: char)
    ensures
        final(s)@ == old(s)@.push(ch),
;

/// The views of a sequence of strings.
#[verifier::inline]
pub open spec fn texts(items: Seq<String>) -> Seq<Seq<char>> {
    crate::model::views(items)
}

/// The first `n` characters of `s`, or all of them if there are fewer.
pub open spec fn first_of(s: Seq<char>, n: int) -> Seq<char> {
    if s.len() <= n {
        s
    } else {
        s.subrange(0, n)
    }
}

pub open spec fn starts_with_text(s: Seq<char>, prefix: Seq<char>) -> bool {
    prefix.len() <= s.len() && s.subrange(0, prefix.len() as int) == prefix
}

pub open spec fn occurs_at(s: Seq<char>, needle: Seq<char>, at: int) -> bool {
    0 <= at && at + needle.len() <= s.len() && s.subrange(at, at + needle.len()) == needle
}

/// Somewhere in `s` the characters of `needle` follow one another.
pub open spec fn contains_text(s: Seq<char>, needle: Seq<char>) -> bool {
    exists|at: int| occurs_at(s, needle, at)
}

/// The lexicographic order by code point.
pub open spec fn text_less(a: Seq<char>, b: Seq<char>) -> bool
    decreases b.len(),
{
    if b.len() == 0 {
        false
    } else if a.len() == 0 {
        true
    } else if a[0] != b[0] {
        a[0] < b[0]
    } else {
        text_less(a.drop_first(), b.drop_first())
    }
}

pub proof fn lemma_text_less_irreflexive(a: Seq<char>)
    ensures
        !text_less(a, a),
    decreases a.len(),
{
    if a.len() > 0 {
        lemma_text_less_irreflexive(a.drop_first());
    }
}

pub proof fn lemma_text_less_transitive(a: Seq<char>, b: Seq<char>, c: Seq<char>)
    requires
        text_less(a, b),
        text_less(b, c),
    ensures
        text_less(a, c),
    decreases b.len(),
{
    if a.len() > 0 && a[0] == b[0] && b[0] == c[0] {
        lemma_text_less_transitive(a.drop_first(), b.drop_first(), c.drop_first());
    }
}

pub proof fn lemma_text_less_total(a: Seq<char>, b: Seq<char>)
    ensures
        a == b || text_less(a, b) || text_less(b, a),
    decreases a.len(),
{
    if a.len() > 0 && b.len() > 0 && a[0] == b[0] {
        lemma_text_less_total(a.drop_first(), b.drop_first());
        if a.drop_first() == b.drop_first() {
            assert(a =~= seq![a[0]] + a.drop_first());
            assert(b =~= seq![b[0]] + b.drop_first());
        }
    } else if a.len() == 0 && b.len() == 0 {
        assert(a =~= b);
    }
}

pub proof fn lemma_text_less_asymmetric(a: Seq<char>, b: Seq<char>)
    requires
        text_less(a, b),
    ensures
        !text_less(b, a),
        a != b,
{
    lemma_text_less_irreflexive(a);
    if text_less(b, a) {
        lemma_text_less_transitive(a, b, a);
    }
}

/// The characters with the Unicode property `White_Space`.
pub open spec fn is_white_space(c: char) -> bool {
    ||| '\u{9}' <= c && c <= '\u{d}'
    ||| c == '\u{20}'
    ||| c == '\u{85}'
    ||| c == '\u{a0}'
    ||| c == '\u{1680}'
    ||| '\u{2000}' <= c && c <= '\u{200a}'
    ||| c == '\u{2028}'
    ||| c == '\u{2029}'
    ||| c == '\u{202f}'
    ||| c == '\u{205f}'
    ||| c == '\u{3000}'
}

pub open spec fn trimmed_start(s: Seq<char>) -> Seq<char>
    decreases s.len(),
{
    if s.len() > 0 && is_white_space(s[0]) {
        trimmed_start(s.drop_first())
    } else {
        s
    }
}

pub open spec fn trimmed_end(s: Seq<char>) -> Seq<char>
    decreases s.len(),
{
    if s.len() > 0 && is_white_space(s.last()) {
        trimmed_end(s.drop_last())
    } else {
        s
    }
}

/// `s` without the white space at its two ends.
pub open spec fn trimmed(s: Seq<char>) -> Seq<char> {
    trimmed_end(trimmed_start(s))
}

/// Nothing but white space.
pub open spec fn is_blank_text(s: Seq<char>) -> bool {
    trimmed(s).len() == 0
}

/// A text is blank exactly if each of its characters is white space.
pub proof fn lemma_blank(s: Seq<char>)
    ensures
        is_blank_text(s) <==> forall|i: int| 0 <= i < s.len() ==> is_white_space(#[trigger] s[i]),
{
    lemma_trimmed_start(s);
    lemma_trimmed_end(trimmed_start(s));
    let t = trimmed_start(s);
    if is_blank_text(s) {
        if t.len() > 0 {
            assert(is_white_space(t[0]));
        }
        assert forall|i: int| 0 <= i < s.len() implies is_white_space(#[trigger] s[i]) by {}
    }
}

pub proof fn lemma_trimmed_start(s: Seq<char>)
    ensures
        trimmed_start(s).len() <= s.len(),
        trimmed_start(s) == s.subrange(s.len() - trimmed_start(s).len(), s.len() as int),
        trimmed_start(s).len() > 0 ==> !is_white_space(trimmed_start(s)[0]),
        forall|i: int|
            0 <= i < s.len() - trimmed_start(s).len() ==> is_white_space(#[trigger] s[i]),
    decreases s.len(),
{
    if s.len() > 0 && is_white_space(s[0]) {
        let r = s.drop_first();
        lemma_trimmed_start(r);
        assert(trimmed_start(s) =~= s.subrange(s.len() - trimmed_start(s).len(), s.len() as int));
        assert forall|i: int| 0 <= i < s.len() - trimmed_start(s).len() implies is_white_space(
            #[trigger] s[i],
        ) by {
            if i > 0 {
                assert(r[i - 1] == s[i]);
            }
        }
    } else {
        assert(trimmed_start(s) =~= s.subrange(s.len() - trimmed_start(s).len(), s.len() as int));
    }
}

pub proof fn lemma_trimmed_end(s: Seq<char>)
    ensures
        trimmed_end(s).len() <= s.len(),
        trimmed_end(s) == s.subrange(0, trimmed_end(s).len() as int),
        trimmed_end(s).len() > 0 ==> !is_white_space(trimmed_end(s).last()),
        forall|i: int| trimmed_end(s).len() <= i < s.len() ==> is_white_space(#[trigger] s[i]),
    decreases s.len(),
{
    if s.len() > 0 && is_white_space(s.last()) {
        let r = s.drop_last();
        lemma_trimmed_end(r);
        assert(trimmed_end(s) =~= s.subrange(0, trimmed_end(s).len() as int));
        assert forall|i: int| trimmed_end(s).len() <= i < s.len() implies is_white_space(
            #[trigger] s[i],
        ) by {
            if i < r.len() {
                assert(r[i] == s[i]);
            }
        }
    } else {
        assert(trimmed_end(s) =~= s.subrange(0, trimmed_end(s).len() as int));
    }
}

pub open spec fn digit_char(d: nat) -> char {
    if d == 0 {
        '0'
    } else if d == 1 {
        '1'
    } else if d == 2 {
        '2'
    } else if d == 3 {
        '3'
    } else if d == 4 {
        '4'
    } else if d == 5 {
        '5'
    } else if d == 6 {
        '6'
    } else if d == 7 {
        '7'
    } else if d == 8 {
        '8'
    } else {
        '9'
    }
}

/// The decimal digits of `n`, without leading zeros.
pub open spec fn decimal(n: nat) -> Seq<char>
    decreases n,
{
    if n < 10 {
        seq![digit_char(n)]
    } else {
        decimal(n / 10).push(digit_char(n % 10))
    }
}

pub open spec fn decimal_int(n: int) -> Seq<char> {
    if n < 0 {
        seq!['-'] + decimal((-n) as nat)
    } else {
        decimal(n as nat)
    }
}

/// The decimal digits of `n`, at least two of them.
pub open spec fn two_digits(n: nat) -> Seq<char> {
    if n < 10 {
        seq!['0', digit_char(n)]
    } else {
        decimal(n)
    }
}

/// The parts one after another, with `separator` between each two of them.
pub open spec fn joined(parts: Seq<Seq<char>>, separator: Seq<char>) -> Seq<char>
    decreases parts.len(),
{
    if parts.len() == 0 {
        Seq::empty()
    } else if parts.len() == 1 {
        parts[0]
    } else {
        joined(parts.drop_last(), separator) + separator + parts.last()
    }
}

/// The parts of `s` between the occurrences of `separator`; one part if there is none.
pub open spec fn split_parts(s: Seq<char>, separator: char) -> Seq<Seq<char>>
    decreases s.len(),
{
    if s.len() == 0 {
        seq![Seq::empty()]
    } else {
        let before = split_parts(s.drop_last(), separator);
        if s.last() == separator {
            before.push(Seq::empty())
        } else {
            before.drop_last().push(before.last().push(s.last()))
        }
    }
}

pub open spec fn ascii_lower(c: char) -> char {
    match c {
        'A' => 'a',
        'B' => 'b',
        'C' => 'c',
        'D' => 'd',
        'E' => 'e',
        'F' => 'f',
        'G' => 'g',
        'H' => 'h',
        'I' => 'i',
        'J' => 'j',
        'K' => 'k',
        'L' => 'l',
        'M' => 'm',
        'N' => 'n',
        'O' => 'o',
        'P' => 'p',
        'Q' => 'q',
        'R' => 'r',
        'S' => 's',
        'T' => 't',
        'U' => 'u',
        'V' => 'v',
        'W' => 'w',
        'X' => 'x',
        'Y' => 'y',
        'Z' => 'z',
        _ => c,
    }
}

/// `s` with its ASCII capitals in lower case.
pub open spec fn ascii_lowered(s: Seq<char>) -> Seq<char> {
    Seq::new(s.len(), |i: int| ascii_lower(s[i]))
}

pub fn split(s: &str, separator: char) -> (r: Vec<String>)
    ensures
        texts(r@) == split_parts(s@, separator),
        r@.len() > 0,
{
    broadcast use crate::model::group_views;

    let x = chars_of(s);
    let mut done: Vec<String> = Vec::new();
    let mut part = String::new();
    let mut i: usize = 0;
    assert(x@.subrange(0, 0) =~= Seq::empty());
    assert(texts(done@).push(part@) =~= split_parts(x@.subrange(0, 0), separator));
    while i < x.len()
        invariant
            i <= x.len(),
            x@ == s@,
            texts(done@).push(part@) == split_parts(x@.subrange(0, i as int), separator),
        decreases x.len() - i,
    {
        broadcast use crate::model::group_views;

        let c: char = x[i];
        let ghost next = x@.subrange(0, i as int + 1);
        let ghost before = texts(done@).push(part@);
        proof {
            assert(next.drop_last() =~= x@.subrange(0, i as int));
            assert(next.last() == c);
            assert(before.drop_last() =~= texts(done@));
        }
        if c == separator {
            done.push(part);
            part = String::new();
            assert(texts(done@).push(part@) =~= split_parts(next, separator));
        } else {
            part.push(c);
        }
        i = i + 1;
    }
    assert(x@.subrange(0, x@.len() as int) =~= x@);
    done.push(part);
    done
}

fn lower_ascii(c: char) -> (r: char)
    ensures
        r == ascii_lower(c),
{
    match c {
        'A' => 'a',
        'B' => 'b',
        'C' => 'c',
        'D' => 'd',
        'E' => 'e',
        'F' => 'f',
        'G' => 'g',
        'H' => 'h',
        'I' => 'i',
        'J' => 'j',
        'K' => 'k',
        'L' => 'l',
        'M' => 'm',
        'N' => 'n',
        'O' => 'o',
        'P' => 'p',
        'Q' => 'q',
        'R' => 'r',
        'S' => 's',
        'T' => 't',
        'U' => 'u',
        'V' => 'v',
        'W' => 'w',
        'X' => 'x',
        'Y' => 'y',
        'Z' => 'z',
        _ => c,
    }
}

pub fn to_ascii_lower(s: &str) -> (r: String)
    ensures
        r@ == ascii_lowered(s@),
{
    let x = chars_of(s);
    let mut r = String::new();
    let mut i: usize = 0;
    while i < x.len()
        invariant
            i <= x.len(),
            x@ == s@,
            r@.len() == i,
            forall|k: int| 0 <= k < i ==> #[trigger] r@[k] == ascii_lower(s@[k]),
        decreases x.len() - i,
    {
        r.push(lower_ascii(x[i]));
        i = i + 1;
    }
    assert(r@ =~= ascii_lowered(s@));
    r
}

pub fn chars_of(s: &str) -> (r: Vec<char>)
    ensures
        r@ == s@,
{
    let mut r: Vec<char> = Vec::new();
    for c in it: s.chars()
        invariant
            it.seq() == s@,
            r@ == s@.subrange(0, it.index() as int),
    {
        r.push(c);
        assert(r@ =~= s@.subrange(0, it.index() as int + 1));
    }
    assert(s@.subrange(0, s@.len() as int) =~= s@);
    r
}

pub fn string_of(chars: &Vec<char>, from: usize, to: usize) -> (r: String)
    requires
        from <= to <= chars.len(),
    ensures
        r@ == chars@.subrange(from as int, to as int),
{
    let mut r = String::new();
    let mut i: usize = from;
    while i < to
        invariant
            from <= i <= to <= chars.len(),
            r@ == chars@.subrange(from as int, i as int),
        decreases to - i,
    {
        r.push(chars[i]);
        i = i + 1;
        assert(r@ =~= chars@.subrange(from as int, i as int));
    }
    r
}

pub fn same(a: &str, b: &str) -> (r: bool)
    ensures
        r == (a@ == b@),
{
    a.to_owned() == b.to_owned()
}

pub fn less(a: &str, b: &str) -> (r: bool)
    ensures
        r == text_less(a@, b@),
{
    let x = chars_of(a);
    let y = chars_of(b);
    let mut i: usize = 0;
    assert(x@.subrange(0, x@.len() as int) =~= x@);
    assert(y@.subrange(0, y@.len() as int) =~= y@);
    while i < x.len() && i < y.len()
        invariant
            i <= x.len(),
            i <= y.len(),
            x@ == a@,
            y@ == b@,
            text_less(a@, b@) == text_less(
                x@.subrange(i as int, x@.len() as int),
                y@.subrange(i as int, y@.len() as int),
            ),
        decreases x.len() - i,
    {
        let ghost s = x@.subrange(i as int, x@.len() as int);
        let ghost t = y@.subrange(i as int, y@.len() as int);
        let c: char = x[i];
        let d: char = y[i];
        if c != d {
            return c < d;
        }
        assert(s.drop_first() =~= x@.subrange(i as int + 1, x@.len() as int));
        assert(t.drop_first() =~= y@.subrange(i as int + 1, y@.len() as int));
        i = i + 1;
    }
    i < y.len()
}

pub fn starts_with(s: &str, prefix: &str) -> (r: bool)
    ensures
        r == starts_with_text(s@, prefix@),
{
    let x = chars_of(s);
    let y = chars_of(prefix);
    matches_at(&x, &y, 0)
}

fn matches_at(s: &Vec<char>, needle: &Vec<char>, at: usize) -> (r: bool)
    requires
        at <= s.len(),
    ensures
        r == occurs_at(s@, needle@, at as int),
{
    if needle.len() > s.len() - at {
        return false;
    }
    let mut i: usize = 0;
    while i < needle.len()
        invariant
            i <= needle.len(),
            at + needle.len() <= s.len(),
            forall|k: int| 0 <= k < i ==> s@[at + k] == #[trigger] needle@[k],
        decreases needle.len() - i,
    {
        if s[at + i] != needle[i] {
            assert(s@.subrange(at as int, at + needle.len())[i as int] != needle@[i as int]);
            return false;
        }
        i = i + 1;
    }
    assert(s@.subrange(at as int, at + needle.len()) =~= needle@);
    true
}

pub fn contains(s: &str, needle: &str) -> (r: bool)
    ensures
        r == contains_text(s@, needle@),
{
    let x = chars_of(s);
    let y = chars_of(needle);
    if y.len() > x.len() {
        return false;
    }
    let last: usize = x.len() - y.len();
    let mut i: usize = 0;
    loop
        invariant
            i <= last,
            last == x.len() - y.len(),
            x@ == s@,
            y@ == needle@,
            forall|k: int| 0 <= k < i ==> !occurs_at(s@, needle@, k),
        decreases last - i,
    {
        if matches_at(&x, &y, i) {
            return true;
        }
        if i == last {
            return false;
        }
        i = i + 1;
    }
}

pub fn white_space(c: char) -> (r: bool)
    ensures
        r == is_white_space(c),
{
    ('\u{9}' <= c && c <= '\u{d}') || c == '\u{20}' || c == '\u{85}' || c == '\u{a0}' || c
        == '\u{1680}' || ('\u{2000}' <= c && c <= '\u{200a}') || c == '\u{2028}' || c == '\u{2029}' || c
        == '\u{202f}' || c == '\u{205f}' || c == '\u{3000}'
}

pub fn trim(s: &str) -> (r: String)
    ensures
        r@ == trimmed(s@),
{
    let x = chars_of(s);
    let mut i: usize = 0;
    assert(x@.subrange(0, x@.len() as int) =~= x@);
    while i < x.len() && white_space(x[i])
        invariant
            i <= x.len(),
            x@ == s@,
            trimmed_start(x@.subrange(i as int, x@.len() as int)) == trimmed_start(s@),
        decreases x.len() - i,
    {
        assert(x@.subrange(i as int, x@.len() as int).drop_first() =~= x@.subrange(
            i as int + 1,
            x@.len() as int,
        ));
        i = i + 1;
    }
    let mut j: usize = x.len();
    while j > i && white_space(x[j - 1])
        invariant
            i <= j <= x.len(),
            x@ == s@,
            trimmed_end(x@.subrange(i as int, j as int)) == trimmed(s@),
        decreases j,
    {
        assert(x@.subrange(i as int, j as int).drop_last() =~= x@.subrange(i as int, j as int - 1));
        j = j - 1;
    }
    string_of(&x, i, j)
}

pub fn is_blank(s: &str) -> (r: bool)
    ensures
        r == is_blank_text(s@),
{
    trim(s).as_str().is_empty()
}

fn digit(d: u64) -> (r: char)
    requires
        d < 10,
    ensures
        r == digit_char(d as nat),
{
    if d == 0 {
        '0'
    } else if d == 1 {
        '1'
    } else if d == 2 {
        '2'
    } else if d == 3 {
        '3'
    } else if d == 4 {
        '4'
    } else if d == 5 {
        '5'
    } else if d == 6 {
        '6'
    } else if d == 7 {
        '7'
    } else if d == 8 {
        '8'
    } else {
        '9'
    }
}

pub fn decimal_of(n: u64) -> (r: String)
    ensures
        r@ == decimal(n as nat),
    decreases n,
{
    let mut r = if n < 10 {
        String::new()
    } else {
        decimal_of(n / 10)
    };
    r.push(digit(n % 10));
    assert(n < 10 ==> r@ =~= decimal(n as nat));
    r
}

pub fn decimal_of_signed(n: i64) -> (r: String)
    ensures
        r@ == decimal_int(n as int),
{
    if n < 0 {
        let magnitude: u64 = if n == i64::MIN {
            0x8000_0000_0000_0000
        } else {
            (-n) as u64
        };
        let mut r = String::new();
        r.push('-');
        r.append(decimal_of(magnitude).as_str());
        assert(r@ =~= decimal_int(n as int));
        r
    } else {
        decimal_of(n as u64)
    }
}

pub fn two_digits_of(n: usize) -> (r: String)
    ensures
        r@ == two_digits(n as nat),
{
    if n < 10 {
        let mut r = String::new();
        r.push('0');
        r.push(digit(n as u64));
        assert(r@ =~= two_digits(n as nat));
        r
    } else {
        decimal_of(n as u64)
    }
}

pub fn join(parts: &Vec<String>, separator: &str) -> (r: String)
    ensures
        r@ == joined(texts(parts@), separator@),
{
    let mut r = String::new();
    let mut i: usize = 0;
    while i < parts.len()
        invariant
            i <= parts.len(),
            r@ == joined(texts(parts@).subrange(0, i as int), separator@),
        decreases parts.len() - i,
    {
        let ghost next = texts(parts@).subrange(0, i as int + 1);
        if i > 0 {
            r.append(separator);
        }
        r.append(parts[i].as_str());
        proof {
            assert(next.drop_last() =~= texts(parts@).subrange(0, i as int));
            assert(next.last() == parts@[i as int]@);
            if i == 0 {
                assert(r@ =~= parts@[0]@);
            }
        }
        i = i + 1;
    }
    assert(texts(parts@).subrange(0, parts@.len() as int) =~= texts(parts@));
    r
}

pub fn first_chars(s: &str, n: usize) -> (r: String)
    ensures
        r@ == first_of(s@, n as int),
{
    let x = chars_of(s);
    let to: usize = if x.len() <= n {
        x.len()
    } else {
        n
    };
    assert(x@.subrange(0, x@.len() as int) =~= x@);
    string_of(&x, 0, to)
}

/// A copy of a list of strings.
pub fn copy_texts(items: &Vec<String>) -> (r: Vec<String>)
    ensures
        r@ == items@,
{
    let mut r: Vec<String> = Vec::new();
    let mut i: usize = 0;
    while i < items.len()
        invariant
            i <= items.len(),
            r@ == items@.subrange(0, i as int),
        decreases items.len() - i,
    {
        r.push(items[i].clone());
        i = i + 1;
        assert(r@ =~= items@.subrange(0, i as int));
    }
    assert(items@.subrange(0, items@.len() as int) =~= items@);
    r
}

/// How many bytes a character takes in UTF-8.
pub open spec fn utf8_len(c: char) -> nat {
    if c <= '\u{7f}' {
        1
    } else if c <= '\u{7ff}' {
        2
    } else if c <= '\u{ffff}' {
        3
    } else {
        4
    }
}

/// How many bytes a text takes in UTF-8.
pub open spec fn byte_len(s: Seq<char>) -> nat
    decreases s.len(),
{
    if s.len() == 0 {
        0
    } else {
        byte_len(s.drop_last()) + utf8_len(s.last())
    }
}

/// The part of a text that takes its first `n` bytes, if a character ends there.
pub open spec fn byte_prefix(s: Seq<char>, n: nat) -> Option<Seq<char>> {
    if exists|k: int| 0 <= k <= s.len() && byte_len(#[trigger] s.subrange(0, k)) == n {
        Some(s.subrange(0, choose|k: int|
            0 <= k <= s.len() && byte_len(#[trigger] s.subrange(0, k)) == n))
    } else {
        None
    }
}

proof fn lemma_byte_len_grows(s: Seq<char>, j: int, k: int)
    requires
        0 <= j <= k <= s.len(),
    ensures
        byte_len(s.subrange(0, j)) + (k - j) <= byte_len(s.subrange(0, k)) <= byte_len(
            s.subrange(0, j),
        ) + 4 * (k - j),
    decreases k - j,
{
    if j < k {
        lemma_byte_len_grows(s, j, k - 1);
        assert(s.subrange(0, k).drop_last() =~= s.subrange(0, k - 1));
    }
}

fn char_bytes(c: char) -> (r: usize)
    ensures
        r == utf8_len(c),
{
    if c <= '\u{7f}' {
        1
    } else if c <= '\u{7ff}' {
        2
    } else if c <= '\u{ffff}' {
        3
    } else {
        4
    }
}

/// How many bytes a text takes, as far as a number can hold it.
pub fn count_bytes(s: &str) -> (r: usize)
    ensures
        r == if byte_len(s@) > usize::MAX {
            usize::MAX as int
        } else {
            byte_len(s@) as int
        },
{
    let chars = chars_of(s);
    let mut n: usize = 0;
    let mut i: usize = 0;
    assert(s@.subrange(0, 0) =~= Seq::empty());
    while i < chars.len()
        invariant
            i <= chars.len(),
            chars@ == s@,
            n == if byte_len(s@.subrange(0, i as int)) > usize::MAX {
                usize::MAX as int
            } else {
                byte_len(s@.subrange(0, i as int)) as int
            },
        decreases chars.len() - i,
    {
        assert(s@.subrange(0, i as int + 1).drop_last() =~= s@.subrange(0, i as int));
        n = n.saturating_add(char_bytes(chars[i]));
        i = i + 1;
    }
    assert(s@.subrange(0, s@.len() as int) =~= s@);
    n
}

/// The first `n` bytes of a text, if a character ends there.
pub fn first_bytes(s: &str, n: usize) -> (r: Option<String>)
    requires
        n <= usize::MAX - 4,
    ensures
        r is Some <==> byte_prefix(s@, n as nat) is Some,
        r matches Some(p) ==> byte_prefix(s@, n as nat) == Some(p@),
{
    let chars = chars_of(s);
    let mut bytes: usize = 0;
    let mut i: usize = 0;
    assert(s@.subrange(0, 0) =~= Seq::empty());
    while i < chars.len() && bytes < n
        invariant
            i <= chars.len(),
            n <= usize::MAX - 4,
            chars@ == s@,
            bytes == byte_len(s@.subrange(0, i as int)),
            bytes < n + 4,
            forall|k: int| 0 <= k < i ==> byte_len(#[trigger] s@.subrange(0, k)) < n,
        decreases chars.len() - i,
    {
        assert(s@.subrange(0, i as int + 1).drop_last() =~= s@.subrange(0, i as int));
        bytes = bytes + char_bytes(chars[i]);
        i = i + 1;
    }
    if bytes == n {
        proof {
            assert(byte_len(s@.subrange(0, i as int)) == n);
            let k = choose|k: int| 0 <= k <= s@.len() && byte_len(#[trigger] s@.subrange(0, k)) == n;
            if k < i {
                lemma_byte_len_grows(s@, k, i as int);
            } else {
                lemma_byte_len_grows(s@, i as int, k);
            }
            assert(k == i);
        }
        Some(string_of(&chars, 0, i))
    } else {
        proof {
            assert forall|k: int| 0 <= k <= s@.len() implies byte_len(
                #[trigger] s@.subrange(0, k),
            ) != n by {
                if k > i {
                    lemma_byte_len_grows(s@, i as int, k);
                }
            }
        }
        None
    }
}

/// A text in lower case.
pub uninterp spec fn lowercase(s: Seq<char>) -> Seq<char>;

/// `str::to_lowercase`: the text with each character in lower case, as Unicode has it. The contract
/// names the text, as a function of the characters.
#[verifier::external_body]
pub(crate) fn lower(s: &str) -> (r: String)
    ensures
        r@ == lowercase(s@),
{
    s.to_lowercase()
}

/// Different numbers have different decimal digits.
pub proof fn lemma_decimal_distinct(a: nat, b: nat)
    requires
        decimal(a) == decimal(b),
    ensures
        a == b,
    decreases a,
{
    assert(decimal(a).last() == digit_char(a % 10)) by {
        if a < 10 {
            assert(a % 10 == a);
        }
    }
    assert(decimal(b).last() == digit_char(b % 10)) by {
        if b < 10 {
            assert(b % 10 == b);
        }
    }
    assert(a % 10 == b % 10);
    if a >= 10 && b >= 10 {
        assert(decimal(a).drop_last() =~= decimal(a / 10));
        assert(decimal(b).drop_last() =~= decimal(b / 10));
        lemma_decimal_distinct(a / 10, b / 10);
    } else {
        lemma_decimal_len(a);
        lemma_decimal_len(b);
    }
}

proof fn lemma_decimal_len(n: nat)
    ensures
        decimal(n).len() >= 1,
        n >= 10 ==> decimal(n).len() >= 2,
    decreases n,
{
    if n >= 10 {
        lemma_decimal_len(n / 10);
    }
}

} // verus!
