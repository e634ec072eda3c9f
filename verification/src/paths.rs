//! Paths as sequences of components.

use vstd::prelude::*;
use vstd::string::*;

use crate::error::{failure, outcome, AgentError, Outcome};
use crate::model::group_views;
use crate::text::{
    ascii_lowered, join, joined, same, split, split_parts, starts_with, starts_with_text, texts,
    to_ascii_lower,
};

verus! {

pub open spec fn is_absolute_path(path: Seq<char>) -> bool {
    path.len() > 0 && path[0] == '/'
}

/// Empty segments do not count, nor does a dot, unless a relative path begins with it.
pub open spec fn counts(segments: Seq<Seq<char>>, i: int) -> bool {
    segments[i].len() > 0 && (segments[i] != "."@ || i == 0)
}

/// Those of the first `n` segments that count.
pub open spec fn counted(segments: Seq<Seq<char>>, n: int) -> Seq<Seq<char>>
    decreases n,
{
    if n <= 0 {
        Seq::empty()
    } else if counts(segments, n - 1) {
        counted(segments, n - 1).push(segments[n - 1])
    } else {
        counted(segments, n - 1)
    }
}

/// The components of a path, the root first if it is absolute.
pub open spec fn components(path: Seq<char>) -> Seq<Seq<char>> {
    let segments = split_parts(path, '/');
    (if is_absolute_path(path) {
        seq!["/"@]
    } else {
        Seq::empty()
    }) + counted(segments, segments.len() as int)
}

pub open spec fn is_prefix(a: Seq<Seq<char>>, b: Seq<Seq<char>>) -> bool {
    a.len() <= b.len() && b.subrange(0, a.len() as int) == a
}

/// One path is the other, or lies below it.
pub open spec fn overlap(a: Seq<char>, b: Seq<char>) -> bool {
    is_prefix(components(a), components(b)) || is_prefix(components(b), components(a))
}

/// Overlapping is mutual, and every path overlaps itself.
pub proof fn law_overlap_is_mutual(a: Seq<char>, b: Seq<char>)
    ensures
        overlap(a, b) == overlap(b, a),
        overlap(a, a),
{
    assert(components(a).subrange(0, components(a).len() as int) =~= components(a));
}

/// The text of a path as leases and conflicts compare it.
pub open spec fn normalized_text(path: Seq<char>, fold_case: bool) -> Seq<char> {
    if fold_case {
        ascii_lowered(path)
    } else {
        path
    }
}

/// Where the file system does not tell cases apart, `fold_case` folds them.
pub fn normalized(path: &str, fold_case: bool) -> (r: String)
    ensures
        r@ == normalized_text(path@, fold_case),
{
    if fold_case {
        to_ascii_lower(path)
    } else {
        path.to_owned()
    }
}

pub fn components_of(path: &str) -> (r: Vec<String>)
    ensures
        texts(r@) == components(path@),
{
    broadcast use group_views;

    let segments = split(path, '/');
    let mut r: Vec<String> = Vec::new();
    assert(texts(r@) =~= Seq::empty());
    if is_absolute(path) {
        r.push("/".to_owned());
    }
    let ghost root = texts(r@);
    let ghost all = texts(segments@);
    let mut i: usize = 0;
    assert(root + counted(all, 0) =~= root);
    while i < segments.len()
        invariant
            i <= segments.len(),
            all == texts(segments@),
            texts(r@) == root + counted(all, i as int),
        decreases segments.len() - i,
    {
        broadcast use group_views;

        assert(all[i as int] == segments@[i as int]@);
        if counts_at(&segments, i) {
            r.push(segments[i].clone());
        }
        i = i + 1;
        assert(texts(r@) =~= root + counted(all, i as int));
    }
    assert(root =~= if is_absolute_path(path@) {
        seq!["/"@]
    } else {
        Seq::empty()
    });
    r
}

fn is_prefix_of(a: &Vec<String>, b: &Vec<String>) -> (r: bool)
    ensures
        r == is_prefix(texts(a@), texts(b@)),
{
    if a.len() > b.len() {
        return false;
    }
    let mut i: usize = 0;
    while i < a.len()
        invariant
            i <= a.len() <= b.len(),
            forall|k: int| 0 <= k < i ==> (#[trigger] a@[k])@ == b@[k]@,
        decreases a.len() - i,
    {
        if a[i] != b[i] {
            assert(texts(b@).subrange(0, a@.len() as int)[i as int] != texts(a@)[i as int]);
            return false;
        }
        i = i + 1;
    }
    assert(texts(b@).subrange(0, a@.len() as int) =~= texts(a@));
    true
}

pub fn paths_overlap(left: &str, right: &str) -> (r: bool)
    ensures
        r == overlap(left@, right@),
{
    let a = components_of(left);
    let b = components_of(right);
    is_prefix_of(&a, &b) || is_prefix_of(&b, &a)
}

/// The place of the segment after the first `n` of those that count, from `i` on; the end if there is
/// none.
pub open spec fn place_after(segments: Seq<Seq<char>>, n: int, i: int) -> int
    decreases segments.len() - i,
{
    if i >= segments.len() {
        segments.len() as int
    } else if !counts(segments, i) {
        place_after(segments, n, i + 1)
    } else if n <= 0 {
        i
    } else {
        place_after(segments, n - 1, i + 1)
    }
}

/// The place behind the last of the first `n` segments that counts.
pub open spec fn place_behind(segments: Seq<Seq<char>>, n: int) -> int
    decreases n,
{
    if n <= 0 {
        0
    } else if counts(segments, n - 1) {
        n
    } else {
        place_behind(segments, n - 1)
    }
}

/// What is left of a path without its first `n` components, as it is written: from the first segment
/// that is left to the last one that counts.
pub open spec fn path_rest(path: Seq<char>, n: int) -> Seq<char> {
    let segments = split_parts(path, '/');
    let from = place_after(
        segments,
        if is_absolute_path(path) && n > 0 {
            n - 1
        } else {
            n
        },
        0,
    );
    let to = place_behind(segments, segments.len() as int);
    if from < to {
        joined(segments.subrange(from, to), "/"@)
    } else {
        Seq::empty()
    }
}

/// A path with more of a path below it.
pub open spec fn path_below(base: Seq<char>, rest: Seq<char>) -> Seq<char> {
    if rest.len() == 0 || base.len() == 0 || base.last() == '/' {
        base + rest
    } else {
        base + "/"@ + rest
    }
}

/// The path to be leased. `joined` is the path that is to be written, `existing` the longest part
/// of it that exists, and `canonical` that part without links. What does not exist is kept as it is
/// written.
pub open spec fn write_target(
    root: Seq<char>,
    joined: Seq<char>,
    existing: Seq<char>,
    canonical: Seq<char>,
) -> Outcome<Seq<char>> {
    if !is_prefix(components(root), components(canonical)) {
        failure("lease-path-outside-root"@, joined)
    } else if !is_prefix(components(existing), components(joined)) {
        failure("lease-path-invalid"@, joined)
    } else {
        Outcome::Done(path_below(canonical, path_rest(joined, components(existing).len() as int)))
    }
}

fn counts_at(segments: &Vec<String>, i: usize) -> (r: bool)
    requires
        i < segments@.len(),
    ensures
        r == counts(texts(segments@), i as int),
{
    broadcast use group_views;

    assert(texts(segments@)[i as int] == segments@[i as int]@);
    !segments[i].as_str().is_empty() && (i == 0 || !same(segments[i].as_str(), "."))
}

fn is_absolute(path: &str) -> (r: bool)
    ensures
        r == is_absolute_path(path@),
{
    proof {
        reveal_strlit("/");
    }
    assert(starts_with_text(path@, "/"@) == is_absolute_path(path@)) by {
        if path@.len() > 0 {
            assert(path@.subrange(0, 1) =~= seq![path@[0]]);
            assert("/"@ =~= seq!['/']);
            if path@[0] != '/' {
                assert(path@.subrange(0, 1)[0] != "/"@[0]);
            }
        }
    }
    starts_with(path, "/")
}

/// What is left of a path without its first `n` components.
fn rest_of(path: &str, n: usize) -> (r: String)
    ensures
        r@ == path_rest(path@, n as int),
{
    let segments = split(path, '/');
    let ghost all = texts(segments@);
    let absolute = is_absolute(path);
    let mut left: usize = if absolute && n > 0 {
        n - 1
    } else {
        n
    };
    let ghost first = left as int;
    let mut from: usize = 0;
    while from < segments.len() && (left > 0 || !counts_at(&segments, from))
        invariant
            from <= segments.len(),
            all == texts(segments@),
            place_after(all, first, 0) == place_after(all, left as int, from as int),
        decreases segments.len() - from,
    {
        if counts_at(&segments, from) {
            left = left - 1;
        }
        from = from + 1;
    }
    let mut to: usize = segments.len();
    while to > 0 && !counts_at(&segments, to - 1)
        invariant
            to <= segments.len(),
            all == texts(segments@),
            place_behind(all, all.len() as int) == place_behind(all, to as int),
        decreases to,
    {
        to = to - 1;
    }
    let mut kept: Vec<String> = Vec::new();
    let mut i: usize = from;
    assert(from < to ==> texts(kept@) =~= all.subrange(from as int, from as int));
    while i < to
        invariant
            from <= i,
            from < to ==> i <= to && texts(kept@) == all.subrange(from as int, i as int),
            from >= to ==> i == from,
            to <= segments.len(),
            all == texts(segments@),
        decreases to - i,
    {
        broadcast use group_views;

        kept.push(segments[i].clone());
        i = i + 1;
        assert(texts(kept@) =~= all.subrange(from as int, i as int));
    }
    if from < to {
        join(&kept, "/")
    } else {
        let r = String::new();
        assert(r@ =~= Seq::empty());
        r
    }
}

/// A write goes below the root, or not at all.
pub fn resolve_write(root: &str, joined: &str, existing: &str, canonical: &str) -> (r: Result<
    String,
    AgentError,
>)
    ensures
        outcome(r) == write_target(root@, joined@, existing@, canonical@),
{
    let root_parts = components_of(root);
    let canonical_parts = components_of(canonical);
    if !is_prefix_of(&root_parts, &canonical_parts) {
        return Err(AgentError::new("lease-path-outside-root", joined));
    }
    let joined_parts = components_of(joined);
    let existing_parts = components_of(existing);
    if !is_prefix_of(&existing_parts, &joined_parts) {
        return Err(AgentError::new("lease-path-invalid", joined));
    }
    let rest = rest_of(joined, existing_parts.len());
    let chars = crate::text::chars_of(canonical);
    let mut target = canonical.to_owned();
    if !rest.as_str().is_empty() && chars.len() > 0 && chars[chars.len() - 1] != '/' {
        target.append("/");
    }
    target.append(rest.as_str());
    Ok(target)
}

/// What comes behind a text leaves its segments as they are, but for the last one, which stays too if
/// another one begins behind it.
proof fn lemma_split_grows(a: Seq<char>, b: Seq<char>)
    ensures
        ({
            let before = split_parts(a, '/');
            let after = split_parts(a + b, '/');
            &&& 1 <= before.len() <= after.len()
            &&& forall|i: int| 0 <= i < before.len() - 1 ==> #[trigger] after[i] == before[i]
            &&& b.len() == 0 || b[0] == '/' ==> after[before.len() - 1] == before.last()
            &&& b.len() > 0 && b[0] == '/' ==> before.len() < after.len()
        }),
    decreases a.len() + b.len(),
{
    if b.len() == 0 {
        assert(a + b =~= a);
        if a.len() > 0 {
            lemma_split_grows(a.drop_last(), b);
            assert(a.drop_last() + b =~= a.drop_last());
        }
    } else {
        lemma_split_grows(a, b.drop_last());
        assert((a + b).drop_last() =~= a + b.drop_last());
        assert((a + b).last() == b.last());
        if b.len() > 1 {
            assert(b.drop_last()[0] == b[0]);
        }
    }
}

proof fn lemma_counted_alike(a: Seq<Seq<char>>, b: Seq<Seq<char>>, n: int)
    requires
        0 <= n <= a.len(),
        n <= b.len(),
        forall|i: int| 0 <= i < n ==> #[trigger] a[i] == b[i],
    ensures
        counted(a, n) == counted(b, n),
    decreases n,
{
    if n > 0 {
        lemma_counted_alike(a, b, n - 1);
        assert(a[n - 1] == b[n - 1]);
    }
}

proof fn lemma_counted_grows(segments: Seq<Seq<char>>, n: int, m: int)
    requires
        0 <= n <= m,
    ensures
        is_prefix(counted(segments, n), counted(segments, m)),
    decreases m - n,
{
    let shorter = counted(segments, n);
    if n == m {
        assert(shorter.subrange(0, shorter.len() as int) =~= shorter);
    } else {
        lemma_counted_grows(segments, n, m - 1);
        let longer = counted(segments, m - 1);
        assert(longer.push(segments[m - 1]).subrange(0, shorter.len() as int) =~= longer.subrange(
            0,
            shorter.len() as int,
        ));
    }
}

/// What is put below a path lies below it.
proof fn lemma_below(base: Seq<char>, rest: Seq<char>)
    ensures
        is_prefix(components(base), components(path_below(base, rest))),
{
    let target = path_below(base, rest);
    reveal_strlit("/");
    let added = if rest.len() == 0 || base.len() == 0 || base.last() == '/' {
        rest
    } else {
        "/"@ + rest
    };
    assert(target =~= base + added);
    let before = split_parts(base, '/');
    let after = split_parts(target, '/');
    lemma_split_grows(base, added);
    let n: int = if added.len() == 0 || added[0] == '/' {
        before.len() as int
    } else {
        before.len() - 1
    };
    assert(counted(before, before.len() as int) == counted(before, n)) by {
        if n < before.len() {
            assert(before.last().len() == 0);
        }
    }
    assert forall|i: int| 0 <= i < n implies #[trigger] before[i] == after[i] by {
        assert(after[i] == before[i]);
    }
    lemma_counted_alike(before, after, n);
    lemma_counted_grows(after, n, after.len() as int);
    let few = components(base);
    let many = components(target);
    if base.len() == 0 {
        reveal_with_fuel(counted, 2);
        assert(few =~= Seq::empty());
        assert(many.subrange(0, 0) =~= few);
    } else {
        assert(is_absolute_path(target) == is_absolute_path(base));
        let root: Seq<Seq<char>> = if is_absolute_path(base) {
            seq!["/"@]
        } else {
            Seq::empty()
        };
        let c = counted(before, n);
        let d = counted(after, after.len() as int);
        assert(few =~= root + c);
        assert(many =~= root + d);
        assert((root + d).subrange(0, (root + c).len() as int) =~= root + d.subrange(
            0,
            c.len() as int,
        ));
    }
}

/// What may be written lies below the root.
pub proof fn law_writes_stay_below_the_root(
    root: Seq<char>,
    joined: Seq<char>,
    existing: Seq<char>,
    canonical: Seq<char>,
)
    ensures
        write_target(root, joined, existing, canonical) matches Outcome::Done(path) ==> is_prefix(
            components(root),
            components(path),
        ),
{
    let rest = path_rest(joined, components(existing).len() as int);
    lemma_below(canonical, rest);
    let a = components(root);
    let b = components(canonical);
    let c = components(path_below(canonical, rest));
    if is_prefix(a, b) {
        assert(c.subrange(0, a.len() as int) =~= b.subrange(0, a.len() as int)) by {
            assert forall|i: int| 0 <= i < a.len() implies c[i] == b[i] by {
                assert(c.subrange(0, b.len() as int)[i] == c[i]);
            }
        }
    }
}

} // verus!
