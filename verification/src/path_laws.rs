//! What paths are made of, and that what may be written is what was asked for, without links.

use vstd::prelude::*;

use crate::error::Outcome;
use crate::paths::{
    components, counted, counts, is_absolute_path, is_prefix, overlap, path_below, path_rest,
    place_after, place_behind, write_target,
};
use crate::text::{joined, split_parts};
use crate::text_laws::law_split_parts_join_again;

verus! {

/// A segment that is a name.
pub open spec fn is_name() -> spec_fn(Seq<char>) -> bool {
    |segment: Seq<char>| segment.len() > 0 && segment != "."@
}

proof fn lemma_counted(segments: Seq<Seq<char>>, n: int)
    requires
        0 < n <= segments.len(),
    ensures
        counted(segments, n) == (if counts(segments, 0) {
            seq![segments[0]]
        } else {
            Seq::empty()
        }) + segments.subrange(1, n).filter(is_name()),
    decreases n,
{
    reveal(Seq::filter);
    let first = if counts(segments, 0) {
        seq![segments[0]]
    } else {
        Seq::empty()
    };
    if n == 1 {
        assert(counted(segments, 0) =~= Seq::<Seq<char>>::empty());
        assert(segments.subrange(1, 1).filter(is_name()) =~= Seq::<Seq<char>>::empty());
        assert(counted(segments, 1) =~= first + Seq::<Seq<char>>::empty());
    } else {
        lemma_counted(segments, n - 1);
        let all = segments.subrange(1, n);
        assert(all.drop_last() =~= segments.subrange(1, n - 1));
        assert(all.last() == segments[n - 1]);
        assert(counted(segments, n) =~= first + all.filter(is_name()));
    }
}

proof fn lemma_split_not_empty(s: Seq<char>)
    ensures
        split_parts(s, '/').len() > 0,
        s.len() > 0 && s[0] == '/' ==> split_parts(s, '/').len() > 1 && split_parts(s, '/')[0].len()
            == 0,
        s.len() > 0 && s[0] != '/' ==> split_parts(s, '/')[0].len() > 0,
    decreases s.len(),
{
    reveal_with_fuel(split_parts, 2);
    if s.len() > 1 {
        lemma_split_not_empty(s.drop_last());
    }
}

/// The components of a path from the root are the root and the names in it, in their order; those of
/// another path are what it begins with, be it a dot, and the names behind it.
pub proof fn law_paths_are_made_of_names(path: Seq<char>)
    ensures
        ({
            let parts = split_parts(path, '/');
            let n = parts.len() as int;
            &&& n > 0
            &&& is_absolute_path(path) ==> components(path) == seq!["/"@] + parts.filter(is_name())
            &&& !is_absolute_path(path) && path.len() > 0 ==> components(path) == seq![parts[0]]
                + parts.subrange(1, n).filter(is_name())
            &&& path.len() == 0 ==> components(path).len() == 0
        }),
{
    let parts = split_parts(path, '/');
    let n = parts.len() as int;
    lemma_split_not_empty(path);
    lemma_counted(parts, n);
    if is_absolute_path(path) {
        assert(!counts(parts, 0));
        assert(parts =~= seq![parts[0]] + parts.subrange(1, n));
        Seq::filter_distributes_over_add(seq![parts[0]], parts.subrange(1, n), is_name());
        assert(seq![parts[0]].filter(is_name()) =~= Seq::<Seq<char>>::empty()) by {
            reveal(Seq::filter);
            assert(seq![parts[0]].drop_last() =~= Seq::<Seq<char>>::empty());
            assert(seq![parts[0]].drop_last().filter(is_name()) =~= Seq::<Seq<char>>::empty());
        }
        assert(components(path) =~= seq!["/"@] + parts.filter(is_name()));
    } else if path.len() > 0 {
        assert(counts(parts, 0));
        assert(components(path) =~= seq![parts[0]] + parts.subrange(1, n).filter(is_name()));
    } else {
        assert(parts =~= seq![Seq::<char>::empty()]);
        assert(!counts(parts, 0));
        assert(parts.subrange(1, n) =~= Seq::<Seq<char>>::empty());
        assert(parts.subrange(1, n).filter(is_name()) =~= Seq::<Seq<char>>::empty()) by {
            reveal(Seq::filter);
        }
    }
}

proof fn lemma_split_around(a: Seq<char>, b: Seq<char>)
    ensures
        split_parts(a + seq!['/'] + b, '/') == split_parts(a, '/') + split_parts(b, '/'),
    decreases b.len(),
{
    let all = a + seq!['/'] + b;
    lemma_split_not_empty(a);
    lemma_split_not_empty(b);
    if b.len() == 0 {
        assert(all.drop_last() =~= a);
        assert(split_parts(all, '/') =~= split_parts(a, '/') + split_parts(b, '/'));
    } else {
        lemma_split_around(a, b.drop_last());
        lemma_split_not_empty(b.drop_last());
        assert(all.drop_last() =~= a + seq!['/'] + b.drop_last());
        assert(all.last() == b.last());
        assert(split_parts(all, '/') =~= split_parts(a, '/') + split_parts(b, '/'));
    }
}

proof fn lemma_split_joined(parts: Seq<Seq<char>>)
    requires
        parts.len() > 0,
        forall|i: int| 0 <= i < parts.len() ==> !(#[trigger] parts[i]).contains('/'),
    ensures
        split_parts(joined(parts, "/"@), '/') == parts,
    decreases parts.len(),
{
    reveal_strlit("/");
    assert("/"@ =~= seq!['/']);
    lemma_split_one(parts.last());
    if parts.len() == 1 {
        assert(parts =~= seq![parts[0]]);
    } else {
        let before = parts.drop_last();
        lemma_split_joined(before);
        lemma_split_around(joined(before, "/"@), parts.last());
        assert(parts =~= before + seq![parts.last()]);
    }
}

proof fn lemma_split_one(s: Seq<char>)
    requires
        !s.contains('/'),
    ensures
        split_parts(s, '/') == seq![s],
    decreases s.len(),
{
    if s.len() > 0 {
        let before = s.drop_last();
        assert forall|i: int| 0 <= i < before.len() implies before[i] != '/' by {
            assert(s[i] == before[i]);
            assert(s.contains(s[i]));
        }
        lemma_split_one(before);
        assert(s.contains(s[s.len() - 1]));
        assert(before.push(s.last()) =~= s);
        assert(split_parts(s, '/') =~= seq![s]);
    } else {
        assert(s =~= Seq::<char>::empty());
    }
}

/// A name below a path is one component more, and a slash or a dot behind it none.
pub proof fn law_names_below_a_path_come_last(base: Seq<char>, name: Seq<char>)
    requires
        base.len() > 0,
        name.len() > 0,
        name != "."@,
        !name.contains('/'),
    ensures
        components(base + seq!['/'] + name) == components(base) + seq![name],
        components(base + seq!['/']) == components(base),
        components(base + seq!['/'] + "."@) == components(base),
{
    reveal(Seq::filter);
    reveal_strlit(".");
    lemma_components_around(base, name);
    lemma_components_around(base, Seq::empty());
    lemma_components_around(base, "."@);
    lemma_split_one(name);
    lemma_split_one(Seq::empty());
    lemma_split_one("."@);
    assert(base + seq!['/'] + Seq::<char>::empty() =~= base + seq!['/']);
    lemma_filter_one(name);
    lemma_filter_one(Seq::empty());
    lemma_filter_one("."@);
    assert(components(base) + Seq::<Seq<char>>::empty() =~= components(base));
}

proof fn lemma_filter_one(x: Seq<char>)
    ensures
        seq![x].filter(is_name()) == if is_name()(x) {
            seq![x]
        } else {
            Seq::empty()
        },
{
    reveal(Seq::filter);
    assert(seq![x].drop_last() =~= Seq::<Seq<char>>::empty());
    assert(seq![x].drop_last().filter(is_name()) =~= Seq::<Seq<char>>::empty());
    if is_name()(x) {
        assert(seq![x].filter(is_name()) =~= seq![x]);
    }
}

proof fn lemma_components_around(base: Seq<char>, rest: Seq<char>)
    requires
        base.len() > 0,
    ensures
        components(base + seq!['/'] + rest) == components(base) + split_parts(rest, '/').filter(
            is_name(),
        ),
{
    let all = base + seq!['/'] + rest;
    let a = split_parts(base, '/');
    let b = split_parts(rest, '/');
    lemma_split_around(base, rest);
    lemma_split_not_empty(base);
    law_paths_are_made_of_names(base);
    law_paths_are_made_of_names(all);
    assert(all[0] == base[0]);
    if is_absolute_path(base) {
        Seq::filter_distributes_over_add(a, b, is_name());
        assert(components(all) =~= components(base) + b.filter(is_name()));
    } else {
        let n = a.len() as int;
        assert((a + b).subrange(1, (a + b).len() as int) =~= a.subrange(1, n) + b);
        Seq::filter_distributes_over_add(a.subrange(1, n), b, is_name());
        assert(components(all) =~= components(base) + b.filter(is_name()));
    }
}

proof fn lemma_after(segments: Seq<Seq<char>>, k: int, i: int)
    requires
        1 <= i <= segments.len(),
        k >= 0,
    ensures
        ({
            let f = place_after(segments, k, i);
            let n = segments.len() as int;
            let all = segments.subrange(i, n).filter(is_name());
            &&& i <= f <= n
            &&& segments.subrange(f, n).filter(is_name()) == if k <= all.len() {
                all.skip(k)
            } else {
                Seq::empty()
            }
        }),
    decreases segments.len() - i,
{
    let n = segments.len() as int;
    let f = place_after(segments, k, i);
    let all = segments.subrange(i, n).filter(is_name());
    if i >= n {
        assert(segments.subrange(i, n) =~= Seq::<Seq<char>>::empty());
        assert(all =~= Seq::<Seq<char>>::empty()) by {
            reveal(Seq::filter);
        }
        assert(k <= all.len() ==> all.skip(k) =~= Seq::<Seq<char>>::empty());
    } else {
        let rest = segments.subrange(i + 1, n);
        assert(segments.subrange(i, n) =~= seq![segments[i]] + rest);
        Seq::filter_distributes_over_add(seq![segments[i]], rest, is_name());
        lemma_filter_one(segments[i]);
        if !counts(segments, i) {
            lemma_after(segments, k, i + 1);
            assert(all =~= rest.filter(is_name()));
        } else if k <= 0 {
            assert(all.skip(0) =~= all);
        } else {
            lemma_after(segments, k - 1, i + 1);
            let fewer = rest.filter(is_name());
            assert(all =~= seq![segments[i]] + fewer);
            assert(k <= all.len() ==> all.skip(k) =~= fewer.skip(k - 1));
        }
    }
}

proof fn lemma_behind(segments: Seq<Seq<char>>, n: int)
    requires
        0 <= n <= segments.len(),
    ensures
        0 <= place_behind(segments, n) <= n,
        forall|j: int| place_behind(segments, n) <= j < n ==> !(#[trigger] counts(segments, j)),
    decreases n,
{
    if n > 0 && !counts(segments, n - 1) {
        lemma_behind(segments, n - 1);
    }
}

proof fn lemma_no_names(segments: Seq<Seq<char>>)
    requires
        forall|j: int| 0 <= j < segments.len() ==> !is_name()(#[trigger] segments[j]),
    ensures
        segments.filter(is_name()) == Seq::<Seq<char>>::empty(),
    decreases segments.len(),
{
    reveal(Seq::filter);
    if segments.len() > 0 {
        lemma_no_names(segments.drop_last());
        assert(!is_name()(segments[segments.len() - 1]));
    }
}

/// What may be written has the components of the part that exists, without links, and behind them all
/// those of what was asked for that do not exist yet, in their order. It is refused if the part that
/// exists is not below the root, or is no part of what was asked for.
pub proof fn law_what_may_be_written_is_what_was_asked_for(
    root: Seq<char>,
    asked: Seq<char>,
    existing: Seq<char>,
    canonical: Seq<char>,
)
    requires
        is_absolute_path(asked),
        is_absolute_path(canonical),
        components(existing).len() > 0,
    ensures
        write_target(root, asked, existing, canonical) is Done <==> is_prefix(
            components(root),
            components(canonical),
        ) && is_prefix(components(existing), components(asked)),
        write_target(root, asked, existing, canonical) matches Outcome::Done(path) ==> components(
            path,
        ) == components(canonical) + components(asked).skip(components(existing).len() as int),
{
    if write_target(root, asked, existing, canonical) is Done {
        lemma_rest(asked, canonical, components(existing).len() as int);
    }
}

proof fn lemma_rest(asked: Seq<char>, canonical: Seq<char>, n: int)
    requires
        is_absolute_path(asked),
        is_absolute_path(canonical),
        1 <= n <= components(asked).len(),
    ensures
        components(path_below(canonical, path_rest(asked, n))) == components(canonical)
            + components(asked).skip(n),
{
    let segments = split_parts(asked, '/');
    let len = segments.len() as int;
    let k = n - 1;
    law_paths_are_made_of_names(asked);
    lemma_split_not_empty(asked);
    law_split_parts_join_again(asked, '/');
    assert(!counts(segments, 0));
    let from = place_after(segments, k, 0);
    assert(from == place_after(segments, k, 1));
    lemma_after(segments, k, 1);
    let to = place_behind(segments, len);
    lemma_behind(segments, len);
    let names = segments.filter(is_name());
    assert(segments =~= seq![segments[0]] + segments.subrange(1, len));
    Seq::filter_distributes_over_add(seq![segments[0]], segments.subrange(1, len), is_name());
    lemma_filter_one(segments[0]);
    assert(names =~= segments.subrange(1, len).filter(is_name()));
    assert(components(asked).skip(n) =~= names.skip(k));
    let rest = path_rest(asked, n);
    if from < to {
        let some = segments.subrange(from, to);
        let none = segments.subrange(to, len);
        assert(segments.subrange(from, len) =~= some + none);
        Seq::filter_distributes_over_add(some, none, is_name());
        assert forall|j: int| 0 <= j < none.len() implies !is_name()(#[trigger] none[j]) by {
            assert(!counts(segments, to + j));
        }
        lemma_no_names(none);
        assert(some.filter(is_name()) =~= names.skip(k));
        assert forall|j: int| 0 <= j < some.len() implies !(#[trigger] some[j]).contains('/') by {
            assert(some[j] == segments[from + j]);
        }
        lemma_split_joined(some);
        assert(rest == joined(some, "/"@));
        lemma_below(canonical, rest);
    } else {
        let none = segments.subrange(from, len);
        assert forall|j: int| 0 <= j < none.len() implies !is_name()(#[trigger] none[j]) by {
            assert(!counts(segments, from + j));
        }
        lemma_no_names(none);
        assert(names.skip(k) =~= Seq::<Seq<char>>::empty());
        assert(canonical + rest =~= canonical);
        assert(components(canonical) + names.skip(k) =~= components(canonical));
    }
}

proof fn lemma_below(canonical: Seq<char>, rest: Seq<char>)
    requires
        is_absolute_path(canonical),
    ensures
        components(path_below(canonical, rest)) == components(canonical) + split_parts(
            rest,
            '/',
        ).filter(is_name()),
{
    reveal_strlit("/");
    assert("/"@ =~= seq!['/']);
    let names = split_parts(rest, '/').filter(is_name());
    if rest.len() == 0 {
        assert(canonical + rest =~= canonical);
        lemma_split_one(rest);
        lemma_filter_one(rest);
        assert(components(canonical) + names =~= components(canonical));
    } else if canonical.last() == '/' {
        let base = canonical.drop_last();
        assert(canonical =~= base + seq!['/'] + Seq::<char>::empty());
        assert(canonical + rest =~= base + seq!['/'] + rest);
        lemma_split_around(base, rest);
        lemma_split_around(base, Seq::empty());
        lemma_split_one(Seq::empty());
        lemma_filter_one(Seq::empty());
        let a = split_parts(base, '/');
        law_paths_are_made_of_names(canonical);
        law_paths_are_made_of_names(canonical + rest);
        Seq::filter_distributes_over_add(a, split_parts(rest, '/'), is_name());
        Seq::filter_distributes_over_add(a, seq![Seq::<char>::empty()], is_name());
        assert((canonical + rest)[0] == canonical[0]);
        assert(a.filter(is_name()) + Seq::<Seq<char>>::empty() =~= a.filter(is_name()));
        assert(components(canonical + rest) =~= components(canonical) + names);
    } else {
        lemma_components_around(canonical, rest);
    }
}

/// A path overlaps what lies below it, and what it lies below, and nothing beside it.
pub proof fn law_paths_overlap_what_is_below(base: Seq<char>, name: Seq<char>, other: Seq<char>)
    requires
        base.len() > 0,
        name.len() > 0,
        name != "."@,
        !name.contains('/'),
        other.len() > 0,
        other != "."@,
        !other.contains('/'),
        name != other,
    ensures
        overlap(base, base + seq!['/'] + name),
        overlap(base + seq!['/'] + name, base),
        !overlap(base + seq!['/'] + name, base + seq!['/'] + other),
{
    law_names_below_a_path_come_last(base, name);
    law_names_below_a_path_come_last(base, other);
    let a = components(base);
    let x = a + seq![name];
    let y = a + seq![other];
    assert(x.subrange(0, a.len() as int) =~= a);
    assert(x.subrange(0, x.len() as int) =~= x);
    assert(y.subrange(0, y.len() as int) =~= y);
    assert(x[a.len() as int] != y[a.len() as int]);
}

} // verus!
