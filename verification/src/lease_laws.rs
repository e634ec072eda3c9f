//! What leases on files are for: what one run may write, no other run may write at the same time.

use vstd::prelude::*;

use crate::error::Outcome;
use crate::leases::{
    acquire_at, acquire_step, holds, last_fence, leases_ok, live, place_of_path, without, LeaseView,
    SiteView,
};
use crate::paths::{
    components, is_prefix, law_overlap_is_mutual, overlap, write_target,
};
use crate::text::ascii_lowered;
use crate::turn_laws::held_at;

verus! {

/// A lease that has not ended.
pub open spec fn lasts(now: i64) -> spec_fn(LeaseView) -> bool {
    |lease: LeaseView| lease.expires_at_millis > now
}

/// A run other than the owner holds a lease that has not ended on the path, on something below it or
/// on something above it.
pub open spec fn is_taken(
    rows: Seq<LeaseView>,
    path: Seq<char>,
    owner: Seq<char>,
    now: i64,
) -> bool {
    exists|i: int|
        0 <= i < rows.len() && (#[trigger] rows[i]).owner_run != owner && rows[i].expires_at_millis
            > now && (is_prefix(components(rows[i].path), components(path)) || is_prefix(
            components(path),
            components(rows[i].path),
        ))
}

proof fn lemma_live_is_what_lasts(rows: Seq<LeaseView>, now: i64)
    ensures
        live(rows, now) == rows.filter(lasts(now)),
        forall|i: int|
            0 <= i < rows.len() && (#[trigger] rows[i]).expires_at_millis > now ==> live(
                rows,
                now,
            ).contains(rows[i]),
        forall|i: int|
            0 <= i < live(rows, now).len() ==> rows.contains(#[trigger] live(rows, now)[i]) && live(
                rows,
                now,
            )[i].expires_at_millis > now,
    decreases rows.len(),
{
    reveal(Seq::filter);
    if rows.len() > 0 {
        let less = rows.drop_last();
        lemma_live_is_what_lasts(less, now);
        let before = live(less, now);
        let all = live(rows, now);
        assert forall|i: int|
            0 <= i < rows.len() && (
            #[trigger] rows[i]).expires_at_millis > now implies all.contains(rows[i]) by {
            if i < less.len() {
                assert(less[i] == rows[i]);
                let k = before.index_of(less[i]);
                assert(all[k] == rows[i]);
            } else {
                assert(all[all.len() - 1] == rows[i]);
            }
        }
        assert forall|i: int| 0 <= i < all.len() implies rows.contains(#[trigger] all[i])
            && all[i].expires_at_millis > now by {
            if i < before.len() {
                assert(all[i] == before[i]);
                let k = less.index_of(before[i]);
                assert(rows[k] == all[i]);
            } else {
                assert(rows[rows.len() - 1] == all[i]);
            }
        }
    }
}

proof fn lemma_fences(rows: Seq<LeaseView>)
    ensures
        last_fence(rows) >= 0,
        forall|i: int| 0 <= i < rows.len() ==> (#[trigger] rows[i]).fence <= last_fence(rows),
        last_fence(rows) > 0 ==> exists|i: int|
            0 <= i < rows.len() && (#[trigger] rows[i]).fence == last_fence(rows),
    decreases rows.len(),
{
    if rows.len() > 0 {
        let less = rows.drop_last();
        lemma_fences(less);
        assert forall|i: int| 0 <= i < rows.len() implies (#[trigger] rows[i]).fence <= last_fence(
            rows,
        ) by {
            if i < less.len() {
                assert(less[i] == rows[i]);
            }
        }
        if last_fence(rows) > 0 {
            if rows.last().fence > last_fence(less) {
                assert(rows[rows.len() - 1].fence == last_fence(rows));
            } else {
                let i = choose|i: int|
                    0 <= i < less.len() && (#[trigger] less[i]).fence == last_fence(less);
                assert(rows[i] == less[i]);
            }
        }
    }
}

proof fn lemma_place(rows: Seq<LeaseView>, path: Seq<char>)
    ensures
        match place_of_path(rows, path) {
            Some(i) => 0 <= i < rows.len() && rows[i].path == path,
            None => forall|i: int| 0 <= i < rows.len() ==> (#[trigger] rows[i]).path != path,
        },
    decreases rows.len(),
{
    if rows.len() > 0 {
        lemma_place(rows.drop_last(), path);
        if place_of_path(rows, path) is None {
            assert forall|i: int| 0 <= i < rows.len() implies (#[trigger] rows[i]).path
                != path by {
                if i < rows.len() - 1 {
                    assert(rows.drop_last()[i] == rows[i]);
                }
            }
        }
    }
}

/// A path as it is compared: where the file system does not tell cases apart, in lower case.
pub open spec fn compared(path: Seq<char>, fold_case: bool) -> Seq<char> {
    if fold_case {
        ascii_lowered(path)
    } else {
        path
    }
}

/// A run is given a lease on a path unless another run holds one that has not ended on the path itself,
/// on something below it or on something above it. The lease is on the path that was asked for, lasts
/// as long as was asked for and at least a millisecond, and its fence is greater than that of every
/// lease that has not ended. A run that is refused changes nothing.
pub proof fn law_leases_keep_others_out(
    rows: Seq<LeaseView>,
    path: Seq<char>,
    fold_case: bool,
    owner: Seq<char>,
    now: i64,
    ttl: i64,
)
    ensures
        ({
            let key = compared(path, fold_case);
            let (after, result) = acquire_step(rows, path, fold_case, owner, now, ttl);
            &&& is_taken(rows, key, owner, now) ==> result is Failed
            &&& result matches Outcome::Failed(e) ==> {
                &&& after == rows
                &&& is_taken(rows, key, owner, now) ==> e.code == "file-lease-conflict"@ && e.message
                    == key
                &&& !is_taken(rows, key, owner, now) ==> exists|i: int|
                    0 <= i < rows.len() && (#[trigger] rows[i]).fence >= i64::MAX
            }
            &&& result matches Outcome::Done(lease) ==> {
                &&& lease.path == path
                &&& lease.owner_run == owner
                &&& lease.expires_at_millis == held_at(
                    i64::MAX as int,
                    now + if ttl > 1 {
                        ttl as int
                    } else {
                        1
                    },
                )
                &&& lease.fence >= 1
                &&& forall|i: int|
                    0 <= i < rows.len() && (#[trigger] rows[i]).expires_at_millis > now
                        ==> rows[i].fence < lease.fence
                &&& lease.fence == 1 || exists|i: int|
                    0 <= i < rows.len() && (#[trigger] rows[i]).expires_at_millis > now
                        && rows[i].fence + 1 == lease.fence
                &&& after.contains(LeaseView { path: key, ..lease })
                &&& forall|i: int|
                    0 <= i < rows.len() && (#[trigger] rows[i]).expires_at_millis > now
                        && rows[i].path != key ==> after.contains(rows[i])
                &&& forall|i: int|
                    0 <= i < after.len() && (#[trigger] after[i]) != (LeaseView {
                        path: key,
                        ..lease
                    }) ==> rows.contains(after[i]) && after[i].expires_at_millis > now
            }
        }),
{
    let key = compared(path, fold_case);
    let current = live(rows, now);
    let (after, result) = acquire_step(rows, path, fold_case, owner, now, ttl);
    lemma_live_is_what_lasts(rows, now);
    lemma_fences(current);
    lemma_place(current, key);
    let held = crate::leases::blocked(current, key, owner);
    if is_taken(rows, key, owner, now) {
        let i = choose|i: int|
            0 <= i < rows.len() && (#[trigger] rows[i]).owner_run != owner
                && rows[i].expires_at_millis > now && (is_prefix(
                components(rows[i].path),
                components(key),
            ) || is_prefix(components(key), components(rows[i].path)));
        let k = current.index_of(rows[i]);
        assert(current[k] == rows[i]);
        assert(overlap(current[k].path, key));
        assert(held);
    }
    if held {
        let k = choose|k: int|
            0 <= k < current.len() && (#[trigger] current[k]).owner_run != owner && overlap(
                current[k].path,
                key,
            );
        let i = rows.index_of(current[k]);
        assert(rows[i].owner_run != owner);
        assert(is_taken(rows, key, owner, now));
    }
    if last_fence(current) > 0 {
        let k = choose|k: int|
            0 <= k < current.len() && (#[trigger] current[k]).fence == last_fence(current);
        let i = rows.index_of(current[k]);
        assert(rows[i].fence == last_fence(current));
        assert(rows[i].expires_at_millis > now);
    }
    if let Outcome::Done(lease) = result {
        let row = LeaseView { path: key, ..lease };
        let at = match place_of_path(current, key) {
            Some(p) => p,
            None => current.len() as int,
        };
        assert(after[at] == row);
        assert forall|i: int|
            0 <= i < rows.len() && (#[trigger] rows[i]).expires_at_millis > now
                && rows[i].path != key implies after.contains(rows[i]) by {
            let k = current.index_of(rows[i]);
            assert(after[k] == rows[i]);
        }
        assert forall|i: int|
            0 <= i < rows.len() && (
            #[trigger] rows[i]).expires_at_millis > now implies rows[i].fence < lease.fence by {
            let k = current.index_of(rows[i]);
            assert(current[k].fence <= last_fence(current));
        }
        assert forall|i: int| 0 <= i < after.len() && (#[trigger] after[i]) != row implies rows.contains(
            after[i],
        ) && after[i].expires_at_millis > now by {
            assert(after[i] == current[i]);
        }
    }
}

/// A place outside the root is not leased to anybody, and one inside it is leased like its path.
pub proof fn law_only_what_is_below_the_root_is_leased(
    rows: Seq<LeaseView>,
    root: Seq<char>,
    site: SiteView,
    fold_case: bool,
    owner: Seq<char>,
    now: i64,
    ttl: i64,
)
    ensures
        ({
            let (after, result) = acquire_at(rows, root, site, fold_case, owner, now, ttl);
            &&& !is_prefix(components(root), components(site.canonical)) ==> after == rows
                && result is Failed
            &&& result matches Outcome::Done(lease) ==> is_prefix(
                components(root),
                components(lease.path),
            ) && (after, result) == acquire_step(rows, lease.path, fold_case, owner, now, ttl)
        }),
{
    crate::paths::law_writes_stay_below_the_root(
        root,
        site.joined,
        site.existing,
        site.canonical,
    );
    if let Outcome::Done(path) = write_target(root, site.joined, site.existing, site.canonical) {
        law_leases_keep_others_out(rows, path, fold_case, owner, now, ttl);
    }
}

/// A lease as it stands in the table: the same path as it is compared, the same owner and the same
/// fence.
pub open spec fn is_other(lease: LeaseView, fold_case: bool) -> spec_fn(LeaseView) -> bool {
    |row: LeaseView|
        !(row.path == compared(lease.path, fold_case) && row.owner_run == lease.owner_run
            && row.fence == lease.fence)
}

/// Releasing a lease takes that lease away and no other. Nothing is released that is not held by that
/// owner under that fence.
pub proof fn law_releasing_takes_one_lease(
    rows: Seq<LeaseView>,
    lease: LeaseView,
    fold_case: bool,
)
    ensures
        without(rows, lease, fold_case) == rows.filter(is_other(lease, fold_case)),
        holds(rows, lease, fold_case) <==> exists|i: int|
            0 <= i < rows.len() && (#[trigger] rows[i]).path == compared(lease.path, fold_case)
                && rows[i].owner_run == lease.owner_run && rows[i].fence == lease.fence,
    decreases rows.len(),
{
    reveal(Seq::filter);
    if rows.len() > 0 {
        law_releasing_takes_one_lease(rows.drop_last(), lease, fold_case);
    }
    if holds(rows, lease, fold_case) {
        let i = choose|i: int|
            0 <= i < rows.len() && crate::leases::is_held(#[trigger] rows[i], lease, fold_case);
        assert(rows[i].path == compared(lease.path, fold_case));
    }
    if exists|i: int|
        0 <= i < rows.len() && (#[trigger] rows[i]).path == compared(lease.path, fold_case)
            && rows[i].owner_run == lease.owner_run && rows[i].fence == lease.fence {
        let i = choose|i: int|
            0 <= i < rows.len() && (#[trigger] rows[i]).path == compared(lease.path, fold_case)
                && rows[i].owner_run == lease.owner_run && rows[i].fence == lease.fence;
        assert(crate::leases::is_held(rows[i], lease, fold_case));
    }
}

/// No two runs hold leases on the same path, or on one below the other, as long as the table is in
/// order.
pub proof fn law_leases_of_runs_do_not_overlap(rows: Seq<LeaseView>, i: int, j: int)
    requires
        leases_ok(rows),
        0 <= i < rows.len(),
        0 <= j < rows.len(),
        i != j,
    ensures
        rows[i].path != rows[j].path,
        rows[i].owner_run != rows[j].owner_run ==> !is_prefix(
            components(rows[i].path),
            components(rows[j].path),
        ) && !is_prefix(components(rows[j].path), components(rows[i].path)),
{
    law_overlap_is_mutual(rows[i].path, rows[j].path);
    if i < j {
        assert(crate::leases::may_coexist(rows[i], rows[j]));
    } else {
        assert(crate::leases::may_coexist(rows[j], rows[i]));
    }
}

} // verus!
