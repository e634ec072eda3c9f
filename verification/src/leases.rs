//! Leases on files: two runs never hold overlapping paths.

use vstd::prelude::*;
use vstd::string::*;

use crate::error::{failure, outcome, AgentError, Outcome};
use crate::messages::{lease_end, lease_end_of};
use crate::model::{group_views, views, Duplicate};
use crate::paths::{
    law_overlap_is_mutual, normalized, normalized_text, overlap, paths_overlap, resolve_write,
    write_target,
};
use crate::results::RunId;
use crate::text::same;

verus! {

/// A lease on a path, as its holder has it.
#[derive(Debug, PartialEq, Eq)]
pub struct FileLease {
    pub path: String,
    pub owner_run: RunId,
    pub fence: u64,
    pub expires_at_millis: i64,
}

pub struct LeaseView {
    pub path: Seq<char>,
    pub owner_run: Seq<char>,
    pub fence: u64,
    pub expires_at_millis: i64,
}

impl View for FileLease {
    type V = LeaseView;

    open spec fn view(&self) -> LeaseView {
        LeaseView {
            path: self.path@,
            owner_run: self.owner_run@,
            fence: self.fence,
            expires_at_millis: self.expires_at_millis,
        }
    }
}

impl Duplicate for FileLease {
    fn duplicate(&self) -> (r: Self) {
        FileLease {
            path: self.path.clone(),
            owner_run: self.owner_run.clone(),
            fence: self.fence,
            expires_at_millis: self.expires_at_millis,
        }
    }
}

/// A place to write to, as the file system shows it: the path, the longest part of it that exists,
/// and that part without links.
#[derive(Debug, PartialEq, Eq)]
pub struct WriteSite {
    pub joined: String,
    pub existing: String,
    pub canonical: String,
}

pub struct SiteView {
    pub joined: Seq<char>,
    pub existing: Seq<char>,
    pub canonical: Seq<char>,
}

impl View for WriteSite {
    type V = SiteView;

    open spec fn view(&self) -> SiteView {
        SiteView {
            joined: self.joined@,
            existing: self.existing@,
            canonical: self.canonical@,
        }
    }
}

pub open spec fn may_coexist(a: LeaseView, b: LeaseView) -> bool {
    a.path != b.path && (a.owner_run == b.owner_run || !overlap(a.path, b.path))
}

/// What holds of the lease table: a path is leased once, and leases of different runs are apart.
pub open spec fn leases_ok(rows: Seq<LeaseView>) -> bool {
    forall|i: int, j: int|
        0 <= i < j < rows.len() ==> may_coexist(#[trigger] rows[i], #[trigger] rows[j])
}

/// The leases that have not ended.
pub open spec fn live(rows: Seq<LeaseView>, now: i64) -> Seq<LeaseView>
    decreases rows.len(),
{
    if rows.len() == 0 {
        Seq::empty()
    } else if rows.last().expires_at_millis > now {
        live(rows.drop_last(), now).push(rows.last())
    } else {
        live(rows.drop_last(), now)
    }
}

pub open spec fn blocked(rows: Seq<LeaseView>, path: Seq<char>, owner: Seq<char>) -> bool {
    exists|i: int|
        0 <= i < rows.len() && (#[trigger] rows[i]).owner_run != owner && overlap(
            rows[i].path,
            path,
        )
}

pub open spec fn last_fence(rows: Seq<LeaseView>) -> int
    decreases rows.len(),
{
    if rows.len() == 0 {
        0
    } else {
        let before = last_fence(rows.drop_last());
        if rows.last().fence > before {
            rows.last().fence as int
        } else {
            before
        }
    }
}

pub open spec fn place_of_path(rows: Seq<LeaseView>, path: Seq<char>) -> Option<int>
    decreases rows.len(),
{
    if rows.len() == 0 {
        None
    } else {
        match place_of_path(rows.drop_last(), path) {
            Some(i) => Some(i),
            None => if rows.last().path == path {
                Some(rows.len() - 1)
            } else {
                None
            },
        }
    }
}

/// Puts a lease in the place of the one on the same path, or after all others.
pub open spec fn put(rows: Seq<LeaseView>, lease: LeaseView) -> Seq<LeaseView> {
    match place_of_path(rows, lease.path) {
        Some(i) => rows.update(i, lease),
        None => rows.push(lease),
    }
}

/// Acquiring a lease on a path that was resolved. A refusal leaves the table as it was.
pub open spec fn acquire_step(
    rows: Seq<LeaseView>,
    path: Seq<char>,
    fold_case: bool,
    owner: Seq<char>,
    now: i64,
    ttl: i64,
) -> (Seq<LeaseView>, Outcome<LeaseView>) {
    let key = normalized_text(path, fold_case);
    let current = live(rows, now);
    if blocked(current, key, owner) {
        (rows, failure("file-lease-conflict"@, key))
    } else if last_fence(current) >= i64::MAX {
        (rows, failure("agent-sqlite"@, "fence exhausted"@))
    } else {
        let lease = LeaseView {
            path: key,
            owner_run: owner,
            fence: (last_fence(current) + 1) as u64,
            expires_at_millis: lease_end(now, ttl),
        };
        (put(current, lease), Outcome::Done(LeaseView { path, ..lease }))
    }
}

/// Acquiring a lease on a place to write to.
pub open spec fn acquire_at(
    rows: Seq<LeaseView>,
    root: Seq<char>,
    site: SiteView,
    fold_case: bool,
    owner: Seq<char>,
    now: i64,
    ttl: i64,
) -> (Seq<LeaseView>, Outcome<LeaseView>) {
    match write_target(root, site.joined, site.existing, site.canonical) {
        Outcome::Failed(e) => (rows, Outcome::Failed(e)),
        Outcome::Done(path) => acquire_step(rows, path, fold_case, owner, now, ttl),
    }
}

pub open spec fn is_held(row: LeaseView, lease: LeaseView, fold_case: bool) -> bool {
    row.path == normalized_text(lease.path, fold_case) && row.owner_run == lease.owner_run
        && row.fence == lease.fence
}

pub open spec fn without(rows: Seq<LeaseView>, lease: LeaseView, fold_case: bool) -> Seq<LeaseView>
    decreases rows.len(),
{
    if rows.len() == 0 {
        Seq::empty()
    } else if is_held(rows.last(), lease, fold_case) {
        without(rows.drop_last(), lease, fold_case)
    } else {
        without(rows.drop_last(), lease, fold_case).push(rows.last())
    }
}

pub open spec fn holds(rows: Seq<LeaseView>, lease: LeaseView, fold_case: bool) -> bool {
    exists|i: int| 0 <= i < rows.len() && is_held(#[trigger] rows[i], lease, fold_case)
}

proof fn lemma_live(rows: Seq<LeaseView>, now: i64)
    requires
        leases_ok(rows),
    ensures
        leases_ok(live(rows, now)),
        forall|i: int|
            0 <= i < live(rows, now).len() ==> rows.contains(#[trigger] live(rows, now)[i]),
    decreases rows.len(),
{
    if rows.len() > 0 {
        let rest = rows.drop_last();
        assert forall|i: int, j: int| 0 <= i < j < rest.len() implies may_coexist(
            #[trigger] rest[i],
            #[trigger] rest[j],
        ) by {
            assert(may_coexist(rows[i], rows[j]));
        }
        lemma_live(rest, now);
        let less = live(rest, now);
        let all = live(rows, now);
        assert forall|i: int| 0 <= i < all.len() implies rows.contains(#[trigger] all[i]) by {
            if i < less.len() {
                assert(less[i] == all[i]);
                let k = choose|k: int| 0 <= k < rest.len() && rest[k] == less[i];
                assert(rows[k] == all[i]);
            } else {
                assert(rows[rows.len() - 1] == all[i]);
            }
        }
        assert forall|i: int, j: int| 0 <= i < j < all.len() implies may_coexist(
            #[trigger] all[i],
            #[trigger] all[j],
        ) by {
            assert(less[i] == all[i]);
            if j < less.len() {
                assert(less[j] == all[j]);
            } else {
                let k = choose|k: int| 0 <= k < rest.len() && rest[k] == less[i];
                assert(rows[k] == all[i]);
                assert(may_coexist(rows[k], rows[rows.len() - 1]));
            }
        }
    }
}

proof fn lemma_place_of_path(rows: Seq<LeaseView>, path: Seq<char>)
    ensures
        match place_of_path(rows, path) {
            Some(i) => 0 <= i < rows.len() && rows[i].path == path,
            None => forall|i: int| 0 <= i < rows.len() ==> (#[trigger] rows[i]).path != path,
        },
    decreases rows.len(),
{
    if rows.len() > 0 {
        lemma_place_of_path(rows.drop_last(), path);
        if place_of_path(rows, path) is None {
            assert forall|i: int| 0 <= i < rows.len() implies (#[trigger] rows[i]).path
                != path by {
                if i < rows.len() - 1 {
                    assert(rows.drop_last()[i] == rows[i]);
                }
            }
        }
    }
}

/// Leases of different runs stay apart, whatever is acquired.
pub proof fn law_leases_stay_apart(
    rows: Seq<LeaseView>,
    path: Seq<char>,
    fold_case: bool,
    owner: Seq<char>,
    now: i64,
    ttl: i64,
)
    requires
        leases_ok(rows),
    ensures
        leases_ok(acquire_step(rows, path, fold_case, owner, now, ttl).0),
{
    let key = normalized_text(path, fold_case);
    let current = live(rows, now);
    lemma_live(rows, now);
    lemma_place_of_path(current, key);
    let after = acquire_step(rows, path, fold_case, owner, now, ttl).0;
    if !blocked(current, key, owner) && last_fence(current) < i64::MAX {
        assert forall|i: int, j: int| 0 <= i < j < after.len() implies may_coexist(
            #[trigger] after[i],
            #[trigger] after[j],
        ) by {
            let at = match place_of_path(current, key) {
                Some(p) => p,
                None => current.len() as int,
            };
            if i == at {
                assert(after[j] == current[j]);
                law_overlap_is_mutual(current[j].path, key);
                if at < current.len() {
                    assert(may_coexist(current[at], current[j]));
                }
            } else if j == at {
                assert(after[i] == current[i]);
                if at < current.len() {
                    assert(may_coexist(current[i], current[at]));
                } else {
                    assert(current[i].path != key);
                }
            } else {
                assert(may_coexist(current[i], current[j]));
            }
        }
    }
}

proof fn lemma_without(rows: Seq<LeaseView>, lease: LeaseView, fold_case: bool)
    requires
        leases_ok(rows),
    ensures
        leases_ok(without(rows, lease, fold_case)),
        !holds(without(rows, lease, fold_case), lease, fold_case),
        !holds(rows, lease, fold_case) ==> without(rows, lease, fold_case) == rows,
        forall|i: int|
            0 <= i < without(rows, lease, fold_case).len() ==> rows.contains(
                #[trigger] without(rows, lease, fold_case)[i],
            ),
    decreases rows.len(),
{
    if rows.len() > 0 {
        let rest = rows.drop_last();
        assert forall|i: int, j: int| 0 <= i < j < rest.len() implies may_coexist(
            #[trigger] rest[i],
            #[trigger] rest[j],
        ) by {
            assert(may_coexist(rows[i], rows[j]));
        }
        lemma_without(rest, lease, fold_case);
        let less = without(rest, lease, fold_case);
        let all = without(rows, lease, fold_case);
        assert forall|i: int| 0 <= i < all.len() implies rows.contains(#[trigger] all[i])
            && !is_held(all[i], lease, fold_case) by {
            if i < less.len() {
                assert(less[i] == all[i]);
                let k = choose|k: int| 0 <= k < rest.len() && rest[k] == less[i];
                assert(rows[k] == all[i]);
            } else {
                assert(rows[rows.len() - 1] == all[i]);
            }
        }
        assert forall|i: int, j: int| 0 <= i < j < all.len() implies may_coexist(
            #[trigger] all[i],
            #[trigger] all[j],
        ) by {
            assert(less[i] == all[i]);
            if j < less.len() {
                assert(less[j] == all[j]);
            } else {
                let k = choose|k: int| 0 <= k < rest.len() && rest[k] == less[i];
                assert(rows[k] == all[i]);
                assert(may_coexist(rows[k], rows[rows.len() - 1]));
            }
        }
        if !holds(rows, lease, fold_case) {
            assert(!is_held(rows[rows.len() - 1], lease, fold_case));
            assert forall|i: int| 0 <= i < rest.len() implies !is_held(
                #[trigger] rest[i],
                lease,
                fold_case,
            ) by {
                assert(!is_held(rows[i], lease, fold_case));
            }
            assert(all =~= rows);
        }
    }
}

/// A lease that is not in the table, because it ended or another run took its place, cannot be
/// released, and trying to changes nothing.
pub proof fn law_stale_release_changes_nothing(
    rows: Seq<LeaseView>,
    lease: LeaseView,
    fold_case: bool,
)
    requires
        leases_ok(rows),
        !holds(rows, lease, fold_case),
    ensures
        without(rows, lease, fold_case) == rows,
{
    lemma_without(rows, lease, fold_case);
}

/// A lease that was just acquired can be released, and is then gone.
pub proof fn law_acquired_leases_can_be_released(
    rows: Seq<LeaseView>,
    path: Seq<char>,
    fold_case: bool,
    owner: Seq<char>,
    now: i64,
    ttl: i64,
)
    requires
        leases_ok(rows),
        acquire_step(rows, path, fold_case, owner, now, ttl).1 is Done,
    ensures
        ({
            let (after, got) = acquire_step(rows, path, fold_case, owner, now, ttl);
            &&& holds(after, got->Done_0, fold_case)
            &&& !holds(without(after, got->Done_0, fold_case), got->Done_0, fold_case)
        }),
{
    let (after, got) = acquire_step(rows, path, fold_case, owner, now, ttl);
    let current = live(rows, now);
    let key = normalized_text(path, fold_case);
    lemma_place_of_path(current, key);
    law_leases_stay_apart(rows, path, fold_case, owner, now, ttl);
    let at = match place_of_path(current, key) {
        Some(p) => p,
        None => current.len() as int,
    };
    assert(is_held(after[at], got->Done_0, fold_case));
    lemma_without(after, got->Done_0, fold_case);
}

/// The leases on the files below a root.
pub struct FileLeaseManager {
    root: String,
    fold_case: bool,
    rows: Vec<FileLease>,
}

pub struct LeaseTableView {
    pub root: Seq<char>,
    pub fold_case: bool,
    pub rows: Seq<LeaseView>,
}

impl View for FileLeaseManager {
    type V = LeaseTableView;

    closed spec fn view(&self) -> LeaseTableView {
        LeaseTableView {
            root: self.root@,
            fold_case: self.fold_case,
            rows: views(self.rows@),
        }
    }
}

impl FileLeaseManager {
    #[verifier::type_invariant]
    spec fn apart(self) -> bool {
        leases_ok(views(self.rows@))
    }

    pub fn new(root: String, fold_case: bool) -> (r: Self)
        ensures
            r@ == (LeaseTableView { root: root@, fold_case, rows: Seq::empty() }),
    {
        broadcast use group_views;

        FileLeaseManager { root, fold_case, rows: Vec::new() }
    }

    /// The manager with the rows of a stored table, if the leases are apart.
    pub fn with_rows(root: String, fold_case: bool, rows: Vec<FileLease>) -> (r: Option<Self>)
        ensures
            r is Some <==> leases_ok(views(rows@)),
            r matches Some(m) ==> m@ == (LeaseTableView {
                root: root@,
                fold_case,
                rows: views(rows@),
            }),
    {
        let ghost all = views(rows@);
        let mut j: usize = 0;
        while j < rows.len()
            invariant
                j <= rows.len(),
                all == views(rows@),
                forall|a: int, b: int|
                    0 <= a < b < j ==> may_coexist(#[trigger] all[a], #[trigger] all[b]),
            decreases rows.len() - j,
        {
            let mut i: usize = 0;
            while i < j
                invariant
                    i <= j < rows.len(),
                    all == views(rows@),
                    forall|a: int| 0 <= a < i ==> may_coexist(#[trigger] all[a], all[j as int]),
                decreases j - i,
            {
                assert(all[i as int] == rows@[i as int]@);
                assert(all[j as int] == rows@[j as int]@);
                if same(rows[i].path.as_str(), rows[j].path.as_str()) || (!same(
                    rows[i].owner_run.as_str(),
                    rows[j].owner_run.as_str(),
                ) && paths_overlap(rows[i].path.as_str(), rows[j].path.as_str())) {
                    assert(!may_coexist(all[i as int], all[j as int]));
                    return None;
                }
                i = i + 1;
            }
            j = j + 1;
        }
        Some(FileLeaseManager { root, fold_case, rows })
    }

    /// The rows of the table, to be stored.
    pub fn rows(&self) -> (r: &Vec<FileLease>)
        ensures
            views(r@) == self@.rows,
            leases_ok(self@.rows),
    {
        proof {
            use_type_invariant(self);
        }
        &self.rows
    }

    /// Acquires a lease on a path, unless another run holds one that overlaps it.
    pub fn acquire(&mut self, site: &WriteSite, owner_run: RunId, now: i64, ttl: i64) -> (r: Result<
        FileLease,
        AgentError,
    >)
        ensures
            (final(self)@.rows, outcome(r)) == acquire_at(
                old(self)@.rows,
                old(self)@.root,
                site@,
                old(self)@.fold_case,
                owner_run@,
                now,
                ttl,
            ),
            final(self)@.root == old(self)@.root,
            final(self)@.fold_case == old(self)@.fold_case,
    {
        broadcast use group_views;

        let path = match resolve_write(
            self.root.as_str(),
            site.joined.as_str(),
            site.existing.as_str(),
            site.canonical.as_str(),
        ) {
            Ok(path) => path,
            Err(error) => {
                return Err(error);
            },
        };
        let ghost all = views(self.rows@);
        let ghost current = live(all, now);
        proof {
            use_type_invariant(&*self);
            lemma_live(all, now);
            law_leases_stay_apart(all, path@, self.fold_case, owner_run@, now, ttl);
        }
        let key = normalized(path.as_str(), self.fold_case);
        let mut rows: Vec<FileLease> = Vec::new();
        let mut i: usize = 0;
        assert(all.subrange(0, 0) =~= Seq::empty());
        while i < self.rows.len()
            invariant
                i <= self.rows.len(),
                all == views(self.rows@),
                views(rows@) == live(all.subrange(0, i as int), now),
                *self == *old(self),
            decreases self.rows.len() - i,
        {
            broadcast use group_views;

            let ghost next = all.subrange(0, i as int + 1);
            assert(next.drop_last() =~= all.subrange(0, i as int));
            assert(next.last() == self.rows@[i as int]@);
            if self.rows[i].expires_at_millis > now {
                rows.push(self.rows[i].duplicate());
            }
            i = i + 1;
        }
        assert(all.subrange(0, all.len() as int) =~= all);
        let mut fence: u64 = 0;
        let mut at: Option<usize> = None;
        let mut j: usize = 0;
        assert(current.subrange(0, 0) =~= Seq::empty());
        while j < rows.len()
            invariant
                j <= rows.len(),
                current == views(rows@),
                key@ == normalized_text(path@, self.fold_case),
                fence == last_fence(current.subrange(0, j as int)),
                match at {
                    Some(k) => place_of_path(current.subrange(0, j as int), key@) == Some(k as int)
                        && k < j,
                    None => place_of_path(current.subrange(0, j as int), key@) is None,
                },
                forall|k: int|
                    0 <= k < j ==> !((#[trigger] current[k]).owner_run != owner_run@ && overlap(
                        current[k].path,
                        key@,
                    )),
                *self == *old(self),
                self@.rows == all,
                current == live(all, now),
                Outcome::Done(path@) == write_target(
                    self@.root,
                    site@.joined,
                    site@.existing,
                    site@.canonical,
                ),
                self@.fold_case == self.fold_case,
            decreases rows.len() - j,
        {
            let ghost next = current.subrange(0, j as int + 1);
            assert(next.drop_last() =~= current.subrange(0, j as int));
            assert(next.last() == rows@[j as int]@);
            assert(current[j as int] == rows@[j as int]@);
            if !same(rows[j].owner_run.as_str(), owner_run.as_str()) && paths_overlap(
                rows[j].path.as_str(),
                key.as_str(),
            ) {
                assert(blocked(current, key@, owner_run@));
                return Err(AgentError::new("file-lease-conflict", key.as_str()));
            }
            if rows[j].fence > fence {
                fence = rows[j].fence;
            }
            if at.is_none() && same(rows[j].path.as_str(), key.as_str()) {
                at = Some(j);
            }
            j = j + 1;
        }
        assert(current.subrange(0, current.len() as int) =~= current);
        if fence >= 0x7fff_ffff_ffff_ffff {
            return Err(AgentError::new("agent-sqlite", "fence exhausted"));
        }
        let expires_at_millis = lease_end_of(now, ttl);
        let row = FileLease {
            path: key,
            owner_run: owner_run.clone(),
            fence: fence + 1,
            expires_at_millis,
        };
        match at {
            Some(k) => {
                rows[k] = row;
            },
            None => {
                rows.push(row);
            },
        }
        assert(views(rows@) == acquire_step(all, path@, self.fold_case, owner_run@, now, ttl).0);
        self.rows = rows;
        Ok(FileLease { path, owner_run, fence: fence + 1, expires_at_millis })
    }

    /// Gives a lease back; says whether it was still held.
    pub fn release(&mut self, lease: &FileLease) -> (r: bool)
        ensures
            r == holds(old(self)@.rows, lease@, old(self)@.fold_case),
            final(self)@ == (LeaseTableView {
                rows: without(old(self)@.rows, lease@, old(self)@.fold_case),
                ..old(self)@
            }),
    {
        let ghost all = views(self.rows@);
        proof {
            use_type_invariant(&*self);
            lemma_without(all, lease@, self.fold_case);
        }
        let key = normalized(lease.path.as_str(), self.fold_case);
        let mut rows: Vec<FileLease> = Vec::new();
        let mut found = false;
        let mut i: usize = 0;
        assert(all.subrange(0, 0) =~= Seq::empty());
        assert(views(rows@) =~= Seq::empty());
        while i < self.rows.len()
            invariant
                i <= self.rows.len(),
                all == views(self.rows@),
                key@ == normalized_text(lease@.path, self.fold_case),
                views(rows@) == without(all.subrange(0, i as int), lease@, self.fold_case),
                found == exists|k: int|
                    0 <= k < i && is_held(#[trigger] all[k], lease@, self.fold_case),
                *self == *old(self),
            decreases self.rows.len() - i,
        {
            broadcast use group_views;

            let ghost next = all.subrange(0, i as int + 1);
            assert(next.drop_last() =~= all.subrange(0, i as int));
            assert(next.last() == self.rows@[i as int]@);
            assert(all[i as int] == self.rows@[i as int]@);
            if same(self.rows[i].path.as_str(), key.as_str()) && same(
                self.rows[i].owner_run.as_str(),
                lease.owner_run.as_str(),
            ) && self.rows[i].fence == lease.fence {
                found = true;
                assert(is_held(all[i as int], lease@, self.fold_case));
            } else {
                rows.push(self.rows[i].duplicate());
            }
            i = i + 1;
        }
        assert(all.subrange(0, all.len() as int) =~= all);
        self.rows = rows;
        found
    }
}

} // verus!
