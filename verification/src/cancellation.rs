//! Structured concurrency: the life of a run covers the lives of the runs that it started.

use vstd::prelude::*;
use vstd::string::*;

use crate::error::{failure, list_outcome, unit_outcome, AgentError, Outcome};
use crate::model::{duplicate_option, group_views, option_view, views, Duplicate};
use crate::ordered::{in_order, TextSet};
use crate::results::RunId;
use crate::text::{copy_texts, decimal, decimal_of, same};

verus! {

/// A run that is active: what started it, and whether it was asked to stop.
pub struct RunControl {
    run_id: RunId,
    parent: Option<RunId>,
    cancelled: bool,
}

pub struct ControlView {
    pub run_id: Seq<char>,
    pub parent: Option<Seq<char>>,
    pub cancelled: bool,
}

impl View for RunControl {
    type V = ControlView;

    closed spec fn view(&self) -> ControlView {
        ControlView {
            run_id: self.run_id@,
            parent: option_view(self.parent),
            cancelled: self.cancelled,
        }
    }
}

impl Duplicate for RunControl {
    fn duplicate(&self) -> (r: Self) {
        RunControl {
            run_id: self.run_id.clone(),
            parent: duplicate_option(&self.parent),
            cancelled: self.cancelled,
        }
    }
}

pub open spec fn has_run(runs: Seq<ControlView>, id: Seq<char>) -> bool {
    exists|i: int| 0 <= i < runs.len() && (#[trigger] runs[i]).run_id == id
}

pub open spec fn place_of_run(runs: Seq<ControlView>, id: Seq<char>) -> int {
    choose|i: int| 0 <= i < runs.len() && (#[trigger] runs[i]).run_id == id
}

/// What holds of the active runs: each is there once, after the run that started it.
pub open spec fn runs_ok(runs: Seq<ControlView>) -> bool {
    &&& forall|i: int, j: int|
        0 <= i < j < runs.len() ==> (#[trigger] runs[i]).run_id != (#[trigger] runs[j]).run_id
    &&& forall|j: int|
        0 <= j < runs.len() ==> ((#[trigger] runs[j]).parent is Some ==> has_run(
            runs.subrange(0, j),
            runs[j].parent->Some_0,
        ))
}

/// The number of runs that a run has started.
pub open spec fn children(runs: Seq<ControlView>, id: Seq<char>) -> nat
    decreases runs.len(),
{
    if runs.len() == 0 {
        0
    } else {
        children(runs.drop_last(), id) + (if runs.last().parent == Some(id) {
            1nat
        } else {
            0nat
        })
    }
}

/// A run, and all that it has started, directly or through others.
pub open spec fn subtree(runs: Seq<ControlView>, root: Seq<char>) -> Set<Seq<char>>
    decreases runs.len(),
{
    if runs.len() == 0 {
        Set::empty()
    } else {
        let before = subtree(runs.drop_last(), root);
        let last = runs.last();
        if last.run_id == root || (last.parent is Some && before.contains(last.parent->Some_0)) {
            before.insert(last.run_id)
        } else {
            before
        }
    }
}

pub open spec fn with_cancelled(runs: Seq<ControlView>, ids: Set<Seq<char>>) -> Seq<ControlView> {
    Seq::new(
        runs.len(),
        |i: int|
            ControlView {
                cancelled: runs[i].cancelled || ids.contains(runs[i].run_id),
                ..runs[i]
            },
    )
}

pub open spec fn register_step(
    runs: Seq<ControlView>,
    id: Seq<char>,
    parent: Option<Seq<char>>,
) -> (Seq<ControlView>, Outcome<()>) {
    if has_run(runs, id) {
        (runs, failure("run-control-exists"@, id))
    } else if parent is Some && !has_run(runs, parent->Some_0) {
        (runs, failure("parent-run-control-missing"@, parent->Some_0))
    } else if parent is Some && runs[place_of_run(runs, parent->Some_0)].cancelled {
        (runs, failure("parent-run-cancelling"@, parent->Some_0))
    } else {
        (runs.push(ControlView { run_id: id, parent, cancelled: false }), Outcome::Done(()))
    }
}

pub open spec fn cancel_step(runs: Seq<ControlView>, id: Seq<char>) -> (
    Seq<ControlView>,
    Outcome<Seq<Seq<char>>>,
) {
    if has_run(runs, id) {
        let ids = subtree(runs, id);
        (with_cancelled(runs, ids), Outcome::Done(in_order(ids)))
    } else {
        (runs, failure("run-control-missing"@, id))
    }
}

pub open spec fn finish_step(runs: Seq<ControlView>, id: Seq<char>) -> (
    Seq<ControlView>,
    Outcome<()>,
) {
    if !has_run(runs, id) {
        (runs, failure("run-control-missing"@, id))
    } else if children(runs, id) > 0 {
        (
            runs,
            failure(
                "run-has-active-children"@,
                id + " children="@ + decimal(children(runs, id)),
            ),
        )
    } else {
        (runs.remove(place_of_run(runs, id)), Outcome::Done(()))
    }
}

pub open spec fn ids_of(runs: Seq<ControlView>) -> Set<Seq<char>> {
    Set::new(|id: Seq<char>| has_run(runs, id))
}

proof fn lemma_prefix_ok(runs: Seq<ControlView>, n: int)
    requires
        runs_ok(runs),
        0 <= n <= runs.len(),
    ensures
        runs_ok(runs.subrange(0, n)),
{
    let some = runs.subrange(0, n);
    assert forall|j: int| 0 <= j < some.len() implies ((#[trigger] some[j]).parent is Some
        ==> has_run(some.subrange(0, j), some[j].parent->Some_0)) by {
        assert(runs[j] == some[j]);
        assert(some.subrange(0, j) =~= runs.subrange(0, j));
    }
}

proof fn lemma_children(runs: Seq<ControlView>, id: Seq<char>)
    ensures
        children(runs, id) == 0 <==> forall|i: int|
            0 <= i < runs.len() ==> (#[trigger] runs[i]).parent != Some(id),
    decreases runs.len(),
{
    if runs.len() > 0 {
        let rest = runs.drop_last();
        lemma_children(rest, id);
        if children(runs, id) == 0 {
            assert forall|i: int| 0 <= i < runs.len() implies (#[trigger] runs[i]).parent != Some(
                id,
            ) by {
                if i < rest.len() {
                    assert(rest[i] == runs[i]);
                }
            }
        } else if forall|i: int| 0 <= i < runs.len() ==> (#[trigger] runs[i]).parent != Some(id) {
            assert forall|i: int| 0 <= i < rest.len() implies (#[trigger] rest[i]).parent != Some(
                id,
            ) by {
                assert(rest[i] == runs[i]);
            }
            assert(runs[runs.len() - 1].parent != Some(id));
        }
    }
}

proof fn lemma_place_of_run(runs: Seq<ControlView>, i: int)
    requires
        runs_ok(runs),
        0 <= i < runs.len(),
    ensures
        place_of_run(runs, runs[i].run_id) == i,
        has_run(runs, runs[i].run_id),
{
    let p = place_of_run(runs, runs[i].run_id);
    assert(runs[p].run_id == runs[i].run_id);
    if p < i {
        assert(runs[p].run_id != runs[i].run_id);
    } else if i < p {
        assert(runs[i].run_id != runs[p].run_id);
    }
}

proof fn lemma_subtree_within(runs: Seq<ControlView>, root: Seq<char>, id: Seq<char>)
    requires
        subtree(runs, root).contains(id),
    ensures
        has_run(runs, id),
    decreases runs.len(),
{
    if runs.len() > 0 {
        let rest = runs.drop_last();
        if subtree(rest, root).contains(id) {
            lemma_subtree_within(rest, root, id);
            let i = place_of_run(rest, id);
            assert(rest[i].run_id == id);
            assert(runs[i].run_id == id);
        } else {
            assert(runs[runs.len() - 1].run_id == id);
        }
    }
}

/// A run is in the subtree of another if it is that run, or the run that started it is there.
pub proof fn law_subtree_is_closed(runs: Seq<ControlView>, root: Seq<char>, i: int)
    requires
        runs_ok(runs),
        0 <= i < runs.len(),
    ensures
        subtree(runs, root).contains(runs[i].run_id) <==> (runs[i].run_id == root || (
        runs[i].parent is Some && subtree(runs, root).contains(runs[i].parent->Some_0))),
    decreases runs.len(),
{
    let rest = runs.drop_last();
    let n = runs.len() - 1;
    assert(rest =~= runs.subrange(0, n));
    lemma_prefix_ok(runs, n);
    let last = runs[n];
    if subtree(rest, root).contains(last.run_id) {
        lemma_subtree_within(rest, root, last.run_id);
        let p = place_of_run(rest, last.run_id);
        assert(rest[p].run_id == last.run_id);
        assert(runs[p].run_id != runs[n].run_id);
    }
    if i < n {
        law_subtree_is_closed(rest, root, i);
        assert(rest[i] == runs[i]);
        assert(runs[i].run_id != runs[n].run_id);
        if runs[i].parent is Some {
            let p = runs[i].parent->Some_0;
            assert(has_run(runs.subrange(0, i), p));
            let q = place_of_run(runs.subrange(0, i), p);
            assert(runs.subrange(0, i)[q].run_id == p);
            assert(runs[q].run_id == p);
            assert(runs[q].run_id != runs[n].run_id);
        }
    } else if last.parent is Some {
        let p = last.parent->Some_0;
        assert(has_run(runs.subrange(0, n), p));
        let q = place_of_run(runs.subrange(0, n), p);
        assert(runs.subrange(0, n)[q].run_id == p);
        assert(runs[q].run_id == p);
        assert(runs[q].run_id != last.run_id);
    }
}

/// Once a run is asked to stop, so is everything that it has started.
pub open spec fn cancelled_downwards(runs: Seq<ControlView>) -> bool {
    forall|j: int|
        0 <= j < runs.len() && (#[trigger] runs[j]).parent is Some
            && runs[place_of_run(runs, runs[j].parent->Some_0)].cancelled ==> runs[j].cancelled
}

proof fn lemma_parent_place(runs: Seq<ControlView>, j: int)
    requires
        runs_ok(runs),
        0 <= j < runs.len(),
        runs[j].parent is Some,
    ensures
        0 <= place_of_run(runs, runs[j].parent->Some_0) < j,
        runs[place_of_run(runs, runs[j].parent->Some_0)].run_id == runs[j].parent->Some_0,
{
    let p = runs[j].parent->Some_0;
    assert(has_run(runs.subrange(0, j), p));
    let q = place_of_run(runs.subrange(0, j), p);
    assert(runs.subrange(0, j)[q].run_id == p);
    assert(runs[q].run_id == p);
    lemma_place_of_run(runs, q);
}

/// Cancelling a run reaches everything below it, whatever was cancelled before.
pub proof fn law_cancelling_reaches_the_subtree(runs: Seq<ControlView>, root: Seq<char>)
    requires
        runs_ok(runs),
        cancelled_downwards(runs),
        has_run(runs, root),
    ensures
        runs_ok(cancel_step(runs, root).0),
        cancelled_downwards(cancel_step(runs, root).0),
{
    let after = cancel_step(runs, root).0;
    lemma_cancel_keeps(runs, subtree(runs, root));
    assert forall|j: int|
        0 <= j < after.len() && (#[trigger] after[j]).parent is Some && after[place_of_run(
            after,
            after[j].parent->Some_0,
        )].cancelled implies after[j].cancelled by {
        lemma_parent_place(after, j);
        let q = place_of_run(after, after[j].parent->Some_0);
        assert(runs[q].run_id == after[q].run_id);
        assert(runs[j].parent == after[j].parent);
        lemma_place_of_run(runs, q);
        law_subtree_is_closed(runs, root, j);
        assert(runs[j].run_id == after[j].run_id);
    }
}

proof fn lemma_cancel_keeps(runs: Seq<ControlView>, ids: Set<Seq<char>>)
    requires
        runs_ok(runs),
    ensures
        runs_ok(with_cancelled(runs, ids)),
{
    let after = with_cancelled(runs, ids);
    assert forall|i: int, j: int| 0 <= i < j < after.len() implies (#[trigger] after[i]).run_id != (
    #[trigger] after[j]).run_id by {
        assert(runs[i].run_id != runs[j].run_id);
    }
    assert forall|j: int| 0 <= j < after.len() implies ((#[trigger] after[j]).parent is Some
        ==> has_run(after.subrange(0, j), after[j].parent->Some_0)) by {
        assert(runs[j].parent == after[j].parent);
        if runs[j].parent is Some {
            let p = runs[j].parent->Some_0;
            assert(has_run(runs.subrange(0, j), p));
            let q = place_of_run(runs.subrange(0, j), p);
            assert(runs.subrange(0, j)[q].run_id == p);
            assert(after.subrange(0, j)[q].run_id == p);
        }
    }
}

/// A new run starts under a run that goes on, so it does not escape a cancellation.
pub proof fn law_registering_keeps_the_order(
    runs: Seq<ControlView>,
    id: Seq<char>,
    parent: Option<Seq<char>>,
)
    requires
        runs_ok(runs),
        cancelled_downwards(runs),
    ensures
        runs_ok(register_step(runs, id, parent).0),
        cancelled_downwards(register_step(runs, id, parent).0),
{
    let after = register_step(runs, id, parent).0;
    if register_step(runs, id, parent).1 is Done {
        lemma_register_keeps(runs, ControlView { run_id: id, parent, cancelled: false });
        let n = runs.len();
        assert forall|j: int|
            0 <= j < after.len() && (#[trigger] after[j]).parent is Some && after[place_of_run(
                after,
                after[j].parent->Some_0,
            )].cancelled implies after[j].cancelled by {
            lemma_parent_place(after, j);
            let q = place_of_run(after, after[j].parent->Some_0);
            assert(runs[q] == after[q]);
            lemma_place_of_run(runs, q);
            if j < n {
                assert(runs[j] == after[j]);
            }
        }
    }
}

proof fn lemma_register_keeps(runs: Seq<ControlView>, added: ControlView)
    requires
        runs_ok(runs),
        !has_run(runs, added.run_id),
        added.parent is Some ==> has_run(runs, added.parent->Some_0),
    ensures
        runs_ok(runs.push(added)),
{
    let after = runs.push(added);
    let n = runs.len() as int;
    assert forall|i: int, j: int| 0 <= i < j < after.len() implies (#[trigger] after[i]).run_id != (
    #[trigger] after[j]).run_id by {
        assert(runs[i] == after[i]);
        if j < n {
            assert(runs[j] == after[j]);
        }
    }
    assert forall|j: int| 0 <= j < after.len() implies ((#[trigger] after[j]).parent is Some
        ==> has_run(after.subrange(0, j), after[j].parent->Some_0)) by {
        if j < n {
            assert(runs[j] == after[j]);
            assert(after.subrange(0, j) =~= runs.subrange(0, j));
        } else {
            assert(after.subrange(0, j) =~= runs);
        }
    }
}

proof fn lemma_finish_keeps(runs: Seq<ControlView>, at: int)
    requires
        runs_ok(runs),
        0 <= at < runs.len(),
        children(runs, runs[at].run_id) == 0,
    ensures
        runs_ok(runs.remove(at)),
{
    let after = runs.remove(at);
    lemma_children(runs, runs[at].run_id);
    assert forall|i: int, j: int| 0 <= i < j < after.len() implies (#[trigger] after[i]).run_id != (
    #[trigger] after[j]).run_id by {
        let x = if i < at { i } else { i + 1 };
        let y = if j < at { j } else { j + 1 };
        assert(runs[x] == after[i] && runs[y] == after[j]);
    }
    assert forall|j: int| 0 <= j < after.len() implies ((#[trigger] after[j]).parent is Some
        ==> has_run(after.subrange(0, j), after[j].parent->Some_0)) by {
        let y = if j < at { j } else { j + 1 };
        assert(runs[y] == after[j]);
        if after[j].parent is Some {
            lemma_parent_place(runs, y);
            let q = place_of_run(runs, runs[y].parent->Some_0);
            assert(runs[y].parent != Some(runs[at].run_id));
            let x = if q < at { q } else { q - 1 };
            assert(after.subrange(0, j)[x] == runs[q]);
        }
    }
}

/// A run that finishes has no run left below it, and the others stay in order.
pub proof fn law_parents_outlive_children(runs: Seq<ControlView>, id: Seq<char>, j: int)
    requires
        runs_ok(runs),
        cancelled_downwards(runs),
        finish_step(runs, id).1 is Done,
        0 <= j < runs.len(),
    ensures
        runs[j].parent != Some(id),
        runs_ok(finish_step(runs, id).0),
        cancelled_downwards(finish_step(runs, id).0),
{
    lemma_children(runs, id);
    let at = place_of_run(runs, id);
    assert(runs[at].run_id == id);
    lemma_finish_keeps(runs, at);
    let after = runs.remove(at);
    assert forall|k: int|
        0 <= k < after.len() && (#[trigger] after[k]).parent is Some && after[place_of_run(
            after,
            after[k].parent->Some_0,
        )].cancelled implies after[k].cancelled by {
        lemma_parent_place(after, k);
        let q = place_of_run(after, after[k].parent->Some_0);
        let y = if k < at { k } else { k + 1 };
        let x = if q < at { q } else { q + 1 };
        assert(runs[y] == after[k] && runs[x] == after[q]);
        lemma_place_of_run(runs, x);
    }
}

/// The run that was registered last has started none, and can be finished at once.
pub proof fn lemma_last_run_finishes(runs: Seq<ControlView>, added: ControlView)
    requires
        runs_ok(runs),
        !has_run(runs, added.run_id),
        added.parent is None,
    ensures
        finish_step(runs.push(added), added.run_id) == (runs, Outcome::<()>::Done(())),
        has_run(runs.push(added), added.run_id),
{
    let all = runs.push(added);
    let n = runs.len() as int;
    lemma_register_keeps(runs, added);
    assert(all[n] == added);
    lemma_place_of_run(all, n);
    lemma_children(all, added.run_id);
    assert forall|i: int| 0 <= i < all.len() implies (#[trigger] all[i]).parent != Some(
        added.run_id,
    ) by {
        if i < n && all[i].parent == Some(added.run_id) {
            assert(runs[i] == all[i]);
            lemma_parent_place(runs, i);
        }
    }
    assert(all.remove(n) =~= runs);
}

/// The active runs, each after the run that started it.
pub struct RunCancellationTree {
    runs: Vec<RunControl>,
}

impl View for RunCancellationTree {
    type V = Seq<ControlView>;

    closed spec fn view(&self) -> Seq<ControlView> {
        views(self.runs@)
    }
}

impl RunCancellationTree {
    #[verifier::type_invariant]
    spec fn well_formed(self) -> bool {
        runs_ok(views(self.runs@)) && cancelled_downwards(views(self.runs@))
    }

    pub fn new() -> (r: Self)
        ensures
            r@ == Seq::<ControlView>::empty(),
    {
        broadcast use group_views;

        RunCancellationTree { runs: Vec::new() }
    }

    fn place(&self, run_id: &str) -> (r: Option<usize>)
        ensures
            r is Some <==> has_run(self@, run_id@),
            r matches Some(i) ==> i < self@.len() && self@[i as int].run_id == run_id@
                && place_of_run(self@, run_id@) == i,
    {
        proof {
            use_type_invariant(self);
        }
        let mut i: usize = 0;
        while i < self.runs.len()
            invariant
                i <= self.runs.len(),
                runs_ok(self@),
                self@ == views(self.runs@),
                forall|k: int| 0 <= k < i ==> (#[trigger] self@[k]).run_id != run_id@,
            decreases self.runs.len() - i,
        {
            assert(self@[i as int] == self.runs@[i as int]@);
            if same(self.runs[i].run_id.as_str(), run_id) {
                proof {
                    lemma_place_of_run(self@, i as int);
                }
                return Some(i);
            }
            i = i + 1;
        }
        None
    }

    /// Adds a run, under the one that started it.
    pub fn register(&mut self, run_id: RunId, parent: Option<RunId>) -> (r: Result<(), AgentError>)
        ensures
            (final(self)@, unit_outcome(r)) == register_step(
                old(self)@,
                run_id@,
                option_view(parent),
            ),
    {
        broadcast use group_views;

        proof {
            use_type_invariant(&*self);
            law_registering_keeps_the_order(self@, run_id@, option_view(parent));
        }
        if self.place(run_id.as_str()).is_some() {
            return Err(AgentError::new("run-control-exists", run_id.as_str()));
        }
        match &parent {
            Some(p) => match self.place(p.as_str()) {
                Some(at) => {
                    assert(self@[at as int] == self.runs@[at as int]@);
                    if self.runs[at].cancelled {
                        return Err(AgentError::new("parent-run-cancelling", p.as_str()));
                    }
                },
                None => {
                    return Err(AgentError::new("parent-run-control-missing", p.as_str()));
                },
            },
            None => {},
        }
        let mut runs: Vec<RunControl> = Vec::new();
        std::mem::swap(&mut runs, &mut self.runs);
        let control = RunControl { run_id, parent, cancelled: false };
        runs.push(control);
        self.runs = runs;
        Ok(())
    }

    /// Whether an active run was asked to stop.
    pub fn is_cancelled(&self, run_id: &str) -> (r: Option<bool>)
        ensures
            r == (if has_run(self@, run_id@) {
                Some(self@[place_of_run(self@, run_id@)].cancelled)
            } else {
                None
            }),
            runs_ok(self@),
            cancelled_downwards(self@),
    {
        proof {
            use_type_invariant(self);
        }
        match self.place(run_id) {
            Some(i) => {
                assert(self@[i as int] == self.runs@[i as int]@);
                Some(self.runs[i].cancelled)
            },
            None => None,
        }
    }

    /// Asks a run, and everything that it has started, to stop. Gives their ids in order.
    pub fn cancel_subtree(&mut self, run_id: &str) -> (r: Result<Vec<RunId>, AgentError>)
        ensures
            (final(self)@, list_outcome(r)) == cancel_step(old(self)@, run_id@),
    {
        let ghost all = self@;
        proof {
            use_type_invariant(&*self);
        }
        if self.place(run_id).is_none() {
            return Err(AgentError::new("run-control-missing", run_id));
        }
        proof {
            law_cancelling_reaches_the_subtree(all, run_id@);
        }
        let mut ids = TextSet::new();
        let mut i: usize = 0;
        assert(all.subrange(0, 0) =~= Seq::empty());
        while i < self.runs.len()
            invariant
                i <= self.runs.len(),
                all == views(self.runs@),
                ids@ == subtree(all.subrange(0, i as int), run_id@),
                *self == *old(self),
            decreases self.runs.len() - i,
        {
            let ghost next = all.subrange(0, i as int + 1);
            assert(next.drop_last() =~= all.subrange(0, i as int));
            assert(next.last() == self.runs@[i as int]@);
            let below = match &self.runs[i].parent {
                Some(p) => ids.contains(p.as_str()),
                None => false,
            };
            if below || same(self.runs[i].run_id.as_str(), run_id) {
                let id = self.runs[i].run_id.clone();
                ids.insert(id);
            }
            i = i + 1;
        }
        assert(all.subrange(0, all.len() as int) =~= all);
        let mut runs: Vec<RunControl> = Vec::new();
        let mut j: usize = 0;
        while j < self.runs.len()
            invariant
                j <= self.runs.len(),
                all == views(self.runs@),
                *self == *old(self),
                views(runs@) == with_cancelled(all, ids@).subrange(0, j as int),
            decreases self.runs.len() - j,
        {
            broadcast use group_views;

            assert(all[j as int] == self.runs@[j as int]@);
            let mut control = self.runs[j].duplicate();
            if ids.contains(control.run_id.as_str()) {
                control.cancelled = true;
            }
            runs.push(control);
            assert(with_cancelled(all, ids@).subrange(0, j as int + 1) =~= with_cancelled(
                all,
                ids@,
            ).subrange(0, j as int).push(control@));
            j = j + 1;
        }
        assert(with_cancelled(all, ids@).subrange(0, all.len() as int) =~= with_cancelled(
            all,
            ids@,
        ));
        self.runs = runs;
        Ok(copy_texts(ids.items()))
    }

    /// Takes a run out that has nothing left below it.
    pub fn finish(&mut self, run_id: &str) -> (r: Result<(), AgentError>)
        ensures
            (final(self)@, unit_outcome(r)) == finish_step(old(self)@, run_id@),
    {
        let ghost all = self@;
        proof {
            use_type_invariant(&*self);
        }
        let at = match self.place(run_id) {
            Some(at) => at,
            None => {
                return Err(AgentError::new("run-control-missing", run_id));
            },
        };
        let mut count: u64 = 0;
        let mut i: usize = 0;
        assert(all.subrange(0, 0) =~= Seq::empty());
        while i < self.runs.len()
            invariant
                i <= self.runs.len(),
                all == views(self.runs@),
                count == children(all.subrange(0, i as int), run_id@),
                count <= i,
                *self == *old(self),
            decreases self.runs.len() - i,
        {
            let ghost next = all.subrange(0, i as int + 1);
            assert(next.drop_last() =~= all.subrange(0, i as int));
            assert(next.last() == self.runs@[i as int]@);
            let below = match &self.runs[i].parent {
                Some(p) => same(p.as_str(), run_id),
                None => false,
            };
            if below {
                count = count + 1;
            }
            i = i + 1;
        }
        assert(all.subrange(0, all.len() as int) =~= all);
        if count > 0 {
            let mut message: String = run_id.to_string();
            message.append(" children=");
            message.append(decimal_of(count).as_str());
            return Err(AgentError::new("run-has-active-children", message.as_str()));
        }
        proof {
            law_parents_outlive_children(all, run_id@, at as int);
        }
        broadcast use group_views;

        let mut runs: Vec<RunControl> = Vec::new();
        std::mem::swap(&mut runs, &mut self.runs);
        let gone = runs.remove(at);
        self.runs = runs;
        Ok(())
    }

    /// The ids of the active runs, in order.
    pub fn active_run_ids(&self) -> (r: Vec<RunId>)
        ensures
            views(r@) == in_order(ids_of(self@)),
    {
        let ghost all = views(self.runs@);
        let mut ids = TextSet::new();
        let mut i: usize = 0;
        assert(ids@ =~= ids_of(all.subrange(0, 0)));
        while i < self.runs.len()
            invariant
                i <= self.runs.len(),
                all == views(self.runs@),
                ids@ == ids_of(all.subrange(0, i as int)),
            decreases self.runs.len() - i,
        {
            let ghost before = all.subrange(0, i as int);
            let ghost next = all.subrange(0, i as int + 1);
            assert(next[i as int] == self.runs@[i as int]@);
            proof {
                assert forall|id: Seq<char>| has_run(next, id) == (has_run(before, id) || id
                    == next[i as int].run_id) by {
                    if has_run(next, id) {
                        let k = place_of_run(next, id);
                        if k < i {
                            assert(before[k] == next[k]);
                        }
                    }
                    if has_run(before, id) {
                        let k = place_of_run(before, id);
                        assert(next[k] == before[k]);
                    }
                }
                assert(ids_of(next) =~= ids_of(before).insert(next[i as int].run_id));
            }
            let id = self.runs[i].run_id.clone();
            ids.insert(id);
            i = i + 1;
        }
        assert(all.subrange(0, all.len() as int) =~= all);
        copy_texts(ids.items())
    }
}

} // verus!
