//! Facts about readiness, status, the leaf queries and insertion, proved
//! over the spec functions that the operations' contracts use.
use vstd::prelude::*;
use crate::task::{
    added_at, blocking_leaves, blocking_leaves_of_children, has_path, leaves, leaves_of_children,
    spec_ready, spec_status, Task, TaskStatus, TaskType,
};

verus! {

/// Number of leaves in a task's subtree.
pub open spec fn leaf_count(t: Task) -> nat
    decreases t, 1int, 0int,
{
    if t.children@.len() == 0 {
        1
    } else {
        leaf_count_of_children(t, t.children@.len() as int)
    }
}

/// Number of leaves under the first `n` children of `t`.
pub open spec fn leaf_count_of_children(t: Task, n: int) -> nat
    decreases t, 0int, n,
{
    if n <= 0 || n > t.children@.len() {
        0
    } else {
        leaf_count_of_children(t, n - 1) + leaf_count(t.children@[n - 1])
    }
}

/// A task of kind `All` without children is ready.
pub proof fn lemma_all_without_children_ready(t: Task)
    requires
        t.variant == TaskType::All,
        t.children@.len() == 0,
    ensures
        spec_ready(t),
{
}

/// A task of kind `Any` without children is not ready.
pub proof fn lemma_any_without_children_not_ready(t: Task)
    requires
        t.variant == TaskType::Any,
        t.children@.len() == 0,
    ensures
        !spec_ready(t),
{
}

/// A task of kind `All` is ready exactly when every child is complete.
pub proof fn lemma_all_ready_iff_every_child_complete(t: Task)
    requires
        t.variant == TaskType::All,
    ensures
        spec_ready(t) <==> forall|i: int|
            0 <= i < t.children@.len() ==> #[trigger] t.children@[i].complete,
{
}

/// A task of kind `Any` is ready exactly when some child is complete.
pub proof fn lemma_any_ready_iff_some_child_complete(t: Task)
    requires
        t.variant == TaskType::Any,
    ensures
        spec_ready(t) <==> exists|i: int|
            0 <= i < t.children@.len() && #[trigger] t.children@[i].complete,
{
}

/// A task marked complete has status `Complete`, whatever its other flag and children.
pub proof fn lemma_complete_wins(t: Task)
    requires
        t.complete,
    ensures
        spec_status(t) == TaskStatus::Complete,
{
}

/// An incomplete task marked blocking has status `Blocking`, ready or not.
pub proof fn lemma_blocking_over_readiness(t: Task)
    requires
        !t.complete,
        t.blocking,
    ensures
        spec_status(t) == TaskStatus::Blocking,
{
}

/// An incomplete, non-blocking task is `Ready` when ready and `Incomplete` otherwise.
pub proof fn lemma_status_follows_readiness(t: Task)
    requires
        !t.complete,
        !t.blocking,
    ensures
        spec_status(t) == TaskStatus::Ready <==> spec_ready(t),
        spec_status(t) == TaskStatus::Incomplete <==> !spec_ready(t),
{
}

/// Every blocking leaf is a childless task marked blocking; a task with
/// children never appears, whatever its own flag.
pub proof fn lemma_blocking_leaves_are_blocking_leaves(t: Task)
    ensures
        forall|i: int|
            0 <= i < blocking_leaves(t).len() ==> (#[trigger] blocking_leaves(t)[i]).children@.len()
                == 0 && blocking_leaves(t)[i].blocking,
    decreases t, 1int, 0int,
{
    if t.children@.len() != 0 {
        lemma_blocking_leaves_of_children(t, t.children@.len() as int);
    }
}

/// The blocking leaves under the first `n` children are childless and blocking.
pub proof fn lemma_blocking_leaves_of_children(t: Task, n: int)
    ensures
        forall|i: int|
            0 <= i < blocking_leaves_of_children(t, n).len() ==> (#[trigger] blocking_leaves_of_children(
                t,
                n,
            )[i]).children@.len() == 0 && blocking_leaves_of_children(t, n)[i].blocking,
    decreases t, 0int, n,
{
    if !(n <= 0 || n > t.children@.len()) {
        lemma_blocking_leaves_of_children(t, n - 1);
        lemma_blocking_leaves_are_blocking_leaves(t.children@[n - 1]);
        let a = blocking_leaves_of_children(t, n - 1);
        let b = blocking_leaves(t.children@[n - 1]);
        assert forall|i: int| 0 <= i < (a + b).len() implies (#[trigger] (a + b)[i]).children@.len()
            == 0 && (a + b)[i].blocking by {
            if i >= a.len() {
                assert((a + b)[i] == b[i - a.len()]);
            }
        }
    }
}

/// The blocking leaves are the leaves marked blocking, in the same order.
pub proof fn lemma_blocking_leaves_filter(t: Task)
    ensures
        blocking_leaves(t) == leaves(t).filter(|x: Task| x.blocking),
    decreases t, 1int, 0int,
{
    if t.children@.len() == 0 {
        let p = |x: Task| x.blocking;
        reveal(Seq::filter);
        assert(seq![t].drop_last() =~= Seq::<Task>::empty());
        assert(Seq::<Task>::empty().filter(p) =~= Seq::<Task>::empty());
        assert(seq![t].filter(p) =~= blocking_leaves(t));
    } else {
        lemma_blocking_leaves_of_children_filter(t, t.children@.len() as int);
    }
}

/// The blocking leaves under the first `n` children are their leaves marked blocking.
pub proof fn lemma_blocking_leaves_of_children_filter(t: Task, n: int)
    ensures
        blocking_leaves_of_children(t, n) == leaves_of_children(t, n).filter(|x: Task| x.blocking),
    decreases t, 0int, n,
{
    if n <= 0 || n > t.children@.len() {
        reveal(Seq::filter);
        assert(blocking_leaves_of_children(t, n) =~= leaves_of_children(t, n).filter(
            |x: Task| x.blocking,
        ));
    } else {
        lemma_blocking_leaves_of_children_filter(t, n - 1);
        lemma_blocking_leaves_filter(t.children@[n - 1]);
        Seq::filter_distributes_over_add(
            leaves_of_children(t, n - 1),
            leaves(t.children@[n - 1]),
            |x: Task| x.blocking,
        );
    }
}

/// Every leaf is childless.
pub proof fn lemma_leaves_are_childless(t: Task)
    ensures
        forall|i: int|
            0 <= i < leaves(t).len() ==> (#[trigger] leaves(t)[i]).children@.len() == 0,
    decreases t, 1int, 0int,
{
    if t.children@.len() != 0 {
        lemma_leaves_of_children_are_childless(t, t.children@.len() as int);
    }
}

/// Every leaf under the first `n` children is childless.
pub proof fn lemma_leaves_of_children_are_childless(t: Task, n: int)
    ensures
        forall|i: int|
            0 <= i < leaves_of_children(t, n).len() ==> (#[trigger] leaves_of_children(
                t,
                n,
            )[i]).children@.len() == 0,
    decreases t, 0int, n,
{
    if !(n <= 0 || n > t.children@.len()) {
        lemma_leaves_of_children_are_childless(t, n - 1);
        lemma_leaves_are_childless(t.children@[n - 1]);
        let a = leaves_of_children(t, n - 1);
        let b = leaves(t.children@[n - 1]);
        assert forall|i: int| 0 <= i < (a + b).len() implies (#[trigger] (a + b)[i]).children@.len()
            == 0 by {
            if i >= a.len() {
                assert((a + b)[i] == b[i - a.len()]);
            }
        }
    }
}

/// There are as many leaves, in the order of `leaves`, as the subtree counts.
pub proof fn lemma_leaves_len(t: Task)
    ensures
        leaves(t).len() == leaf_count(t),
    decreases t, 1int, 0int,
{
    if t.children@.len() != 0 {
        lemma_leaves_of_children_len(t, t.children@.len() as int);
    }
}

/// The leaves under the first `n` children number as many as they count.
pub proof fn lemma_leaves_of_children_len(t: Task, n: int)
    ensures
        leaves_of_children(t, n).len() == leaf_count_of_children(t, n),
    decreases t, 0int, n,
{
    if !(n <= 0 || n > t.children@.len()) {
        lemma_leaves_of_children_len(t, n - 1);
        lemma_leaves_len(t.children@[n - 1]);
    }
}

/// An empty address always names the task itself, and inserting there appends
/// the new task as the last child.
pub proof fn lemma_add_at_empty_address(before: Task, after: Task, c: Task)
    ensures
        has_path(before, Seq::empty()),
        added_at(before, after, Seq::empty(), c) ==> after.children@ == before.children@.push(c)
            && after.children@.last() == c,
{
}

/// A one-index address beyond the last child names no task.
pub proof fn lemma_out_of_bounds_address(t: Task, i: usize)
    requires
        t.children@.len() < i + 1,
    ensures
        !has_path(t, seq![i]),
{
}

} // verus!
