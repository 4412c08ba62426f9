//! The task tree: status and readiness of a node, the leaf queries, and
//! insertion of a child at an address of child indices.
use vstd::prelude::*;
use crate::laws::{lemma_blocking_leaves_are_blocking_leaves, lemma_leaves_are_childless};

verus! {

/// How a task's readiness aggregates the completion of its children.
#[derive(Debug, Clone, Copy, PartialEq, Eq, Structural)]
pub enum TaskType {
    /// Every child must be complete.
    All,
    /// At least one child must be complete.
    Any,
}

/// The status derived from a task's own flags and its children.
#[derive(Debug, Clone, Copy, PartialEq, Eq, Structural)]
pub enum TaskStatus {
    /// The task no longer influences its parents.
    Complete,
    /// The task can be done now.
    Ready,
    /// The task waits on its children.
    Incomplete,
    /// The task cannot be done now, for reasons outside the tree.
    Blocking,
}

/// One node of the tree; it owns its children.
pub struct Task {
    pub name: String,
    pub description: String,
    pub blocking: bool,
    pub complete: bool,
    pub variant: TaskType,
    pub children: Vec<Task>,
}

/// Readiness of a task over its direct children.
pub open spec fn spec_ready(t: Task) -> bool {
    match t.variant {
        TaskType::All => forall|i: int| 0 <= i < t.children@.len() ==> #[trigger] t.children@[i].complete,
        TaskType::Any => exists|i: int| 0 <= i < t.children@.len() && #[trigger] t.children@[i].complete,
    }
}

/// Status of a task: completion first, then blocking, then readiness.
pub open spec fn spec_status(t: Task) -> TaskStatus {
    if t.complete {
        TaskStatus::Complete
    } else if t.blocking {
        TaskStatus::Blocking
    } else if spec_ready(t) {
        TaskStatus::Ready
    } else {
        TaskStatus::Incomplete
    }
}

/// The leaves of a task's subtree, depth first, children in stored order.
pub open spec fn leaves(t: Task) -> Seq<Task>
    decreases t, 1int, 0int,
{
    if t.children@.len() == 0 {
        seq![t]
    } else {
        leaves_of_children(t, t.children@.len() as int)
    }
}

/// The leaves under the first `n` children of `t`, in order.
pub open spec fn leaves_of_children(t: Task, n: int) -> Seq<Task>
    decreases t, 0int, n,
{
    if n <= 0 || n > t.children@.len() {
        seq![]
    } else {
        leaves_of_children(t, n - 1) + leaves(t.children@[n - 1])
    }
}

/// The leaves of a task's subtree that are marked blocking, in the order of `leaves`.
pub open spec fn blocking_leaves(t: Task) -> Seq<Task>
    decreases t, 1int, 0int,
{
    if t.children@.len() == 0 {
        if t.blocking {
            seq![t]
        } else {
            seq![]
        }
    } else {
        blocking_leaves_of_children(t, t.children@.len() as int)
    }
}

/// The blocking leaves under the first `n` children of `t`, in order.
pub open spec fn blocking_leaves_of_children(t: Task, n: int) -> Seq<Task>
    decreases t, 0int, n,
{
    if n <= 0 || n > t.children@.len() {
        seq![]
    } else {
        blocking_leaves_of_children(t, n - 1) + blocking_leaves(t.children@[n - 1])
    }
}

/// Whether `addr` names a task below `t`: each index is in bounds at its depth.
pub open spec fn has_path(t: Task, addr: Seq<usize>) -> bool
    decreases addr.len(),
{
    addr.len() == 0 || (addr[0] < t.children@.len() && has_path(
        t.children@[addr[0] as int],
        addr.drop_first(),
    ))
}

/// `after` is `before` with `c` appended to the children of the task that `addr`
/// names, and nothing else changed.
pub open spec fn added_at(before: Task, after: Task, addr: Seq<usize>, c: Task) -> bool
    decreases addr.len(),
{
    &&& after.name == before.name
    &&& after.description == before.description
    &&& after.blocking == before.blocking
    &&& after.complete == before.complete
    &&& after.variant == before.variant
    &&& if addr.len() == 0 {
        after.children@ == before.children@.push(c)
    } else {
        let i = addr[0] as int;
        &&& 0 <= i < before.children@.len()
        &&& after.children@.len() == before.children@.len()
        &&& forall|j: int|
            0 <= j < before.children@.len() && j != i ==> after.children@[j]
                == before.children@[j]
        &&& added_at(before.children@[i], after.children@[i], addr.drop_first(), c)
    }
}

/// The tasks that a sequence of references points to.
pub open spec fn targets(s: Seq<&Task>) -> Seq<Task> {
    s.map_values(|x: &Task| *x)
}

impl Task {
    /// A childless task with the given flags.
    pub fn new(name: String, description: String, complete: bool, blocking: bool, variant: TaskType) -> (r: Task)
        ensures
            r.name@ == name@,
            r.description@ == description@,
            r.complete == complete,
            r.blocking == blocking,
            r.variant == variant,
            r.children@.len() == 0,
    {
        Task { name, description, blocking, complete, variant, children: Vec::new() }
    }

    /// Whether the task is marked complete.
    pub fn complete(&self) -> (r: bool)
        ensures
            r == self.complete,
    {
        self.complete
    }

    /// Whether the task itself is marked blocking.
    pub fn blocking(&self) -> (r: bool)
        ensures
            r == self.blocking,
    {
        self.blocking
    }

    /// Whether the task's completion criteria can be met now.
    pub fn ready(&self) -> (r: bool)
        ensures
            r == spec_ready(*self),
    {
        let n = self.children.len();
        let mut i: usize = 0;
        match self.variant {
            TaskType::All => {
                while i < n
                    invariant
                        n == self.children@.len(),
                        self.variant == TaskType::All,
                        i <= n,
                        forall|j: int| 0 <= j < i ==> #[trigger] self.children@[j].complete,
                    decreases n - i,
                {
                    if !self.children[i].complete() {
                        return false;
                    }
                    i = i + 1;
                }
                true
            },
            TaskType::Any => {
                while i < n
                    invariant
                        n == self.children@.len(),
                        self.variant == TaskType::Any,
                        i <= n,
                        forall|j: int| 0 <= j < i ==> !#[trigger] self.children@[j].complete,
                    decreases n - i,
                {
                    if self.children[i].complete() {
                        return true;
                    }
                    i = i + 1;
                }
                false
            },
        }
    }

    /// The status derived from the task's flags and its children.
    pub fn status(&self) -> (r: TaskStatus)
        ensures
            r == spec_status(*self),
    {
        if self.complete {
            TaskStatus::Complete
        } else if self.blocking {
            TaskStatus::Blocking
        } else if self.ready() {
            TaskStatus::Ready
        } else {
            TaskStatus::Incomplete
        }
    }
    /// The leaf tasks of the subtree that are marked blocking, depth first.
    pub fn get_blocking(&self) -> (r: Vec<&Task>)
        ensures
            targets(r@) == blocking_leaves(*self),
            forall|i: int|
                0 <= i < r@.len() ==> (#[trigger] r@[i]).children@.len() == 0 && r@[i].blocking,
        decreases self,
    {
        let mut results: Vec<&Task> = Vec::new();
        let n = self.children.len();
        if n == 0 {
            if self.blocking() {
                results.push(self);
            }
            proof {
                assert(targets(results@) =~= blocking_leaves(*self));
            }
        } else {
            let mut i: usize = 0;
            while i < n
                invariant
                    n == self.children@.len(),
                    i <= n,
                    targets(results@) == blocking_leaves_of_children(*self, i as int),
                decreases n - i,
            {
                let mut sub = self.children[i].get_blocking();
                results.append(&mut sub);
                i = i + 1;
                proof {
                    assert(targets(results@) =~= blocking_leaves_of_children(*self, i as int));
                }
            }
        }
        proof {
            lemma_blocking_leaves_are_blocking_leaves(*self);
            assert forall|i: int| 0 <= i < results@.len() implies *results@[i] == blocking_leaves(
                *self,
            )[i] by {
                assert(targets(results@)[i] == *results@[i]);
            }
        }
        results
    }

    /// Every leaf task of the subtree, depth first.
    pub fn get_completable(&self) -> (r: Vec<&Task>)
        ensures
            targets(r@) == leaves(*self),
            forall|i: int| 0 <= i < r@.len() ==> (#[trigger] r@[i]).children@.len() == 0,
        decreases self,
    {
        let mut results: Vec<&Task> = Vec::new();
        let n = self.children.len();
        if n == 0 {
            results.push(self);
            proof {
                assert(targets(results@) =~= leaves(*self));
            }
        } else {
            let mut i: usize = 0;
            while i < n
                invariant
                    n == self.children@.len(),
                    i <= n,
                    targets(results@) == leaves_of_children(*self, i as int),
                decreases n - i,
            {
                let mut sub = self.children[i].get_completable();
                results.append(&mut sub);
                i = i + 1;
                proof {
                    assert(targets(results@) =~= leaves_of_children(*self, i as int));
                }
            }
        }
        proof {
            lemma_leaves_are_childless(*self);
            assert forall|i: int| 0 <= i < results@.len() implies *results@[i] == leaves(*self)[i] by {
                assert(targets(results@)[i] == *results@[i]);
            }
        }
        results
    }
    /// Whether the part of `address` from `depth` on names a task below this one.
    fn path_exists(&self, address: &[usize], depth: usize) -> (r: bool)
        requires
            depth <= address@.len(),
        ensures
            r == has_path(*self, address@.skip(depth as int)),
        decreases address@.len() - depth,
    {
        if depth == address.len() {
            return true;
        }
        let i = address[depth];
        assert(address@.skip(depth as int).drop_first() =~= address@.skip(depth + 1));
        if i < self.children.len() {
            self.children[i].path_exists(address, depth + 1)
        } else {
            false
        }
    }

    /// Appends `new_child` at the task that the part of `address` from `depth` on names.
    fn insert_at(&mut self, address: &[usize], depth: usize, new_child: Task)
        requires
            depth <= address@.len(),
            has_path(*old(self), address@.skip(depth as int)),
        ensures
            added_at(*old(self), *final(self), address@.skip(depth as int), new_child),
        decreases address@.len() - depth,
    {
        if depth == address.len() {
            self.children.push(new_child);
        } else {
            let i = address[depth];
            assert(address@.skip(depth as int).drop_first() =~= address@.skip(depth + 1));
            self.children[i].insert_at(address, depth + 1, new_child);
        }
    }

    /// Appends `new_child` to the children of the task that `address` names,
    /// each index choosing a child one level further down; an empty address
    /// names `self`. Returns `None`, changing nothing, where some index is
    /// out of bounds at its depth.
    pub fn add_child(&mut self, address: &[usize], new_child: Task) -> (r: Option<()>)
        ensures
            (r is Some) <==> has_path(*old(self), address@),
            (r is Some) ==> added_at(*old(self), *final(self), address@, new_child),
            (r is None) ==> *final(self) == *old(self),
    {
        assert(address@.skip(0) =~= address@);
        if self.path_exists(address, 0) {
            self.insert_at(address, 0, new_child);
            Some(())
        } else {
            None
        }
    }
}

} // verus!
