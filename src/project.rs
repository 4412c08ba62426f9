//! A named handle on one task tree.
use vstd::prelude::*;
use crate::task::{Task, TaskType};

verus! {

/// A project: the root task of one tree.
pub struct Project {
    pub primary: Task,
}

impl Project {
    /// A project whose root task carries the name and description, is
    /// incomplete, not blocking, of kind `All`, and has no children.
    pub fn new(name: String, description: String) -> (r: Project)
        ensures
            r.primary.name@ == name@,
            r.primary.description@ == description@,
            !r.primary.complete,
            !r.primary.blocking,
            r.primary.variant == TaskType::All,
            r.primary.children@.len() == 0,
    {
        Project {
            primary: Task {
                name: name,
                description: description,
                complete: false,
                blocking: false,
                variant: TaskType::All,
                children: Vec::new(),
            },
        }
    }

    /// The root task.
    pub fn primary(&self) -> (r: &Task)
        ensures
            *r == self.primary,
    {
        &self.primary
    }
}

} // verus!
