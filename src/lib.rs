//! A checklist tree: tasks whose readiness follows from the completion of
//! their children, with queries over the leaves and insertion by address.

pub mod task;
pub mod render;
pub mod project;
pub mod laws;
