use taskgraph::project::Project;
use taskgraph::task::{Task, TaskStatus, TaskType};

fn task(name: &str, complete: bool, blocking: bool, variant: TaskType) -> Task {
    Task::new(name.to_string(), format!("about {}", name), complete, blocking, variant)
}

fn names(tasks: &[&Task]) -> Vec<String> {
    tasks.iter().map(|t| t.name.clone()).collect()
}

#[test]
fn all_without_children_is_ready() {
    let t = task("t", false, false, TaskType::All);
    assert!(t.ready());
}

#[test]
fn any_without_children_is_not_ready() {
    let t = task("t", false, false, TaskType::Any);
    assert!(!t.ready());
    assert_eq!(t.status(), TaskStatus::Incomplete);
}

#[test]
fn all_ready_only_when_every_child_complete() {
    let mut t = task("t", false, false, TaskType::All);
    assert_eq!(t.add_child(&[], task("a", true, false, TaskType::All)), Some(()));
    assert_eq!(t.add_child(&[], task("b", false, false, TaskType::All)), Some(()));
    assert!(!t.ready());
    t.children[1].complete = true;
    assert!(t.ready());
}

#[test]
fn any_ready_when_some_child_complete() {
    let mut t = task("t", false, false, TaskType::Any);
    assert_eq!(t.add_child(&[], task("a", false, false, TaskType::All)), Some(()));
    assert_eq!(t.add_child(&[], task("b", false, false, TaskType::All)), Some(()));
    assert!(!t.ready());
    t.children[1].complete = true;
    assert!(t.ready());
}

#[test]
fn complete_overrides_blocking_and_children() {
    let mut t = task("t", true, true, TaskType::Any);
    assert_eq!(t.status(), TaskStatus::Complete);
    t.add_child(&[], task("a", false, false, TaskType::All));
    assert_eq!(t.status(), TaskStatus::Complete);
}

#[test]
fn blocking_overrides_readiness() {
    let t = task("t", false, true, TaskType::All);
    assert!(t.ready());
    assert_eq!(t.status(), TaskStatus::Blocking);
}

#[test]
fn status_follows_readiness() {
    let mut t = task("t", false, false, TaskType::Any);
    assert_eq!(t.status(), TaskStatus::Incomplete);
    t.add_child(&[], task("a", true, false, TaskType::All));
    assert_eq!(t.status(), TaskStatus::Ready);
}

#[test]
fn blocking_skips_parents_that_are_flagged() {
    let mut t = task("root", false, true, TaskType::All);
    t.add_child(&[], task("mid", false, true, TaskType::All));
    t.add_child(&[0], task("leaf1", false, true, TaskType::All));
    t.add_child(&[0], task("leaf2", false, false, TaskType::All));
    t.add_child(&[], task("leaf3", true, true, TaskType::All));
    let b = t.get_blocking();
    assert_eq!(names(&b), vec!["leaf1".to_string(), "leaf3".to_string()]);
}

#[test]
fn blocking_leaf_root_reports_itself() {
    let t = task("solo", false, true, TaskType::All);
    assert_eq!(names(&t.get_blocking()), vec!["solo".to_string()]);
    let u = task("solo", false, false, TaskType::All);
    assert!(u.get_blocking().is_empty());
}

#[test]
fn completable_lists_leaves_depth_first() {
    let mut t = task("root", false, false, TaskType::All);
    t.add_child(&[], task("a", false, false, TaskType::All));
    t.add_child(&[], task("b", true, true, TaskType::Any));
    t.add_child(&[0], task("a1", false, false, TaskType::All));
    t.add_child(&[0], task("a2", false, true, TaskType::All));
    t.add_child(&[0, 1], task("a2x", false, false, TaskType::All));
    t.add_child(&[], task("c", false, false, TaskType::All));
    let c = t.get_completable();
    assert_eq!(c.len(), 4);
    assert_eq!(
        names(&c),
        vec!["a1".to_string(), "a2x".to_string(), "b".to_string(), "c".to_string()]
    );
}

#[test]
fn completable_of_leaf_is_itself() {
    let t = task("solo", true, false, TaskType::Any);
    assert_eq!(names(&t.get_completable()), vec!["solo".to_string()]);
}

#[test]
fn add_child_with_empty_address_appends_last() {
    let mut t = task("root", false, false, TaskType::All);
    assert_eq!(t.add_child(&[], task("a", false, false, TaskType::All)), Some(()));
    assert_eq!(t.add_child(&[], task("b", false, false, TaskType::All)), Some(()));
    assert_eq!(t.children.len(), 2);
    assert_eq!(t.children[1].name, "b");
    assert_eq!(t.children[0].name, "a");
}

#[test]
fn add_child_out_of_bounds_changes_nothing() {
    let mut t = task("root", false, false, TaskType::All);
    t.add_child(&[], task("a", false, false, TaskType::All));
    assert_eq!(t.add_child(&[1], task("b", false, false, TaskType::All)), None);
    assert_eq!(t.add_child(&[5], task("b", false, false, TaskType::All)), None);
    assert_eq!(t.children.len(), 1);
    assert!(t.children[0].children.is_empty());
}

#[test]
fn add_child_deep_address() {
    let mut t = task("root", false, false, TaskType::All);
    t.add_child(&[], task("a", false, false, TaskType::All));
    t.add_child(&[], task("b", false, false, TaskType::All));
    assert_eq!(t.add_child(&[1], task("b1", false, false, TaskType::All)), Some(()));
    assert_eq!(t.add_child(&[1, 0], task("b1x", false, false, TaskType::All)), Some(()));
    assert_eq!(t.children[1].children[0].children[0].name, "b1x");
    assert!(t.children[0].children.is_empty());
}

#[test]
fn new_project_root_is_ready() {
    let p = Project::new("proj".to_string(), "the project".to_string());
    let root = p.primary();
    assert!(root.ready());
    assert_eq!(root.status(), TaskStatus::Ready);
    assert_eq!(root.name, "proj");
    assert_eq!(root.description, "the project");
    assert!(!root.complete());
    assert!(!root.blocking());
    assert_eq!(root.variant, TaskType::All);
    assert!(root.children.is_empty());
}

#[test]
fn root_with_incomplete_child_is_incomplete() {
    let mut p = Project::new("proj".to_string(), "d".to_string());
    let r = p.primary.add_child(&[], task("A", false, false, TaskType::All));
    assert_eq!(r, Some(()));
    assert!(!p.primary().ready());
    assert_eq!(p.primary().status(), TaskStatus::Incomplete);
}

#[test]
fn blocking_leaf_child_is_reported_by_both_queries() {
    let mut p = Project::new("proj".to_string(), "d".to_string());
    p.primary.add_child(&[], task("A", false, true, TaskType::All));
    let root = p.primary();
    assert_eq!(names(&root.get_blocking()), vec!["A".to_string()]);
    assert_eq!(names(&root.get_completable()), vec!["A".to_string()]);
}

#[test]
fn address_below_childless_child_is_not_found() {
    let mut p = Project::new("proj".to_string(), "d".to_string());
    p.primary.add_child(&[], task("A", false, false, TaskType::All));
    let r = p.primary.add_child(&[0, 0], task("B", false, false, TaskType::All));
    assert_eq!(r, None);
    assert_eq!(p.primary.children.len(), 1);
    assert!(p.primary.children[0].children.is_empty());
}
