use taskgraph::render::{decimal_string, render_short};
use taskgraph::task::{Task, TaskStatus, TaskType};

fn task(name: &str, complete: bool, blocking: bool, variant: TaskType) -> Task {
    Task::new(name.to_string(), "desc".to_string(), complete, blocking, variant)
}

#[test]
fn decimal_forms() {
    assert_eq!(decimal_string(0), "0");
    assert_eq!(decimal_string(7), "7");
    assert_eq!(decimal_string(10), "10");
    assert_eq!(decimal_string(120), "120");
    assert_eq!(decimal_string(usize::MAX), usize::MAX.to_string());
}

#[test]
fn short_line_prefixes_glyph() {
    assert_eq!(render_short(TaskStatus::Complete, "x"), "[X] x");
    assert_eq!(render_short(TaskStatus::Incomplete, "x"), "[ ] x");
    assert_eq!(render_short(TaskStatus::Blocking, "x"), "[!] x");
    assert_eq!(render_short(TaskStatus::Ready, "x"), "[*] x");
}

#[test]
fn short_form_plain() {
    colored::control::set_override(false);
    assert_eq!(task("a", true, false, TaskType::All).display_short(), "[X] a");
    assert_eq!(task("a", false, true, TaskType::All).display_short(), "[!] a");
    assert_eq!(task("a", false, false, TaskType::All).display_short(), "[*] a");
    assert_eq!(task("a", false, false, TaskType::Any).display_short(), "[ ] a");
    assert_eq!(task("a", false, false, TaskType::Any).to_string(), "[ ] a");
}

#[test]
fn short_form_colored() {
    colored::control::set_override(true);
    assert_eq!(task("a", true, false, TaskType::All).display_short(), "[X] \x1b[32ma\x1b[0m");
    assert_eq!(task("a", false, true, TaskType::All).display_short(), "[!] \x1b[31ma\x1b[0m");
    assert_eq!(task("a", false, false, TaskType::All).display_short(), "[*] \x1b[34ma\x1b[0m");
    assert_eq!(task("a", false, false, TaskType::Any).display_short(), "[ ] \x1b[37ma\x1b[0m");
}

#[test]
fn long_form_plain() {
    colored::control::set_override(false);
    let mut t = task("job", false, false, TaskType::Any);
    t.add_child(&[], task("c1", false, false, TaskType::All));
    t.add_child(&[], task("c2", false, false, TaskType::All));
    assert_eq!(
        t.display_long(),
        "[ ] job\n\tStatus: Incomplete\n\tDescription: desc\n\tVariant: Any\n\tChildren: 2"
    );
}

#[test]
fn render_long_appends_details() {
    let t = task("job", true, false, TaskType::All);
    assert_eq!(
        t.render_long("S"),
        "S\n\tStatus: Complete\n\tDescription: desc\n\tVariant: All\n\tChildren: 0"
    );
}

#[test]
fn labels() {
    assert_eq!(TaskType::All.to_string(), "All");
    assert_eq!(TaskType::Any.label(), "Any");
    assert_eq!(TaskStatus::Blocking.label(), "Blocking");
    assert_eq!(TaskStatus::Ready.label(), "Ready");
}
