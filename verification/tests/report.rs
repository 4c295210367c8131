use crazy_train::report::{plan_entry, render, step_heading, Labels, PlanEntry};
use crazy_train::step::Plan;
use crazy_train::text::{join_lines, push_decimal};

fn labels() -> Labels {
    Labels {
        title: "TITLE".to_string(),
        step_count: "Step Count".to_string(),
        seed: "Seed".to_string(),
        command: "Command:".to_string(),
        state: "State:".to_string(),
    }
}

fn decimal(n: u64) -> String {
    let mut text = String::new();
    push_decimal(&mut text, n);
    text
}

#[test]
fn decimal_digits() {
    assert_eq!(decimal(0), "0");
    assert_eq!(decimal(7), "7");
    assert_eq!(decimal(10), "10");
    assert_eq!(decimal(42), "42");
    assert_eq!(decimal(1_000_000), "1000000");
    assert_eq!(decimal(u64::MAX), "18446744073709551615");
}

#[test]
fn decimal_is_appended() {
    let mut text = "n = ".to_string();
    push_decimal(&mut text, 305);
    assert_eq!(text, "n = 305");
}

#[test]
fn lines_are_joined_by_line_feeds() {
    assert_eq!(join_lines(&Vec::new()), "");
    assert_eq!(join_lines(&vec!["one".to_string()]), "one");
    assert_eq!(
        join_lines(&vec!["one".to_string(), String::new(), "three".to_string()]),
        "one\n\nthree"
    );
}

#[test]
fn headings_count_from_one() {
    assert_eq!(step_heading(0, "first"), "Step 1: first");
    assert_eq!(step_heading(9, "tenth"), "Step 10: tenth");
}

#[test]
fn report_without_steps() {
    let text = render(&labels(), 0, 7, &Vec::new());
    assert_eq!(
        text,
        "====================================\n\
         TITLE\n\
         ====================================\n\
         Step Count: 0\n\
         Seed: 7\n\
         ------------------------------------"
    );
}

#[test]
fn report_with_steps() {
    let entries = vec![
        PlanEntry {
            title: "Step 1: one".to_string(),
            command: "echo one".to_string(),
            state: "a: 1\n".to_string(),
        },
        PlanEntry {
            title: "Step 2: two".to_string(),
            command: "echo two".to_string(),
            state: String::new(),
        },
    ];
    let text = render(&labels(), 2, 18446744073709551615, &entries);
    assert_eq!(
        text,
        "====================================\n\
         TITLE\n\
         ====================================\n\
         Step Count: 2\n\
         Seed: 18446744073709551615\n\
         ------------------------------------\n\
         Step 1: one\n\
         ------------------------------------\n\
         Command:\n\
         echo one\n\
         State:\n\
         ---\n\
         a: 1\n\
         \n\
         ------------------------------------\n\
         Step 2: two\n\
         ------------------------------------\n\
         Command:\n\
         echo two\n\
         State:\n\
         ---\n\
         \n\
         ------------------------------------"
    );
}

#[test]
fn entry_of_a_plan() {
    let entry = plan_entry(0, Plan::new("one", "echo one"), Some("a: 1\n".to_string()));
    assert!(entry.title.contains("Step 1: one"));
    assert_eq!(entry.command, "echo one");
    assert_eq!(entry.state, "a: 1\n");
}

#[test]
fn entry_of_a_step_without_written_state() {
    let entry = plan_entry(11, Plan::new("twelve", "true"), None);
    assert!(entry.title.contains("Step 12: twelve"));
    assert_eq!(entry.command, "true");
    assert_eq!(entry.state, "");
}
