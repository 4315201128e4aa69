//! The configurable entry points that chain the passes.

use hltas_cleaner::types::lines_eq;
use hltas_cleaner::types::{ActionKeys, AutoActions, FrameBulk, Line, MovementKeys};
use hltas_cleaner::{runner, CleanerError, Config};

fn fb(frame_time: &str, count: u32) -> Line {
    Line::FrameBulk(FrameBulk {
        auto_actions: AutoActions::default(),
        movement_keys: MovementKeys::default(),
        action_keys: ActionKeys::default(),
        frame_time: frame_time.as_bytes().to_vec(),
        pitch: None,
        frame_count: count,
        console_command: None,
    })
}

fn comment(text: &str) -> Line {
    Line::Comment(text.as_bytes().to_vec())
}

fn config(dupes: bool, comments: bool) -> Config {
    Config {
        input_path: String::from("in.hltas"),
        output_path: String::from("out.hltas"),
        remove_dupe_framebulks: dupes,
        remove_comments: comments,
    }
}

#[test]
fn run_applies_selected_passes() {
    let mut doc = vec![fb("a", 1), fb("a", 2), comment("x"), fb("a", 3)];
    hltas_cleaner::run(config(true, true), &mut doc).unwrap();

    let expected = vec![fb("a", 3), fb("a", 3)];
    assert!(lines_eq(&doc, &expected));
}

#[test]
fn run_with_no_passes_changes_nothing() {
    let mut doc = vec![fb("a", 1), fb("a", 2), comment("x")];
    hltas_cleaner::run(config(false, false), &mut doc).unwrap();

    let expected = vec![fb("a", 1), fb("a", 2), comment("x")];
    assert!(lines_eq(&doc, &expected));
}

#[test]
fn run_comments_only() {
    let mut doc = vec![fb("a", 1), comment("x"), fb("a", 2)];
    hltas_cleaner::run(config(false, true), &mut doc).unwrap();

    let expected = vec![fb("a", 1), fb("a", 2)];
    assert!(lines_eq(&doc, &expected));
}

#[test]
fn run_propagates_overflow() {
    let mut doc = vec![fb("a", u32::MAX), fb("a", 1)];
    let err = hltas_cleaner::run(config(true, true), &mut doc).unwrap_err();
    assert_eq!(err, CleanerError::CountOverflow { index: 1 });

    let untouched = vec![fb("a", u32::MAX), fb("a", 1)];
    assert!(lines_eq(&doc, &untouched));
}

#[test]
fn runner_merges_only() {
    let mut doc = vec![fb("a", 1), fb("a", 2), comment("x")];
    let cfg = runner::Config {
        file_path: String::from("in.hltas"),
        output_path: String::from("out.hltas"),
        remove_dupe_framebulks: true,
    };
    runner::run(cfg, &mut doc).unwrap();

    let expected = vec![fb("a", 3), comment("x")];
    assert!(lines_eq(&doc, &expected));
}
