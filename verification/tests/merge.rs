//! The merge engine on documents built directly in the line model.

use hltas_cleaner::types::{AutoActions, ActionKeys, FrameBulk, Line, MovementKeys};
use hltas_cleaner::types::lines_eq;
use hltas_cleaner::{no_dupe_framebulks, CleanerError};

/// A frame bulk with default settings, distinguished by its frame time text.
fn bulk(frame_time: &str, count: u32) -> FrameBulk {
    FrameBulk {
        auto_actions: AutoActions::default(),
        movement_keys: MovementKeys::default(),
        action_keys: ActionKeys::default(),
        frame_time: frame_time.as_bytes().to_vec(),
        pitch: None,
        frame_count: count,
        console_command: None,
    }
}

fn fb(frame_time: &str, count: u32) -> Line {
    Line::FrameBulk(bulk(frame_time, count))
}

fn comment(text: &str) -> Line {
    Line::Comment(text.as_bytes().to_vec())
}

fn total_frames(lines: &[Line]) -> u64 {
    lines
        .iter()
        .map(|l| match l {
            Line::FrameBulk(b) => b.frame_count as u64,
            _ => 0,
        })
        .sum()
}

#[test]
fn merge_two_identical_bulks() {
    let mut doc = vec![fb("0.001", 1), fb("0.001", 1)];
    let report = no_dupe_framebulks(&mut doc).unwrap();

    let expected = vec![fb("0.001", 2)];
    assert!(lines_eq(&doc, &expected));
    assert_eq!(report.lines_changed, vec![0]);
    assert_eq!(report.lines_removed, vec![1]);
}

#[test]
fn merge_resolves_every_run() {
    let mut doc = vec![
        fb("a", 1),
        fb("a", 2),
        fb("a", 3),
        fb("a", 4),
        fb("a", 5),
        fb("b", 5),
        comment("in the way"),
        Line::SetYaw { yaw: 0 },
        fb("a", 6),
        Line::SetYaw { yaw: 0 },
        fb("c", 50),
        fb("c", 50),
    ];
    let report = no_dupe_framebulks(&mut doc).unwrap();

    let expected = vec![
        fb("a", 15),
        fb("b", 5),
        comment("in the way"),
        Line::SetYaw { yaw: 0 },
        fb("a", 6),
        Line::SetYaw { yaw: 0 },
        fb("c", 100),
    ];
    assert!(lines_eq(&doc, &expected));
    assert_eq!(report.lines_changed, vec![0, 10]);
    assert_eq!(report.lines_removed, vec![1, 2, 3, 4, 11]);
}

#[test]
fn merge_is_idempotent() {
    let mut doc = vec![fb("a", 1), fb("a", 2), comment("x"), fb("b", 3), fb("b", 4)];
    no_dupe_framebulks(&mut doc).unwrap();

    let mut again = vec![fb("a", 3), comment("x"), fb("b", 7)];
    assert!(lines_eq(&doc, &again));

    let report = no_dupe_framebulks(&mut again).unwrap();
    assert!(lines_eq(&doc, &again));
    assert_eq!(report.lines_changed, Vec::<usize>::new());
    assert_eq!(report.lines_removed, Vec::<usize>::new());
}

#[test]
fn merge_conserves_frame_count() {
    let mut doc = vec![
        fb("a", 7),
        fb("a", 11),
        fb("b", 2),
        comment("gap"),
        fb("b", 3),
        fb("b", 5),
        fb("b", 9),
    ];
    let before = total_frames(&doc);
    no_dupe_framebulks(&mut doc).unwrap();
    assert_eq!(total_frames(&doc), before);
}

#[test]
fn interposed_comment_blocks_merge() {
    let mut doc = vec![fb("0.001", 4), comment("in between"), fb("0.001", 4)];
    let report = no_dupe_framebulks(&mut doc).unwrap();

    let expected = vec![fb("0.001", 4), comment("in between"), fb("0.001", 4)];
    assert!(lines_eq(&doc, &expected));
    assert_eq!(report.lines_changed, Vec::<usize>::new());
    assert_eq!(report.lines_removed, Vec::<usize>::new());
}

#[test]
fn interposed_directive_blocks_merge() {
    let mut doc = vec![fb("0.001", 4), Line::SetYaw { yaw: 0 }, fb("0.001", 4)];
    let report = no_dupe_framebulks(&mut doc).unwrap();

    let expected = vec![fb("0.001", 4), Line::SetYaw { yaw: 0 }, fb("0.001", 4)];
    assert!(lines_eq(&doc, &expected));
    assert_eq!(report.lines_removed, Vec::<usize>::new());
}

#[test]
fn nearly_equal_frame_times_do_not_merge() {
    let mut doc = vec![fb("0.001", 1), fb("0.010000001", 5)];
    let report = no_dupe_framebulks(&mut doc).unwrap();

    let expected = vec![fb("0.001", 1), fb("0.010000001", 5)];
    assert!(lines_eq(&doc, &expected));
    assert_eq!(report.lines_changed, Vec::<usize>::new());
    assert_eq!(report.lines_removed, Vec::<usize>::new());
}

#[test]
fn merge_overflow_is_fatal() {
    let mut doc = vec![fb("0.001", u32::MAX), fb("0.001", 1)];
    let err = no_dupe_framebulks(&mut doc).unwrap_err();
    assert_eq!(err, CleanerError::CountOverflow { index: 1 });

    let untouched = vec![fb("0.001", u32::MAX), fb("0.001", 1)];
    assert!(lines_eq(&doc, &untouched));
}

#[test]
fn merge_overflow_names_first_offender() {
    let mut doc = vec![
        fb("0.001", 5),
        fb("0.001", 7),
        fb("0.001", u32::MAX - 11),
        fb("0.001", 3),
    ];
    let err = no_dupe_framebulks(&mut doc).unwrap_err();
    assert_eq!(err, CleanerError::CountOverflow { index: 2 });
}

#[test]
fn merge_empty_document() {
    let mut doc: Vec<Line> = Vec::new();
    let report = no_dupe_framebulks(&mut doc).unwrap();
    assert!(doc.is_empty());
    assert_eq!(report.lines_changed, Vec::<usize>::new());
    assert_eq!(report.lines_removed, Vec::<usize>::new());
}

#[test]
fn single_bulk_untouched() {
    let mut doc = vec![fb("0.001", 9)];
    let report = no_dupe_framebulks(&mut doc).unwrap();
    assert!(lines_eq(&doc, &vec![fb("0.001", 9)]));
    assert_eq!(report.lines_changed, Vec::<usize>::new());
    assert_eq!(report.lines_removed, Vec::<usize>::new());
}
