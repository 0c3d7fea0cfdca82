use deskwatch::describe::accept_reply;
use deskwatch::schedule::{next_stage, Stage};

#[test]
fn an_iteration_that_succeeds() {
    assert_eq!(next_stage(Stage::Capture, true), Stage::Describe);
    assert_eq!(next_stage(Stage::Describe, true), Stage::Persist);
    assert_eq!(next_stage(Stage::Persist, true), Stage::Sleep);
    assert_eq!(next_stage(Stage::Sleep, true), Stage::Capture);
}

#[test]
fn a_failure_ends_the_iteration() {
    assert_eq!(next_stage(Stage::Capture, false), Stage::Sleep);
    assert_eq!(next_stage(Stage::Describe, false), Stage::Sleep);
    assert_eq!(next_stage(Stage::Persist, false), Stage::Sleep);
    assert_eq!(next_stage(Stage::Sleep, false), Stage::Capture);
}

#[test]
fn rejected_reply_is_not_persisted() {
    let described = accept_reply(500, "internal error".to_string());
    assert!(described.is_err());
    assert_eq!(next_stage(Stage::Describe, described.is_ok()), Stage::Sleep);
}

#[test]
fn persisting_needs_capture_and_description() {
    for code in 0..(1u32 << 12) {
        let mut stage = Stage::Capture;
        let mut history: Vec<(Stage, bool)> = Vec::new();
        for i in 0..12 {
            let succeeded = (code >> i) & 1 == 1;
            history.push((stage, succeeded));
            stage = next_stage(stage, succeeded);
            if stage == Stage::Persist {
                let n = history.len();
                assert_eq!(history[n - 1], (Stage::Describe, true));
                assert_eq!(history[n - 2], (Stage::Capture, true));
            }
        }
    }
}
