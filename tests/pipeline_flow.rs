use watchrun::notice::notice_for;
use watchrun::pipeline::{Command, Cycle, Outcome, Stage};

fn drive(results: &[bool]) -> (Cycle, Vec<Command>) {
    let mut c = Cycle::new();
    let mut seen = Vec::new();
    for &ok in results {
        seen.push(c.command());
        c.report(ok);
    }
    seen.push(c.command());
    (c, seen)
}

#[test]
fn success_removes_artifact_and_notifies_calmly() {
    let (c, cmds) = drive(&[true, true, true, true]);
    assert_eq!(
        cmds,
        vec![
            Command::ClearScreen,
            Command::Compile,
            Command::Run,
            Command::DeleteArtifact,
            Command::Finish(Outcome::Succeeded)
        ]
    );
    assert_eq!(c.outcome(), Some(Outcome::Succeeded));
    assert!(!c.artifact_present);
    assert!(c.artifact_built);
    let n = notice_for(Outcome::Succeeded, "demo.rs", true).unwrap();
    assert!(!n.critical);
    assert_eq!(n.summary, "Rust Script: demo.rs");
    assert_eq!(n.body, "Execution successful. File: demo.rs");
    assert_eq!(n.icon, "dialog-information");
}

#[test]
fn compile_failure_never_builds_and_notifies_critically() {
    let (c, cmds) = drive(&[true, false]);
    assert_eq!(
        cmds,
        vec![Command::ClearScreen, Command::Compile, Command::Finish(Outcome::CompileFailed)]
    );
    assert_eq!(c.outcome(), Some(Outcome::CompileFailed));
    assert!(!c.artifact_present);
    assert!(!c.artifact_built);
    let n = notice_for(Outcome::CompileFailed, "demo.rs", true).unwrap();
    assert!(n.critical);
    assert_eq!(n.summary, "Rust Script: demo.rs");
    assert_eq!(n.body, "Compilation failed. File: demo.rs");
    assert_eq!(n.icon, "dialog-error");
}

#[test]
fn run_failure_keeps_artifact_and_stays_silent() {
    let (c, cmds) = drive(&[true, true, false]);
    assert_eq!(
        cmds,
        vec![
            Command::ClearScreen,
            Command::Compile,
            Command::Run,
            Command::Finish(Outcome::RunFailed)
        ]
    );
    assert_eq!(c.outcome(), Some(Outcome::RunFailed));
    assert!(c.artifact_present);
    assert!(notice_for(Outcome::RunFailed, "demo.rs", true).is_none());
}

#[test]
fn pass_in_progress_has_no_outcome() {
    let (c, _) = drive(&[true, true]);
    assert_eq!(c.stage, Stage::Running);
    assert!(c.artifact_present);
    assert_eq!(c.outcome(), None);
    let fresh = Cycle::new();
    assert_eq!(fresh.stage, Stage::Idle);
    assert_eq!(fresh.outcome(), None);
}

#[test]
fn terminal_stage_stays_put() {
    let (mut c, _) = drive(&[true, false]);
    c.report(true);
    assert_eq!(c.stage, Stage::Terminal(Outcome::CompileFailed));
    assert!(!c.artifact_built);
}

#[test]
fn disabled_notifier_is_silent_for_every_outcome() {
    for _ in 0..3 {
        for o in [Outcome::Succeeded, Outcome::CompileFailed, Outcome::RunFailed] {
            assert!(notice_for(o, "x.rs", false).is_none());
        }
    }
}

#[test]
fn notice_names_an_empty_file() {
    let n = notice_for(Outcome::Succeeded, "", true).unwrap();
    assert_eq!(n.summary, "Rust Script: ");
    assert_eq!(n.body, "Execution successful. File: ");
}
