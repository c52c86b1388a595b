use watchrun::plan::{artifact_path, plan, stdin_file_name, WorkDir};
use watchrun::session::{Action, Event, Phase, Session, DEBOUNCE_MS};

fn watching(clock: u64) -> Session {
    let mut s = Session::new(true);
    assert_eq!(s.step(Event::Started), Action::RunPass);
    assert_eq!(s.step(Event::PassDone { now_ms: clock }), Action::Subscribe);
    assert_eq!(s.phase, Phase::Listening);
    s
}

#[test]
fn burst_inside_window_is_discarded() {
    let mut s = watching(1000);
    for t in [1000u64, 1100, 1200, 1499] {
        assert_eq!(s.step(Event::Changed { now_ms: t }), Action::Listen);
    }
    assert_eq!(s.clock_ms, 1000);
    assert_eq!(s.step(Event::Changed { now_ms: 1500 }), Action::RunPass);
    assert_eq!(s.step(Event::PassDone { now_ms: 1700 }), Action::Listen);
    assert_eq!(s.step(Event::Changed { now_ms: 1800 }), Action::Listen);
    assert_eq!(s.step(Event::Changed { now_ms: 2199 }), Action::Listen);
    assert_eq!(s.step(Event::Changed { now_ms: 2200 }), Action::RunPass);
}

#[test]
fn spaced_changes_each_run_once() {
    let mut s = watching(0);
    let mut runs = 0;
    let mut t = 0u64;
    for _ in 0..5 {
        t += DEBOUNCE_MS;
        if s.step(Event::Changed { now_ms: t }) == Action::RunPass {
            runs += 1;
        }
        assert_eq!(s.step(Event::PassDone { now_ms: t }), Action::Listen);
    }
    assert_eq!(runs, 5);
}

#[test]
fn gate_counts_from_end_of_pass() {
    let mut s = watching(0);
    assert_eq!(s.step(Event::Changed { now_ms: 500 }), Action::RunPass);
    assert_eq!(s.step(Event::PassDone { now_ms: 600 }), Action::Listen);
    assert_eq!(s.step(Event::Changed { now_ms: 1000 }), Action::Listen);
    assert_eq!(s.step(Event::Changed { now_ms: 1100 }), Action::RunPass);
}

#[test]
fn receive_error_keeps_listening() {
    let mut s = watching(0);
    assert_eq!(s.step(Event::ReceiveFailed), Action::ReportError);
    assert_eq!(s.phase, Phase::Listening);
    assert_eq!(s.step(Event::Changed { now_ms: 800 }), Action::RunPass);
}

#[test]
fn clock_before_gate_counts_as_no_time() {
    let mut s = watching(5000);
    assert_eq!(s.step(Event::Changed { now_ms: 10 }), Action::Listen);
}

#[test]
fn one_shot_runs_once() {
    let mut s = Session::new(false);
    let mut runs = 0;
    let evs = [
        Event::Started,
        Event::PassDone { now_ms: 10 },
        Event::Changed { now_ms: 1000 },
        Event::Changed { now_ms: 5000 },
        Event::ReceiveFailed,
    ];
    let mut last = Action::Listen;
    for e in evs {
        last = s.step(e);
        if last == Action::RunPass {
            runs += 1;
        }
    }
    assert_eq!(runs, 1);
    assert_eq!(last, Action::Exit);
    assert_eq!(s.phase, Phase::Finished);
}

#[test]
fn stdin_mode_runs_once_in_temp_file() {
    let p = plan(None, false, true, false);
    assert!(p.source.is_none());
    assert!(!p.watch);
    assert_eq!(p.work_dir, WorkDir::Current);
    assert_eq!(stdin_file_name(), "temp.rs");
    let mut s = Session::new(p.watch);
    let mut runs = 0;
    for e in [Event::Started, Event::PassDone { now_ms: 1 }, Event::Changed { now_ms: 900 }] {
        if s.step(e) == Action::RunPass {
            runs += 1;
        }
    }
    assert_eq!(runs, 1);
}

#[test]
fn plan_keeps_flags() {
    let p = plan(Some("a.rs".to_string()), true, true, true);
    assert_eq!(p.source.as_deref(), Some("a.rs"));
    assert_eq!(p.work_dir, WorkDir::Temp);
    assert!(p.watch);
    assert!(p.notify);
    let q = plan(Some("a.rs".to_string()), false, false, false);
    assert!(!q.watch);
    assert_eq!(q.work_dir, WorkDir::Current);
}

#[test]
fn artifact_lives_in_work_dir() {
    assert_eq!(artifact_path("."), "./executable");
    assert_eq!(artifact_path("/tmp/x"), "/tmp/x/executable");
}
