use cargui::JobOutcome;
use cargui::Phase;
use cargui::QueuedCommand;
use cargui::RunController;
use cargui::RunEngine;
use cargui::RunStep;
use cargui::StartError;
use cargui::append_line;
use cargui::stderr_line;

fn strings(words: &[&str]) -> Vec<String> {
    words.iter().map(|w| (*w).to_owned()).collect()
}

fn job(sub: &str, supports_release: bool, allows_program_args: bool) -> QueuedCommand {
    QueuedCommand {
        display_name: sub.to_owned(),
        fragments: strings(&[sub]),
        supports_release,
        allows_program_args,
    }
}

fn success() -> JobOutcome {
    JobOutcome::Exited { success: true, status_text: "exit status: 0".to_owned() }
}

#[test]
fn start_status_counts_jobs() {
    let engine = RunEngine::new(vec![job("build", true, false), job("test", true, true)], vec![], vec![], false);
    assert_eq!(engine.start_status(), "Running 2 command(s)…");
}

#[test]
fn status_counters_render_multi_digit_numbers() {
    let jobs: Vec<QueuedCommand> = (0..12).map(|_| job("check", true, false)).collect();
    let mut engine = RunEngine::new(jobs, vec![], vec![], false);
    assert_eq!(engine.start_status(), "Running 12 command(s)…");
    for expected in 1..=10 {
        match engine.next_action(false) {
            RunStep::Spawn { status, .. } => {
                assert_eq!(status, format!("[{expected}/12] cargo check"));
            }
            RunStep::Done { .. } => panic!("expected a spawn directive"),
        }
        engine.record_outcome(success());
    }
}

#[test]
fn successful_queue_runs_in_order_and_ends_idle() {
    let jobs = vec![job("build", true, false), job("test", true, true)];
    let mut engine = RunEngine::new(jobs, strings(&["--quiet"]), strings(&["--nocapture"]), true);

    match engine.next_action(false) {
        RunStep::Spawn { argv, notice, status } => {
            assert_eq!(argv, strings(&["build", "--release", "--quiet"]));
            assert!(notice.is_none());
            assert_eq!(status, "[1/2] cargo build");
        }
        RunStep::Done { .. } => panic!("expected a spawn directive"),
    }
    let report = engine.record_outcome(success());
    assert_eq!(report.line, "✔ cargo build completed");
    assert!(report.failure_status.is_none());

    match engine.next_action(false) {
        RunStep::Spawn { argv, notice, status } => {
            assert_eq!(argv, strings(&["test", "--release", "--quiet", "--", "--nocapture"]));
            assert!(notice.is_none());
            assert_eq!(status, "[2/2] cargo test");
        }
        RunStep::Done { .. } => panic!("expected a spawn directive"),
    }
    let report = engine.record_outcome(success());
    assert_eq!(report.line, "✔ cargo test completed");

    match engine.next_action(false) {
        RunStep::Done { status } => assert_eq!(status, "Idle"),
        RunStep::Spawn { .. } => panic!("queue is exhausted"),
    }
    assert_eq!(engine.phase, Phase::Finished);
}

#[test]
fn failing_job_stops_the_queue() {
    let jobs = vec![job("build", true, false), job("test", true, true)];
    let mut engine = RunEngine::new(jobs, vec![], vec![], false);

    match engine.next_action(false) {
        RunStep::Spawn { argv, .. } => assert_eq!(argv, strings(&["build"])),
        RunStep::Done { .. } => panic!("expected a spawn directive"),
    }
    let report = engine.record_outcome(JobOutcome::Exited {
        success: false,
        status_text: "exit status: 101".to_owned(),
    });
    assert_eq!(report.line, "✖ cargo build exited with status exit status: 101");
    assert!(report.failure_status.is_none());
    assert_eq!(engine.phase, Phase::Finished);

    match engine.next_action(false) {
        RunStep::Done { status } => assert_eq!(status, "Idle"),
        RunStep::Spawn { .. } => panic!("no job may spawn after a failure"),
    }
    assert_eq!(engine.next, 0);
}

#[test]
fn spawn_failure_reports_terminal_status() {
    let mut engine = RunEngine::new(vec![job("build", true, false)], vec![], vec![], false);
    match engine.next_action(false) {
        RunStep::Spawn { .. } => {}
        RunStep::Done { .. } => panic!("expected a spawn directive"),
    }
    let report = engine.record_outcome(JobOutcome::SpawnFailed {
        message: "program not found".to_owned(),
    });
    assert_eq!(report.line, "⚠ failed to run cargo build: program not found");
    assert_eq!(report.failure_status.as_deref(), Some("Failed: program not found"));
    assert_eq!(engine.phase, Phase::Finished);
}

#[test]
fn cancellation_before_first_spawn_spawns_nothing() {
    let mut engine = RunEngine::new(vec![job("build", true, false)], vec![], vec![], false);
    match engine.next_action(true) {
        RunStep::Done { status } => assert_eq!(status, "Cancelled"),
        RunStep::Spawn { .. } => panic!("a cancelled run must not spawn"),
    }
    assert_eq!(engine.phase, Phase::Finished);
    assert_eq!(engine.next, 0);
}

#[test]
fn cancellation_between_jobs_reports_cancelled() {
    let jobs = vec![job("build", true, false), job("test", true, true)];
    let mut engine = RunEngine::new(jobs, vec![], vec![], false);
    match engine.next_action(false) {
        RunStep::Spawn { .. } => {}
        RunStep::Done { .. } => panic!("expected a spawn directive"),
    }
    engine.record_outcome(success());
    match engine.next_action(true) {
        RunStep::Done { status } => assert_eq!(status, "Cancelled"),
        RunStep::Spawn { .. } => panic!("cancellation must stop the queue"),
    }
    assert_eq!(engine.next, 1);
}

#[test]
fn unsupported_release_emits_notice_and_omits_flag() {
    let mut engine = RunEngine::new(vec![job("fmt", false, false)], vec![], vec![], true);
    match engine.next_action(false) {
        RunStep::Spawn { argv, notice, .. } => {
            assert_eq!(argv, strings(&["fmt"]));
            assert_eq!(notice.as_deref(), Some("ℹ ignoring --release for cargo fmt"));
        }
        RunStep::Done { .. } => panic!("expected a spawn directive"),
    }
}

#[test]
fn second_run_request_is_rejected_while_active() {
    let mut controller = RunController::new();
    let first = controller.try_start(vec![job("build", true, false)], vec![], vec![], false);
    assert!(first.is_ok());
    assert!(controller.is_running());

    let second = controller.try_start(vec![job("test", true, true)], vec![], vec![], false);
    assert_eq!(second.unwrap_err(), StartError::AlreadyRunning);
    assert!(controller.is_running());

    // the first run's engine is untouched and drives on
    let mut engine = first.unwrap();
    match engine.next_action(false) {
        RunStep::Spawn { argv, .. } => assert_eq!(argv, strings(&["build"])),
        RunStep::Done { .. } => panic!("the active run must be unaffected"),
    }

    controller.finish_run();
    assert!(!controller.is_running());
    assert!(controller.try_start(vec![job("test", true, true)], vec![], vec![], false).is_ok());
}

#[test]
fn empty_queue_is_refused() {
    let mut controller = RunController::new();
    let r = controller.try_start(vec![], vec![], vec![], false);
    assert_eq!(r.unwrap_err(), StartError::NoCommands);
    assert!(!controller.is_running());
}

#[test]
fn output_lines_accumulate_with_newlines() {
    let mut text = String::new();
    append_line(&mut text, "first");
    assert_eq!(text, "first");
    append_line(&mut text, "second");
    assert_eq!(text, "first\nsecond");
    append_line(&mut text, "");
    assert_eq!(text, "first\nsecond\n");
}

#[test]
fn stderr_lines_are_marked() {
    assert_eq!(stderr_line("warning: unused"), "[stderr] warning: unused");
}
