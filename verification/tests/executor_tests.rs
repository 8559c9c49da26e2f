use rustwide::cmd::log_line;
use rustwide::cmd::oom_adjust;
use rustwide::cmd::CommandError;
use rustwide::cmd::Executor;
use rustwide::cmd::InnerState;
use rustwide::cmd::KillFailedError;
use rustwide::cmd::OutputKind;
use rustwide::cmd::ProcessOutput;
use rustwide::cmd::TimeoutKind;

#[test]
fn one_line_then_silence_is_no_output() {
    // One line was printed, then nothing for longer than the no-output
    // timeout: the no-output timer cuts the command off, not the wall clock.
    let e = Executor::new(Some(100), Some(10), true);
    assert_eq!(e.cutoff(11, 12), Some(TimeoutKind::NoOutput));
    assert_eq!(
        e.timeout_error(TimeoutKind::NoOutput, Ok(())),
        CommandError::NoOutputFor(10)
    );
}

#[test]
fn steady_output_past_wall_clock_is_timeout() {
    // A line arrives every few seconds, but the run exceeds the wall-clock
    // timeout: the wall-clock timer cuts the command off.
    let e = Executor::new(Some(100), Some(10), true);
    assert_eq!(e.cutoff(5, 101), Some(TimeoutKind::WallClock));
    assert_eq!(
        e.timeout_error(TimeoutKind::WallClock, Ok(())),
        CommandError::Timeout(100)
    );
}

#[test]
fn within_both_timeouts_nothing_fires() {
    let e = Executor::new(Some(100), Some(10), false);
    assert_eq!(e.cutoff(10, 100), None);
}

#[test]
fn default_timeouts() {
    let e = Executor::new(None, None, false);
    assert_eq!(e.wall_timeout, 7 * 24 * 60 * 60);
    assert_eq!(e.idle_timeout, e.wall_timeout);
    let e2 = Executor::new(Some(30), None, false);
    assert_eq!(e2.idle_timeout, 30);
}

#[test]
fn failed_kill_replaces_the_timeout() {
    let e = Executor::new(Some(100), Some(10), false);
    let err = e.timeout_error(
        TimeoutKind::NoOutput,
        Err(KillFailedError { pid: 42, errno: Some(3) }),
    );
    assert_eq!(
        err,
        CommandError::KillAfterTimeoutFailed(KillFailedError { pid: 42, errno: Some(3) })
    );
}

#[test]
fn capture_and_log_hello_world() {
    let mut e = Executor::new(None, None, true);
    let emitted = e.process_line(
        OutputKind::Stdout,
        "Hello, world!".to_string(),
        InnerState::Original,
    );
    assert_eq!(emitted, vec!["Hello, world!"]);
    assert_eq!(log_line(OutputKind::Stdout, "Hello, world!"), "[stdout] Hello, world!");

    let out = e.finish(true, 0).unwrap();
    assert_eq!(out.stdout_lines(), &vec!["Hello, world!".to_string()]);
    assert!(out.stderr_lines().is_empty());
}

#[test]
fn replaced_and_removed_lines() {
    let mut e = Executor::new(None, None, true);
    let emitted = e.process_line(
        OutputKind::Stdout,
        "Hello, world!".to_string(),
        InnerState::Replaced(vec!["Hello".to_string(), " world again!".to_string()]),
    );
    assert_eq!(emitted, vec!["Hello", " world again!"]);
    let emitted = e.process_line(
        OutputKind::Stdout,
        "dropped".to_string(),
        InnerState::Removed,
    );
    assert!(emitted.is_empty());
    let out = e.finish(true, 0).unwrap();
    assert_eq!(out.stdout_lines(), &vec!["Hello".to_string(), " world again!".to_string()]);
}

#[test]
fn stderr_is_retained_without_capture() {
    let mut e = Executor::new(None, None, false);
    e.process_line(OutputKind::Stdout, "normal".to_string(), InnerState::Original);
    e.process_line(OutputKind::Stderr, "boom".to_string(), InnerState::Original);
    e.process_line(OutputKind::Stderr, "bang".to_string(), InnerState::Original);
    match e.finish(false, 101) {
        Err(CommandError::ExecutionFailed { status, stderr }) => {
            assert_eq!(status, 101);
            assert_eq!(stderr, "boom\nbang");
        }
        other => panic!("expected ExecutionFailed, got {:?}", other.map(|_| ())),
    }
}

#[test]
fn oom_rewrites_the_outcome() {
    let failed = || CommandError::ExecutionFailed { status: 137, stderr: String::new() };
    assert_eq!(oom_adjust(Err(failed()), true), Err(CommandError::SandboxOOM));
    let ok = ProcessOutput { stdout: Vec::new(), stderr: Vec::new() };
    assert_eq!(oom_adjust(Ok(ok), true), Err(CommandError::SandboxOOM));
    assert_eq!(
        oom_adjust(Err(CommandError::Timeout(5)), true),
        Err(CommandError::Timeout(5))
    );
    assert_eq!(oom_adjust(Err(failed()), false), Err(failed()));
}
