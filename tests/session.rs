use conmon::session::{attach_ready_message, parse_container_pid, Report, RuntimeSession, Step};
use conmon::process::{exit_status_byte, split_runtime_argv, wait_step, RuntimeProcess, WaitOutcome, WaitStep};

#[test]
fn exit_code_defaults_and_accessor_work() {
    let s = RuntimeSession::new(false, false, 0, false);
    assert_eq!(s.exit_code(), -1);
}

#[test]
fn read_container_pid_returns_pid_on_valid_file() {
    let pid = parse_container_pid("/tmp/x/pidfile.txt", "12345\n").ok().unwrap();
    assert_eq!(pid, 12345);
}

#[test]
fn read_container_pid_errors_on_invalid_contents() {
    let err = parse_container_pid("/tmp/x/pidfile.txt", "not-a-number").err().unwrap();
    let msg = err.to_string();
    assert!(msg.contains("Invalid PID contents"), "unexpected error: {msg}");
    assert_eq!(err.msg, "Invalid PID contents in /tmp/x/pidfile.txt: not-a-number (invalid digit found in string)");
}

#[test]
fn container_pid_empty_and_overflow() {
    let e = parse_container_pid("p", " \t\n").err().unwrap();
    assert_eq!(e.msg, "Invalid PID contents in p:  (cannot parse integer from empty string)");
    let e = parse_container_pid("p", "99999999999").err().unwrap();
    assert_eq!(e.msg, "Invalid PID contents in p: 99999999999 (number too large to fit in target type)");
    let e = parse_container_pid("p", "-99999999999").err().unwrap();
    assert_eq!(e.msg, "Invalid PID contents in p: -99999999999 (number too small to fit in target type)");
    assert_eq!(parse_container_pid("p", "  -2147483648 \n").ok().unwrap(), i32::MIN);
}

fn drive(s: &mut RuntimeSession, reports: &[Report]) -> Vec<Step> {
    reports.iter().map(|r| s.next(*r)).collect()
}

#[test]
fn write_exit_code_is_noop_without_sync_fd() {
    let mut s = RuntimeSession::new(true, false, 1, false);
    let steps = drive(
        &mut s,
        &[Report::Begin, Report::SyncPipe(false), Report::Listening, Report::Started, Report::Spawned, Report::LoopDone, Report::Exited(42)],
    );
    assert_eq!(
        steps,
        vec![Step::AcquireSyncPipe, Step::Listen, Step::AwaitStart, Step::Spawn, Step::RunLoop, Step::Wait, Step::Done],
        "write_exit_code should be a no-op when sync fd is None"
    );
    assert_eq!(s.exit_code(), 42);
    assert_eq!(s.exit_status(), 42);
}

#[test]
fn exec_session_reports_exit_code() {
    let mut s = RuntimeSession::new(true, false, 0, true);
    let steps = drive(
        &mut s,
        &[
            Report::Begin,
            Report::SyncPipe(true),
            Report::Listening,
            Report::Started,
            Report::Spawned,
            Report::PidfileWritten,
            Report::LoopDone,
            Report::Exited(7),
            Report::StderrRead,
        ],
    );
    assert_eq!(
        steps,
        vec![
            Step::AcquireSyncPipe,
            Step::Listen,
            Step::AwaitStart,
            Step::Spawn,
            Step::WritePidfile,
            Step::RunLoop,
            Step::Wait,
            Step::ReadStderr,
            Step::SendExitCode,
        ]
    );
    assert_eq!(s.exit_message("ok"), "{\"exit_code\":7,\"message\":\"ok\"}\n");
    assert_eq!(s.next(Report::SyncWritten(true)), Step::Done);
    assert_eq!(s.exit_status(), 7);
    let mut s = RuntimeSession::new(true, false, 1, false);
    drive(&mut s, &[Report::Begin, Report::SyncPipe(true), Report::Listening, Report::Started, Report::Spawned, Report::LoopDone, Report::Exited(7)]);
    assert_eq!(s.exit_message("ok"), "{\"data\":7,\"message\":\"ok\"}\n");
}

#[test]
fn create_session_reports_pid_after_success() {
    let mut s = RuntimeSession::new(false, false, 0, false);
    let steps = drive(
        &mut s,
        &[
            Report::Begin,
            Report::SyncPipe(true),
            Report::Listening,
            Report::Started,
            Report::Spawned,
            Report::Exited(0),
            Report::ContainerPid(parse_container_pid("pidfile", "12345\n").ok().unwrap()),
        ],
    );
    assert_eq!(
        steps,
        vec![Step::AcquireSyncPipe, Step::Listen, Step::AwaitStart, Step::Spawn, Step::Wait, Step::ReadContainerPid, Step::SendPid]
    );
    assert_eq!(s.pid_message(), "{\"pid\":12345}\n");
    assert_eq!(s.next(Report::SyncWritten(false)), Step::RunLoop);
    assert_eq!(s.next(Report::LoopDone), Step::Done);
    assert_eq!(s.exit_status(), 0);
}

#[test]
fn create_session_fails_on_runtime_error() {
    let mut s = RuntimeSession::new(false, false, 0, false);
    let steps = drive(
        &mut s,
        &[Report::Begin, Report::SyncPipe(true), Report::Listening, Report::Started, Report::Spawned, Report::Exited(3), Report::StderrRead, Report::SyncWritten(true)],
    );
    assert_eq!(steps[5], Step::ReadStderr);
    assert_eq!(steps[6], Step::SendExitCode);
    assert_eq!(steps[7], Step::Fail);
    assert_eq!(s.error().msg, "Runtime exited with status: 3");
    let mut s = RuntimeSession::new(false, false, 0, false);
    let steps = drive(&mut s, &[Report::Begin, Report::SyncPipe(false), Report::Listening, Report::Started, Report::Spawned, Report::Exited(3)]);
    assert_eq!(steps[5], Step::Fail);
    assert_eq!(s.error().msg, "Runtime exited with status: 3");
}

#[test]
fn attached_exec_session_order() {
    let mut s = RuntimeSession::new(true, true, 1, false);
    let steps = drive(
        &mut s,
        &[Report::Begin, Report::SyncPipe(false), Report::AttachPipe(true), Report::Listening, Report::AttachSignalled, Report::Started],
    );
    assert_eq!(
        steps,
        vec![Step::AcquireSyncPipe, Step::AcquireAttachPipe, Step::Listen, Step::SignalAttach, Step::AwaitStart, Step::Spawn]
    );
    let mut s = RuntimeSession::new(true, true, 1, false);
    let steps = drive(&mut s, &[Report::Begin, Report::SyncPipe(false), Report::AttachPipe(false)]);
    assert_eq!(steps[2], Step::Fail);
    assert_eq!(s.error().msg, "--attach specified but _OCI_ATTACHPIPE was not set");
}

#[test]
fn out_of_order_report_fails() {
    let mut s = RuntimeSession::new(false, false, 0, false);
    assert_eq!(s.next(Report::Started), Step::Fail);
    assert_eq!(s.error().msg, "Session step reported out of order");
}

#[test]
fn attach_ready_message_text() {
    assert_eq!(attach_ready_message(0), "{\"exit_code\":0}\n");
    assert_eq!(attach_ready_message(1), "{\"data\":0}\n");
}

#[test]
fn runtime_process_pid() {
    let mut p = RuntimeProcess::new();
    assert_eq!(p.pid(), -1);
    p.set_spawned(4242);
    assert_eq!(p.pid(), 4242);
}

#[test]
fn split_argv_rules() {
    let err = split_runtime_argv(&vec![]).err().unwrap();
    assert_eq!(err.msg, "Failed to execute runtime binary: empty args");
    let (p, rest) = split_runtime_argv(&vec!["/bin/runc".to_string(), "create".to_string(), "x".to_string()]).ok().unwrap();
    assert_eq!(p, "/bin/runc");
    assert_eq!(rest, vec!["create".to_string(), "x".to_string()]);
}

#[test]
fn wait_steps() {
    assert!(matches!(wait_step(WaitOutcome::Exited(7)), WaitStep::Exit(7)));
    assert!(matches!(wait_step(WaitOutcome::Interrupted), WaitStep::Retry));
    assert!(matches!(wait_step(WaitOutcome::NotEnded), WaitStep::Retry));
    match wait_step(WaitOutcome::Signaled("SIGKILL".to_string())) {
        WaitStep::Fail(e) => assert_eq!(e.msg, "Runtime process exited due to signal: SIGKILL"),
        _ => panic!("expected failure"),
    }
    match wait_step(WaitOutcome::Failed("ECHILD: No child processes".to_string())) {
        WaitStep::KillAndFail(e) => {
            assert_eq!(e.msg, "Failed to wait for runtime process to exit: ECHILD: No child processes")
        }
        _ => panic!("expected kill"),
    }
}

#[test]
fn exit_status_clamped() {
    assert_eq!(exit_status_byte(7), 7);
    assert_eq!(exit_status_byte(300), 255);
    assert_eq!(exit_status_byte(-1), 0);
    assert_eq!(exit_status_byte(255), 255);
}
