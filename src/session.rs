use vstd::prelude::*;
use vstd::string::*;
use crate::error::{ConmonError, ConmonResult};
use crate::number::{int_error_spec, int_error_text, parse_i32, parse_i32_spec, trim, trimmed};
use crate::parent_pipe::{sync_key, sync_line, sync_message};
use crate::process::exit_status_byte;
use crate::text::{int_text, join2, push_int};

verus! {

/// Reads the container PID from the text of the container pidfile at
/// `pidfile`, around which whitespace is ignored.
pub fn parse_container_pid(pidfile: &str, contents: &str) -> (r: ConmonResult<i32>)
    ensures
        r is Ok <==> parse_i32_spec(trimmed(contents@)) is Ok,
        r matches Ok(pid) ==> parse_i32_spec(trimmed(contents@)) == Ok::<int, crate::number::IntErrorKind>(pid as int),
        r matches Err(e) ==> e.code == 1 && e.msg@ == "Invalid PID contents in "@ + pidfile@ + ": "@
            + trimmed(contents@) + " ("@ + int_error_spec(parse_i32_spec(trimmed(contents@))->Err_0) + ")"@,
{
    let t = trim(contents);
    match parse_i32(t) {
        Ok(pid) => Ok(pid),
        Err(k) => {
            let mut m = join2("Invalid PID contents in ", pidfile);
            m.append(": ");
            m.append(t);
            m.append(" (");
            m.append(int_error_text(k));
            m.append(")");
            Err(ConmonError::fatal(m))
        },
    }
}

/// The message that tells the caller the attach socket is ready.
pub fn attach_ready_message(api_version: i32) -> (r: String)
    ensures
        r@ == sync_line(sync_key(api_version, true), 0, None),
{
    sync_message(0, None, api_version, true)
}

/// What the session asks its driver to do next. The driver performs it and
/// reports back; `Done` and `Fail` end the session.
#[derive(Debug, Clone, Copy, PartialEq, Eq, Structural)]
pub enum Step {
    /// Not started yet.
    Idle,
    /// Adopt the fd of `_OCI_SYNCPIPE`.
    AcquireSyncPipe,
    /// Adopt the fd of `_OCI_ATTACHPIPE`.
    AcquireAttachPipe,
    /// Bind and listen on the attach socket.
    Listen,
    /// Write `attach_ready_message` to the attach pipe.
    SignalAttach,
    /// Adopt `_OCI_STARTPIPE` and read it once.
    AwaitStart,
    /// Build the argv and the stdio pipes and spawn the runtime; with an
    /// attach, hand it the start pipe to block on a second time.
    Spawn,
    /// Write the runtime's PID to the conmon pidfile.
    WritePidfile,
    /// Wait for the runtime to exit.
    Wait,
    /// Read and parse the container pidfile.
    ReadContainerPid,
    /// Read the runtime's stderr once.
    ReadStderr,
    /// Write `pid_message` to the sync pipe.
    SendPid,
    /// Write `exit_message` to the sync pipe.
    SendExitCode,
    /// Run the stdio multiplexer until the container's stdio closes.
    RunLoop,
    /// Finished: exit with `exit_status`.
    Done,
    /// Failed with `error`.
    Fail,
}

/// What the driver reports after performing a step.
#[derive(Debug, Clone, Copy, PartialEq, Eq, Structural)]
pub enum Report {
    Begin,
    /// Whether `_OCI_SYNCPIPE` was set.
    SyncPipe(bool),
    /// Whether `_OCI_ATTACHPIPE` was set.
    AttachPipe(bool),
    Listening,
    AttachSignalled,
    Started,
    Spawned,
    PidfileWritten,
    /// The runtime exited with this code.
    Exited(i32),
    /// The container pidfile held this PID.
    ContainerPid(i32),
    StderrRead,
    /// A sync-pipe write ended; `false` when the reader went away.
    SyncWritten(bool),
    LoopDone,
}

/// Why a session failed.
#[derive(Debug, Clone, Copy, PartialEq, Eq, Structural)]
pub enum FailReason {
    AttachPipeMissing,
    ExitStatus,
    OutOfOrder,
}

/// The session as the proofs see it.
pub ghost struct SessionView {
    pub phase: Step,
    pub exec_session: bool,
    pub attach: bool,
    pub conmon_pidfile: bool,
    pub sync_held: bool,
    pub exit_code: i32,
    pub container_pid: i32,
    pub fail: FailReason,
}

/// What follows a spawn (and the conmon pidfile): exec sessions run the
/// loop first, create sessions wait for the runtime first.
pub open spec fn after_spawn(m: SessionView) -> Step {
    if m.exec_session { Step::RunLoop } else { Step::Wait }
}

pub open spec fn go(m: SessionView, s: Step) -> (SessionView, Step) {
    (SessionView { phase: s, ..m }, s)
}

pub open spec fn fail_with(m: SessionView, why: FailReason) -> (SessionView, Step) {
    (SessionView { phase: Step::Fail, fail: why, ..m }, Step::Fail)
}

/// One step of the session: the phase it is in, and what was reported.
pub open spec fn session_next(m: SessionView, r: Report) -> (SessionView, Step) {
    match (m.phase, r) {
        (Step::Idle, Report::Begin) => go(m, Step::AcquireSyncPipe),
        (Step::AcquireSyncPipe, Report::SyncPipe(p)) => go(
            SessionView { sync_held: p, ..m },
            if m.attach { Step::AcquireAttachPipe } else { Step::Listen },
        ),
        (Step::AcquireAttachPipe, Report::AttachPipe(p)) => if p {
            go(m, Step::Listen)
        } else {
            fail_with(m, FailReason::AttachPipeMissing)
        },
        (Step::Listen, Report::Listening) => go(m, if m.attach { Step::SignalAttach } else { Step::AwaitStart }),
        (Step::SignalAttach, Report::AttachSignalled) => go(m, Step::AwaitStart),
        (Step::AwaitStart, Report::Started) => go(m, Step::Spawn),
        (Step::Spawn, Report::Spawned) => go(m, if m.conmon_pidfile { Step::WritePidfile } else { after_spawn(m) }),
        (Step::WritePidfile, Report::PidfileWritten) => go(m, after_spawn(m)),
        (Step::Wait, Report::Exited(c)) => {
            let m1 = SessionView { exit_code: c, ..m };
            if m.exec_session {
                go(m1, if m.sync_held { Step::ReadStderr } else { Step::Done })
            } else if c != 0 {
                if m.sync_held { go(m1, Step::ReadStderr) } else { fail_with(m1, FailReason::ExitStatus) }
            } else {
                go(m1, if m.sync_held { Step::ReadContainerPid } else { Step::RunLoop })
            }
        },
        (Step::ReadContainerPid, Report::ContainerPid(pid)) => go(SessionView { container_pid: pid, ..m }, Step::SendPid),
        (Step::SendPid, Report::SyncWritten(h)) => go(SessionView { sync_held: m.sync_held && h, ..m }, Step::RunLoop),
        (Step::ReadStderr, Report::StderrRead) => go(m, Step::SendExitCode),
        (Step::SendExitCode, Report::SyncWritten(h)) => {
            let m1 = SessionView { sync_held: m.sync_held && h, ..m };
            if m.exec_session { go(m1, Step::Done) } else { fail_with(m1, FailReason::ExitStatus) }
        },
        (Step::RunLoop, Report::LoopDone) => go(m, if m.exec_session { Step::Wait } else { Step::Done }),
        _ => fail_with(m, FailReason::OutOfOrder),
    }
}

/// The session after a sequence of reports, with the steps it asked for.
pub open spec fn run_session(m: SessionView, rs: Seq<Report>) -> (SessionView, Seq<Step>)
    decreases rs.len(),
{
    if rs.len() == 0 {
        (m, seq![])
    } else {
        let first = session_next(m, rs[0]);
        let rest = run_session(first.0, rs.skip(1));
        (rest.0, seq![first.1] + rest.1)
    }
}

/// The runtime is spawned only right after the start pipe was read, which
/// itself comes only after the attach socket listens (and, when attaching,
/// after readiness was signalled).
pub proof fn lemma_spawn_order(m: SessionView, r: Report)
    ensures
        session_next(m, r).1 == Step::Spawn ==> m.phase == Step::AwaitStart && r == Report::Started,
        session_next(m, r).1 == Step::AwaitStart ==> (m.phase == Step::Listen && r == Report::Listening && !m.attach)
            || (m.phase == Step::SignalAttach && r == Report::AttachSignalled),
        session_next(m, r).1 == Step::SignalAttach ==> m.phase == Step::Listen && r == Report::Listening,
{
}

/// A create session reports the container PID only after the runtime
/// exited with status 0, and only through a sync pipe it holds.
pub proof fn lemma_pid_after_success(m: SessionView, r: Report)
    ensures
        session_next(m, r).1 == Step::ReadContainerPid ==> m.phase == Step::Wait && r == Report::Exited(0)
            && !m.exec_session && m.sync_held,
        session_next(m, r).1 == Step::SendPid ==> m.phase == Step::ReadContainerPid,
{
}

/// The phases in which the sync pipe is known.
pub open spec fn past_sync_acquire(p: Step) -> bool {
    p != Step::Idle && p != Step::AcquireSyncPipe
}

/// The phases that read for, or write to, the sync pipe.
pub open spec fn sync_phase(p: Step) -> bool {
    p == Step::ReadContainerPid || p == Step::SendPid || p == Step::ReadStderr || p == Step::SendExitCode
}

proof fn lemma_no_sync_step(m: SessionView, r: Report)
    requires
        !m.sync_held,
        past_sync_acquire(m.phase),
        !sync_phase(m.phase),
    ensures
        !session_next(m, r).0.sync_held,
        past_sync_acquire(session_next(m, r).0.phase),
        !sync_phase(session_next(m, r).0.phase),
        session_next(m, r).1 != Step::SendPid,
        session_next(m, r).1 != Step::SendExitCode,
{
}

/// Once the sync pipe variable was found unset, the session never asks
/// for a sync-pipe write, whatever is reported afterwards.
pub proof fn lemma_unset_sync_pipe_never_written(m: SessionView, rs: Seq<Report>)
    requires
        m.phase == Step::AcquireSyncPipe,
    ensures
        forall|k: int| 0 <= k < run_session(session_next(m, Report::SyncPipe(false)).0, rs).1.len() ==> {
            let s = #[trigger] run_session(session_next(m, Report::SyncPipe(false)).0, rs).1[k];
            s != Step::SendPid && s != Step::SendExitCode
        },
{
    lemma_no_sync_write_without_pipe(session_next(m, Report::SyncPipe(false)).0, rs);
}

/// Without an inherited sync pipe, whatever happens afterwards, the
/// session never asks for a sync-pipe write.
pub proof fn lemma_no_sync_write_without_pipe(m: SessionView, rs: Seq<Report>)
    requires
        !m.sync_held,
        past_sync_acquire(m.phase),
        !sync_phase(m.phase),
    ensures
        forall|k: int| 0 <= k < run_session(m, rs).1.len() ==> {
            let s = #[trigger] run_session(m, rs).1[k];
            s != Step::SendPid && s != Step::SendExitCode
        },
    decreases rs.len(),
{
    if rs.len() > 0 {
        lemma_no_sync_step(m, rs[0]);
        let first = session_next(m, rs[0]);
        lemma_no_sync_write_without_pipe(first.0, rs.skip(1));
        let rest = run_session(first.0, rs.skip(1));
        assert forall|k: int| 0 <= k < (seq![first.1] + rest.1).len() implies {
            let s = #[trigger] (seq![first.1] + rest.1)[k];
            s != Step::SendPid && s != Step::SendExitCode
        } by {
            if k > 0 {
                assert((seq![first.1] + rest.1)[k] == rest.1[k - 1]);
            }
        }
    }
}

/// The decisions of one supervision session: which step comes next, what
/// the sync pipe carries, and how the session ends.
pub struct RuntimeSession {
    phase: Step,
    exec_session: bool,
    attach: bool,
    conmon_pidfile: bool,
    api_version: i32,
    sync_held: bool,
    exit_code: i32,
    container_pid: i32,
    fail: FailReason,
}

impl View for RuntimeSession {
    type V = SessionView;

    closed spec fn view(&self) -> SessionView {
        SessionView {
            phase: self.phase,
            exec_session: self.exec_session,
            attach: self.attach,
            conmon_pidfile: self.conmon_pidfile,
            sync_held: self.sync_held,
            exit_code: self.exit_code,
            container_pid: self.container_pid,
            fail: self.fail,
        }
    }
}

impl RuntimeSession {
    /// A session not started yet: an exec session (`exec`) or a create
    /// session, attached or not, with a conmon pidfile to write or not.
    /// The exit code is -1 until the runtime is waited for.
    pub fn new(exec_session: bool, attach: bool, api_version: i32, conmon_pidfile: bool) -> (r: RuntimeSession)
        ensures
            r@.phase == Step::Idle,
            r@.exec_session == exec_session,
            r@.attach == attach,
            r@.conmon_pidfile == conmon_pidfile,
            r@.exit_code == -1,
            !r@.sync_held,
            r.api_version() == api_version,
    {
        RuntimeSession {
            phase: Step::Idle,
            exec_session,
            attach,
            conmon_pidfile,
            api_version,
            sync_held: false,
            exit_code: -1,
            container_pid: -1,
            fail: FailReason::OutOfOrder,
        }
    }

    pub closed spec fn api_version(&self) -> i32 {
        self.api_version
    }

    /// The runtime's exit code, or -1 before it was waited for.
    pub fn exit_code(&self) -> (r: i32)
        ensures
            r == self@.exit_code,
    {
        self.exit_code
    }

    /// Takes the driver's report on the last step and says what to do next.
    pub fn next(&mut self, r: Report) -> (s: Step)
        ensures
            (final(self)@, s) == session_next(old(self)@, r),
            final(self).api_version() == old(self).api_version(),
    {
        let s = match (self.phase, r) {
            (Step::Idle, Report::Begin) => Step::AcquireSyncPipe,
            (Step::AcquireSyncPipe, Report::SyncPipe(p)) => {
                self.sync_held = p;
                if self.attach { Step::AcquireAttachPipe } else { Step::Listen }
            },
            (Step::AcquireAttachPipe, Report::AttachPipe(p)) => {
                if p {
                    Step::Listen
                } else {
                    self.fail = FailReason::AttachPipeMissing;
                    Step::Fail
                }
            },
            (Step::Listen, Report::Listening) => if self.attach { Step::SignalAttach } else { Step::AwaitStart },
            (Step::SignalAttach, Report::AttachSignalled) => Step::AwaitStart,
            (Step::AwaitStart, Report::Started) => Step::Spawn,
            (Step::Spawn, Report::Spawned) => {
                if self.conmon_pidfile {
                    Step::WritePidfile
                } else if self.exec_session {
                    Step::RunLoop
                } else {
                    Step::Wait
                }
            },
            (Step::WritePidfile, Report::PidfileWritten) => if self.exec_session { Step::RunLoop } else { Step::Wait },
            (Step::Wait, Report::Exited(c)) => {
                self.exit_code = c;
                if self.exec_session {
                    if self.sync_held { Step::ReadStderr } else { Step::Done }
                } else if c != 0 {
                    if self.sync_held {
                        Step::ReadStderr
                    } else {
                        self.fail = FailReason::ExitStatus;
                        Step::Fail
                    }
                } else if self.sync_held {
                    Step::ReadContainerPid
                } else {
                    Step::RunLoop
                }
            },
            (Step::ReadContainerPid, Report::ContainerPid(pid)) => {
                self.container_pid = pid;
                Step::SendPid
            },
            (Step::SendPid, Report::SyncWritten(h)) => {
                self.sync_held = self.sync_held && h;
                Step::RunLoop
            },
            (Step::ReadStderr, Report::StderrRead) => Step::SendExitCode,
            (Step::SendExitCode, Report::SyncWritten(h)) => {
                self.sync_held = self.sync_held && h;
                if self.exec_session {
                    Step::Done
                } else {
                    self.fail = FailReason::ExitStatus;
                    Step::Fail
                }
            },
            (Step::RunLoop, Report::LoopDone) => if self.exec_session { Step::Wait } else { Step::Done },
            _ => {
                self.fail = FailReason::OutOfOrder;
                Step::Fail
            },
        };
        self.phase = s;
        s
    }

    /// The sync-pipe message that hands the container PID to the caller.
    pub fn pid_message(&self) -> (r: String)
        ensures
            r@ == sync_line(sync_key(self.api_version(), false), self@.container_pid as int, None),
    {
        sync_message(self.container_pid, None, self.api_version, false)
    }

    /// The sync-pipe message that hands the exit code, with what the
    /// runtime wrote to stderr, to the caller.
    pub fn exit_message(&self, stderr_text: &str) -> (r: String)
        ensures
            r@ == sync_line(sync_key(self.api_version(), true), self@.exit_code as int, Some(stderr_text@)),
    {
        sync_message(self.exit_code, Some(stderr_text), self.api_version, true)
    }

    /// The process exit status of a finished session: the runtime's exit
    /// code (clamped into a byte) for exec sessions, 0 otherwise.
    pub fn exit_status(&self) -> (r: u8)
        ensures
            r as int == if self@.exec_session {
                if self@.exit_code < 0 { 0 } else if self@.exit_code > 255 { 255 } else { self@.exit_code as int }
            } else {
                0
            },
    {
        if self.exec_session { exit_status_byte(self.exit_code) } else { 0 }
    }

    /// Why the session failed.
    pub fn error(&self) -> (r: ConmonError)
        ensures
            r.code == 1,
            r.msg@ == match self@.fail {
                FailReason::AttachPipeMissing => "--attach specified but _OCI_ATTACHPIPE was not set"@,
                FailReason::ExitStatus => "Runtime exited with status: "@ + int_text(self@.exit_code as int),
                FailReason::OutOfOrder => "Session step reported out of order"@,
            },
    {
        match self.fail {
            FailReason::AttachPipeMissing => ConmonError::new("--attach specified but _OCI_ATTACHPIPE was not set", 1),
            FailReason::ExitStatus => {
                let mut m = "Runtime exited with status: ".to_owned();
                push_int(&mut m, self.exit_code as i64);
                ConmonError::fatal(m)
            },
            FailReason::OutOfOrder => ConmonError::new("Session step reported out of order", 1),
        }
    }
}

} // verus!
