use vstd::prelude::*;
use vstd::string::*;
use crate::error::{ConmonError, ConmonResult};
use crate::text::join2;

verus! {

/// The spawned runtime: its PID, or -1 before it is spawned.
pub struct RuntimeProcess {
    pid: i32,
}

impl RuntimeProcess {
    pub fn new() -> (r: RuntimeProcess)
        ensures
            r.spec_pid() == -1,
    {
        RuntimeProcess { pid: -1 }
    }

    pub closed spec fn spec_pid(&self) -> i32 {
        self.pid
    }

    /// The runtime's PID, or -1 when it is not running.
    pub fn pid(&self) -> (r: i32)
        ensures
            r == self.spec_pid(),
    {
        self.pid
    }

    /// Records the PID of the runtime just spawned.
    pub fn set_spawned(&mut self, pid: i32)
        ensures
            final(self).spec_pid() == pid,
    {
        self.pid = pid;
    }
}

/// Splits the runtime argv into the program and its arguments; an empty
/// argv is an input error.
pub fn split_runtime_argv(args: &Vec<String>) -> (r: ConmonResult<(String, Vec<String>)>)
    ensures
        r is Err <==> args@.len() == 0,
        r matches Err(e) ==> e.msg@ == "Failed to execute runtime binary: empty args"@ && e.code == 1,
        r matches Ok((p, rest)) ==> p == args@[0] && rest@ == args@.skip(1),
{
    if args.len() == 0 {
        return Err(ConmonError::new("Failed to execute runtime binary: empty args", 1));
    }
    let program = args[0].clone();
    let mut rest: Vec<String> = Vec::new();
    let mut i: usize = 1;
    while i < args.len()
        invariant
            1 <= i <= args@.len(),
            rest@ == args@.subrange(1, i as int),
        decreases args@.len() - i,
    {
        rest.push(args[i].clone());
        assert(rest@ =~= args@.subrange(1, i + 1));
        i += 1;
    }
    assert(rest@ =~= args@.skip(1));
    Ok((program, rest))
}

/// What one `waitpid` on the runtime reported.
pub enum WaitOutcome {
    /// The runtime exited with this code.
    Exited(i32),
    /// The runtime was killed by the signal of this name.
    Signaled(String),
    /// Stopped, continued or traced: not an end.
    NotEnded,
    /// `EINTR`.
    Interrupted,
    /// Any other error, with its description.
    Failed(String),
}

/// What waiting does next.
pub enum WaitStep {
    /// The runtime is gone with this exit code.
    Exit(i32),
    /// Wait again.
    Retry,
    /// The runtime ended by a signal: fatal.
    Fail(ConmonError),
    /// Waiting failed: kill the runtime (best effort), then fail.
    KillAndFail(ConmonError),
}

/// Decides what follows one `waitpid`.
pub fn wait_step(o: WaitOutcome) -> (r: WaitStep)
    ensures
        match o {
            WaitOutcome::Exited(c) => r matches WaitStep::Exit(x) && x == c,
            WaitOutcome::Signaled(sig) => r matches WaitStep::Fail(e)
                && e.msg@ == "Runtime process exited due to signal: "@ + sig@ && e.code == 1,
            WaitOutcome::NotEnded => r is Retry,
            WaitOutcome::Interrupted => r is Retry,
            WaitOutcome::Failed(why) => r matches WaitStep::KillAndFail(e)
                && e.msg@ == "Failed to wait for runtime process to exit: "@ + why@ && e.code == 1,
        },
{
    match o {
        WaitOutcome::Exited(c) => WaitStep::Exit(c),
        WaitOutcome::Signaled(sig) => WaitStep::Fail(
            ConmonError::fatal(join2("Runtime process exited due to signal: ", sig.as_str())),
        ),
        WaitOutcome::NotEnded => WaitStep::Retry,
        WaitOutcome::Interrupted => WaitStep::Retry,
        WaitOutcome::Failed(why) => WaitStep::KillAndFail(
            ConmonError::fatal(join2("Failed to wait for runtime process to exit: ", why.as_str())),
        ),
    }
}

/// The process exit status for an exec session: the runtime's exit code,
/// clamped into a byte.
pub fn exit_status_byte(code: i32) -> (r: u8)
    ensures
        r as int == if code < 0 { 0 } else if code > 255 { 255 } else { code as int },
{
    if code < 0 {
        0
    } else if code > 255 {
        255
    } else {
        code as u8
    }
}

} // verus!
