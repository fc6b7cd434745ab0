use vstd::prelude::*;
use crate::unix_socket::SocketType;

verus! {

/// What one entry of the multiplexer's watch set stands for.
#[derive(Debug, Clone, Copy, PartialEq, Eq, Structural)]
pub enum Watch {
    Stdout,
    Stderr,
    Listener,
    Client(SocketType),
}

/// Outcome of one read on a watched fd.
#[derive(Debug, Clone, Copy, PartialEq, Eq, Structural)]
pub enum ReadResult {
    /// At least one byte was read.
    Data,
    /// A read of length zero.
    Eof,
    /// `EAGAIN` / `EWOULDBLOCK`.
    WouldBlock,
    /// `EINTR`: the read is to be made again.
    Interrupted,
    /// Any other read error.
    Failed,
}

/// What `poll` and the I/O that followed it reported for one entry.
#[derive(Debug, Clone, Copy, PartialEq, Eq, Structural)]
pub enum Event {
    /// No event on this entry.
    Idle,
    /// `POLLHUP` without pending data: a built-in entry ends the loop, a
    /// client is removed.
    Hangup,
    /// The listener was readable and a non-blocking accept was made;
    /// `true` when it produced a client.
    Accepted(bool),
    /// The entry was readable and was read.
    Read(ReadResult),
}

/// What the loop does next with the entry.
#[derive(Debug, Clone, Copy, PartialEq, Eq, Structural)]
pub enum Action {
    /// Nothing to do; go to the next entry.
    Next,
    /// Read the same entry again.
    Retry,
    /// Hand the bytes read to the log plugin, ignore its result, go on.
    Log { is_stdout: bool },
    /// Write the bytes read to the container's stdin (best effort), go on.
    Forward,
    /// Add the accepted client at the end of the watch set, go on.
    Admit,
    /// Swap-remove the entry; when `close_stdin`, drop the stdin write end.
    /// The walk stays on the same index.
    Remove { close_stdin: bool },
    /// The container's stdio is done: leave the loop with success.
    Finish,
    /// Leave the loop with an error.
    Fail,
}

/// The multiplexer's state as the proofs see it.
pub ghost struct MuxView {
    pub watches: Seq<Watch>,
    pub remote_base: nat,
    pub stdin_open: bool,
    pub leave_stdin_open: bool,
    pub listener_type: SocketType,
}

/// Entries below `remote_base` are stdout, stderr and, optionally, the
/// listener; every entry from `remote_base` on is a client.
pub open spec fn mux_wf(m: MuxView) -> bool {
    &&& m.watches.len() >= m.remote_base
    &&& (m.remote_base == 2 || m.remote_base == 3)
    &&& m.watches[0] == Watch::Stdout
    &&& m.watches[1] == Watch::Stderr
    &&& (m.remote_base == 3 ==> m.watches[2] == Watch::Listener)
    &&& forall|j: int| m.remote_base <= j < m.watches.len() ==> (#[trigger] m.watches[j]) is Client
}

/// `s` with entry `i` replaced by the last entry, and the last entry gone.
pub open spec fn swap_removed(s: Seq<Watch>, i: int) -> Seq<Watch> {
    s.update(i, s.last()).drop_last()
}

/// Removing client `i`: a console client closes stdin unless it is to be
/// left open.
pub open spec fn remove_client(m: MuxView, i: int, t: SocketType) -> (MuxView, Action) {
    let closes = t == SocketType::Console && !m.leave_stdin_open;
    (
        MuxView {
            watches: swap_removed(m.watches, i),
            stdin_open: m.stdin_open && !closes,
            ..m
        },
        Action::Remove { close_stdin: closes && m.stdin_open },
    )
}

/// One step of the multiplexer on entry `i`.
pub open spec fn transition(m: MuxView, i: int, ev: Event) -> (MuxView, Action) {
    let w = m.watches[i];
    match ev {
        Event::Idle => (m, Action::Next),
        Event::Hangup => match w {
            Watch::Client(t) => remove_client(m, i, t),
            _ => (m, Action::Finish),
        },
        Event::Accepted(ok) => {
            if w == Watch::Listener && ok {
                (
                    MuxView { watches: m.watches.push(Watch::Client(m.listener_type)), ..m },
                    Action::Admit,
                )
            } else {
                (m, Action::Next)
            }
        },
        Event::Read(r) => match w {
            Watch::Stdout | Watch::Stderr => match r {
                ReadResult::Data => (m, Action::Log { is_stdout: w == Watch::Stdout }),
                ReadResult::Eof => (m, Action::Finish),
                ReadResult::WouldBlock => (m, Action::Next),
                ReadResult::Interrupted => (m, Action::Retry),
                ReadResult::Failed => (m, Action::Fail),
            },
            Watch::Client(t) => match r {
                ReadResult::Data => {
                    if t == SocketType::Console && m.stdin_open {
                        (m, Action::Forward)
                    } else {
                        (m, Action::Next)
                    }
                },
                ReadResult::WouldBlock => (m, Action::Next),
                ReadResult::Interrupted => (m, Action::Retry),
                _ => remove_client(m, i, t),
            },
            Watch::Listener => (m, Action::Next),
        },
    }
}

/// Index the walk goes on with after `a` was taken at index `i`.
pub open spec fn next_index(i: int, a: Action) -> int {
    match a {
        Action::Remove { .. } | Action::Retry => i,
        _ => i + 1,
    }
}

/// A log write can neither stop the loop nor hide the other stream. Data
/// read on stdout or stderr leaves the state unchanged and moves the walk
/// on; the plugin's result is no input of any step, so whatever it returns,
/// data read next on the other stream still goes to the plugin, tagged with
/// that stream.
pub proof fn lemma_log_result_ignored(m: MuxView, i: int, j: int)
    requires
        mux_wf(m),
        (i == 0 && j == 1) || (i == 1 && j == 0),
    ensures
        transition(m, i, Event::Read(ReadResult::Data)) == (m, Action::Log { is_stdout: i == 0 }),
        next_index(i, Action::Log { is_stdout: i == 0 }) == i + 1,
        transition(transition(m, i, Event::Read(ReadResult::Data)).0, j, Event::Read(ReadResult::Data)).1
            == (Action::Log { is_stdout: j == 0 }),
{
}

/// When a console client goes away (end of file, a read error or a hang
/// up) and stdin is not to be left open, the stdin write end is released;
/// when it is to be left open, stdin stays as it was.
pub proof fn lemma_console_eof_stdin(m: MuxView, i: int, ev: Event)
    requires
        mux_wf(m),
        m.remote_base <= i < m.watches.len(),
        m.watches[i] == Watch::Client(SocketType::Console),
        ev == Event::Read(ReadResult::Eof) || ev == Event::Read(ReadResult::Failed) || ev == Event::Hangup,
    ensures
        mux_wf(transition(m, i, ev).0),
        !m.leave_stdin_open ==> !transition(m, i, ev).0.stdin_open,
        m.leave_stdin_open ==> transition(m, i, ev).0.stdin_open == m.stdin_open,
{
    let m2 = transition(m, i, ev).0;
    assert forall|j: int| m2.remote_base <= j < m2.watches.len()
        implies (#[trigger] m2.watches[j]) is Client by {
        if j == i {
            assert(m.watches[m.watches.len() - 1] is Client);
        } else {
            assert(m.watches[j] is Client);
        }
    }
}

/// Once stdin is closed it stays closed, whatever happens next, and no
/// bytes are forwarded to it any more.
pub proof fn lemma_closed_stdin_stays_closed(m: MuxView, i: int, ev: Event)
    requires
        0 <= i < m.watches.len(),
        !m.stdin_open,
    ensures
        !transition(m, i, ev).0.stdin_open,
        transition(m, i, ev).1 != Action::Forward,
{
}

/// The multiplexer after a sequence of events, each on an entry index
/// (an index outside the watch set changes nothing), with the actions taken.
pub open spec fn run_events(m: MuxView, evs: Seq<(int, Event)>) -> (MuxView, Seq<Action>)
    decreases evs.len(),
{
    if evs.len() == 0 {
        (m, seq![])
    } else {
        let i = evs[0].0;
        let step = if 0 <= i < m.watches.len() { transition(m, i, evs[0].1) } else { (m, Action::Next) };
        let rest = run_events(step.0, evs.skip(1));
        (rest.0, seq![step.1] + rest.1)
    }
}

/// Once stdin is closed, nothing that happens afterwards (other clients
/// connecting, sending, leaving) delivers a byte to it again.
pub proof fn lemma_no_forward_after_close(m: MuxView, evs: Seq<(int, Event)>)
    requires
        !m.stdin_open,
    ensures
        !run_events(m, evs).0.stdin_open,
        forall|k: int| 0 <= k < run_events(m, evs).1.len() ==> #[trigger] run_events(m, evs).1[k] != Action::Forward,
    decreases evs.len(),
{
    if evs.len() > 0 {
        let i = evs[0].0;
        let step = if 0 <= i < m.watches.len() { transition(m, i, evs[0].1) } else { (m, Action::Next) };
        lemma_no_forward_after_close(step.0, evs.skip(1));
        let rest = run_events(step.0, evs.skip(1));
        assert forall|k: int| 0 <= k < (seq![step.1] + rest.1).len()
            implies #[trigger] (seq![step.1] + rest.1)[k] != Action::Forward by {
            if k > 0 {
                assert((seq![step.1] + rest.1)[k] == rest.1[k - 1]);
            }
        }
    }
}

/// With stdin to be left open, no client leaving closes it: every event
/// keeps an open stdin open.
pub proof fn lemma_left_open_stays_open(m: MuxView, i: int, ev: Event)
    requires
        0 <= i < m.watches.len(),
        m.leave_stdin_open,
        m.stdin_open,
    ensures
        transition(m, i, ev).0.stdin_open,
        transition(m, i, ev).0.leave_stdin_open,
{
}

/// While stdin is open, bytes from any console client are forwarded to it.
pub proof fn lemma_open_stdin_forwards(m: MuxView, i: int)
    requires
        mux_wf(m),
        0 <= i < m.watches.len(),
        m.stdin_open,
        m.watches[i] == Watch::Client(SocketType::Console),
    ensures
        transition(m, i, Event::Read(ReadResult::Data)) == (m, Action::Forward),
{
}

/// The decisions of the stdio multiplexer: which entry is what, whether the
/// container's stdin is still open, and what each event leads to. The poll
/// loop that owns the fds mirrors every change of the watch set.
pub struct Multiplexer {
    watches: Vec<Watch>,
    remote_base: usize,
    stdin_open: bool,
    leave_stdin_open: bool,
    listener_type: SocketType,
}

impl View for Multiplexer {
    type V = MuxView;

    closed spec fn view(&self) -> MuxView {
        MuxView {
            watches: self.watches@,
            remote_base: self.remote_base as nat,
            stdin_open: self.stdin_open,
            leave_stdin_open: self.leave_stdin_open,
            listener_type: self.listener_type,
        }
    }
}

impl Multiplexer {
    /// Watch set at entry: stdout at 0, stderr at 1, then the attach
    /// listener when there is one (of type `listener`). `has_stdin` tells
    /// whether a stdin write end exists.
    pub fn new(listener: Option<SocketType>, has_stdin: bool, leave_stdin_open: bool) -> (r: Multiplexer)
        ensures
            mux_wf(r@),
            r@.watches == (match listener {
                Some(_) => seq![Watch::Stdout, Watch::Stderr, Watch::Listener],
                None => seq![Watch::Stdout, Watch::Stderr],
            }),
            r@.remote_base == r@.watches.len(),
            r@.stdin_open == has_stdin,
            r@.leave_stdin_open == leave_stdin_open,
            listener matches Some(t) ==> r@.listener_type == t,
    {
        let mut watches: Vec<Watch> = Vec::new();
        watches.push(Watch::Stdout);
        watches.push(Watch::Stderr);
        let listener_type = match listener {
            Some(t) => {
                watches.push(Watch::Listener);
                t
            },
            None => SocketType::Console,
        };
        let remote_base = watches.len();
        let r = Multiplexer { watches, remote_base, stdin_open: has_stdin, leave_stdin_open, listener_type };
        proof {
            match listener {
                Some(_) => assert(r@.watches =~= seq![Watch::Stdout, Watch::Stderr, Watch::Listener]),
                None => assert(r@.watches =~= seq![Watch::Stdout, Watch::Stderr]),
            }
        }
        r
    }

    pub open spec fn wf(&self) -> bool {
        mux_wf(self@)
    }

    /// Number of entries in the watch set.
    pub fn len(&self) -> (r: usize)
        ensures
            r == self@.watches.len(),
    {
        self.watches.len()
    }

    /// What entry `i` stands for.
    pub fn watch(&self, i: usize) -> (r: Watch)
        requires
            i < self@.watches.len(),
        ensures
            r == self@.watches[i as int],
    {
        self.watches[i]
    }

    /// Whether the container's stdin write end is still held.
    pub fn stdin_open(&self) -> (r: bool)
        ensures
            r == self@.stdin_open,
    {
        self.stdin_open
    }

    /// Removes client entry `i`, closing stdin when a console client goes
    /// and stdin is not to be left open.
    fn remove_client(&mut self, i: usize, t: SocketType) -> (a: Action)
        requires
            old(self).wf(),
            i < old(self)@.watches.len(),
            old(self)@.watches[i as int] == Watch::Client(t),
        ensures
            final(self).wf(),
            (final(self)@, a) == remove_client(old(self)@, i as int, t),
    {
        let closes = t == SocketType::Console && !self.leave_stdin_open;
        let close_stdin = closes && self.stdin_open;
        proof {
            assert(i >= self.remote_base) by {
                if i < self.remote_base {
                    assert(self@.watches[i as int] == Watch::Stdout
                        || self@.watches[i as int] == Watch::Stderr
                        || self@.watches[i as int] == Watch::Listener);
                }
            }
        }
        self.watches.swap_remove(i);
        self.stdin_open = self.stdin_open && !closes;
        proof {
            assert forall|j: int| self@.remote_base <= j < self@.watches.len()
                implies (#[trigger] self@.watches[j]) is Client by {
                if j == i as int {
                    assert(old(self)@.watches[old(self)@.watches.len() - 1] is Client);
                } else {
                    assert(old(self)@.watches[j] is Client);
                }
            }
        }
        Action::Remove { close_stdin }
    }

    /// Takes one event on entry `i` and says what to do.
    pub fn step(&mut self, i: usize, ev: Event) -> (a: Action)
        requires
            old(self).wf(),
            i < old(self)@.watches.len(),
        ensures
            final(self).wf(),
            (final(self)@, a) == transition(old(self)@, i as int, ev),
    {
        let w = self.watches[i];
        match ev {
            Event::Idle => Action::Next,
            Event::Hangup => match w {
                Watch::Client(t) => self.remove_client(i, t),
                _ => Action::Finish,
            },
            Event::Accepted(ok) => {
                if w == Watch::Listener && ok {
                    self.watches.push(Watch::Client(self.listener_type));
                    Action::Admit
                } else {
                    Action::Next
                }
            },
            Event::Read(r) => match w {
                Watch::Stdout | Watch::Stderr => match r {
                    ReadResult::Data => Action::Log { is_stdout: w == Watch::Stdout },
                    ReadResult::Eof => Action::Finish,
                    ReadResult::WouldBlock => Action::Next,
                    ReadResult::Interrupted => Action::Retry,
                    ReadResult::Failed => Action::Fail,
                },
                Watch::Client(t) => match r {
                    ReadResult::Data => {
                        if t == SocketType::Console && self.stdin_open {
                            Action::Forward
                        } else {
                            Action::Next
                        }
                    },
                    ReadResult::WouldBlock => Action::Next,
                    ReadResult::Interrupted => Action::Retry,
                    _ => self.remove_client(i, t),
                },
                Watch::Listener => Action::Next,
            },
        }
    }

    /// Index the walk goes on with after `a` was taken at index `i`.
    pub fn next_index(i: usize, a: Action) -> (r: usize)
        requires
            i < usize::MAX,
        ensures
            r == next_index(i as int, a),
    {
        match a {
            Action::Remove { .. } | Action::Retry => i,
            _ => i + 1,
        }
    }
}

} // verus!
