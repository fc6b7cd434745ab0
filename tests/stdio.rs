use conmon::stdio::{Action, Event, Multiplexer, ReadResult, Watch};
use conmon::unix_socket::SocketType;

/// Feeds one round of events (one per entry, in index order) to the
/// multiplexer the way the poll loop does, and returns the actions taken.
fn run_round(m: &mut Multiplexer, events: &[Event]) -> Vec<Action> {
    let mut actions = Vec::new();
    let mut i: usize = 0;
    let mut k = 0;
    while i < m.len() && k < events.len() {
        let a = m.step(i, events[k]);
        k += 1;
        actions.push(a);
        if matches!(a, Action::Finish | Action::Fail) {
            break;
        }
        i = Multiplexer::next_index(i, a);
    }
    actions
}

#[test]
fn handle_stdio_calls_write_for_stdout_and_stderr() {
    let mut m = Multiplexer::new(None, false, false);
    let acts = run_round(&mut m, &[Event::Read(ReadResult::Data), Event::Read(ReadResult::Data)]);
    assert_eq!(acts, vec![Action::Log { is_stdout: true }, Action::Log { is_stdout: false }]);
    let acts = run_round(&mut m, &[Event::Read(ReadResult::Eof)]);
    assert_eq!(acts, vec![Action::Finish]);
}

#[test]
fn handle_stdio_write_error_ignored() {
    // The plugin's result is never handed back: after a failed write on
    // stderr, stdout data is still logged.
    let mut m = Multiplexer::new(None, false, false);
    let acts = run_round(&mut m, &[Event::Read(ReadResult::Data), Event::Read(ReadResult::Data)]);
    assert_eq!(acts, vec![Action::Log { is_stdout: true }, Action::Log { is_stdout: false }]);
    let acts = run_round(&mut m, &[Event::Read(ReadResult::Data), Event::Idle]);
    assert_eq!(acts, vec![Action::Log { is_stdout: true }, Action::Next]);
    assert_eq!(m.len(), 2);
}

#[test]
fn hangup_and_read_errors() {
    let mut m = Multiplexer::new(None, false, false);
    assert_eq!(run_round(&mut m, &[Event::Idle, Event::Hangup]), vec![Action::Next, Action::Finish]);
    assert_eq!(run_round(&mut m, &[Event::Read(ReadResult::WouldBlock), Event::Read(ReadResult::Failed)]),
        vec![Action::Next, Action::Fail]);
}

#[test]
fn console_eof_closes_stdin_when_not_left_open() {
    let mut m = Multiplexer::new(Some(SocketType::Console), true, false);
    assert_eq!(m.len(), 3);
    // Two clients connect.
    assert_eq!(m.step(2, Event::Accepted(true)), Action::Admit);
    assert_eq!(m.step(2, Event::Accepted(true)), Action::Admit);
    assert_eq!(m.len(), 5);
    assert_eq!(m.watch(3), Watch::Client(SocketType::Console));
    // The first one forwards, then goes away.
    assert_eq!(m.step(3, Event::Read(ReadResult::Data)), Action::Forward);
    assert_eq!(m.step(3, Event::Read(ReadResult::Eof)), Action::Remove { close_stdin: true });
    assert!(!m.stdin_open());
    assert_eq!(m.len(), 4);
    // The second one (swapped into index 3) is no longer forwarded.
    assert_eq!(m.step(3, Event::Read(ReadResult::Data)), Action::Next);
    assert_eq!(m.step(3, Event::Read(ReadResult::Eof)), Action::Remove { close_stdin: false });
    assert_eq!(m.len(), 3);
}

#[test]
fn console_eof_keeps_stdin_when_left_open() {
    let mut m = Multiplexer::new(Some(SocketType::Console), true, true);
    assert_eq!(m.step(2, Event::Accepted(true)), Action::Admit);
    assert_eq!(m.step(2, Event::Accepted(true)), Action::Admit);
    assert_eq!(m.step(3, Event::Read(ReadResult::Failed)), Action::Remove { close_stdin: false });
    assert!(m.stdin_open());
    assert_eq!(m.step(3, Event::Read(ReadResult::Data)), Action::Forward);
}

#[test]
fn notify_clients_are_consumed() {
    let mut m = Multiplexer::new(Some(SocketType::Notify), true, false);
    assert_eq!(m.step(2, Event::Accepted(false)), Action::Next);
    assert_eq!(m.step(2, Event::Accepted(true)), Action::Admit);
    assert_eq!(m.watch(3), Watch::Client(SocketType::Notify));
    assert_eq!(m.step(3, Event::Read(ReadResult::Data)), Action::Next);
    assert_eq!(m.step(3, Event::Read(ReadResult::Eof)), Action::Remove { close_stdin: false });
    assert!(m.stdin_open());
}

#[test]
fn swap_remove_walk_stays_on_index() {
    assert_eq!(Multiplexer::next_index(4, Action::Remove { close_stdin: false }), 4);
    assert_eq!(Multiplexer::next_index(4, Action::Forward), 5);
}

#[test]
fn client_hangup_removes_only_that_client() {
    let mut m = Multiplexer::new(Some(SocketType::Console), true, false);
    assert_eq!(m.step(2, Event::Accepted(true)), Action::Admit);
    assert_eq!(m.step(3, Event::Hangup), Action::Remove { close_stdin: true });
    assert_eq!(m.len(), 3);
    assert!(!m.stdin_open());
    assert_eq!(m.step(2, Event::Hangup), Action::Finish);
}

#[test]
fn interrupted_reads_are_retried() {
    let mut m = Multiplexer::new(None, false, false);
    let a = m.step(0, Event::Read(ReadResult::Interrupted));
    assert_eq!(a, Action::Retry);
    assert_eq!(Multiplexer::next_index(0, a), 0);
    assert_eq!(m.step(0, Event::Read(ReadResult::Data)), Action::Log { is_stdout: true });
}
