use vstd::prelude::*;
use vstd::string::*;
use crate::error::{ConmonError, ConmonResult};
use crate::number::{parse_i32, parse_i32_spec};
use crate::text::{digit_char, int_text, join2, nat_text, push_int};

verus! {

/// What the environment holds under a variable's name.
pub enum EnvValue {
    /// The variable is not set.
    Missing,
    /// The variable is set but is not valid Unicode.
    NotUnicode,
    Value(String),
}

/// The fd number that an inherited-pipe variable names: `None` when it is
/// unset, an error when it is not Unicode or not an integer.
pub open spec fn pipe_fd_spec(envname: Seq<char>, v: EnvValue) -> Result<Option<int>, Seq<char>> {
    match v {
        EnvValue::Missing => Ok(None),
        EnvValue::NotUnicode => Err("unable to parse "@ + envname),
        EnvValue::Value(s) => match parse_i32_spec(s@) {
            Ok(fd) => Ok(Some(fd)),
            Err(_) => Err("unable to parse "@ + envname + " : "@ + s@ + " not an integer"@),
        },
    }
}

/// A value of an inherited-pipe variable that is not a 32-bit integer is
/// an error, raised before anything else happens, whose message ends in
/// "not an integer".
pub proof fn lemma_non_integer_rejected(envname: Seq<char>, s: String)
    requires
        parse_i32_spec(s@) is Err,
    ensures
        pipe_fd_spec(envname, EnvValue::Value(s)) == Err::<Option<int>, Seq<char>>(
            "unable to parse "@ + envname + " : "@ + s@ + " not an integer"@,
        ),
{
}

/// An optional 32-bit integer as an optional integer.
pub open spec fn opt_int(o: Option<i32>) -> Option<int> {
    match o {
        Some(x) => Some(x as int),
        None => None,
    }
}

/// Reads the fd number of an inherited pipe from the value of the
/// environment variable `envname`.
pub fn parse_pipe_fd(envname: &str, v: EnvValue) -> (r: ConmonResult<Option<i32>>)
    ensures
        r is Ok <==> pipe_fd_spec(envname@, v) is Ok,
        r is Ok ==> pipe_fd_spec(envname@, v) == Ok::<Option<int>, Seq<char>>(opt_int(r->Ok_0)),
        r matches Err(e) ==> pipe_fd_spec(envname@, v) == Err::<Option<int>, Seq<char>>(e.msg@) && e.code == 1,
{
    match v {
        EnvValue::Missing => Ok(None),
        EnvValue::NotUnicode => Err(ConmonError::fatal(join2("unable to parse ", envname))),
        EnvValue::Value(s) => match parse_i32(s.as_str()) {
            Ok(fd) => Ok(Some(fd)),
            Err(_) => {
                let mut m = join2("unable to parse ", envname);
                m.append(" : ");
                m.append(s.as_str());
                m.append(" not an integer");
                Err(ConmonError::fatal(m))
            },
        },
    }
}

/// The key under which the integer of a sync-pipe message goes.
pub open spec fn sync_key(api_version: i32, exec: bool) -> Seq<char> {
    if api_version >= 1 {
        "data"@
    } else if exec {
        "exit_code"@
    } else {
        "pid"@
    }
}

/// The key under which the integer of a sync-pipe message goes: `data` from
/// API version 1 on, else `exit_code` for exec sessions, else `pid`.
pub fn sync_key_of(api_version: i32, exec: bool) -> (r: &'static str)
    ensures
        r@ == sync_key(api_version, exec),
{
    if api_version >= 1 {
        "data"
    } else if exec {
        "exit_code"
    } else {
        "pid"
    }
}

/// The lower-case hexadecimal digit `d` (below sixteen).
pub open spec fn hex_digit(d: nat) -> char {
    seq!['0', '1', '2', '3', '4', '5', '6', '7', '8', '9', 'a', 'b', 'c', 'd', 'e', 'f'][d as int]
}

/// How one character is written inside a JSON string: quote and backslash
/// are escaped, the five control characters with a short escape get it,
/// every other control character below 0x20 is written `\u00xx`, and
/// anything else stands as it is.
pub open spec fn json_escape_char(c: char) -> Seq<char> {
    if c == '"' {
        seq!['\\', '"']
    } else if c == '\\' {
        seq!['\\', '\\']
    } else if c == '\u{08}' {
        seq!['\\', 'b']
    } else if c == '\u{0C}' {
        seq!['\\', 'f']
    } else if c == '\n' {
        seq!['\\', 'n']
    } else if c == '\r' {
        seq!['\\', 'r']
    } else if c == '\t' {
        seq!['\\', 't']
    } else if (c as u32) < 0x20 {
        seq!['\\', 'u', '0', '0', hex_digit(((c as u32) / 16) as nat), hex_digit(((c as u32) % 16) as nat)]
    } else {
        seq![c]
    }
}

/// The characters of `s`, each written as inside a JSON string.
pub open spec fn json_escaped(s: Seq<char>) -> Seq<char>
    decreases s.len(),
{
    if s.len() == 0 {
        seq![]
    } else {
        json_escape_char(s[0]) + json_escaped(s.skip(1))
    }
}

/// `s` as a compact JSON string literal.
pub open spec fn json_quote(s: Seq<char>) -> Seq<char> {
    seq!['"'] + json_escaped(s) + seq!['"']
}

/// Relies on serde_json's `Display` for `Value::String` (the compact
/// serializer's `format_escaped_str` and its `ESCAPE` table): it writes the
/// string between quotes, escaping as `json_escape_char` says.
#[verifier::external_body]
fn json_string(s: &str) -> (r: String)
    ensures
        r@ == json_quote(s@),
{
    serde_json::Value::String(s.to_owned()).to_string()
}

proof fn lemma_no_lf_concat(a: Seq<char>, b: Seq<char>)
    requires
        !a.contains('\n'),
        !b.contains('\n'),
    ensures
        !(a + b).contains('\n'),
{
    assert forall|i: int| 0 <= i < (a + b).len() implies #[trigger] (a + b)[i] != '\n' by {
        if i >= a.len() {
            assert((a + b)[i] == b[i - a.len()]);
        }
    }
}

proof fn lemma_json_escaped_one_line(s: Seq<char>)
    ensures
        !json_escaped(s).contains('\n'),
    decreases s.len(),
{
    if s.len() > 0 {
        lemma_json_escaped_one_line(s.skip(1));
        assert(forall|d: nat| d < 16 ==> hex_digit(d) != '\n');
        let e = json_escape_char(s[0]);
        assert(!e.contains('\n'));
        lemma_no_lf_concat(e, json_escaped(s.skip(1)));
    }
}

/// A JSON string literal holds no line feed.
pub proof fn lemma_json_quote_one_line(s: Seq<char>)
    ensures
        !json_quote(s).contains('\n'),
{
    lemma_json_escaped_one_line(s);
    lemma_no_lf_concat(seq!['"'], json_escaped(s));
    lemma_no_lf_concat(seq!['"'] + json_escaped(s), seq!['"']);
}

/// The message part of a sync-pipe object, present for a non-empty message.
pub open spec fn message_part(message: Option<Seq<char>>) -> Seq<char> {
    match message {
        Some(m) => if m.len() > 0 { ",\"message\":"@ + json_quote(m) } else { seq![] },
        None => seq![],
    }
}

/// One sync-pipe message: a JSON object with the integer under `key` and
/// the message when there is a non-empty one, then a line feed.
pub open spec fn sync_line(key: Seq<char>, value: int, message: Option<Seq<char>>) -> Seq<char> {
    "{\""@ + key + "\":"@ + int_text(value) + message_part(message) + "}\n"@
}

proof fn lemma_nat_text_one_line(n: nat)
    ensures
        !nat_text(n).contains('\n'),
    decreases n,
{
    if n >= 10 {
        lemma_nat_text_one_line(n / 10);
    }
    assert(forall|d: nat| d < 10 ==> digit_char(d) != '\n');
}

proof fn lemma_int_text_one_line(n: int)
    ensures
        !int_text(n).contains('\n'),
{
    if n < 0 {
        lemma_nat_text_one_line((-n) as nat);
        let t = seq!['-'] + nat_text((-n) as nat);
        assert forall|i: int| 0 <= i < t.len() implies #[trigger] t[i] != '\n' by {
            if i > 0 {
                assert(t[i] == nat_text((-n) as nat)[i - 1]);
            }
        }
    } else {
        lemma_nat_text_one_line(n as nat);
    }
}

/// Builds the sync-pipe message that carries `value` (and `message`) for
/// the given API version and session kind.
pub fn sync_message(value: i32, message: Option<&str>, api_version: i32, exec: bool) -> (r: String)
    ensures
        r@ == sync_line(sync_key(api_version, exec), value as int, match message {
            Some(m) => Some(m@),
            None => None,
        }),
        r@.len() > 0,
        r@.last() == '\n',
        !r@.drop_last().contains('\n'),
{
    let key = sync_key_of(api_version, exec);
    let mut s = join2("{\"", key);
    s.append("\":");
    push_int(&mut s, value as i64);
    match message {
        Some(m) => {
            if m.unicode_len() > 0 {
                s.append(",\"message\":");
                let q = json_string(m);
                proof {
                    lemma_json_quote_one_line(m@);
                }
                s.append(q.as_str());
            }
        },
        None => {},
    }
    proof {
        reveal_strlit("{\"");
        reveal_strlit("\":");
        reveal_strlit(",\"message\":");
        reveal_strlit("data");
        reveal_strlit("exit_code");
        reveal_strlit("pid");
        lemma_int_text_one_line(value as int);
        assert(!s@.contains('\n'));
    }
    let ghost before = s@;
    s.append("}\n");
    proof {
        reveal_strlit("}\n");
        assert(s@.drop_last() =~= before.push('}'));
        assert(!s@.drop_last().contains('\n'));
    }
    s
}

/// Outcome of one `write` on the sync pipe.
#[derive(Debug, Clone, Copy, PartialEq, Eq, Structural)]
pub enum WriteOutcome {
    /// This many bytes were written.
    Wrote(usize),
    /// `EINTR`.
    Interrupted,
    /// `EPIPE`: the reader went away.
    BrokenPipe,
    /// Any other error.
    Failed,
}

/// What the sync-pipe writer does after one write.
pub enum SyncStep {
    /// Write again from this offset.
    Continue(usize),
    /// Everything was written; keep the fd.
    Held,
    /// The reader went away: report success and drop the fd.
    Released,
    /// Fatal.
    Fail(ConmonError),
}

/// One step of writing a `len`-byte message of which `done` bytes are out:
/// short writes and interrupts retry, a broken pipe is success without the
/// fd, a zero-length write or another error is fatal.
pub fn sync_write_step(len: usize, done: usize, out: WriteOutcome) -> (r: SyncStep)
    requires
        done < len,
    ensures
        match out {
            WriteOutcome::Wrote(n) => if n == 0 {
                r is Fail
            } else if n >= len - done {
                r is Held
            } else {
                r matches SyncStep::Continue(k) && k == done + n
            },
            WriteOutcome::Interrupted => r matches SyncStep::Continue(k) && k == done,
            WriteOutcome::BrokenPipe => r is Released,
            WriteOutcome::Failed => r is Fail,
        },
        r matches SyncStep::Fail(e) ==> e.msg@ == "Unable to send container stderr message to parent"@ && e.code == 1,
{
    match out {
        WriteOutcome::Wrote(n) => {
            if n == 0 {
                SyncStep::Fail(ConmonError::new("Unable to send container stderr message to parent", 1))
            } else if n >= len - done {
                SyncStep::Held
            } else {
                SyncStep::Continue(done + n)
            }
        },
        WriteOutcome::Interrupted => SyncStep::Continue(done),
        WriteOutcome::BrokenPipe => SyncStep::Released,
        WriteOutcome::Failed => SyncStep::Fail(ConmonError::new("Unable to send container stderr message to parent", 1)),
    }
}

} // verus!
