use vstd::prelude::*;
use vstd::string::*;
use crate::text::{int_text, push_int};

verus! {

/// The one error of this library: a human-readable message and the
/// process exit code that goes with it.
#[derive(Debug)]
pub struct ConmonError {
    pub msg: String,
    pub code: u8,
}

/// Result of a fallible operation of this library.
pub type ConmonResult<T> = Result<T, ConmonError>;

/// The text that describes an error: its message followed by its code.
pub open spec fn error_text(msg: Seq<char>, code: u8) -> Seq<char> {
    msg + " (code "@ + int_text(code as int) + ")"@
}

impl ConmonError {
    pub fn new(m: &str, code: u8) -> (r: ConmonError)
        ensures
            r.msg@ == m@,
            r.code == code,
    {
        ConmonError { msg: m.to_owned(), code }
    }

    /// An error with exit code 1, the code of every fatal failure.
    pub fn fatal(msg: String) -> (r: ConmonError)
        ensures
            r.msg@ == msg@,
            r.code == 1,
    {
        ConmonError { msg, code: 1 }
    }

    /// The error as text: the message, then the exit code in parentheses.
    pub fn to_string(&self) -> (r: String)
        ensures
            r@ == error_text(self.msg@, self.code),
    {
        let mut s = self.msg.clone();
        s.append(" (code ");
        push_int(&mut s, self.code as i64);
        s.append(")");
        s
    }
}

} // verus!
