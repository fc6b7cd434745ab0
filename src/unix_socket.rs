use vstd::prelude::*;
use vstd::string::*;
use vstd::utf8::encode_utf8;
use crate::error::{ConmonError, ConmonResult};
use crate::text::{int_text, join_path, path_join, push_int};

verus! {

/// What an attach socket, and each client accepted on it, is for.
#[derive(Debug, Clone, Copy, PartialEq, Eq, Structural)]
pub enum SocketType {
    /// Bytes from the client go to the container's stdin.
    Console,
    /// sd-notify messages, consumed here.
    Notify,
}

/// Size of `sockaddr_un.sun_path` on Linux.
pub const SOCKET_PATH_MAX: usize = 108;

/// The directory that holds the attach socket, before any truncation: the
/// bundle when the full attach path is asked for, else the container's
/// directory under the socket directory; empty when neither can be had.
pub open spec fn socket_base(full: bool, bundle: Seq<char>, socket_dir: Option<Seq<char>>, cuuid: Option<Seq<char>>) -> Seq<char> {
    if full {
        bundle
    } else {
        match (socket_dir, cuuid) {
            (Some(d), Some(u)) => path_join(d, u),
            _ => seq![],
        }
    }
}

/// The bytes of `b` before its first NUL byte.
pub open spec fn before_nul(b: Seq<u8>) -> Seq<u8>
    decreases b.len(),
{
    if b.len() == 0 {
        b
    } else if b[0] == 0 {
        seq![]
    } else {
        seq![b[0]] + before_nul(b.skip(1))
    }
}

/// The UTF-8 bytes of a base path cut to fit a socket address: one of at
/// least `SOCKET_PATH_MAX - 1` bytes loses its last byte; then everything
/// from the first NUL byte on is dropped. The result need not be UTF-8.
pub open spec fn truncated_base(b: Seq<u8>) -> Seq<u8> {
    before_nul(if b.len() >= SOCKET_PATH_MAX - 1 { b.drop_last() } else { b })
}

/// Cuts `b` at its first NUL byte.
pub fn cut_at_nul(b: &mut Vec<u8>)
    ensures
        final(b)@ == before_nul(old(b)@),
{
    let n = b.len();
    let mut i: usize = 0;
    assert(b@.take(0) + before_nul(b@.skip(0)) =~= before_nul(b@)) by {
        assert(b@.skip(0) =~= b@);
    }
    while i < n
        invariant
            n == b@.len(),
            b@ == old(b)@,
            i <= n,
            b@.take(i as int) + before_nul(b@.skip(i as int)) == before_nul(b@),
        decreases n - i,
    {
        let c = b[i];
        proof {
            assert(b@.skip(i as int)[0] == c);
            assert(b@.skip(i as int).skip(1) =~= b@.skip(i + 1));
        }
        if c == 0 {
            assert(b@.take(i as int) + Seq::<u8>::empty() =~= b@.take(i as int));
            b.truncate(i);
            assert(b@ =~= old(b)@.take(i as int));
            return;
        }
        proof {
            assert(b@.take(i + 1) =~= b@.take(i as int) + seq![c]);
            assert(b@.take(i + 1) + before_nul(b@.skip(i + 1)) =~= b@.take(i as int) + (seq![c] + before_nul(b@.skip(i + 1))));
        }
        i += 1;
    }
    assert(b@.take(n as int) =~= b@);
    assert(b@.skip(n as int) =~= Seq::<u8>::empty());
    assert(b@ + Seq::<u8>::empty() =~= b@);
}

/// The directory in which the attach socket is created, as the bytes of
/// its path. With the full attach path it is the bundle itself; otherwise
/// it is the container's directory under the socket directory, cut to fit
/// a socket address (the caller links it to the bundle). Fails when
/// neither is configured.
pub fn socket_parent_dir(use_full_attach_path: bool, bundle: &str, socket_dir: &Option<String>, cuuid: &Option<String>) -> (r: ConmonResult<Vec<u8>>)
    ensures
        r is Err <==> socket_base(use_full_attach_path, bundle@, opt_view(socket_dir), opt_view(cuuid)).len() == 0,
        r matches Err(e) ==> e.msg@ == "Base path for socket cannot be determined"@ && e.code == 1,
        r matches Ok(p) ==> p@ == (if use_full_attach_path {
            encode_utf8(bundle@)
        } else {
            truncated_base(encode_utf8(socket_base(false, bundle@, opt_view(socket_dir), opt_view(cuuid))))
        }),
{
    let base: String = if use_full_attach_path {
        bundle.to_owned()
    } else {
        match (socket_dir, cuuid) {
            (Some(d), Some(u)) => join_path(d.as_str(), u.as_str()),
            _ => String::new(),
        }
    };
    if base.as_str().unicode_len() == 0 {
        return Err(ConmonError::new("Base path for socket cannot be determined", 1));
    }
    let mut bytes = base.as_str().as_bytes_vec();
    if use_full_attach_path {
        return Ok(bytes);
    }
    let n = bytes.len();
    if n >= SOCKET_PATH_MAX - 1 {
        bytes.truncate(n - 1);
        assert(bytes@ =~= encode_utf8(base@).drop_last());
    }
    cut_at_nul(&mut bytes);
    Ok(bytes)
}

/// An optional string as optional text.
pub open spec fn opt_view(o: &Option<String>) -> Option<Seq<char>> {
    match o {
        Some(s) => Some(s@),
        None => None,
    }
}

/// The address through which a socket named `base_name` is bound inside
/// the directory open as `dir_fd`: `/proc/self/fd/<dir_fd>/<base_name>`.
pub fn proc_fd_path(dir_fd: i32, base_name: &str) -> (r: String)
    ensures
        r@ == "/proc/self/fd/"@ + int_text(dir_fd as int) + "/"@ + base_name@,
{
    let mut s = "/proc/self/fd/".to_owned();
    push_int(&mut s, dir_fd as i64);
    s.append("/");
    s.append(base_name);
    s
}

} // verus!
