//! Framing and service handles of the Unix-socket IPC: messages are single
//! lines terminated by a newline.

use crate::text::{trim, trim_spec};
use vstd::prelude::*;
use vstd::utf8::{decode_utf8, valid_utf8};

verus! {

/// The initial capacity of the buffer that a message is read into.
pub const MESSAGE_BUFFER_INITIAL_CAPACITY_SIZE: usize = 2097152;

/// The largest message that is accepted.
pub const MESSAGE_BUFFER_SIZE: usize = 16777216;

/// `msg` with each newline replaced by `\n` (a backslash and an `n`).
pub open spec fn escape_newlines(msg: Seq<char>) -> Seq<char>
    decreases msg.len(),
{
    if msg.len() == 0 {
        Seq::empty()
    } else if msg.last() == '\n' {
        escape_newlines(msg.drop_last()) + seq!['\\', 'n']
    } else {
        escape_newlines(msg.drop_last()).push(msg.last())
    }
}

/// The frame of a message: newlines escaped, surrounding white space
/// trimmed, and a newline appended as delimiter.
pub open spec fn frame_spec(msg: Seq<char>) -> Seq<char> {
    trim_spec(escape_newlines(msg)).push('\n')
}

/// A frame is a message with a newline at the end.
pub fn make_frame(msg: &str) -> (r: String)
    ensures
        r@ == frame_spec(msg@),
{
    // Escape newlines in the message to avoid breaking the protocol
    let mut escaped = String::new();
    for c in it: msg.chars()
        invariant
            it.seq() == msg@,
            escaped@ == escape_newlines(msg@.take(it.index() as int)),
    {
        proof {
            assert(msg@.take(it.index() + 1).drop_last() == msg@.take(it.index() as int));
        }
        if c == '\n' {
            escaped.push('\\');
            escaped.push('n');
        } else {
            escaped.push(c);
        }
    }
    proof {
        assert(msg@.take(msg@.len() as int) == msg@);
    }
    // Trim whitespace from the beginning and end of the message
    let trimmed = trim(escaped.as_str());
    // Append a newline to the message to delimit the message
    let mut frame = String::new();
    frame.push_str(trimmed);
    frame.push('\n');
    frame
}

/// Whether a received message exceeds the largest accepted size.
pub fn message_too_big(len: usize) -> (r: bool)
    ensures
        r == (len > MESSAGE_BUFFER_SIZE),
{
    len > MESSAGE_BUFFER_SIZE
}

/// A Rep0 service: answers requests received on a Unix socket.
pub struct RepService {
    url: String,
}

impl RepService {
    /// A service that will listen on `url`.
    pub fn new(url: &str) -> (s: Self)
        ensures
            s.url() == url@,
    {
        RepService { url: url.to_owned() }
    }

    /// The socket path of the service.
    pub closed spec fn url(&self) -> Seq<char> {
        self.url@
    }

    /// The socket path of the service.
    pub fn get_url(&self) -> (r: &str)
        ensures
            r@ == self.url(),
    {
        self.url.as_str()
    }
}

/// A Sub0 service: receives published messages from a Unix socket.
pub struct SubService {
    url: String,
}

impl SubService {
    /// A service that will connect to `url`.
    pub fn new(url: &str) -> (s: Self)
        ensures
            s.url() == url@,
    {
        SubService { url: url.to_owned() }
    }

    /// The socket path of the service.
    pub closed spec fn url(&self) -> Seq<char> {
        self.url@
    }

    /// The socket path of the service.
    pub fn get_url(&self) -> (r: &str)
        ensures
            r@ == self.url(),
    {
        self.url.as_str()
    }
}

/// Decodes UTF-8 with `std::str::from_utf8`. Trusted: it succeeds exactly
/// on valid UTF-8 (as vstd defines it), with the decoded characters.
#[verifier::external_body]
fn str_from_utf8(bytes: &[u8]) -> (r: Option<&str>)
    ensures
        match r {
            Some(s) => valid_utf8(bytes@) && s@ == decode_utf8(bytes@),
            None => !valid_utf8(bytes@),
        },
{
    std::str::from_utf8(bytes).ok()
}

/// Why no message could be read from a socket.
#[derive(Debug, Clone, Copy, PartialEq, Eq, Structural)]
pub enum SocketReadError {
    /// "Socket peer disconnected"
    PeerDisconnected,
    /// "Could not read from socket"
    ReadError,
}

/// The message that a read of one line from a socket gave: `read` is the
/// number of bytes read (`None` where reading failed) and `buf` holds them,
/// the newline included. Nothing read means the peer disconnected; a
/// message that is too big or not UTF-8 is an error.
pub fn received_message(read: Option<usize>, buf: &[u8]) -> (r: Result<String, SocketReadError>)
    ensures
        read is None ==> r == Err::<String, SocketReadError>(SocketReadError::ReadError),
        read == Some(0usize) ==> r == Err::<String, SocketReadError>(SocketReadError::PeerDisconnected),
        read matches Some(n) && n > 0 ==> {
            if buf@.len() > MESSAGE_BUFFER_SIZE || !valid_utf8(buf@) {
                r == Err::<String, SocketReadError>(SocketReadError::ReadError)
            } else {
                r matches Ok(m) && m@ == decode_utf8(buf@)
            }
        },
{
    match read {
        None => Err(SocketReadError::ReadError),
        Some(0) => Err(SocketReadError::PeerDisconnected),
        Some(_) => {
            if message_too_big(buf.len()) {
                return Err(SocketReadError::ReadError);
            }
            match str_from_utf8(buf) {
                Some(msg) => Ok(msg.to_owned()),
                None => Err(SocketReadError::ReadError),
            }
        },
    }
}

proof fn lemma_escaped_has_no_newline(msg: Seq<char>)
    ensures
        forall|i: int| 0 <= i < escape_newlines(msg).len() ==> #[trigger] escape_newlines(msg)[i] != '\n',
    decreases msg.len(),
{
    if msg.len() > 0 {
        lemma_escaped_has_no_newline(msg.drop_last());
        let prev = escape_newlines(msg.drop_last());
        assert forall|i: int| 0 <= i < escape_newlines(msg).len() implies #[trigger] escape_newlines(
            msg,
        )[i] != '\n' by {
            if i < prev.len() {
                assert(escape_newlines(msg)[i] == prev[i]);
            }
        }
    }
}

proof fn lemma_first_non_space_range(s: Seq<char>, i: int)
    requires
        0 <= i <= s.len(),
    ensures
        i <= crate::text::first_non_space_from(s, i) <= s.len(),
    decreases s.len() - i,
{
    if i < s.len() {
        lemma_first_non_space_range(s, i + 1);
    }
}

proof fn lemma_last_non_space_range(s: Seq<char>, j: int)
    requires
        0 <= j <= s.len(),
    ensures
        0 <= crate::text::last_non_space_before(s, j) <= j,
    decreases j,
{
    if j > 0 {
        lemma_last_non_space_range(s, j - 1);
    }
}

/// A frame is one line: it ends with the newline that delimits it and holds
/// no other newline.
pub proof fn law_frame_single_line(msg: Seq<char>)
    ensures
        frame_spec(msg).len() > 0,
        frame_spec(msg).last() == '\n',
        forall|i: int| 0 <= i < frame_spec(msg).len() - 1 ==> #[trigger] frame_spec(msg)[i] != '\n',
{
    lemma_escaped_has_no_newline(msg);
    let e = escape_newlines(msg);
    let t = trim_spec(e);
    let start = crate::text::first_non_space_from(e, 0);
    let end = crate::text::last_non_space_before(e, e.len() as int);
    lemma_first_non_space_range(e, 0);
    lemma_last_non_space_range(e, e.len() as int);
    assert forall|i: int| 0 <= i < t.len() implies #[trigger] t[i] != '\n' by {
        assert(start < end);
        assert(t[i] == e[start + i]);
    }
    assert forall|i: int| 0 <= i < frame_spec(msg).len() - 1 implies #[trigger] frame_spec(msg)[i]
        != '\n' by {
        assert(frame_spec(msg)[i] == t[i]);
    }
}

} // verus!
