//! The HTTP transport's host handling, request building and body
//! extraction.
//!
//! Each command is a minimal hand-built GET against a remembered host; the
//! reply is read to end of stream and the body is everything after the
//! first blank line of the headers.  Opening the socket and moving the
//! bytes is I/O and stays outside the library.

use vstd::prelude::*;
use vstd::slice::slice_subrange;
use vstd::string::StringSliceAdditionalSpecFns;
use vstd::utf8::{decode_utf8, decode_utf8_split, encode_utf8, encode_utf8_decode_utf8,
    encode_utf8_valid_utf8, valid_utf8, valid_utf8_split};

use crate::error::Error;
use crate::framing::{lemma_ascii_prefix_boundary, lemma_ascii_seq_encode,
    lemma_encode_utf8_concat, utf8_decode};

verus! {

/// The scheme prefix that is stripped from a remembered host.
pub open spec fn scheme_prefix() -> Seq<char> {
    "http://"@
}

/// True when the text names its host under the `http://` scheme.
pub open spec fn has_scheme(host: Seq<char>) -> bool {
    host.len() >= 7 && host.take(7) == scheme_prefix()
}

/// A transport that reaches the engine's HTTP listener: it remembers the
/// host (scheme stripped) and opens a fresh connection per command.
pub struct R2PipeHttp {
    host: String,
}

impl R2PipeHttp {
    /// The remembered host text.
    pub closed spec fn host_text(&self) -> Seq<char> {
        self.host@
    }

    /// Remembers the host a command connects to, with a leading `http://`
    /// scheme stripped.
    pub fn new(host: &str) -> (r: Self)
        ensures
            has_scheme(host@) ==> r.host_text() == host@.skip(7),
            !has_scheme(host@) ==> r.host_text() == host@,
    {
        let b = host.as_bytes();
        proof {
            encode_utf8_valid_utf8(host@);
            reveal_strlit("http://");
            assert(scheme_prefix() =~= seq!['h', 't', 't', 'p', ':', '/', '/']);
            assert(forall|i: int|
                0 <= i < scheme_prefix().len() ==> (#[trigger] scheme_prefix()[i] as u32)
                    < 128);
            lemma_ascii_seq_encode(scheme_prefix());
            assert(encode_utf8(scheme_prefix()) =~= seq![
                104u8,
                116u8,
                116u8,
                112u8,
                58u8,
                47u8,
                47u8,
            ]);
        }
        if b.len() >= 7 && b[0] == 104 && b[1] == 116 && b[2] == 116 && b[3] == 112 && b[4]
            == 58 && b[5] == 47 && b[6] == 47 {
            proof {
                let bytes = b@;
                assert(forall|i: int| 0 <= i < 7 ==> #[trigger] bytes[i] < 128) by {
                    assert(bytes[0] == 104 && bytes[1] == 116 && bytes[2] == 116 && bytes[3]
                        == 112 && bytes[4] == 58 && bytes[5] == 47 && bytes[6] == 47);
                }
                lemma_ascii_prefix_boundary(bytes, 7);
                valid_utf8_split(bytes, 7);
                decode_utf8_split(bytes, 7);
                encode_utf8_decode_utf8(host@);
                assert(bytes.subrange(0, 7) =~= encode_utf8(scheme_prefix()));
                encode_utf8_decode_utf8(scheme_prefix());
                assert(decode_utf8(bytes.subrange(0, 7)) == scheme_prefix());
                assert(host@ == scheme_prefix() + decode_utf8(
                    bytes.subrange(7, bytes.len() as int),
                ));
                assert(host@.take(7) =~= scheme_prefix());
                assert(host@.skip(7) =~= decode_utf8(bytes.subrange(7, bytes.len() as int)));
            }
            let rest = host.split_at(7).1;
            proof {
                assert(rest.spec_bytes() == b@.subrange(7, b@.len() as int));
                encode_utf8_valid_utf8(rest@);
                encode_utf8_decode_utf8(rest@);
            }
            R2PipeHttp { host: rest.to_owned() }
        } else {
            proof {
                if has_scheme(host@) {
                    lemma_encode_utf8_concat(host@.take(7), host@.skip(7));
                    assert(host@.take(7) + host@.skip(7) =~= host@);
                    assert(b@.len() >= 7);
                    assert(forall|i: int|
                        0 <= i < 7 ==> #[trigger] b@[i] == encode_utf8(scheme_prefix())[i]);
                }
            }
            R2PipeHttp { host: host.to_owned() }
        }
    }

    /// The host a command connects to, as remembered.
    pub fn host(&self) -> (r: &str)
        ensures
            r@ == self.host_text(),
    {
        self.host.as_str()
    }
}

/// The request line a command becomes: the command text stands verbatim in
/// the path, unencoded.
pub fn http_request(cmd: &str) -> (r: String)
    ensures
        r@ == "GET /cmd/"@ + cmd@ + " HTTP/1.1\r\n"@,
{
    let mut line = "GET /cmd/".to_owned();
    line.append(cmd);
    line.append(" HTTP/1.1\r\n");
    line
}

/// True when the four bytes from position `i` are the blank line separating
/// the headers from the body.
pub open spec fn crlfcrlf_at(b: Seq<u8>, i: int) -> bool {
    &&& 0 <= i
    &&& i + 4 <= b.len()
    &&& b[i] == 13
    &&& b[i + 1] == 10
    &&& b[i + 2] == 13
    &&& b[i + 3] == 10
}

/// The position of the first header/body separator at or after `i`, if any.
pub open spec fn find_boundary_from(b: Seq<u8>, i: int) -> Option<int>
    decreases b.len() - i,
    when 0 <= i <= b.len()
{
    if i + 4 > b.len() {
        None
    } else if crlfcrlf_at(b, i) {
        Some(i)
    } else {
        find_boundary_from(b, i + 1)
    }
}

/// Where the body of a reply starts: right after the first blank line, or
/// at the start of the buffer where no blank line occurs.
pub open spec fn body_start(b: Seq<u8>) -> int {
    match find_boundary_from(b, 0) {
        Some(i) => i + 4,
        None => 0,
    }
}

/// Without a header/body separator anywhere, the body is the whole buffer,
/// unaltered: the degenerate fallback is not an error.
pub proof fn lemma_body_is_whole_buffer(b: Seq<u8>)
    requires
        forall|i: int| !crlfcrlf_at(b, i),
    ensures
        body_start(b) == 0,
{
    lemma_no_boundary(b, 0);
}

proof fn lemma_no_boundary(b: Seq<u8>, i: int)
    requires
        0 <= i <= b.len(),
        forall|j: int| !crlfcrlf_at(b, j),
    ensures
        find_boundary_from(b, i) is None,
    decreases b.len() - i,
{
    if i + 4 <= b.len() {
        lemma_no_boundary(b, i + 1);
    }
}

fn find_crlfcrlf(resp: &[u8]) -> (r: Option<usize>)
    ensures
        r matches Some(i) ==> find_boundary_from(resp@, 0) == Some(i as int) && i + 4
            <= resp@.len(),
        r is None ==> find_boundary_from(resp@, 0) is None,
{
    let n = resp.len();
    if n < 4 {
        return None;
    }
    let mut i: usize = 0;
    while i <= n - 4
        invariant
            4 <= n,
            i <= n - 3,
            n == resp@.len(),
            find_boundary_from(resp@, 0) == find_boundary_from(resp@, i as int),
        decreases n - i,
    {
        if resp[i] == 13 && resp[i + 1] == 10 && resp[i + 2] == 13 && resp[i + 3] == 10 {
            return Some(i);
        }
        i += 1;
    }
    None
}

/// Extracts the body of an HTTP reply and decodes it as UTF-8: everything
/// after the first blank line, or the whole buffer where no blank line is
/// found.
pub fn http_body(resp: &[u8]) -> (r: Result<String, Error>)
    ensures
        valid_utf8(resp@.skip(body_start(resp@))) ==> (r matches Ok(s) && s@ == decode_utf8(
            resp@.skip(body_start(resp@)),
        )),
        !valid_utf8(resp@.skip(body_start(resp@))) ==> (r matches Err(e) && e == Error::Utf8),
{
    let n = resp.len();
    let start: usize = match find_crlfcrlf(resp) {
        Some(i) => i + 4,
        None => 0,
    };
    let body: &[u8] = slice_subrange(resp, start, n);
    proof {
        assert(body@ =~= resp@.skip(body_start(resp@)));
    }
    match utf8_decode(body) {
        Some(s) => Ok(s.to_owned()),
        None => Err(Error::Utf8),
    }
}

} // verus!
