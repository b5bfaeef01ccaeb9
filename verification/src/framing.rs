//! Framing and decoding of engine replies.
//!
//! The pipe-based transports read a reply as raw bytes terminated by a single
//! NUL; the terminator is stripped and the rest is decoded as UTF-8.  The
//! TCP transport reads until the peer closes the stream and reuses the same
//! stripping logic by appending a synthetic terminator first.

use vstd::prelude::*;
use vstd::slice::{slice_subrange, slice_to_vec};
use vstd::utf8::{decode_utf8, encode_scalar, encode_utf8, encode_utf8_decode_utf8,
    encode_utf8_valid_utf8, is_char_boundary, pop_first_scalar, valid_utf8};

use crate::error::Error;

verus! {

/// The UTF-8 encoding of a concatenation is the concatenation of the
/// encodings.
pub proof fn lemma_encode_utf8_concat(a: Seq<char>, b: Seq<char>)
    ensures
        encode_utf8(a + b) == encode_utf8(a) + encode_utf8(b),
    decreases a.len(),
{
    if a.len() == 0 {
        assert(a + b =~= b);
        assert(encode_utf8(a) + encode_utf8(b) =~= encode_utf8(b));
    } else {
        assert((a + b).drop_first() =~= a.drop_first() + b);
        lemma_encode_utf8_concat(a.drop_first(), b);
        assert(encode_scalar((a + b)[0] as u32) + (encode_utf8(a.drop_first()) + encode_utf8(b))
            =~= (encode_scalar(a[0] as u32) + encode_utf8(a.drop_first())) + encode_utf8(b));
    }
}

/// An ASCII character encodes as the single byte holding its code.
pub proof fn lemma_ascii_char_encode(c: char)
    requires
        (c as u32) < 128,
    ensures
        encode_utf8(seq![c]) == seq![(c as u32) as u8],
{
    let s = seq![c];
    let v = c as u32;
    assert((v & 0x7F) == v) by (bit_vector)
        requires
            v < 128,
    ;
    assert(s.drop_first() =~= Seq::<char>::empty());
    assert(encode_utf8(s.drop_first()) =~= Seq::<u8>::empty());
    assert(encode_utf8(s) =~= encode_scalar(v) + Seq::<u8>::empty());
    assert(encode_scalar(v) =~= seq![(v & 0x7F) as u8]);
    assert(encode_utf8(s) =~= seq![v as u8]);
}

/// What decoding a raw framed reply must yield: the empty reply is refused,
/// otherwise the bytes before the terminator are decoded as UTF-8.
pub open spec fn reply_of(res: Seq<u8>) -> Result<Seq<char>, Error> {
    if res.len() == 0 {
        Err(Error::EmptyResponse)
    } else if valid_utf8(res.drop_last()) {
        Ok(decode_utf8(res.drop_last()))
    } else {
        Err(Error::Utf8)
    }
}

/// Relies on `std::str::from_utf8`: it succeeds exactly on valid UTF-8 and
/// returns the string slice over those same bytes.
#[verifier::external_body]
pub(crate) fn utf8_decode<'a>(bytes: &'a [u8]) -> (r: Option<&'a str>)
    ensures
        r is Some <==> valid_utf8(bytes@),
        r matches Some(s) ==> s@ == decode_utf8(bytes@) && bytes@ == encode_utf8(s@),
{
    std::str::from_utf8(bytes).ok()
}

/// Strips the single trailing terminator byte from a raw engine reply and
/// decodes the rest as UTF-8.  An empty reply (not even a terminator) is an
/// [`Error::EmptyResponse`]; bytes that are not UTF-8 are an [`Error::Utf8`].
pub fn process_result(res: Vec<u8>) -> (r: Result<String, Error>)
    ensures
        r matches Ok(s) ==> reply_of(res@) == Ok::<Seq<char>, Error>(s@),
        r matches Err(e) ==> reply_of(res@) == Err::<Seq<char>, Error>(e),
{
    let len = res.len();
    if len == 0 {
        return Err(Error::EmptyResponse);
    }
    let payload: &[u8] = slice_subrange(res.as_slice(), 0, len - 1);
    proof {
        assert(payload@ =~= res@.drop_last());
    }
    match utf8_decode(payload) {
        Some(s) => Ok(s.to_owned()),
        None => Err(Error::Utf8),
    }
}

/// A sequence of ASCII characters encodes byte for byte: each character
/// becomes the single byte holding its code.
pub proof fn lemma_ascii_seq_encode(s: Seq<char>)
    requires
        forall|i: int| 0 <= i < s.len() ==> (#[trigger] s[i] as u32) < 128,
    ensures
        encode_utf8(s).len() == s.len(),
        forall|i: int|
            0 <= i < s.len() ==> #[trigger] encode_utf8(s)[i] == (s[i] as u32) as u8,
    decreases s.len(),
{
    if s.len() > 0 {
        let v = s[0] as u32;
        assert((v & 0x7F) == v) by (bit_vector)
            requires
                v < 128,
        ;
        assert(encode_scalar(v) =~= seq![(v & 0x7F) as u8]);
        let rest = s.drop_first();
        assert(forall|i: int| 0 <= i < rest.len() ==> (#[trigger] rest[i] as u32) < 128) by {
            assert(forall|i: int| 0 <= i < rest.len() ==> rest[i] == s[i + 1]);
        }
        lemma_ascii_seq_encode(rest);
        assert(encode_utf8(s) =~= seq![v as u8] + encode_utf8(rest));
    }
}

/// Any position right after a run of ASCII bytes at the front of a valid
/// UTF-8 sequence is a character boundary.
pub proof fn lemma_ascii_prefix_boundary(bytes: Seq<u8>, k: int)
    requires
        valid_utf8(bytes),
        0 <= k <= bytes.len(),
        forall|i: int| 0 <= i < k ==> #[trigger] bytes[i] < 128,
    ensures
        is_char_boundary(bytes, k),
    decreases k,
{
    if k > 0 {
        let rest = pop_first_scalar(bytes);
        assert(rest =~= bytes.subrange(1, bytes.len() as int));
        assert(forall|i: int| 0 <= i < k - 1 ==> #[trigger] rest[i] < 128) by {
            assert(forall|i: int| 0 <= i < rest.len() ==> rest[i] == bytes[i + 1]);
        }
        lemma_ascii_prefix_boundary(rest, k - 1);
    }
}

/// True of the characters carrying the Unicode `White_Space` property: the
/// characters that surrounding-whitespace trimming removes.
pub open spec fn is_whitespace_char(c: char) -> bool {
    ||| c == '\u{0009}'
    ||| c == '\u{000A}'
    ||| c == '\u{000B}'
    ||| c == '\u{000C}'
    ||| c == '\u{000D}'
    ||| c == '\u{0020}'
    ||| c == '\u{0085}'
    ||| c == '\u{00A0}'
    ||| c == '\u{1680}'
    ||| c == '\u{2000}'
    ||| c == '\u{2001}'
    ||| c == '\u{2002}'
    ||| c == '\u{2003}'
    ||| c == '\u{2004}'
    ||| c == '\u{2005}'
    ||| c == '\u{2006}'
    ||| c == '\u{2007}'
    ||| c == '\u{2008}'
    ||| c == '\u{2009}'
    ||| c == '\u{200A}'
    ||| c == '\u{2028}'
    ||| c == '\u{2029}'
    ||| c == '\u{202F}'
    ||| c == '\u{205F}'
    ||| c == '\u{3000}'
}

/// The given text without its leading whitespace.
pub open spec fn trim_start_spec(s: Seq<char>) -> Seq<char>
    decreases s.len(),
{
    if s.len() > 0 && is_whitespace_char(s[0]) {
        trim_start_spec(s.drop_first())
    } else {
        s
    }
}

/// The given text without its trailing whitespace.
pub open spec fn trim_end_spec(s: Seq<char>) -> Seq<char>
    decreases s.len(),
{
    if s.len() > 0 && is_whitespace_char(s.last()) {
        trim_end_spec(s.drop_last())
    } else {
        s
    }
}

/// The given text without its leading and trailing whitespace: what a
/// command is reduced to before it is sent to the engine.
pub open spec fn trim_spec(s: Seq<char>) -> Seq<char> {
    trim_end_spec(trim_start_spec(s))
}

/// A command as it goes on the wire: surrounding whitespace removed.
///
/// Relies on `str::trim`: it removes exactly the leading and trailing
/// characters for which `char::is_whitespace` holds, the Unicode
/// `White_Space` property spelled out by [`is_whitespace_char`].
#[verifier::external_body]
pub fn trimmed_command(cmd: &str) -> (r: String)
    ensures
        r@ == trim_spec(cmd@),
{
    cmd.trim().to_owned()
}

/// A command framed for a pipe-based transport: its UTF-8 bytes followed by
/// one newline.
pub fn frame_command(cmd: &str) -> (r: Vec<u8>)
    ensures
        r@ == encode_utf8(cmd@) + seq![10u8],
        r@ == encode_utf8(cmd@ + "\n"@),
{
    let mut line = cmd.to_owned();
    line.append("\n");
    let framed = slice_to_vec(line.as_str().as_bytes());
    proof {
        lemma_encode_utf8_concat(cmd@, "\n"@);
        reveal_strlit("\n");
        assert("\n"@ =~= seq!['\n']);
        lemma_ascii_char_encode('\n');
        assert(('\n' as u32) as u8 == 10u8);
        assert(framed@ =~= encode_utf8(cmd@) + seq![10u8]);
    }
    framed
}

/// Decodes a reply read from a stream that ends at connection close instead
/// of at a terminator byte: a synthetic terminator is appended so the same
/// stripping logic applies.  An empty stream decodes to the empty reply.
pub fn process_tcp_result(res: Vec<u8>) -> (r: Result<String, Error>)
    ensures
        valid_utf8(res@) ==> (r matches Ok(s) && s@ == decode_utf8(res@)),
        !valid_utf8(res@) ==> (r matches Err(e) && e == Error::Utf8),
{
    let mut framed = res;
    let ghost raw = framed@;
    framed.push(0u8);
    proof {
        assert(framed@.drop_last() =~= raw);
    }
    process_result(framed)
}

/// A command under the escape prefix that asks the engine to take the rest
/// verbatim.
pub fn call_command(cmd: &str) -> (r: String)
    ensures
        r@ == "\"\""@ + cmd@,
{
    let mut line = "\"\"".to_owned();
    line.append(cmd);
    line
}

/// A reply framed exactly as the engine frames it — the UTF-8 encoding of
/// some text followed by one terminator byte — always decodes back to that
/// very text: the law behind echoing a command verbatim.
pub proof fn lemma_reply_round_trip(text: Seq<char>)
    ensures
        reply_of(encode_utf8(text) + seq![0u8]) == Ok::<Seq<char>, Error>(text),
{
    let framed = encode_utf8(text) + seq![0u8];
    assert(framed.drop_last() =~= encode_utf8(text));
    encode_utf8_valid_utf8(text);
    encode_utf8_decode_utf8(text);
}

} // verus!
