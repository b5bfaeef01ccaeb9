//! JSON decoding of engine replies.
//!
//! A structured command (`cmdj`) takes the text reply of a plain command,
//! refuses an empty reply, and parses the rest as JSON.  Parsing itself is
//! done by `serde_json`; the decision logic around it is verified here.

use vstd::prelude::*;

use crate::error::Error;

verus! {

#[verifier::external_type_specification]
#[verifier::external_body]
pub struct ExValue(serde_json::Value);

/// What the JSON parser makes of a piece of text: the structured value, or
/// nothing where the text is not valid JSON.  The outcome depends on the
/// text alone.
pub uninterp spec fn json_parse(s: Seq<char>) -> Option<serde_json::Value>;

/// Relies on `serde_json::from_str`: it parses text into a structured value,
/// succeeds exactly on valid JSON, and its outcome depends on the text alone.
#[verifier::external_body]
fn parse_json(s: &str) -> (r: Result<serde_json::Value, Error>)
    ensures
        r matches Ok(v) ==> json_parse(s@) == Some(v),
        r matches Err(e) ==> json_parse(s@) is None && e is SerdeError,
{
    match serde_json::from_str(s) {
        Ok(v) => Ok(v),
        Err(e) => Err(Error::SerdeError(e.to_string())),
    }
}

/// What the JSON renderer makes of a structured value: its one-line text.
/// The outcome depends on the value alone.
pub uninterp spec fn json_render(v: serde_json::Value) -> Seq<char>;

/// Relies on `serde_json::to_string`: it renders a structured value as one
/// line of JSON text, as a pool worker does before handing a result back.
/// On a structured value it always succeeds — every object key is a string
/// and the writer only appends to a buffer — and the text depends on the
/// value alone.
#[verifier::external_body]
pub fn render_json(v: &serde_json::Value) -> (r: Result<String, Error>)
    ensures
        r is Ok,
        r matches Ok(s) ==> s@ == json_render(*v),
{
    match serde_json::to_string(v) {
        Ok(s) => Ok(s),
        Err(e) => Err(Error::SerdeError(e.to_string())),
    }
}

/// The decoding step behind `cmdj`: an empty reply is refused before any
/// parsing is attempted — never read as some default value — and a
/// non-empty reply must parse as JSON.
pub fn decode_json_response(res: &str) -> (r: Result<serde_json::Value, Error>)
    ensures
        res@.len() == 0 ==> (r matches Err(e) && e == Error::EmptyResponse),
        res@.len() > 0 ==> (json_parse(res@) matches Some(v) ==> r == Ok::<
            serde_json::Value,
            Error,
        >(v)),
        res@.len() > 0 && json_parse(res@) is None ==> (r matches Err(e) && e is SerdeError),
{
    if res.is_empty() {
        return Err(Error::EmptyResponse);
    }
    parse_json(res)
}

/// What a pool worker turns a raw reply into: the reply decoded as JSON and
/// rendered back as one line of text for the outbox.  An empty reply and a
/// reply that is not JSON fail exactly as the structured decode does.
pub fn worker_response(res: &str) -> (r: Result<String, Error>)
    ensures
        res@.len() == 0 ==> (r matches Err(e) && e == Error::EmptyResponse),
        res@.len() > 0 && json_parse(res@) is None ==> (r matches Err(e) && e is SerdeError),
        res@.len() > 0 ==> (json_parse(res@) matches Some(v) ==> (r matches Ok(s) && s@
            == json_render(v))),
{
    let v = decode_json_response(res)?;
    render_json(&v)
}

/// Relies on `str::replace` with a one-character pattern and an empty
/// replacement: the result is the text with every occurrence of that
/// character removed.
#[verifier::external_body]
fn strip_newlines(s: &str) -> (r: String)
    ensures
        r@ == s@.filter(|c: char| c != '\n'),
{
    s.replace('\n', "")
}

/// The text a buffered session reply is reduced to before JSON parsing:
/// newlines removed, and the empty remainder read as the empty JSON object.
pub open spec fn session_json_text(res: Seq<char>) -> Seq<char> {
    let cleaned = res.filter(|c: char| c != '\n');
    if cleaned.len() == 0 {
        "{}"@
    } else {
        cleaned
    }
}

/// The decoding step behind a session's buffered JSON receive: newlines are
/// removed, an empty remainder is read as the empty JSON object, and the
/// result must parse as JSON.
pub fn session_json(res: &str) -> (r: Result<serde_json::Value, Error>)
    ensures
        json_parse(session_json_text(res@)) matches Some(v) ==> r == Ok::<
            serde_json::Value,
            Error,
        >(v),
        json_parse(session_json_text(res@)) is None ==> (r matches Err(e) && e is SerdeError),
{
    let cleaned = strip_newlines(res);
    if cleaned.as_str().is_empty() {
        parse_json("{}")
    } else {
        parse_json(cleaned.as_str())
    }
}

} // verus!
