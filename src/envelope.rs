//! The JSON-RPC envelope: framing a request body, and judging a response.
//!
//! `{"jsonrpc":"2.0","id":N,"method":M,"params":P}` goes out; a response is
//! judged from its HTTP status, its body, and the envelope fields that the
//! caller decoded from the body.
use vstd::prelude::*;
use crate::error::TransportError;
use crate::utils::{decimal, decimal_string};

verus! {

pub open spec fn hex_digit(d: nat) -> char {
    if d < 10 {
        crate::utils::digit_char(d)
    } else if d == 10 {
        'a'
    } else if d == 11 {
        'b'
    } else if d == 12 {
        'c'
    } else if d == 13 {
        'd'
    } else if d == 14 {
        'e'
    } else {
        'f'
    }
}

/// How one character appears inside a JSON string literal: a quote and a
/// backslash get a backslash; backspace, tab, line feed, form feed and
/// carriage return get their short escapes; the other control characters
/// below 0x20 become `\u00XX` in lower-case hex; everything else stays.
pub open spec fn escaped_char(c: char) -> Seq<char> {
    let code = c as u32;
    if c == '"' {
        seq!['\\', '"']
    } else if c == '\\' {
        seq!['\\', '\\']
    } else if code == 8 {
        seq!['\\', 'b']
    } else if code == 9 {
        seq!['\\', 't']
    } else if code == 10 {
        seq!['\\', 'n']
    } else if code == 12 {
        seq!['\\', 'f']
    } else if code == 13 {
        seq!['\\', 'r']
    } else if code < 32 {
        seq!['\\', 'u', '0', '0', hex_digit((code / 16) as nat), hex_digit((code % 16) as nat)]
    } else {
        seq![c]
    }
}

/// The characters of `s`, each escaped.
pub open spec fn escaped(s: Seq<char>) -> Seq<char>
    decreases s.len(),
{
    if s.len() == 0 {
        Seq::empty()
    } else {
        escaped(s.drop_last()) + escaped_char(s.last())
    }
}

/// The JSON string literal of `s`.
pub open spec fn json_string_literal(s: Seq<char>) -> Seq<char> {
    seq!['"'] + escaped(s) + seq!['"']
}

/// Relies on `serde_json::to_string` on a `str`: the quoted JSON string
/// literal of the text, escaped character by character; serializing a
/// `str` has no error path.
#[verifier::external_body]
fn json_quote(s: &str) -> (r: String)
    ensures
        r@ == json_string_literal(s@),
{
    serde_json::to_string(s).unwrap_or_default()
}

/// The request body for call `id` of `method`, with the method already
/// quoted as a JSON string and `params` as JSON text.
pub open spec fn request_text(id: u64, quoted_method: Seq<char>, params: Seq<char>) -> Seq<char> {
    "{\"jsonrpc\":\"2.0\",\"id\":"@ + decimal(id as nat) + ",\"method\":"@ + quoted_method
        + ",\"params\":"@ + params + "}"@
}

/// Frames a request body from a quoted method name and JSON parameters.
pub fn frame_request(id: u64, quoted_method: &str, params: &str) -> (r: String)
    ensures
        r@ == request_text(id, quoted_method@, params@),
{
    let mut body = String::from_str("{\"jsonrpc\":\"2.0\",\"id\":");
    let digits = decimal_string(id);
    body.append(digits.as_str());
    body.append(",\"method\":");
    body.append(quoted_method);
    body.append(",\"params\":");
    body.append(params);
    body.append("}");
    body
}

/// The request body for call `id` of `method` with JSON parameters `params`.
pub fn build_request(id: u64, method: &str, params: &str) -> (r: String)
    ensures
        r@ == request_text(id, json_string_literal(method@), params@),
{
    let quoted = json_quote(method);
    frame_request(id, quoted.as_str(), params)
}

/// A remote error carried by a response envelope.
#[derive(Debug, Clone)]
pub struct RemoteError {
    pub code: i64,
    pub message: String,
}

/// The fields of a decoded response envelope: the `result` member as JSON
/// text, and the `error` member.
#[derive(Debug, Clone)]
pub struct RpcReply {
    pub result: Option<String>,
    pub error: Option<RemoteError>,
}

/// At most this many characters of a body are kept with an HTTP status error.
pub const SNIPPET_CHARS: usize = 200;

pub open spec fn snippet(body: Seq<char>) -> Seq<char> {
    if body.len() > SNIPPET_CHARS {
        body.subrange(0, SNIPPET_CHARS as int)
    } else {
        body
    }
}

pub open spec fn success_status(status: u16) -> bool {
    200 <= status <= 299
}

/// Judges a response: a non-2xx status is `HttpStatus` with the start of
/// the body; a body that is no envelope, or one with neither `result` nor
/// `error`, is `Decode`; an `error` member is `Rpc`; otherwise the `result`.
pub fn classify_reply(status: u16, body: &str, reply: Option<RpcReply>) -> (r: Result<String, TransportError>)
    ensures
        !success_status(status) ==> (r matches Err(TransportError::HttpStatus(c, s)) && c == status
            && s@ == snippet(body@)),
        success_status(status) && reply is None ==> r matches Err(TransportError::Decode(_)),
        success_status(status) && reply is Some ==> match (reply->Some_0.error, reply->Some_0.result) {
            (Some(e), _) => r == Err::<String, TransportError>(
                TransportError::Rpc { code: e.code, message: e.message },
            ),
            (None, Some(v)) => r == Ok::<String, TransportError>(v),
            (None, None) => r matches Err(TransportError::Decode(_)),
        },
{
    if status < 200 || status > 299 {
        let n = body.unicode_len();
        let end = if n > SNIPPET_CHARS {
            SNIPPET_CHARS
        } else {
            n
        };
        let part = body.substring_char(0, end);
        proof {
            assert(n <= SNIPPET_CHARS ==> part@ =~= body@);
        }
        return Err(TransportError::HttpStatus(status, String::from_str(part)));
    }
    match reply {
        None => Err(TransportError::Decode(String::from_str("response is not a JSON-RPC envelope"))),
        Some(r) => match r.error {
            Some(e) => Err(TransportError::Rpc { code: e.code, message: e.message }),
            None => match r.result {
                Some(v) => Ok(v),
                None => Err(TransportError::Decode(String::from_str("envelope has neither result nor error"))),
            },
        },
    }
}

} // verus!
