//! Encoding and decoding of the JSON payloads that frames carry.
//!
//! A request arrives as a JSON object whose `action` field selects the
//! variant; a response leaves as a JSON object whose shape is determined by
//! the fields present, with no explicit discriminator.  The JSON text itself
//! is parsed and string values are escaped by `serde_json`; everything that
//! selects a variant, checks a field, or lays out a response object is
//! decided here and verified.

use crate::protocol::{ReqV, Request, RespV, Response};
use vstd::bytes::spec_u32_from_le_bytes;
use vstd::prelude::*;
use vstd::string::StrSliceExecFns;
use vstd::utf8::encode_utf8;

verus! {

/// Why a payload failed to decode into a request.  Every decode failure is
/// fatal to the session: the framing channel cannot be trusted to carry a
/// well-formed error response.
#[derive(Debug, Clone, Copy, PartialEq, Eq, Structural)]
pub enum DecodeError {
    /// The payload is not a single well-formed JSON value.
    MalformedJson,
    /// The payload has no string `action` field to select a variant.
    MissingAction,
    /// The `action` field names no known variant.
    UnknownAction,
    /// A field the selected variant requires is missing or not a string.
    MissingField,
}

/// Whether `bytes` is one well-formed JSON value, as `serde_json` parses it.
pub uninterp spec fn wf_json(bytes: Seq<u8>) -> bool;

/// The string value of the `action` field of the JSON value parsed from
/// `bytes`, or `None` when that value is not an object, the field is
/// absent, or its value is not a string.  Meaningful only when
/// [`wf_json`] holds of `bytes`.
pub uninterp spec fn action_field(bytes: Seq<u8>) -> Option<Seq<char>>;

/// The string value of the `path` field, under the same reading as
/// [`action_field`].
pub uninterp spec fn path_field(bytes: Seq<u8>) -> Option<Seq<char>>;

/// The string value of the `content` field, under the same reading as
/// [`action_field`].
pub uninterp spec fn content_field(bytes: Seq<u8>) -> Option<Seq<char>>;

/// The bytes of the JSON string literal that `serde_json` writes for the
/// character sequence `s`, surrounding quotes and escapes included.
pub uninterp spec fn json_string_bytes(s: Seq<char>) -> Seq<u8>;

/// Relies on `serde_json::from_slice::<Value>`, `Value::get` and
/// `Value::as_str`: parsing succeeds exactly when the input is one
/// well-formed JSON value, and both the parse and the lookup of each
/// field's string value are functions of the input bytes alone.
#[verifier::external_body]
fn parse_fields(bytes: &[u8]) -> (r: Option<(Option<String>, Option<String>, Option<String>)>)
    ensures
        r is Some <==> wf_json(bytes@),
        r matches Some(f) ==> {
            &&& match f.0 {
                Some(a) => action_field(bytes@) == Some(a@),
                None => action_field(bytes@) is None,
            }
            &&& match f.1 {
                Some(p) => path_field(bytes@) == Some(p@),
                None => path_field(bytes@) is None,
            }
            &&& match f.2 {
                Some(c) => content_field(bytes@) == Some(c@),
                None => content_field(bytes@) is None,
            }
        },
{
    let v: serde_json::Value = match serde_json::from_slice(bytes) {
        Ok(v) => v,
        Err(_) => return None,
    };
    let action = v.get("action").and_then(serde_json::Value::as_str).map(str::to_owned);
    let path = v.get("path").and_then(serde_json::Value::as_str).map(str::to_owned);
    let content = v.get("content").and_then(serde_json::Value::as_str).map(str::to_owned);
    Some((action, path, content))
}

/// Relies on `serde_json::to_vec` on a JSON string value: the written bytes
/// depend on the characters alone, and serializing a string value cannot
/// fail.
#[verifier::external_body]
fn json_string(s: &String) -> (r: Vec<u8>)
    ensures
        r@ == json_string_bytes(s@),
{
    serde_json::to_vec(&serde_json::Value::String(s.clone())).unwrap()
}

/// Builds a request from the fields extracted out of the payload object:
/// the `action` discriminator selects the variant, and a save requires both
/// of its string fields.
pub fn request_of_fields(action: String, path: Option<String>, content: Option<String>) -> (r:
    Result<Request, DecodeError>)
    ensures
        action@ == "ping"@ ==> (r matches Ok(q) && q@ == ReqV::Ping),
        action@ == "save"@ ==> match (path, content) {
            (Some(p), Some(c)) => r matches Ok(q) && q@ == (ReqV::Save {
                path: p@,
                content: c@,
            }),
            _ => r == Err::<Request, DecodeError>(DecodeError::MissingField),
        },
        action@ != "ping"@ && action@ != "save"@ ==> r == Err::<Request, DecodeError>(
            DecodeError::UnknownAction,
        ),
{
    proof {
        reveal_strlit("ping");
        reveal_strlit("save");
        assert("ping"@[0] == 'p');
        assert("save"@[0] == 's');
        assert("ping"@ != "save"@);
    }
    if action == "ping".to_owned() {
        Ok(Request::Ping)
    } else if action == "save".to_owned() {
        match (path, content) {
            (Some(p), Some(c)) => Ok(Request::Save { path: p, content: c }),
            _ => Err(DecodeError::MissingField),
        }
    } else {
        Err(DecodeError::UnknownAction)
    }
}

/// Decodes one payload into a request, and says exactly what comes out of
/// every payload: a payload that is not one well-formed JSON value is
/// rejected as malformed; one without a string `action` field lacks its
/// discriminator; the action `ping` yields a ping; the action `save` yields
/// a save carrying the `path` and `content` string fields, or the
/// missing-field error when either is absent or not a string; every other
/// action is unknown.
pub fn decode_request(bytes: &[u8]) -> (r: Result<Request, DecodeError>)
    ensures
        r == Err::<Request, DecodeError>(DecodeError::MalformedJson) <==> !wf_json(bytes@),
        wf_json(bytes@) ==> match action_field(bytes@) {
            None => r == Err::<Request, DecodeError>(DecodeError::MissingAction),
            Some(a) => if a == "ping"@ {
                r matches Ok(q) && q@ == ReqV::Ping
            } else if a == "save"@ {
                match (path_field(bytes@), content_field(bytes@)) {
                    (Some(p), Some(c)) => r matches Ok(q) && q@ == (ReqV::Save {
                        path: p,
                        content: c,
                    }),
                    _ => r == Err::<Request, DecodeError>(DecodeError::MissingField),
                }
            } else {
                r == Err::<Request, DecodeError>(DecodeError::UnknownAction)
            },
        },
{
    let fields = match parse_fields(bytes) {
        Some(f) => f,
        None => {
            return Err(DecodeError::MalformedJson);
        },
    };
    let (action, path, content) = fields;
    match action {
        Some(a) => request_of_fields(a, path, content),
        None => Err(DecodeError::MissingAction),
    }
}

/// The bytes of a JSON boolean.
pub open spec fn bool_bytes(b: bool) -> Seq<u8> {
    if b {
        encode_utf8("true"@)
    } else {
        encode_utf8("false"@)
    }
}

/// The exact JSON bytes written for a response: a `success` field first,
/// then — shape permitting — a `full_path` or `error` string field, each
/// present exactly when the response carries it.
pub open spec fn response_json(r: RespV) -> Seq<u8> {
    match r {
        RespV::SaveResult { success, full_path, error } => encode_utf8("{\"success\":"@)
            + bool_bytes(success) + (match full_path {
            Some(p) => encode_utf8(",\"full_path\":"@) + json_string_bytes(p),
            None => Seq::<u8>::empty(),
        }) + (match error {
            Some(e) => encode_utf8(",\"error\":"@) + json_string_bytes(e),
            None => Seq::<u8>::empty(),
        }) + encode_utf8("}"@),
        RespV::Pong { success } => encode_utf8("{\"success\":"@) + bool_bytes(success)
            + encode_utf8("}"@),
        RespV::Error { success, error } => encode_utf8("{\"success\":"@) + bool_bytes(success)
            + encode_utf8(",\"error\":"@) + json_string_bytes(error) + encode_utf8("}"@),
    }
}

/// Round-trip framing at the response level: for any response whose JSON
/// body fits in the length field, the frame that carries the encoded
/// response has a length field that decodes to exactly the byte length of
/// that JSON body, followed by the body itself.
pub proof fn lemma_response_frame_round_trip(r: RespV)
    requires
        response_json(r).len() <= u32::MAX,
    ensures
        crate::frame::spec_frame(response_json(r)).len() == 4 + response_json(r).len(),
        spec_u32_from_le_bytes(crate::frame::spec_frame(response_json(r)).subrange(0, 4))
            == response_json(r).len(),
        crate::frame::spec_frame(response_json(r)).skip(4) == response_json(r),
{
    crate::frame::lemma_frame_round_trip(response_json(r));
}

fn bool_vec(b: bool) -> (r: Vec<u8>)
    ensures
        r@ == bool_bytes(b),
{
    if b {
        "true".as_bytes_vec()
    } else {
        "false".as_bytes_vec()
    }
}

/// Serializes a response to exactly the JSON bytes of [`response_json`].
pub fn encode_response(resp: &Response) -> (out: Vec<u8>)
    ensures
        out@ == response_json(resp@),
{
    let mut out: Vec<u8> = "{\"success\":".as_bytes_vec();
    match resp {
        Response::SaveResult { success, full_path, error } => {
            let mut b = bool_vec(*success);
            out.append(&mut b);
            if let Some(p) = full_path {
                let mut k = ",\"full_path\":".as_bytes_vec();
                out.append(&mut k);
                let mut s = json_string(p);
                out.append(&mut s);
            }
            if let Some(e) = error {
                let mut k = ",\"error\":".as_bytes_vec();
                out.append(&mut k);
                let mut s = json_string(e);
                out.append(&mut s);
            }
        },
        Response::Pong { success } => {
            let mut b = bool_vec(*success);
            out.append(&mut b);
        },
        Response::Error { success, error } => {
            let mut b = bool_vec(*success);
            out.append(&mut b);
            let mut k = ",\"error\":".as_bytes_vec();
            out.append(&mut k);
            let mut s = json_string(error);
            out.append(&mut s);
        },
    }
    let mut c = "}".as_bytes_vec();
    out.append(&mut c);
    proof {
        assert(out@ =~= response_json(resp@));
    }
    out
}


} // verus!
