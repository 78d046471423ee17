//! The closed request/response data model of the relay, and the handlers
//! that build responses.
//!
//! A request is either `Save { path, content }` or `Ping`; a response is one
//! of three shapes, each carrying a `success` flag whose value matches
//! whether the underlying operation succeeded.

use vstd::prelude::*;
use vstd::string::StringExecFns;

verus! {

/// A decoded request: the closed set of operations the relay supports.
#[derive(Debug, Clone, PartialEq)]
pub enum Request {
    /// Write `content` to the file at the absolute path `path`.
    Save { path: String, content: String },
    /// Liveness check.
    Ping,
}

/// The mathematical value of a [`Request`].
pub enum ReqV {
    Save { path: Seq<char>, content: Seq<char> },
    Ping,
}

impl View for Request {
    type V = ReqV;

    open spec fn view(&self) -> ReqV {
        match self {
            Request::Save { path, content } => ReqV::Save {
                path: path@,
                content: content@,
            },
            Request::Ping => ReqV::Ping,
        }
    }
}

/// A response to one request.
#[derive(Debug, Clone, PartialEq)]
pub enum Response {
    /// The outcome of a save: `full_path` is present exactly on success,
    /// `error` exactly on failure.
    SaveResult { success: bool, full_path: Option<String>, error: Option<String> },
    /// The answer to a ping; always succeeds.
    Pong { success: bool },
    /// A protocol-level failure report.
    Error { success: bool, error: String },
}

/// The mathematical value of a [`Response`].
pub enum RespV {
    SaveResult { success: bool, full_path: Option<Seq<char>>, error: Option<Seq<char>> },
    Pong { success: bool },
    Error { success: bool, error: Seq<char> },
}

impl View for Response {
    type V = RespV;

    open spec fn view(&self) -> RespV {
        match self {
            Response::SaveResult { success, full_path, error } => RespV::SaveResult {
                success: *success,
                full_path: match full_path {
                    Some(p) => Some(p@),
                    None => None,
                },
                error: match error {
                    Some(e) => Some(e@),
                    None => None,
                },
            },
            Response::Pong { success } => RespV::Pong { success: *success },
            Response::Error { success, error } => RespV::Error {
                success: *success,
                error: error@,
            },
        }
    }
}

/// The data-model invariant: every response's `success` flag matches its
/// shape.  A save result carries exactly one of `full_path` (on success) or
/// `error` (on failure); a pong always succeeds; a protocol error never does.
pub open spec fn wf_response(r: RespV) -> bool {
    match r {
        RespV::SaveResult { success, full_path, error } => {
            &&& success ==> full_path is Some && error is None
            &&& !success ==> full_path is None && error is Some
        },
        RespV::Pong { success } => success,
        RespV::Error { success, error: _ } => !success,
    }
}

/// The message reported when a save path is not absolute.
pub open spec fn msg_invalid_path() -> Seq<char> {
    "Path must be absolute"@
}

/// The prefix of the message reported when the parent directories could not
/// be created.
pub open spec fn msg_dir_prefix() -> Seq<char> {
    "Failed to create directories: "@
}

/// The prefix of the message reported when the file itself could not be
/// written.
pub open spec fn msg_write_prefix() -> Seq<char> {
    "Failed to write file: "@
}

/// The failure response for a save path that is not absolute.
pub fn invalid_path_response() -> (r: Response)
    ensures
        r@ == (RespV::SaveResult {
            success: false,
            full_path: None,
            error: Some(msg_invalid_path()),
        }),
        wf_response(r@),
{
    Response::SaveResult {
        success: false,
        full_path: None,
        error: Some("Path must be absolute".to_owned()),
    }
}

/// The failure response for a save whose parent directories could not be
/// created; `detail` is the platform's error text.
pub fn dir_failure_response(detail: &String) -> (r: Response)
    ensures
        r@ == (RespV::SaveResult {
            success: false,
            full_path: None,
            error: Some(msg_dir_prefix() + detail@),
        }),
        wf_response(r@),
{
    let msg = "Failed to create directories: ".to_owned().concat(detail.as_str());
    Response::SaveResult { success: false, full_path: None, error: Some(msg) }
}

/// The failure response for a save whose file write failed; `detail` is the
/// platform's error text.
pub fn write_failure_response(detail: &String) -> (r: Response)
    ensures
        r@ == (RespV::SaveResult {
            success: false,
            full_path: None,
            error: Some(msg_write_prefix() + detail@),
        }),
        wf_response(r@),
{
    let msg = "Failed to write file: ".to_owned().concat(detail.as_str());
    Response::SaveResult { success: false, full_path: None, error: Some(msg) }
}

/// The success response for a completed save: it reports the saved path
/// back to the caller.
pub fn save_success_response(path: &String) -> (r: Response)
    ensures
        r@ == (RespV::SaveResult {
            success: true,
            full_path: Some(path@),
            error: None,
        }),
        wf_response(r@),
{
    Response::SaveResult { success: true, full_path: Some(path.clone()), error: None }
}

/// The ping handler: it takes no input, has no failure mode and no side
/// effects, and always answers that the host is alive.
pub fn handle_ping() -> (r: Response)
    ensures
        r@ == (RespV::Pong { success: true }),
        wf_response(r@),
{
    Response::Pong { success: true }
}

} // verus!
