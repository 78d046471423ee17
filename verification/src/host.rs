//! The session state machine of the relay: the decisions of the
//! read-dispatch-respond loop that runs until the input stream ends.
//!
//! The host is strictly sequential: one request is fully read, handled and
//! responded to before the next read begins.  The caller performs the
//! blocking reads, the filesystem work and the writes, and feeds each
//! outcome back as a [`HostEvent`]; [`step`] decides what happens next, and
//! its behaviour is exactly the transition function [`spec_step`].

use crate::codec::DecodeError;
use crate::protocol::{
    dir_failure_response, msg_dir_prefix, msg_invalid_path, msg_write_prefix, ReqV,
    Request, RespV, Response, save_success_response, wf_response, write_failure_response,
};
use crate::save::{dispatch, is_absolute, parent_of, SaveAction};
use vstd::bytes::spec_u32_from_le_bytes;
use vstd::prelude::*;

verus! {

/// Where the host stands between two events.
#[derive(Debug, Clone, PartialEq)]
pub enum HostState {
    /// Waiting for the 4-byte length field of the next frame.
    AwaitPrefix,
    /// Waiting for the payload bytes of the current frame.
    AwaitPayload,
    /// A save is underway: waiting for the parent directories of `path` to
    /// be created.
    EnsuringDir { path: String, content: String },
    /// A save is underway: waiting for the file at `path` to be written.
    Writing { path: String },
    /// Waiting for the current response to be written out and flushed.
    Sending,
    /// The session is over; no further event is meaningful.
    Stopped,
}

/// The mathematical value of a [`HostState`].
pub enum HostStateV {
    AwaitPrefix,
    AwaitPayload,
    EnsuringDir { path: Seq<char>, content: Seq<char> },
    Writing { path: Seq<char> },
    Sending,
    Stopped,
}

impl View for HostState {
    type V = HostStateV;

    open spec fn view(&self) -> HostStateV {
        match self {
            HostState::AwaitPrefix => HostStateV::AwaitPrefix,
            HostState::AwaitPayload => HostStateV::AwaitPayload,
            HostState::EnsuringDir { path, content } => HostStateV::EnsuringDir {
                path: path@,
                content: content@,
            },
            HostState::Writing { path } => HostStateV::Writing { path: path@ },
            HostState::Sending => HostStateV::Sending,
            HostState::Stopped => HostStateV::Stopped,
        }
    }
}

/// The outcome of the outside work the host last asked for.
#[derive(Debug, PartialEq)]
pub enum HostEvent {
    /// The length field was read in full: exactly 4 bytes.
    PrefixRead(Vec<u8>),
    /// The input stream ended or failed, before or during a frame.  At a
    /// frame boundary this is the counterpart shutting down cleanly;
    /// mid-frame it is a fatal read failure.  Either way the session ends.
    InputClosed,
    /// The payload was read in full and decoded.
    Decoded(Result<Request, DecodeError>),
    /// The parent directories were created or already existed (`None`), or
    /// could not be created (the platform's error text).
    DirResult(Option<String>),
    /// The file was written (`None`), or could not be (the platform's error
    /// text).
    WriteResult(Option<String>),
    /// The response frame was written and flushed, or that failed.
    Sent(bool),
}

/// The mathematical value of a [`HostEvent`].
pub enum HostEventV {
    PrefixRead(Seq<u8>),
    InputClosed,
    Decoded(Result<ReqV, DecodeError>),
    DirResult(Option<Seq<char>>),
    WriteResult(Option<Seq<char>>),
    Sent(bool),
}

impl View for HostEvent {
    type V = HostEventV;

    open spec fn view(&self) -> HostEventV {
        match self {
            HostEvent::PrefixRead(p) => HostEventV::PrefixRead(p@),
            HostEvent::InputClosed => HostEventV::InputClosed,
            HostEvent::Decoded(d) => HostEventV::Decoded(
                match d {
                    Ok(q) => Ok(q@),
                    Err(e) => Err(*e),
                },
            ),
            HostEvent::DirResult(d) => HostEventV::DirResult(
                match d {
                    Some(e) => Some(e@),
                    None => None,
                },
            ),
            HostEvent::WriteResult(w) => HostEventV::WriteResult(
                match w {
                    Some(e) => Some(e@),
                    None => None,
                },
            ),
            HostEvent::Sent(ok) => HostEventV::Sent(*ok),
        }
    }
}

/// What the host asks its caller to do next.
#[derive(Debug, Clone, PartialEq)]
pub enum HostCmd {
    /// Read the next frame's 4-byte length field; report `PrefixRead` or
    /// `InputClosed`.
    ReadPrefix,
    /// Read exactly this many payload bytes, decode them, and report
    /// `Decoded`, or `InputClosed` on a short read.
    ReadPayload(u32),
    /// Create this directory and every missing ancestor if it does not
    /// exist; report `DirResult`.
    EnsureDir(String),
    /// Write the second string as the full contents of the file at the
    /// first, truncating or creating as needed; report `WriteResult`.
    WriteFile(String, String),
    /// Frame this response, write it out, flush at once; report `Sent`.
    Send(Response),
    /// End the process; the session is over.
    Exit,
}

/// The mathematical value of a [`HostCmd`].
pub enum HostCmdV {
    ReadPrefix,
    ReadPayload(u32),
    EnsureDir(Seq<char>),
    WriteFile(Seq<char>, Seq<char>),
    Send(RespV),
    Exit,
}

impl View for HostCmd {
    type V = HostCmdV;

    open spec fn view(&self) -> HostCmdV {
        match self {
            HostCmd::ReadPrefix => HostCmdV::ReadPrefix,
            HostCmd::ReadPayload(n) => HostCmdV::ReadPayload(*n),
            HostCmd::EnsureDir(d) => HostCmdV::EnsureDir(d@),
            HostCmd::WriteFile(p, c) => HostCmdV::WriteFile(p@, c@),
            HostCmd::Send(r) => HostCmdV::Send(r@),
            HostCmd::Exit => HostCmdV::Exit,
        }
    }
}

/// Routing one decoded request: a ping is answered at once; a save is
/// rejected outright when its path is not absolute, and otherwise first has
/// its parent directory ensured, or goes straight to the write when the
/// path is the root and has no parent.
pub open spec fn spec_dispatch(q: ReqV) -> (HostStateV, HostCmdV) {
    match q {
        ReqV::Ping => (HostStateV::Sending, HostCmdV::Send(RespV::Pong { success: true })),
        ReqV::Save { path, content } => if !is_absolute(path) {
            (
                HostStateV::Sending,
                HostCmdV::Send(
                    RespV::SaveResult {
                        success: false,
                        full_path: None,
                        error: Some(msg_invalid_path()),
                    },
                ),
            )
        } else {
            match parent_of(path) {
                Some(d) => (
                    HostStateV::EnsuringDir { path, content },
                    HostCmdV::EnsureDir(d),
                ),
                None => (HostStateV::Writing { path }, HostCmdV::WriteFile(path, content)),
            }
        },
    }
}

/// The transition function of the session: every decision the loop makes,
/// as a total function of the current state and the event that arrived.
///
/// The end of the input stream always stops the session with no response;
/// so does an undecodable payload, since the framing channel can no longer
/// be trusted.  Operation failures during a save are answered as data; a
/// failed response write stops the session.  An event that its state never
/// asks for stops the session too.
pub open spec fn spec_step(s: HostStateV, ev: HostEventV) -> (HostStateV, HostCmdV) {
    match (s, ev) {
        (HostStateV::AwaitPrefix, HostEventV::PrefixRead(p)) => if p.len() == 4 {
            (HostStateV::AwaitPayload, HostCmdV::ReadPayload(spec_u32_from_le_bytes(p)))
        } else {
            (HostStateV::Stopped, HostCmdV::Exit)
        },
        (HostStateV::AwaitPayload, HostEventV::Decoded(d)) => match d {
            Ok(q) => spec_dispatch(q),
            Err(_) => (HostStateV::Stopped, HostCmdV::Exit),
        },
        (HostStateV::EnsuringDir { path, content }, HostEventV::DirResult(dr)) => match dr {
            None => (HostStateV::Writing { path }, HostCmdV::WriteFile(path, content)),
            Some(e) => (
                HostStateV::Sending,
                HostCmdV::Send(
                    RespV::SaveResult {
                        success: false,
                        full_path: None,
                        error: Some(msg_dir_prefix() + e),
                    },
                ),
            ),
        },
        (HostStateV::Writing { path }, HostEventV::WriteResult(wr)) => match wr {
            None => (
                HostStateV::Sending,
                HostCmdV::Send(
                    RespV::SaveResult { success: true, full_path: Some(path), error: None },
                ),
            ),
            Some(e) => (
                HostStateV::Sending,
                HostCmdV::Send(
                    RespV::SaveResult {
                        success: false,
                        full_path: None,
                        error: Some(msg_write_prefix() + e),
                    },
                ),
            ),
        },
        (HostStateV::Sending, HostEventV::Sent(ok)) => if ok {
            (HostStateV::AwaitPrefix, HostCmdV::ReadPrefix)
        } else {
            (HostStateV::Stopped, HostCmdV::Exit)
        },
        _ => (HostStateV::Stopped, HostCmdV::Exit),
    }
}

fn step_request(q: Request) -> (r: (HostState, HostCmd))
    ensures
        (r.0@, r.1@) == spec_dispatch(q@),
{
    let a = dispatch(&q);
    match (q, a) {
        (_, SaveAction::Respond(resp)) => (HostState::Sending, HostCmd::Send(resp)),
        (Request::Save { path, content }, SaveAction::EnsureDir { parent }) => (
            HostState::EnsuringDir { path, content },
            HostCmd::EnsureDir(parent),
        ),
        (Request::Save { path, content }, SaveAction::WriteFile) => {
            let cmd = HostCmd::WriteFile(path.clone(), content);
            (HostState::Writing { path }, cmd)
        },
        // A ping never asks for filesystem work, so this arm cannot be
        // reached; the contract of `dispatch` proves it.
        (Request::Ping, _) => (HostState::Stopped, HostCmd::Exit),
    }
}

/// Advances the session by one event and returns the next state and the
/// command to carry out: exactly [`spec_step`] of the old state and the
/// event.
pub fn step(s: HostState, ev: HostEvent) -> (r: (HostState, HostCmd))
    ensures
        (r.0@, r.1@) == spec_step(s@, ev@),
{
    match (s, ev) {
        (HostState::AwaitPrefix, HostEvent::PrefixRead(p)) => {
            if p.len() == 4 {
                let n: u32 = crate::frame::frame_len(p.as_slice());
                (HostState::AwaitPayload, HostCmd::ReadPayload(n))
            } else {
                (HostState::Stopped, HostCmd::Exit)
            }
        },
        (HostState::AwaitPayload, HostEvent::Decoded(d)) => match d {
            Ok(q) => step_request(q),
            Err(_) => (HostState::Stopped, HostCmd::Exit),
        },
        (HostState::EnsuringDir { path, content }, HostEvent::DirResult(dr)) => match dr {
            None => {
                let cmd = HostCmd::WriteFile(path.clone(), content);
                (HostState::Writing { path }, cmd)
            },
            Some(e) => (HostState::Sending, HostCmd::Send(dir_failure_response(&e))),
        },
        (HostState::Writing { path }, HostEvent::WriteResult(wr)) => match wr {
            None => {
                let resp = save_success_response(&path);
                (HostState::Sending, HostCmd::Send(resp))
            },
            Some(e) => (HostState::Sending, HostCmd::Send(write_failure_response(&e))),
        },
        (HostState::Sending, HostEvent::Sent(ok)) => if ok {
            (HostState::AwaitPrefix, HostCmd::ReadPrefix)
        } else {
            (HostState::Stopped, HostCmd::Exit)
        },
        _ => (HostState::Stopped, HostCmd::Exit),
    }
}

/// Clean termination: whatever state the session is in, the end of the
/// input stream stops it at once, and no response is emitted.
pub proof fn lemma_clean_termination(s: HostStateV)
    ensures
        spec_step(s, HostEventV::InputClosed) == (HostStateV::Stopped, HostCmdV::Exit),
{
}

/// Every response the session ever asks to have sent satisfies the data
/// model's invariant: its `success` flag matches its shape.
pub proof fn lemma_sent_responses_wf(s: HostStateV, ev: HostEventV)
    ensures
        spec_step(s, ev).1 matches HostCmdV::Send(r) ==> wf_response(r),
{
}

/// For every save whose path is not absolute, the session answers at once
/// with a failure carrying exactly the message `Path must be absolute`, and
/// no filesystem command is ever issued for it.
pub proof fn lemma_relative_path_rejected(path: Seq<char>, content: Seq<char>)
    requires
        !is_absolute(path),
    ensures
        spec_step(
            HostStateV::AwaitPayload,
            HostEventV::Decoded(Ok(ReqV::Save { path, content })),
        ) == (
            HostStateV::Sending,
            HostCmdV::Send(
                RespV::SaveResult {
                    success: false,
                    full_path: None,
                    error: Some(msg_invalid_path()),
                },
            ),
        ),
{
}

/// A ping is answered with `success = true` and nothing else, whatever came
/// before: the session carries no state from one request into the next, and
/// the answer is the same constant every time.
pub proof fn lemma_ping_deterministic()
    ensures
        spec_step(HostStateV::AwaitPayload, HostEventV::Decoded(Ok(ReqV::Ping))) == (
            HostStateV::Sending,
            HostCmdV::Send(RespV::Pong { success: true }),
        ),
        spec_step(HostStateV::Sending, HostEventV::Sent(true)) == (
            HostStateV::AwaitPrefix,
            HostCmdV::ReadPrefix,
        ),
{
}

/// The full course of a successful save with a parent directory: the
/// session first has every missing ancestor of the parent created, then —
/// with no error raised purely for missing directories — has the file
/// written with exactly the request's content, then reports success naming
/// the saved path, and returns to the state it started every request in.
pub proof fn lemma_save_cycle(path: Seq<char>, content: Seq<char>)
    requires
        is_absolute(path),
        parent_of(path) is Some,
    ensures
        spec_step(
            HostStateV::AwaitPayload,
            HostEventV::Decoded(Ok(ReqV::Save { path, content })),
        ) == (
            HostStateV::EnsuringDir { path, content },
            HostCmdV::EnsureDir(parent_of(path)->Some_0),
        ),
        spec_step(
            HostStateV::EnsuringDir { path, content },
            HostEventV::DirResult(None),
        ) == (HostStateV::Writing { path }, HostCmdV::WriteFile(path, content)),
        spec_step(HostStateV::Writing { path }, HostEventV::WriteResult(None)) == (
            HostStateV::Sending,
            HostCmdV::Send(
                RespV::SaveResult { success: true, full_path: Some(path), error: None },
            ),
        ),
        spec_step(HostStateV::Sending, HostEventV::Sent(true)) == (
            HostStateV::AwaitPrefix,
            HostCmdV::ReadPrefix,
        ),
{
}

} // verus!
