//! The save handler's decision logic: path validation, parent-directory
//! computation, and the routing of a request to the action it calls for.
//!
//! The handler itself performs no filesystem work; it decides, and the
//! caller carries each decision out with the platform's directory-creation
//! and file-write primitives.

use crate::protocol::{
    invalid_path_response, msg_invalid_path, handle_ping, ReqV, Request, RespV, Response,
    wf_response,
};
use vstd::prelude::*;
use vstd::string::StrSliceExecFns;

verus! {

/// Whether `p` is an absolute path under the Unix rule: it starts with the
/// root separator.
pub open spec fn is_absolute(p: Seq<char>) -> bool {
    p.len() > 0 && p[0] == '/'
}

/// `p` with trailing separators removed, except that the first character is
/// always kept.
pub open spec fn trim_trailing_slashes(p: Seq<char>) -> Seq<char>
    decreases p.len(),
{
    if p.len() > 1 && p.last() == '/' {
        trim_trailing_slashes(p.drop_last())
    } else {
        p
    }
}

/// The index of the last separator in `p`, or `-1` if there is none.
pub open spec fn last_slash(p: Seq<char>) -> int
    decreases p.len(),
{
    if p.len() == 0 {
        -1
    } else if p.last() == '/' {
        p.len() - 1
    } else {
        last_slash(p.drop_last())
    }
}

/// The parent directory of the absolute path `p`, or `None` when `p` is the
/// root itself: everything before the last separator of the
/// trailing-separator-trimmed path, with the root's own separator kept.
pub open spec fn parent_of(p: Seq<char>) -> Option<Seq<char>> {
    let t = trim_trailing_slashes(p);
    if t.len() <= 1 {
        None
    } else {
        let i = last_slash(t);
        if i < 0 {
            None
        } else if i == 0 {
            Some(t.subrange(0, 1))
        } else {
            Some(t.subrange(0, i))
        }
    }
}

/// Whether `path` is absolute.
pub fn path_is_absolute(path: &String) -> (b: bool)
    ensures
        b == is_absolute(path@),
{
    let s = path.as_str();
    let n: usize = s.unicode_len();
    if n == 0 {
        false
    } else {
        s.get_char(0) == '/'
    }
}

proof fn lemma_trim_step(p: Seq<char>, t: int)
    requires
        1 < t <= p.len(),
        p[t - 1] == '/',
        trim_trailing_slashes(p) == trim_trailing_slashes(p.subrange(0, t)),
    ensures
        trim_trailing_slashes(p) == trim_trailing_slashes(p.subrange(0, t - 1)),
{
    let q = p.subrange(0, t);
    assert(q.last() == '/');
    assert(q.drop_last() =~= p.subrange(0, t - 1));
}

proof fn lemma_slash_step(p: Seq<char>, j: int)
    requires
        0 < j <= p.len(),
        p[j - 1] != '/',
        last_slash(p) == last_slash(p.subrange(0, j)),
    ensures
        last_slash(p) == last_slash(p.subrange(0, j - 1)),
{
    let q = p.subrange(0, j);
    assert(q.last() != '/');
    assert(q.drop_last() =~= p.subrange(0, j - 1));
}

/// The parent directory of `path`, for the save handler to create when it
/// does not yet exist; `None` when `path` is the root and has no parent.
pub fn save_parent(path: &String) -> (r: Option<String>)
    ensures
        match r {
            Some(d) => parent_of(path@) matches Some(v) && d@ == v,
            None => parent_of(path@) is None,
        },
{
    let s = path.as_str();
    let n: usize = s.unicode_len();
    let ghost p = path@;

    // Trim trailing separators, keeping at least one character.
    let mut t: usize = n;
    proof {
        assert(p.subrange(0, n as int) =~= p);
    }
    while t > 1 && s.get_char(t - 1) == '/'
        invariant
            t <= n == p.len(),
            s@ == p,
            trim_trailing_slashes(p) == trim_trailing_slashes(p.subrange(0, t as int)),
        decreases t,
    {
        proof {
            lemma_trim_step(p, t as int);
        }
        t = t - 1;
    }
    proof {
        if t > 0 {
            assert(trim_trailing_slashes(p.subrange(0, t as int)) == p.subrange(0, t as int));
        }
    }
    let ghost trimmed = trim_trailing_slashes(p);

    if t <= 1 {
        return None;
    }

    // Find the last separator of the trimmed path.
    let mut j: usize = t;
    proof {
        assert(trimmed.subrange(0, t as int) =~= trimmed);
    }
    while j > 0 && s.get_char(j - 1) != '/'
        invariant
            j <= t <= n == p.len(),
            s@ == p,
            1 < t,
            trimmed == p.subrange(0, t as int),
            last_slash(trimmed) == last_slash(trimmed.subrange(0, j as int)),
        decreases j,
    {
        proof {
            assert(trimmed[j - 1] == p[j - 1]);
            lemma_slash_step(trimmed, j as int);
        }
        j = j - 1;
    }

    if j == 0 {
        proof {
            assert(last_slash(trimmed.subrange(0, 0)) == -1);
        }
        return None;
    }
    proof {
        assert(trimmed[j - 1] == p[j - 1]);
        assert(last_slash(trimmed.subrange(0, j as int)) == j - 1);
    }

    if j == 1 {
        let d = s.substring_char(0, 1).to_owned();
        proof {
            assert(d@ =~= trimmed.subrange(0, 1));
        }
        Some(d)
    } else {
        let d = s.substring_char(0, j - 1).to_owned();
        proof {
            assert(d@ =~= trimmed.subrange(0, j - 1));
        }
        Some(d)
    }
}

/// What the save handler asks its caller to do next.
#[derive(Debug, Clone, PartialEq)]
pub enum SaveAction {
    /// Answer with this response at once; no filesystem work is called for.
    Respond(Response),
    /// Make sure the directory `parent` exists, creating every missing
    /// ancestor, then report back.
    EnsureDir { parent: String },
    /// Write the request's content to the request's path, then report back.
    WriteFile,
}

/// Begins a save: rejects a path that is not absolute, and otherwise names
/// the parent directory that must exist before the file is written.
///
/// For every non-absolute path the result is an immediate failure response
/// carrying exactly the message `Path must be absolute`, and no filesystem
/// action is requested.
pub fn save_start(path: &String) -> (a: SaveAction)
    ensures
        !is_absolute(path@) ==> (a matches SaveAction::Respond(r) && r@ == (RespV::SaveResult {
            success: false,
            full_path: None,
            error: Some(msg_invalid_path()),
        })),
        is_absolute(path@) ==> match parent_of(path@) {
            Some(d) => a matches SaveAction::EnsureDir { parent } && parent@ == d,
            None => a == SaveAction::WriteFile,
        },
        a matches SaveAction::Respond(r) ==> wf_response(r@),
{
    if !path_is_absolute(path) {
        return SaveAction::Respond(invalid_path_response());
    }
    match save_parent(path) {
        Some(parent) => SaveAction::EnsureDir { parent },
        None => SaveAction::WriteFile,
    }
}

/// Routes one request to its handler: the single point of routing, total
/// and exhaustive over the closed request set.
///
/// A ping is answered at once; a save is begun with [`save_start`].
pub fn dispatch(req: &Request) -> (a: SaveAction)
    ensures
        req@ is Ping ==> (a matches SaveAction::Respond(r) && r@ == (RespV::Pong {
            success: true,
        })),
        req@ matches ReqV::Save { path, content: _ } ==> {
            &&& !is_absolute(path) ==> (a matches SaveAction::Respond(r) && r@
                == (RespV::SaveResult {
                success: false,
                full_path: None,
                error: Some(msg_invalid_path()),
            }))
            &&& is_absolute(path) ==> match parent_of(path) {
                Some(d) => a matches SaveAction::EnsureDir { parent } && parent@ == d,
                None => a == SaveAction::WriteFile,
            }
        },
        a matches SaveAction::Respond(r) ==> wf_response(r@),
{
    match req {
        Request::Ping => SaveAction::Respond(handle_ping()),
        Request::Save { path, content: _ } => save_start(path),
    }
}

} // verus!
