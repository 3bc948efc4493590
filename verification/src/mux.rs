//! Model of the window-multiplexer collaborator.
//!
//! Windows are identified by their full, prefixed names. As with the
//! version-control model, the state is held as plain values so the engine's
//! window handling — in particular that a window is closed only after the
//! version-control teardown succeeded, and never while it is the user's only
//! focused window — is verified; a thin front end mirrors the mutations onto
//! the real multiplexer. Counters record close and create invocations.

use vstd::prelude::*;
use vstd::string::*;

use crate::errors::WorkmuxError;
use crate::strutil::{remove_str, seq_has_str, spec_remove_str, str_eq, vec_has_str};

verus! {

/// The modelled state of the multiplexer: whether a server runs, which
/// windows exist, and which one is focused.
#[derive(Debug, Clone)]
pub struct MuxState {
    /// Whether a multiplexer server is running.
    pub running: bool,
    /// Full (prefixed) names of the existing windows.
    pub windows: Vec<String>,
    /// Full name of the focused window, when any.
    pub focused: Option<String>,
    /// Invocations of window creation.
    pub create_calls: u64,
    /// Invocations of window closing.
    pub close_calls: u64,
    /// Invocations of window focusing.
    pub focus_calls: u64,
}

impl MuxState {
    /// A state with no server running, no windows, and no invocation
    /// recorded yet.
    pub fn empty() -> (r: MuxState)
        ensures
            !r.running,
            r.windows@.len() == 0,
            r.focused is None,
            r.create_calls == 0,
            r.close_calls == 0,
            r.focus_calls == 0,
    {
        MuxState {
            running: false,
            windows: Vec::new(),
            focused: None,
            create_calls: 0,
            close_calls: 0,
            focus_calls: 0,
        }
    }
}

/// A counter after one more recorded invocation.
pub open spec fn bumped(c: u64) -> u64 {
    if c < u64::MAX {
        (c + 1) as u64
    } else {
        c
    }
}

/// Records one more invocation without ever overflowing.
fn bump(c: u64) -> (r: u64)
    ensures
        r == bumped(c),
{
    if c < u64::MAX {
        c + 1
    } else {
        c
    }
}

/// The full window name: the configured prefix followed by the handle.
pub fn prefixed(prefix: &str, name: &str) -> (r: String)
    ensures
        r@ == prefix@ + name@,
{
    let mut r = String::from_str(prefix);
    r.append(name);
    r
}

/// Whether a multiplexer server is running.
pub fn is_running(mux: &MuxState) -> (r: bool)
    ensures
        r == mux.running,
{
    mux.running
}

/// Whether a window with the prefixed name exists.
pub fn window_exists(mux: &MuxState, prefix: &str, name: &str) -> (r: bool)
    ensures
        r == seq_has_str(mux.windows@, prefix@ + name@),
{
    let full = prefixed(prefix, name);
    vec_has_str(&mux.windows, full.as_str())
}

/// The full names of all existing windows.
pub fn get_all_window_names(mux: &MuxState) -> (r: Vec<String>)
    ensures
        r@ == mux.windows@,
{
    crate::strutil::clone_string_vec(&mux.windows)
}

/// When window creation succeeds: a server runs and no window of that name
/// exists yet.
pub open spec fn spec_can_create_window(mux: MuxState, full: Seq<char>) -> bool {
    &&& mux.running
    &&& !seq_has_str(mux.windows@, full)
}

/// Opens a window bound to `cwd`; focus is left where it was.
pub fn create_window(mux: &mut MuxState, prefix: &str, name: &str, cwd: &str) -> (r: Result<
    (),
    WorkmuxError,
>)
    ensures
        r is Ok <==> spec_can_create_window(*old(mux), prefix@ + name@),
        r is Ok ==> *final(mux) == (MuxState {
            windows: final(mux).windows,
            create_calls: bumped(old(mux).create_calls),
            ..*old(mux)
        }),
        r is Ok ==> ({
            let prev = old(mux).windows@;
            let cur = final(mux).windows@;
            cur.len() == prev.len() + 1 && cur.take(prev.len() as int) == prev && cur.last()@
                == prefix@ + name@
        }),
        r is Err ==> *final(mux) == *old(mux),
        r matches Err(e) ==> (e matches WorkmuxError::AlreadyExists(_) || e
            matches WorkmuxError::CommandFailed(_)),
{
    if !mux.running {
        return Err(WorkmuxError::CommandFailed(String::from_str(name)));
    }
    let full = prefixed(prefix, name);
    if vec_has_str(&mux.windows, full.as_str()) {
        return Err(WorkmuxError::AlreadyExists(full));
    }
    let ghost prev = mux.windows@;
    mux.windows.push(full);
    proof {
        assert(mux.windows@.take(prev.len() as int) =~= prev);
    }
    mux.create_calls = bump(mux.create_calls);
    Ok(())
}

/// Closes the window with the prefixed name. The invocation is recorded
/// whether or not it succeeds; when the closed window was the focused one,
/// no window is focused afterwards.
pub fn close_window(mux: &mut MuxState, prefix: &str, name: &str) -> (r: Result<(), WorkmuxError>)
    ensures
        r is Ok <==> seq_has_str(old(mux).windows@, prefix@ + name@),
        r is Ok ==> *final(mux) == (MuxState {
            windows: final(mux).windows,
            focused: final(mux).focused,
            close_calls: bumped(old(mux).close_calls),
            ..*old(mux)
        }),
        r is Ok ==> final(mux).windows@ == spec_remove_str(old(mux).windows@, prefix@ + name@),
        r is Ok ==> final(mux).focused == (if old(mux).focused matches Some(f) && f@ == prefix@
            + name@ {
            None
        } else {
            old(mux).focused
        }),
        r is Err ==> *final(mux) == (MuxState {
            close_calls: bumped(old(mux).close_calls),
            ..*old(mux)
        }),
        r matches Err(e) ==> e matches WorkmuxError::NotFound(_),
{
    mux.close_calls = bump(mux.close_calls);
    let full = prefixed(prefix, name);
    if !vec_has_str(&mux.windows, full.as_str()) {
        return Err(WorkmuxError::NotFound(full));
    }
    let kept = remove_str(&mux.windows, full.as_str());
    mux.windows = kept;
    let clear_focus = match &mux.focused {
        Some(f) => str_eq(f.as_str(), full.as_str()),
        None => false,
    };
    if clear_focus {
        mux.focused = None;
    }
    Ok(())
}

/// Switches the user's view to the window with the prefixed name.
pub fn focus_window(mux: &mut MuxState, prefix: &str, name: &str) -> (r: Result<(), WorkmuxError>)
    ensures
        r is Ok <==> seq_has_str(old(mux).windows@, prefix@ + name@),
        r is Ok ==> *final(mux) == (MuxState {
            focused: final(mux).focused,
            focus_calls: bumped(old(mux).focus_calls),
            ..*old(mux)
        }),
        r is Ok ==> (final(mux).focused matches Some(f) && f@ == prefix@ + name@),
        r is Err ==> *final(mux) == *old(mux),
        r matches Err(e) ==> e matches WorkmuxError::NotFound(_),
{
    let full = prefixed(prefix, name);
    if !vec_has_str(&mux.windows, full.as_str()) {
        return Err(WorkmuxError::NotFound(full));
    }
    mux.focused = Some(full);
    mux.focus_calls = bump(mux.focus_calls);
    Ok(())
}

/// Whether the focused window is the one with the prefixed name.
pub fn is_focused(mux: &MuxState, prefix: &str, name: &str) -> (r: bool)
    ensures
        r == (mux.focused matches Some(f) && f@ == prefix@ + name@),
{
    let full = prefixed(prefix, name);
    match &mux.focused {
        Some(f) => str_eq(f.as_str(), full.as_str()),
        None => false,
    }
}

} // verus!
