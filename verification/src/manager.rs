//! The process lifecycle manager: at most one companion-server process is
//! tracked at a time.  Spawning and signalling a real OS process is the
//! host's job; the manager owns the decision logic and the handle, split
//! into a decision step and a recording step so that the host performs the
//! process operation in between, under its lock.
//!
//! The handle type `H` is chosen by the host (an OS child-process handle
//! there, a plain value in tests).

use vstd::prelude::*;

verus! {

use vstd::string::StringExecFns;

/// Owns the handle of the companion server while one is tracked.
pub struct ServerManager<H> {
    handle: Option<H>,
}

/// The reply of an operation, at the level contracts speak of:
/// the characters of the success or failure message.
pub open spec fn reply_view(r: Result<String, String>) -> Result<Seq<char>, Seq<char>> {
    match r {
        Ok(s) => Ok(s@),
        Err(e) => Err(e@),
    }
}

/// What `begin_start` answers on a given tracked state: the
/// "already running" reply when a handle is tracked, or nothing,
/// which asks the host to spawn.
pub open spec fn spec_begin_start<H>(tracked_handle: Option<H>) -> Option<
    Result<Seq<char>, Seq<char>>,
> {
    match tracked_handle {
        Some(_) => Some(Ok("Server already running"@)),
        None => None,
    }
}

/// What `finish_start` does with the host's spawn outcome: a fresh handle
/// is recorded and acknowledged; a spawn failure leaves nothing tracked
/// and is reported with the failure's text.
pub open spec fn spec_finish_start<H>(spawned: Result<H, Seq<char>>) -> (Option<H>, Result<
    Seq<char>,
    Seq<char>,
>) {
    match spawned {
        Ok(h) => (Some(h), Ok("Server started"@)),
        Err(e) => (None, Err("Failed to start server: "@ + e)),
    }
}

/// What `begin_stop` does to a tracked state: the handle, if any, is
/// surrendered to the host for termination, and nothing stays tracked.
pub open spec fn spec_begin_stop<H>(tracked_handle: Option<H>) -> (Option<H>, Option<H>) {
    (None, tracked_handle)
}

/// What `stop_reply` answers: `kill_outcome` is `None` when no process was
/// tracked, otherwise the outcome of the host's termination signal.
pub open spec fn spec_stop_reply(kill_outcome: Option<Result<(), Seq<char>>>) -> Result<
    Seq<char>,
    Seq<char>,
> {
    match kill_outcome {
        None => Ok("Server not running"@),
        Some(Ok(_)) => Ok("Server stopped"@),
        Some(Err(e)) => Err("Failed to stop server: "@ + e),
    }
}

impl<H> ServerManager<H> {
    /// The tracked handle, if any.
    pub closed spec fn tracked_handle(&self) -> Option<H> {
        self.handle
    }

    /// Whether a process is tracked.
    pub open spec fn is_tracked(&self) -> bool {
        self.tracked_handle() is Some
    }

    /// A fresh manager tracks nothing.
    pub fn new() -> (m: Self)
        ensures
            m.tracked_handle() == Option::<H>::None,
    {
        ServerManager { handle: None }
    }

    /// First half of starting the server.  When a process is already
    /// tracked, its reply is final and the host must not spawn; when the
    /// answer is `None`, the host spawns and records the outcome with
    /// `finish_start`.
    pub fn begin_start(&self) -> (r: Option<Result<String, String>>)
        ensures
            match r {
                Some(reply) => Some(reply_view(reply)) == spec_begin_start(
                    self.tracked_handle(),
                ),
                None => spec_begin_start(self.tracked_handle()) is None,
            },
            r is None <==> !self.is_tracked(),
    {
        match &self.handle {
            Some(_) => Some(Ok(String::from_str("Server already running"))),
            None => None,
        }
    }

    /// Second half of starting the server: records what the host's spawn
    /// attempt produced.  Called only when `begin_start` asked for a spawn,
    /// so nothing is tracked yet.
    pub fn finish_start(&mut self, spawned: Result<H, String>) -> (r: Result<String, String>)
        requires
            !old(self).is_tracked(),
        ensures
            ({
                let (t, reply) = spec_finish_start(spawned_view(spawned));
                final(self).tracked_handle() == t && reply_view(r) == reply
            }),
    {
        match spawned {
            Ok(h) => {
                self.handle = Some(h);
                Ok(String::from_str("Server started"))
            },
            Err(e) => {
                self.handle = None;
                let mut msg = String::from_str("Failed to start server: ");
                msg.append(e.as_str());
                Err(msg)
            },
        }
    }

    /// First half of stopping the server: surrenders the tracked handle,
    /// if any, to the host, which signals the process and reports with
    /// `stop_reply`.  Nothing stays tracked, whatever the host's signal
    /// later achieves.
    pub fn begin_stop(&mut self) -> (taken: Option<H>)
        ensures
            (final(self).tracked_handle(), taken) == spec_begin_stop(old(self).tracked_handle()),
    {
        let mut taken: Option<H> = None;
        core::mem::swap(&mut self.handle, &mut taken);
        taken
    }
}

/// The host's view of a spawn outcome, at the level contracts speak of.
pub open spec fn spawned_view<H>(spawned: Result<H, String>) -> Result<H, Seq<char>> {
    match spawned {
        Ok(h) => Ok(h),
        Err(e) => Err(e@),
    }
}

/// The host's view of a kill outcome, at the level contracts speak of.
pub open spec fn kill_outcome_view(kill_outcome: Option<Result<(), String>>) -> Option<
    Result<(), Seq<char>>,
> {
    match kill_outcome {
        None => None,
        Some(Ok(u)) => Some(Ok(u)),
        Some(Err(e)) => Some(Err(e@)),
    }
}

/// Builds the reply of stopping the server.  `kill_outcome` is `None` when
/// `begin_stop` surrendered no handle, otherwise the outcome of the host's
/// termination signal on the surrendered handle.
pub fn stop_reply(kill_outcome: Option<Result<(), String>>) -> (r: Result<String, String>)
    ensures
        reply_view(r) == spec_stop_reply(kill_outcome_view(kill_outcome)),
{
    match kill_outcome {
        None => Ok(String::from_str("Server not running")),
        Some(Ok(_)) => Ok(String::from_str("Server stopped")),
        Some(Err(e)) => {
            let mut msg = String::from_str("Failed to stop server: ");
            msg.append(e.as_str());
            Err(msg)
        },
    }
}

/// Law: two serialized starts spawn exactly once.  From an untracked state
/// the first start is asked to spawn and, once the spawn outcome `Ok(h)` is
/// recorded, the handle is tracked; the second start is answered
/// "Server already running" and is not asked to spawn.
pub proof fn lemma_second_start_spawns_nothing<H>(h: H)
    ensures
        spec_begin_start(Option::<H>::None) is None,
        spec_finish_start(Ok::<H, Seq<char>>(h)).0 == Some(h),
        spec_finish_start(Ok::<H, Seq<char>>(h)).1 == Ok::<Seq<char>, Seq<char>>("Server started"@),
        spec_begin_start(Some(h)) == Some(Ok::<Seq<char>, Seq<char>>("Server already running"@)),
{
}

/// Law: stopping clears the tracked state, so a second stop finds nothing
/// to take and is answered "Server not running".
pub proof fn lemma_stop_then_stop_not_running<H>(tracked_handle: Option<H>)
    ensures
        spec_begin_stop(tracked_handle).0 == Option::<H>::None,
        spec_begin_stop(spec_begin_stop(tracked_handle).0).1 == Option::<H>::None,
        spec_stop_reply(None) == Ok::<Seq<char>, Seq<char>>("Server not running"@),
{
}

} // verus!
