//! The three lifecycle flags of one terminal session and their transitions.

use vstd::prelude::*;

verus! {

/// Process-wide session state: whether the terminal resource is acquired
/// (`running`), whether a background poll loop is active (`polling`), and
/// whether that loop has been asked to exit (`stop_requested`).
///
/// A concurrent embedding realises each flag as an atomic boolean with a
/// single writer at a time; every transition below touches exactly one flag
/// and nothing else, so the struct is a faithful sequential rendering of that
/// discipline.
pub struct SessionState {
    pub running: bool,
    pub polling: bool,
    pub stop_requested: bool,
}

impl SessionState {
    /// The state at process start: no resource acquired, no poller active,
    /// no stop pending.
    pub fn new() -> (s: Self)
        ensures
            !s.running,
            !s.polling,
            !s.stop_requested,
    {
        SessionState { running: false, polling: false, stop_requested: false }
    }

    /// Attempt the transition `running` false -> true. Returns whether the
    /// transition happened; when the session is already active the flag is
    /// left as it was.
    pub fn try_start(&mut self) -> (started: bool)
        ensures
            started == !old(self).running,
            final(self).running,
            final(self).polling == old(self).polling,
            final(self).stop_requested == old(self).stop_requested,
    {
        if self.running {
            false
        } else {
            self.running = true;
            true
        }
    }

    /// Clear `running`. The caller must already have established that no
    /// poller is active; this transition does not check it.
    pub fn stop(&mut self)
        ensures
            !final(self).running,
            final(self).polling == old(self).polling,
            final(self).stop_requested == old(self).stop_requested,
    {
        self.running = false;
    }

    /// Attempt the transition `polling` false -> true. Returns whether the
    /// transition happened; when a poller is already active the flag is left
    /// as it was.
    pub fn try_start_polling(&mut self) -> (started: bool)
        ensures
            started == !old(self).polling,
            final(self).polling,
            final(self).running == old(self).running,
            final(self).stop_requested == old(self).stop_requested,
    {
        if self.polling {
            false
        } else {
            self.polling = true;
            true
        }
    }

    /// The poller's exit protocol: clear `polling` and `stop_requested`
    /// together, so that a new poll session can be started afterwards.
    /// Run exactly once by the poller, whatever made its loop exit.
    pub fn mark_polling_stopped(&mut self)
        ensures
            !final(self).polling,
            !final(self).stop_requested,
            final(self).running == old(self).running,
    {
        self.polling = false;
        self.stop_requested = false;
    }

    /// Ask the active poller to exit at its next cycle.
    pub fn request_stop(&mut self)
        ensures
            final(self).stop_requested,
            final(self).running == old(self).running,
            final(self).polling == old(self).polling,
    {
        self.stop_requested = true;
    }

    /// Pure read of `running`.
    pub fn is_running(&self) -> (r: bool)
        ensures
            r == self.running,
    {
        self.running
    }

    /// Pure read of `polling`.
    pub fn is_polling(&self) -> (r: bool)
        ensures
            r == self.polling,
    {
        self.polling
    }

    /// Pure read of `stop_requested`: whether the active poller has been
    /// asked to exit.
    pub fn stop_polling_signaled(&self) -> (r: bool)
        ensures
            r == self.stop_requested,
    {
        self.stop_requested
    }
}

} // verus!
