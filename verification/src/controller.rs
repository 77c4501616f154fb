//! The public operation surface of the bridge: every call consults the
//! session flags before any delegation to the terminal surface or to the
//! poller, and lifecycle misuse is rejected with no state change.

use vstd::prelude::*;

use crate::state::SessionState;

verus! {

/// Why an operation was refused, or why acquiring the surface failed.
#[derive(Clone, Copy, Debug, PartialEq, Eq, Structural)]
pub enum BindingError {
    /// A call that needs an active session was made while `running` is false.
    NotRunning,
    /// `init` was called while a session is already active.
    AlreadyRunning,
    /// `stop_polling` was called while no poll loop is active.
    NotPolling,
    /// `start_polling` was called while a poll loop is already active.
    AlreadyPolling,
    /// The terminal surface refused acquisition; the `running` flag was
    /// rolled back.
    InitFailed,
}

/// Opaque identifier of the recipient of forwarded input events. Owned by
/// the caller; a poll session merely references it.
#[derive(Clone, Copy, Debug, PartialEq, Eq, Structural)]
pub struct ConsumerHandle(pub u64);

/// The token a successful `start_polling` hands back for the new session.
pub const SESSION_TOKEN: u64 = 42;

/// Outcome of a drawing or query operation: authorised exactly when a
/// session is active.
pub open spec fn pass_through_result(s: SessionState) -> Result<(), BindingError> {
    if s.running {
        Ok(())
    } else {
        Err(BindingError::NotRunning)
    }
}

/// Outcome of `init`.
pub open spec fn init_result(s: SessionState) -> Result<(), BindingError> {
    if s.running {
        Err(BindingError::AlreadyRunning)
    } else {
        Ok(())
    }
}

/// State after `init`.
pub open spec fn init_next(s: SessionState) -> SessionState {
    if s.running {
        s
    } else {
        SessionState { running: true, ..s }
    }
}

/// Outcome of `shutdown`.
pub open spec fn shutdown_result(s: SessionState) -> Result<(), BindingError> {
    if s.running {
        Ok(())
    } else {
        Err(BindingError::NotRunning)
    }
}

/// State after `shutdown`.
pub open spec fn shutdown_next(s: SessionState) -> SessionState {
    if s.running {
        SessionState { running: false, ..s }
    } else {
        s
    }
}

/// Outcome of `start_polling`.
pub open spec fn start_polling_result(s: SessionState) -> Result<u64, BindingError> {
    if !s.running {
        Err(BindingError::NotRunning)
    } else if s.polling {
        Err(BindingError::AlreadyPolling)
    } else {
        Ok(SESSION_TOKEN)
    }
}

/// State after `start_polling`.
pub open spec fn start_polling_next(s: SessionState) -> SessionState {
    if s.running && !s.polling {
        SessionState { polling: true, ..s }
    } else {
        s
    }
}

/// Outcome of `stop_polling` and of `request_stop_polling`.
pub open spec fn stop_polling_result(s: SessionState) -> Result<(), BindingError> {
    if !s.running {
        Err(BindingError::NotRunning)
    } else if !s.polling {
        Err(BindingError::NotPolling)
    } else {
        Ok(())
    }
}

/// State after `stop_polling` has returned: the poller has run its exit
/// protocol, so both `polling` and `stop_requested` are clear.
pub open spec fn stop_polling_next(s: SessionState) -> SessionState {
    if s.running && s.polling {
        SessionState { polling: false, stop_requested: false, ..s }
    } else {
        s
    }
}

/// State after `request_stop_polling`: the stop request is recorded but the
/// poller has not necessarily exited yet.
pub open spec fn request_stop_polling_next(s: SessionState) -> SessionState {
    if s.running && s.polling {
        SessionState { stop_requested: true, ..s }
    } else {
        s
    }
}

/// The operation surface over one terminal session. It owns the session
/// flags; a concurrent embedding shares one controller between the
/// foreground caller and the background poller.
pub struct SessionController {
    pub state: SessionState,
}

impl SessionController {
    /// A controller for a process that has not acquired the terminal yet.
    pub fn new() -> (c: Self)
        ensures
            !c.state.running,
            !c.state.polling,
            !c.state.stop_requested,
    {
        SessionController { state: SessionState::new() }
    }

    /// Begin a session: refuse if one is already active, otherwise mark the
    /// session running. On `Ok` the embedding acquires the terminal surface
    /// and reports the outcome through `confirm_init`.
    pub fn init(&mut self) -> (r: Result<(), BindingError>)
        ensures
            r == init_result(old(self).state),
            final(self).state == init_next(old(self).state),
    {
        if self.state.is_running() {
            Err(BindingError::AlreadyRunning)
        } else {
            self.state.try_start();
            Ok(())
        }
    }

    /// Record the outcome of acquiring the terminal surface after an `init`
    /// that returned `Ok`: on failure the `running` flag is rolled back and
    /// the failure surfaces as `InitFailed`; on success nothing changes.
    pub fn confirm_init(&mut self, acquired: bool) -> (r: Result<(), BindingError>)
        requires
            old(self).state.running,
        ensures
            acquired ==> r == Ok::<(), BindingError>(()) && final(self).state == old(self).state,
            !acquired ==> r == Err::<(), BindingError>(BindingError::InitFailed),
            !acquired ==> final(self).state == (SessionState {
                running: false,
                ..old(self).state
            }),
    {
        if acquired {
            Ok(())
        } else {
            self.state.stop();
            Err(BindingError::InitFailed)
        }
    }

    /// End the session: refuse if none is active, otherwise clear `running`.
    /// On `Ok` the embedding releases the terminal surface. Shutting down
    /// while a poll loop is still active is a caller error this layer does
    /// not prevent.
    pub fn shutdown(&mut self) -> (r: Result<(), BindingError>)
        ensures
            r == shutdown_result(old(self).state),
            final(self).state == shutdown_next(old(self).state),
    {
        if !self.state.is_running() {
            Err(BindingError::NotRunning)
        } else {
            self.state.stop();
            Ok(())
        }
    }

    /// Gate for `width`: on `Ok` the embedding queries the surface width.
    pub fn width(&self) -> (r: Result<(), BindingError>)
        ensures
            r == pass_through_result(self.state),
    {
        self.gate()
    }

    /// Gate for `height`: on `Ok` the embedding queries the surface height.
    pub fn height(&self) -> (r: Result<(), BindingError>)
        ensures
            r == pass_through_result(self.state),
    {
        self.gate()
    }

    /// Gate for `clear`: on `Ok` the embedding clears the surface.
    pub fn clear(&self) -> (r: Result<(), BindingError>)
        ensures
            r == pass_through_result(self.state),
    {
        self.gate()
    }

    /// Gate for `present`: on `Ok` the embedding presents the back buffer.
    pub fn present(&self) -> (r: Result<(), BindingError>)
        ensures
            r == pass_through_result(self.state),
    {
        self.gate()
    }

    /// Gate for `set_clear_attributes`: on `Ok` the embedding hands the
    /// attributes to the surface. The decision does not depend on them.
    pub fn set_clear_attributes(&self, fg: u16, bg: u16) -> (r: Result<(), BindingError>)
        ensures
            r == pass_through_result(self.state),
    {
        self.gate()
    }

    /// Gate for `set_cursor`: on `Ok` the embedding moves the cursor.
    pub fn set_cursor(&self, x: i32, y: i32) -> (r: Result<(), BindingError>)
        ensures
            r == pass_through_result(self.state),
    {
        self.gate()
    }

    /// Gate for `change_cell`: on `Ok` the embedding writes the cell.
    pub fn change_cell(&self, x: i32, y: i32, ch: i32, fg: u16, bg: u16) -> (r: Result<
        (),
        BindingError,
    >)
        ensures
            r == pass_through_result(self.state),
    {
        self.gate()
    }

    /// Gate for `select_input_mode`: on `Ok` the embedding selects the mode
    /// and returns the surface's answer.
    pub fn select_input_mode(&self, mode: i32) -> (r: Result<(), BindingError>)
        ensures
            r == pass_through_result(self.state),
    {
        self.gate()
    }

    /// Gate for `select_output_mode`: on `Ok` the embedding selects the mode
    /// and returns the surface's answer.
    pub fn select_output_mode(&self, mode: i32) -> (r: Result<(), BindingError>)
        ensures
            r == pass_through_result(self.state),
    {
        self.gate()
    }

    /// Begin a poll session bound to `consumer`: refuse while no session is
    /// active or while a poller is already active; otherwise mark polling
    /// and hand back the session token. On `Ok` the embedding spawns the
    /// poller, passing it the consumer handle by value.
    pub fn start_polling(&mut self, consumer: ConsumerHandle) -> (r: Result<u64, BindingError>)
        ensures
            r == start_polling_result(old(self).state),
            final(self).state == start_polling_next(old(self).state),
    {
        if !self.state.is_running() {
            Err(BindingError::NotRunning)
        } else if self.state.is_polling() {
            Err(BindingError::AlreadyPolling)
        } else {
            self.state.try_start_polling();
            Ok(SESSION_TOKEN)
        }
    }

    /// Ask the active poller to exit: refuse while no session or no poller
    /// is active; otherwise record the stop request. On `Ok` a concurrent
    /// embedding blocks until `is_polling` reads false before reporting the
    /// stop complete.
    pub fn request_stop_polling(&mut self) -> (r: Result<(), BindingError>)
        ensures
            r == stop_polling_result(old(self).state),
            final(self).state == request_stop_polling_next(old(self).state),
    {
        if !self.state.is_running() {
            Err(BindingError::NotRunning)
        } else if !self.state.is_polling() {
            Err(BindingError::NotPolling)
        } else {
            self.state.request_stop();
            Ok(())
        }
    }

    /// Stop the active poll session: record the stop request and return only
    /// once the poller's exit protocol has run, so that `polling` and
    /// `stop_requested` are both clear and a new session can be started.
    /// In this sequential rendering the awaited exit protocol completes in
    /// place; a concurrent embedding performs the same two steps split
    /// across the two contexts, spinning on `is_polling` between them.
    pub fn stop_polling(&mut self) -> (r: Result<(), BindingError>)
        ensures
            r == stop_polling_result(old(self).state),
            final(self).state == stop_polling_next(old(self).state),
    {
        match self.request_stop_polling() {
            Ok(()) => {
                self.state.mark_polling_stopped();
                Ok(())
            },
            Err(e) => Err(e),
        }
    }

    /// The shared gate of every drawing and query operation: authorised
    /// exactly when a session is active, refused with `NotRunning` — and no
    /// other effect — otherwise.
    fn gate(&self) -> (r: Result<(), BindingError>)
        ensures
            r == pass_through_result(self.state),
    {
        if self.state.is_running() {
            Ok(())
        } else {
            Err(BindingError::NotRunning)
        }
    }
}

} // verus!
