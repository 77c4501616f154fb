//! The guarantees the bridge gives across several operations, each proved
//! from the transition functions that the operations' own contracts state.

use vstd::prelude::*;

use crate::controller::{
    init_next, init_result, pass_through_result, request_stop_polling_next, shutdown_next,
    shutdown_result, start_polling_next, start_polling_result, stop_polling_next,
    stop_polling_result, BindingError, SESSION_TOKEN,
};
use crate::event::{tb_event, PollOutcome};
use crate::poller::session_deliveries;
use crate::state::SessionState;

verus! {

/// One operation of the bridge, as it appears in a caller's history. The
/// drawing and query operations all leave the flags unchanged and appear as
/// `Surface`; `Init` carries whether the terminal surface then accepted
/// acquisition; `PollerExit` is the background poller running its exit
/// protocol.
#[derive(Clone, Copy, Debug, PartialEq, Eq, Structural)]
pub enum ControllerCall {
    Init { acquired: bool },
    Shutdown,
    StartPolling,
    StopPolling,
    RequestStopPolling,
    Surface,
    PollerExit,
}

/// The session flags after one operation, exactly as the operations'
/// contracts state them. An `Init` here is the whole acquisition: the
/// lifecycle check, and on success the surface acquisition with its
/// rollback when the surface refuses.
pub open spec fn apply_call(s: SessionState, c: ControllerCall) -> SessionState {
    match c {
        ControllerCall::Init { acquired } => {
            let after = init_next(s);
            if init_result(s) is Ok && !acquired {
                SessionState { running: false, ..after }
            } else {
                after
            }
        },
        ControllerCall::Shutdown => shutdown_next(s),
        ControllerCall::StartPolling => start_polling_next(s),
        ControllerCall::StopPolling => stop_polling_next(s),
        ControllerCall::RequestStopPolling => request_stop_polling_next(s),
        ControllerCall::Surface => s,
        ControllerCall::PollerExit => SessionState { polling: false, stop_requested: false, ..s },
    }
}

/// The session flags after a whole history of operations.
pub open spec fn reached(s: SessionState, calls: Seq<ControllerCall>) -> SessionState
    decreases calls.len(),
{
    if calls.len() == 0 {
        s
    } else {
        apply_call(reached(s, calls.drop_last()), calls.last())
    }
}

/// The call at `i` is an `init` that returned `ok`: no session was active
/// when it ran, and the surface accepted acquisition.
pub open spec fn successful_init_at(s: SessionState, calls: Seq<ControllerCall>, i: int) -> bool {
    &&& 0 <= i < calls.len()
    &&& calls[i] == (ControllerCall::Init { acquired: true })
    &&& !reached(s, calls.take(i)).running
}

/// The call at `i` is a `shutdown` that returned `ok`: a session was active
/// when it ran.
pub open spec fn successful_shutdown_at(
    s: SessionState,
    calls: Seq<ControllerCall>,
    i: int,
) -> bool {
    &&& 0 <= i < calls.len()
    &&& calls[i] is Shutdown
    &&& reached(s, calls.take(i)).running
}

/// No `shutdown` after position `i` in the history returned `ok`.
pub open spec fn no_later_successful_shutdown(
    s: SessionState,
    calls: Seq<ControllerCall>,
    i: int,
) -> bool {
    forall|j: int| i < j < calls.len() ==> !successful_shutdown_at(s, calls, j)
}

/// Some `init` in the history returned `ok` and no later `shutdown` did.
pub open spec fn open_init(s: SessionState, calls: Seq<ControllerCall>) -> bool {
    exists|i: int|
        #[trigger] successful_init_at(s, calls, i) && no_later_successful_shutdown(s, calls, i)
}

proof fn lemma_take_of_drop_last(calls: Seq<ControllerCall>, i: int)
    requires
        calls.len() > 0,
        0 <= i <= calls.len() - 1,
    ensures
        calls.take(i) == calls.drop_last().take(i),
{
    assert(calls.take(i) =~= calls.drop_last().take(i));
}

/// A `running` flag is true after a history of operations — started from a
/// process state with no session active — exactly when the history holds an
/// `init` that returned `ok` with no later `shutdown` that returned `ok`.
pub proof fn lemma_running_characterisation(s: SessionState, calls: Seq<ControllerCall>)
    requires
        !s.running,
    ensures
        reached(s, calls).running <==> open_init(s, calls),
    decreases calls.len(),
{
    if calls.len() == 0 {
    } else {
        let pre = calls.drop_last();
        let c = calls.last();
        let n = calls.len() as int;
        let m = n - 1;
        lemma_running_characterisation(s, pre);
        let sp = reached(s, pre);
        lemma_take_of_drop_last(calls, m);
        assert(calls.take(m) == pre) by {
            assert(calls.take(m) =~= pre);
        }
        // A successful call at a position strictly before the last one reads
        // the same in the whole history and in the history without it.
        assert forall|j: int| 0 <= j < m implies successful_shutdown_at(s, calls, j)
            == successful_shutdown_at(s, pre, j) by {
            lemma_take_of_drop_last(calls, j);
            assert(calls[j] == pre[j]);
        }
        assert forall|j: int| 0 <= j < m implies successful_init_at(s, calls, j)
            == successful_init_at(s, pre, j) by {
            lemma_take_of_drop_last(calls, j);
            assert(calls[j] == pre[j]);
        }
        match c {
            ControllerCall::Init { acquired } => {
                if acquired && !sp.running {
                    // This very call is a successful `init`, and nothing
                    // follows it.
                    assert(successful_init_at(s, calls, m));
                    assert(no_later_successful_shutdown(s, calls, m));
                    assert(open_init(s, calls));
                } else if sp.running {
                    // The session was already open; its witness carries over.
                    let i = choose|i: int|
                        #[trigger] successful_init_at(s, pre, i) && no_later_successful_shutdown(
                            s,
                            pre,
                            i,
                        );
                    assert(successful_init_at(s, calls, i));
                    assert forall|j: int| i < j < n implies !successful_shutdown_at(
                        s,
                        calls,
                        j,
                    ) by {
                        if j < m {
                            assert(!successful_shutdown_at(s, pre, j));
                        }
                    }
                    assert(open_init(s, calls));
                } else {
                    // The surface refused: the flags are rolled back, and the
                    // rejected call can witness nothing.
                    assert(reached(s, calls) == sp) by {
                        assert(apply_call(sp, c) == (SessionState { running: false, ..sp }));
                        assert((SessionState { running: false, ..sp }) == sp);
                    }
                    if open_init(s, calls) {
                        let i = choose|i: int|
                            #[trigger] successful_init_at(s, calls, i)
                                && no_later_successful_shutdown(s, calls, i);
                        assert(i < m);
                        assert forall|j: int| i < j < m implies !successful_shutdown_at(
                            s,
                            pre,
                            j,
                        ) by {
                            assert(!successful_shutdown_at(s, calls, j));
                        }
                        assert(open_init(s, pre));
                    }
                    if open_init(s, pre) {
                        let i = choose|i: int|
                            #[trigger] successful_init_at(s, pre, i) && no_later_successful_shutdown(
                                s,
                                pre,
                                i,
                            );
                        assert(successful_init_at(s, calls, i));
                        assert forall|j: int| i < j < n implies !successful_shutdown_at(
                            s,
                            calls,
                            j,
                        ) by {
                            if j < m {
                                assert(!successful_shutdown_at(s, pre, j));
                            }
                        }
                        assert(open_init(s, calls));
                    }
                }
            },
            ControllerCall::Shutdown => {
                if sp.running {
                    // This very call closes the session behind every
                    // earlier `init`.
                    assert(successful_shutdown_at(s, calls, m));
                    if open_init(s, calls) {
                        let i = choose|i: int|
                            #[trigger] successful_init_at(s, calls, i)
                                && no_later_successful_shutdown(s, calls, i);
                        assert(i < m);
                        assert(!successful_shutdown_at(s, calls, m));
                    }
                    assert(!reached(s, calls).running);
                } else {
                    // A rejected `shutdown` changes nothing and can witness
                    // nothing.
                    if open_init(s, calls) {
                        let i = choose|i: int|
                            #[trigger] successful_init_at(s, calls, i)
                                && no_later_successful_shutdown(s, calls, i);
                        assert(i < m);
                        assert forall|j: int| i < j < m implies !successful_shutdown_at(
                            s,
                            pre,
                            j,
                        ) by {
                            assert(!successful_shutdown_at(s, calls, j));
                        }
                        assert(open_init(s, pre));
                    }
                    if open_init(s, pre) {
                        let i = choose|i: int|
                            #[trigger] successful_init_at(s, pre, i) && no_later_successful_shutdown(
                                s,
                                pre,
                                i,
                            );
                        assert(successful_init_at(s, calls, i));
                        assert forall|j: int| i < j < n implies !successful_shutdown_at(
                            s,
                            calls,
                            j,
                        ) by {
                            if j < m {
                                assert(!successful_shutdown_at(s, pre, j));
                            } else {
                                assert(!reached(s, calls.take(j)).running);
                            }
                        }
                        assert(open_init(s, calls));
                    }
                }
            },
            _ => {
                // The polling sub-lifecycle and the drawing and query
                // operations never touch `running`.
                assert(reached(s, calls).running == sp.running);
                if open_init(s, calls) {
                    let i = choose|i: int|
                        #[trigger] successful_init_at(s, calls, i) && no_later_successful_shutdown(
                            s,
                            calls,
                            i,
                        );
                    assert(i < m);
                    assert forall|j: int| i < j < m implies !successful_shutdown_at(s, pre, j) by {
                        assert(!successful_shutdown_at(s, calls, j));
                    }
                    assert(open_init(s, pre));
                }
                if open_init(s, pre) {
                    let i = choose|i: int|
                        #[trigger] successful_init_at(s, pre, i) && no_later_successful_shutdown(
                            s,
                            pre,
                            i,
                        );
                    assert(successful_init_at(s, calls, i));
                    assert forall|j: int| i < j < n implies !successful_shutdown_at(
                        s,
                        calls,
                        j,
                    ) by {
                        if j < m {
                            assert(!successful_shutdown_at(s, pre, j));
                        }
                    }
                    assert(open_init(s, calls));
                }
            },
        }
    }
}

/// A `start_polling` that returned `ok`, not yet followed by any stop, makes
/// the next `start_polling` return `error(already_polling)`.
pub proof fn lemma_start_polling_not_reentrant(s: SessionState)
    requires
        start_polling_result(s) is Ok,
    ensures
        start_polling_result(start_polling_next(s)) == Err::<u64, BindingError>(
            BindingError::AlreadyPolling,
        ),
{
}

/// After a `stop_polling` that returned `ok`, the poller has run its exit
/// protocol — both polling flags are clear — and a subsequent
/// `start_polling` succeeds, the session still being active.
pub proof fn lemma_stop_polling_rearms(s: SessionState)
    requires
        stop_polling_result(s) is Ok,
    ensures
        !stop_polling_next(s).polling,
        !stop_polling_next(s).stop_requested,
        stop_polling_next(s).running == s.running,
        start_polling_result(stop_polling_next(s)) == Ok::<u64, BindingError>(SESSION_TOKEN),
{
}

/// Once a stop request is visible to the poller, the rest of the session
/// forwards nothing; and after `stop_polling` has returned, no poll session
/// is active at all, so no event can be delivered any more.
pub proof fn lemma_no_delivery_after_stop(s: SessionState, outcomes: Seq<PollOutcome>)
    requires
        stop_polling_result(s) is Ok,
    ensures
        request_stop_polling_next(s).stop_requested,
        session_deliveries(request_stop_polling_next(s).stop_requested, outcomes) == Seq::<
            tb_event,
        >::empty(),
        !stop_polling_next(s).polling,
{
}

/// A rejected call mutates nothing: whenever an operation returns an error,
/// the flags after it are exactly the flags before it, so lifecycle misuse
/// is always recoverable by reordering calls.
pub proof fn lemma_rejected_calls_mutate_nothing(s: SessionState)
    ensures
        init_result(s) is Err ==> init_next(s) == s,
        shutdown_result(s) is Err ==> shutdown_next(s) == s,
        start_polling_result(s) is Err ==> start_polling_next(s) == s,
        stop_polling_result(s) is Err ==> stop_polling_next(s) == s,
        stop_polling_result(s) is Err ==> request_stop_polling_next(s) == s,
{
}

/// While no session is active, every drawing and query operation is refused
/// with `error(not_running)`; being refused before any delegation, it has no
/// effect on the surface or on the flags.
pub proof fn lemma_gate_rejects_when_not_running(s: SessionState)
    requires
        !s.running,
    ensures
        pass_through_result(s) == Err::<(), BindingError>(BindingError::NotRunning),
{
}

} // verus!
