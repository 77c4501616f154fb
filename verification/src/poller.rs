//! The background poll loop: its per-cycle decision and the order in which
//! events of one polling session reach the consumer.

use vstd::prelude::*;

use crate::event::{tb_event, PollOutcome};
use crate::state::SessionState;

verus! {

/// What the poller does with the outcome of one poll of the surface:
/// forward the event to the consumer, poll again, or exit the loop.
#[derive(Clone, Copy, Debug, PartialEq, Eq, Structural)]
pub enum PollAction {
    Deliver(tb_event),
    Continue,
    Exit,
}

/// The poll loop's decision on one poll outcome: an event is forwarded,
/// a timeout is ignored, a surface error ends the session.
pub open spec fn spec_poller_step(outcome: PollOutcome) -> PollAction {
    match outcome {
        PollOutcome::Event(e) => PollAction::Deliver(e),
        PollOutcome::NoEvent => PollAction::Continue,
        PollOutcome::Error => PollAction::Exit,
    }
}

/// Decide what to do with the outcome of one poll of the surface. A
/// concurrent embedding runs one such step per poll cycle, after checking
/// `stop_polling_signaled` and before polling again.
pub fn poller_step(outcome: PollOutcome) -> (a: PollAction)
    ensures
        a == spec_poller_step(outcome),
{
    match outcome {
        PollOutcome::Event(e) => PollAction::Deliver(e),
        PollOutcome::NoEvent => PollAction::Continue,
        PollOutcome::Error => PollAction::Exit,
    }
}

/// The events a poll loop forwards when the surface yields `outcomes` in
/// order: every event before the first surface error, in poll order.
pub open spec fn deliveries(outcomes: Seq<PollOutcome>) -> Seq<tb_event>
    decreases outcomes.len(),
{
    if outcomes.len() == 0 {
        Seq::empty()
    } else {
        match outcomes[0] {
            PollOutcome::Event(e) => seq![e] + deliveries(outcomes.drop_first()),
            PollOutcome::NoEvent => deliveries(outcomes.drop_first()),
            PollOutcome::Error => Seq::empty(),
        }
    }
}

/// The events one whole polling session forwards, given the stop flag the
/// loop observes: nothing once a stop has been requested, otherwise every
/// event before the first surface error, in poll order.
pub open spec fn session_deliveries(stop_requested: bool, outcomes: Seq<PollOutcome>) -> Seq<
    tb_event,
> {
    if stop_requested {
        Seq::empty()
    } else {
        deliveries(outcomes)
    }
}

/// Run one whole polling session over the sequence of outcomes the surface
/// yields, and return the events forwarded to the consumer, in poll order.
///
/// This is the body of the background poller: each cycle first honours a
/// pending stop request, then takes the next poll outcome and acts on it;
/// on exit — for any reason — the exit protocol `mark_polling_stopped` runs
/// exactly once, so a new poll session can be started afterwards and the
/// flags are never left stuck. In this sequential rendering the stop flag
/// cannot change between cycles, so a session started with no stop pending
/// forwards exactly the events before the first surface error.
pub fn run_poller(state: &mut SessionState, outcomes: &Vec<PollOutcome>) -> (delivered: Vec<
    tb_event,
>)
    requires
        old(state).polling,
    ensures
        !final(state).polling,
        !final(state).stop_requested,
        final(state).running == old(state).running,
        delivered@ == session_deliveries(old(state).stop_requested, outcomes@),
{
    let ghost s0: SessionState = *state;
    let mut delivered: Vec<tb_event> = Vec::new();
    let mut i: usize = 0;
    proof {
        assert(outcomes@.skip(0) =~= outcomes@);
        assert(delivered@ + deliveries(outcomes@) =~= deliveries(outcomes@));
    }
    loop
        invariant
            *state == s0,
            i <= outcomes@.len(),
            s0.stop_requested ==> delivered@ == Seq::<tb_event>::empty(),
            !s0.stop_requested ==> delivered@ + deliveries(outcomes@.skip(i as int))
                == deliveries(outcomes@),
        ensures
            *state == s0,
            delivered@ == session_deliveries(s0.stop_requested, outcomes@),
        decreases outcomes@.len() - i,
    {
        if state.stop_polling_signaled() {
            break;
        }
        if i == outcomes.len() {
            proof {
                assert(outcomes@.skip(i as int) =~= Seq::<PollOutcome>::empty());
                assert(delivered@ + Seq::<tb_event>::empty() =~= delivered@);
            }
            break;
        }
        let outcome = outcomes[i];
        match poller_step(outcome) {
            PollAction::Deliver(e) => {
                proof {
                    let rest = outcomes@.skip(i as int);
                    assert(rest[0] == outcomes@[i as int]);
                    assert(rest.drop_first() =~= outcomes@.skip(i as int + 1));
                    assert(delivered@.push(e) + deliveries(outcomes@.skip(i as int + 1))
                        =~= delivered@ + deliveries(outcomes@.skip(i as int)));
                }
                delivered.push(e);
                i = i + 1;
            },
            PollAction::Continue => {
                proof {
                    let rest = outcomes@.skip(i as int);
                    assert(rest[0] == outcomes@[i as int]);
                    assert(rest.drop_first() =~= outcomes@.skip(i as int + 1));
                }
                i = i + 1;
            },
            PollAction::Exit => {
                proof {
                    let rest = outcomes@.skip(i as int);
                    assert(rest[0] == outcomes@[i as int]);
                    assert(deliveries(rest) == Seq::<tb_event>::empty());
                    assert(delivered@ + Seq::<tb_event>::empty() =~= delivered@);
                }
                break;
            },
        }
    }
    state.mark_polling_stopped();
    delivered
}

} // verus!
