use termbox_bindings::event::{event_message, tb_event, PollOutcome};
use termbox_bindings::poller::{poller_step, run_poller, PollAction};
use termbox_bindings::state::SessionState;

fn key_event(key: u16) -> tb_event {
    tb_event { type_: 1, mod_: 0, key, ch: 0, w: 0, h: 0, x: 0, y: 0 }
}

fn resize_event(w: i32, h: i32) -> tb_event {
    tb_event { type_: 2, mod_: 0, key: 0, ch: 0, w, h, x: 0, y: 0 }
}

fn polling_state() -> SessionState {
    let mut s = SessionState::new();
    s.try_start();
    s.try_start_polling();
    s
}

#[test]
fn flags_start_false_and_transition_once() {
    let mut s = SessionState::new();
    assert!(!s.is_running());
    assert!(!s.is_polling());
    assert!(!s.stop_polling_signaled());
    assert!(s.try_start());
    assert!(!s.try_start());
    assert!(s.is_running());
    assert!(s.try_start_polling());
    assert!(!s.try_start_polling());
    assert!(s.is_polling());
    s.request_stop();
    assert!(s.stop_polling_signaled());
    s.mark_polling_stopped();
    assert!(!s.is_polling());
    assert!(!s.stop_polling_signaled());
    assert!(s.is_running());
    s.stop();
    assert!(!s.is_running());
}

#[test]
fn step_forwards_events_skips_timeouts_exits_on_error() {
    let e = key_event(13);
    assert_eq!(poller_step(PollOutcome::Event(e)), PollAction::Deliver(e));
    assert_eq!(poller_step(PollOutcome::NoEvent), PollAction::Continue);
    assert_eq!(poller_step(PollOutcome::Error), PollAction::Exit);
}

#[test]
fn session_preserves_poll_order() {
    let mut s = polling_state();
    let e1 = key_event(13);
    let e2 = resize_event(80, 24);
    let e3 = key_event(27);
    let outcomes = vec![
        PollOutcome::Event(e1),
        PollOutcome::NoEvent,
        PollOutcome::Event(e2),
        PollOutcome::NoEvent,
        PollOutcome::Event(e3),
    ];
    let delivered = run_poller(&mut s, &outcomes);
    assert_eq!(delivered, vec![e1, e2, e3]);
    assert!(!s.is_polling());
    assert!(!s.stop_polling_signaled());
    assert!(s.is_running());
}

#[test]
fn surface_error_ends_the_session_silently() {
    let mut s = polling_state();
    let e1 = key_event(13);
    let e2 = key_event(27);
    let outcomes = vec![
        PollOutcome::Event(e1),
        PollOutcome::Error,
        PollOutcome::Event(e2),
    ];
    let delivered = run_poller(&mut s, &outcomes);
    assert_eq!(delivered, vec![e1]);
    // The exit protocol ran even though the loop exited on an error, so a
    // new session could be started.
    assert!(!s.is_polling());
    assert!(!s.stop_polling_signaled());
}

#[test]
fn pending_stop_forwards_nothing() {
    let mut s = polling_state();
    s.request_stop();
    let outcomes = vec![PollOutcome::Event(key_event(13)), PollOutcome::NoEvent];
    let delivered = run_poller(&mut s, &outcomes);
    assert_eq!(delivered, Vec::new());
    assert!(!s.is_polling());
    assert!(!s.stop_polling_signaled());
}

#[test]
fn empty_session_delivers_nothing() {
    let mut s = polling_state();
    let delivered = run_poller(&mut s, &Vec::new());
    assert_eq!(delivered, Vec::new());
    assert!(!s.is_polling());
}

#[test]
fn message_tuple_layout() {
    let e = tb_event { type_: 2, mod_: 4, key: 13, ch: 97, w: 80, h: 24, x: 3, y: 5 };
    assert_eq!(event_message(&e), (2, 4, 13, 97, (80, 24), (3, 5)));
}
