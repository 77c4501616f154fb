//! Input events as the terminal surface reports them, and the outcome of one
//! poll of the surface.

use vstd::prelude::*;

verus! {

/// One terminal input occurrence, exactly as the surface's poll primitive
/// fills it in: kind tag (`type_`), modifier bits (`mod_`), key code, decoded
/// character, resulting width and height (meaningful only for a resize), and
/// coordinates (meaningful only for a mouse event).
#[allow(non_camel_case_types)]
#[derive(Clone, Copy, Debug, PartialEq, Eq, Structural)]
pub struct tb_event {
    pub type_: u8,
    pub mod_: u8,
    pub key: u16,
    pub ch: u32,
    pub w: i32,
    pub h: i32,
    pub x: i32,
    pub y: i32,
}

/// What one poll of the terminal surface yielded: nothing within the
/// timeout, one input event, or a surface-level failure that terminates
/// the poll loop.
#[derive(Clone, Copy, Debug, PartialEq, Eq, Structural)]
pub enum PollOutcome {
    NoEvent,
    Event(tb_event),
    Error,
}

/// The tuple shape in which one event is delivered to the consumer:
/// `(kind, modifiers, key, character, (width, height), (x, y))`.
pub type EventMessage = (u8, u8, u16, u32, (i32, i32), (i32, i32));

/// How the surface's poll primitive reports its outcome in its return code:
/// negative is a surface failure, zero means the timeout elapsed with no
/// input, positive means the event record `e` was filled in.
pub open spec fn spec_classify_poll(code: i32, e: tb_event) -> PollOutcome {
    if code < 0 {
        PollOutcome::Error
    } else if code == 0 {
        PollOutcome::NoEvent
    } else {
        PollOutcome::Event(e)
    }
}

/// Interpret the return code of one poll of the surface, together with the
/// event record the surface may have filled in.
pub fn classify_poll(code: i32, e: tb_event) -> (o: PollOutcome)
    ensures
        o == spec_classify_poll(code, e),
{
    if code < 0 {
        PollOutcome::Error
    } else if code == 0 {
        PollOutcome::NoEvent
    } else {
        PollOutcome::Event(e)
    }
}

/// The delivery tuple for one event.
pub open spec fn spec_event_message(e: tb_event) -> EventMessage {
    (e.type_, e.mod_, e.key, e.ch, (e.w, e.h), (e.x, e.y))
}

/// Build the delivery tuple for one event.
pub fn event_message(e: &tb_event) -> (m: EventMessage)
    ensures
        m == spec_event_message(*e),
{
    (e.type_, e.mod_, e.key, e.ch, (e.w, e.h), (e.x, e.y))
}

} // verus!
