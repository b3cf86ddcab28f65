//! The conversation-level protocol of a foreign-awaitable conversion, and
//! its laws.
//!
//! One conversion is a short conversation between the host loop and the
//! native future of [`crate::chan`]. The loop invokes the scheduled
//! callback, the wrapped task finishes with an outcome, the completer
//! forwards it — or the loop discards the callbacks, dropping the sender.
//! Foreign-side callback invocations are synchronous and serialized on the
//! loop's own thread, so the conversation is a sequence of events applied to
//! one state; an arbitrary event sequence covers every interleaving the
//! loop can produce, including the adversarial ones (double invocation,
//! double delivery, abandonment).
//!
//! The laws proved here pin the delivery guarantee down: the conversion's
//! slot is written at most once, it keeps the first outcome that reaches it,
//! an abandoned conversion is reported as cancelled rather than hanging, and
//! a late or repeated delivery is a no-op, never a fault.

use crate::chan::Delivery;
use crate::error::TaskOutcome;
use vstd::prelude::*;

verus! {

/// What the conversion's delivery slot holds.
#[derive(Clone, Copy, PartialEq, Eq, Structural, Debug)]
pub enum SlotState {
    /// No outcome yet; the sender is still armed.
    Empty,
    /// The first outcome that was forwarded; never overwritten.
    Full(TaskOutcome),
    /// The sender went away without forwarding anything: the conversion was
    /// abandoned and the receiver observes a cancellation.
    Closed,
}

/// The state of one conversion conversation, as serialized by the host
/// loop.
#[derive(Clone, Copy, PartialEq, Eq, Structural, Debug)]
pub struct ConversionState {
    /// Whether the scheduled callback has run and wrapped the awaitable
    /// into a host task.
    pub invoked: bool,
    /// The delivery slot between the completer and the native future.
    pub slot: SlotState,
}

/// An event the host loop applies to a conversion, in the order its
/// callback queue processes them.
#[derive(Clone, Copy, PartialEq, Eq, Structural, Debug)]
pub enum LoopEvent {
    /// The scheduled callback ran: the awaitable was wrapped into a host
    /// task and the completer attached. Running it again changes nothing.
    Invoke,
    /// The wrapped task finished with this outcome and the completer fired.
    TaskDone(TaskOutcome),
    /// The loop discarded the callbacks without firing them — the task was
    /// collected or the loop shut down — dropping the sender.
    Retire,
}

/// A conversion that has just been scheduled: nothing invoked, nothing
/// delivered.
pub open spec fn conversion_init() -> ConversionState {
    ConversionState { invoked: false, slot: SlotState::Empty }
}

/// How one loop event changes a conversion. The function is total: every
/// event is answered in every state, because the loop may fire callbacks
/// late, twice, or not at all, and none of that may fault.
pub open spec fn conversion_step(s: ConversionState, e: LoopEvent) -> ConversionState {
    match e {
        LoopEvent::Invoke => ConversionState { invoked: true, slot: s.slot },
        LoopEvent::TaskDone(o) => if s.slot is Empty {
            ConversionState { invoked: s.invoked, slot: SlotState::Full(o) }
        } else {
            s
        },
        LoopEvent::Retire => if s.slot is Empty {
            ConversionState { invoked: s.invoked, slot: SlotState::Closed }
        } else {
            s
        },
    }
}

/// A whole conversation: the loop's events applied in queue order.
pub open spec fn run_conversion(s: ConversionState, events: Seq<LoopEvent>) -> ConversionState
    decreases events.len(),
{
    if events.len() == 0 {
        s
    } else {
        run_conversion(conversion_step(s, events[0]), events.skip(1))
    }
}

/// What the native future observes of a slot, before the receiver drains
/// it: nothing yet, the delivered outcome, or the cancellation synthesized
/// for an abandoned conversion.
pub open spec fn observed(slot: SlotState) -> Delivery<TaskOutcome> {
    match slot {
        SlotState::Empty => Delivery::Pending,
        SlotState::Full(o) => Delivery::Delivered(o),
        SlotState::Closed => Delivery::Cancelled,
    }
}

/// One poll of the native side: what it yields, and whether the payload is
/// now consumed. The channel hands its payload out once; a poll after a
/// delivery, like a poll of an abandoned conversion, reads as cancelled.
pub open spec fn receive_step(slot: SlotState, taken: bool) -> (Delivery<TaskOutcome>, bool) {
    if taken {
        (Delivery::Cancelled, true)
    } else {
        match slot {
            SlotState::Empty => (Delivery::Pending, false),
            SlotState::Full(o) => (Delivery::Delivered(o), true),
            SlotState::Closed => (Delivery::Cancelled, false),
        }
    }
}

/// Law: the outcome is handed out on at most one poll. A poll that
/// delivers consumes the payload, and a consumed conversion never delivers
/// again, whatever the slot does afterwards.
pub proof fn lemma_received_at_most_once(slot: SlotState, taken: bool, later: SlotState)
    ensures
        receive_step(slot, taken).0 is Delivered ==> receive_step(slot, taken).1,
        taken ==> !(receive_step(later, taken).0 is Delivered),
{
}

/// Apply one loop event; the executable mirror of [`conversion_step`].
pub fn advance(s: ConversionState, e: LoopEvent) -> (r: ConversionState)
    ensures
        r == conversion_step(s, e),
{
    match e {
        LoopEvent::Invoke => ConversionState { invoked: true, slot: s.slot },
        LoopEvent::TaskDone(o) => {
            match s.slot {
                SlotState::Empty => ConversionState { invoked: s.invoked, slot: SlotState::Full(o) },
                _ => s,
            }
        },
        LoopEvent::Retire => {
            match s.slot {
                SlotState::Empty => ConversionState { invoked: s.invoked, slot: SlotState::Closed },
                _ => s,
            }
        },
    }
}

/// Law: the delivery slot is written at most once. Whatever single event
/// follows, a delivered outcome stays exactly as it is — a second delivery
/// or a late retirement is a no-op, never a fault and never an overwrite.
pub proof fn lemma_delivery_write_once(s: ConversionState, e: LoopEvent)
    ensures
        s.slot is Full ==> conversion_step(s, e).slot == s.slot,
        s.slot is Closed ==> conversion_step(s, e).slot == s.slot,
{
}

/// Law: a settled conversion stays settled for the rest of the
/// conversation. Once the slot holds an outcome — or holds the
/// cancellation of an abandoned conversion — every further event sequence
/// leaves it unchanged, so the native future resolves to that outcome and
/// to nothing else.
pub proof fn lemma_settlement_is_stable(s: ConversionState, events: Seq<LoopEvent>)
    ensures
        !(s.slot is Empty) ==> run_conversion(s, events).slot == s.slot,
    decreases events.len(),
{
    if events.len() > 0 {
        lemma_delivery_write_once(s, events[0]);
        lemma_settlement_is_stable(conversion_step(s, events[0]), events.skip(1));
    }
}

/// Law: an awaitable that finishes with outcome `o` resolves the native
/// future to exactly `o`, exactly once. In any conversation whose first
/// delivery is `o`, the slot holds `o` from that point on, whatever else
/// the loop does afterwards.
pub proof fn lemma_first_outcome_wins(s: ConversionState, o: TaskOutcome, rest: Seq<LoopEvent>)
    requires
        s.slot is Empty,
    ensures
        run_conversion(conversion_step(s, LoopEvent::TaskDone(o)), rest).slot == SlotState::Full(o),
        observed(run_conversion(conversion_step(s, LoopEvent::TaskDone(o)), rest).slot)
            == Delivery::Delivered(o),
{
    lemma_settlement_is_stable(conversion_step(s, LoopEvent::TaskDone(o)), rest);
}

/// Law: over a whole conversation from the moment the conversion was
/// scheduled — the callback runs, the task finishes with `o`, and the loop
/// then does whatever it does — the slot holds exactly `o`.
pub proof fn lemma_conversation_delivers(o: TaskOutcome, events: Seq<LoopEvent>)
    requires
        events.len() >= 2,
        events[0] == LoopEvent::Invoke,
        events[1] == LoopEvent::TaskDone(o),
    ensures
        run_conversion(conversion_init(), events).slot == SlotState::Full(o),
{
    let after_invoke = conversion_step(conversion_init(), LoopEvent::Invoke);
    let after_done = conversion_step(after_invoke, LoopEvent::TaskDone(o));
    assert(events.skip(1)[0] == events[1]);
    assert(run_conversion(conversion_init(), events) == run_conversion(
        after_invoke,
        events.skip(1),
    ));
    assert(run_conversion(after_invoke, events.skip(1)) == run_conversion(
        after_done,
        events.skip(1).skip(1),
    ));
    lemma_settlement_is_stable(after_done, events.skip(1).skip(1));
}

/// Law: an abandoned conversion is observed as cancelled, never as a silent
/// hang. If the loop retires the callbacks of an undelivered conversion,
/// the slot closes and stays closed, and the native future observes the
/// synthesized cancellation.
pub proof fn lemma_abandonment_is_cancellation(
    s: ConversionState,
    rest: Seq<LoopEvent>,
)
    requires
        s.slot is Empty,
    ensures
        observed(run_conversion(conversion_step(s, LoopEvent::Retire), rest).slot)
            == Delivery::Cancelled::<TaskOutcome>,
{
    lemma_settlement_is_stable(conversion_step(s, LoopEvent::Retire), rest);
}

} // verus!
