//! The one-shot completion channel that carries a foreign task's outcome to
//! the native future awaiting it.
//!
//! One conversion owns one channel. The sender half travels into a pair of
//! short-lived callback objects that the host loop invokes on its own
//! thread: [`PyEnsureFuture`] wraps the awaitable into a host task and arms
//! a [`PyTaskCompleter`], which forwards the finished task's outcome through
//! the channel. Each callback consumes its sender on first invocation and is
//! a safe no-op on any later one — a double delivery must never panic. The
//! receiver half sits in a [`PyFuture`]; its poll reports the forwarded
//! outcome once, and reports a cancellation if the sender was dropped
//! without sending (for instance because the loop discarded the callback or
//! shut down).
//!
//! The channel itself comes from an outside crate; the trusted items below
//! state only what its source shows. The conversation-level protocol and its
//! laws live in [`crate::awaitable`].

use crate::error::BridgeError;
use crate::error::TaskOutcome;
use crate::object::ObjectHandle;
use crate::registry::LoopRegistry;
use futures::channel::oneshot::Canceled;
use futures::channel::oneshot::Receiver;
use futures::channel::oneshot::Sender;
use vstd::prelude::*;

verus! {

#[verifier::external_type_specification]
#[verifier::external_body]
#[verifier::reject_recursive_types(T)]
pub struct ExSender<T>(Sender<T>);

#[verifier::external_type_specification]
#[verifier::external_body]
#[verifier::reject_recursive_types(T)]
pub struct ExReceiver<T>(Receiver<T>);

#[verifier::external_type_specification]
#[verifier::external_body]
pub struct ExCanceled(Canceled);

/// Relies on futures::channel::oneshot::channel: creates a fresh
/// single-use channel, sender and receiver halves paired.
#[verifier::external_body]
fn oneshot_channel<T>() -> (Sender<T>, Receiver<T>) {
    futures::channel::oneshot::channel()
}

/// Relies on futures::channel::oneshot::Sender::send: consumes the sender;
/// enqueues the value for the receiver and returns `Ok`, or hands the value
/// back unchanged in `Err` if the receiving end is already gone.
#[verifier::external_body]
fn oneshot_send<T>(tx: Sender<T>, value: T) -> (r: Result<(), T>)
    ensures
        r is Err ==> r->Err_0 == value,
{
    tx.send(value)
}

/// Relies on futures::channel::oneshot::Receiver::try_recv: reports the
/// value once if one was sent, a pending state while the sender is alive,
/// and `Canceled` if the sender went away without sending (or the value was
/// already taken).
#[verifier::external_body]
fn oneshot_try_recv<T>(rx: &mut Receiver<T>) -> Result<Option<T>, Canceled> {
    rx.try_recv()
}

/// What one look at the receiving end of a conversion reports.
#[derive(PartialEq, Eq, Debug)]
pub enum Delivery<T> {
    /// Nothing has been delivered yet; the sender is still alive.
    Pending,
    /// The forwarded outcome, reported exactly once.
    Delivered(T),
    /// The sender was consumed or dropped without this receiver obtaining a
    /// value: the conversion was abandoned.
    Cancelled,
}

/// Classify what the channel reported: a value is a delivery, an empty
/// report is pending, and a disconnection is surfaced as a cancellation,
/// never silently dropped.
pub fn classify_delivery<T>(report: Result<Option<T>, Canceled>) -> (d: Delivery<T>)
    ensures
        report matches Ok(Some(v)) ==> d == Delivery::Delivered(v),
        report matches Ok(None) ==> d is Pending,
        report is Err ==> d is Cancelled,
{
    match report {
        Ok(Some(value)) => Delivery::Delivered(value),
        Ok(None) => Delivery::Pending,
        Err(_) => Delivery::Cancelled,
    }
}

/// The native-future side of a foreign-awaitable conversion: holds the
/// receiver half of the conversion's channel and drains it.
#[verifier::reject_recursive_types(T)]
pub struct PyFuture<T> {
    rx: Receiver<T>,
}

impl<T> PyFuture<T> {
    /// One poll of the conversion: asks the channel and classifies the
    /// report as [`classify_delivery`] does. A delivered outcome is
    /// reported exactly once; dropping this future abandons the conversion,
    /// which the sender side survives by design.
    pub fn poll(&mut self) -> Delivery<T> {
        let report = oneshot_try_recv(&mut self.rx);
        classify_delivery(report)
    }
}

/// The completion handler attached to the wrapped host task: receives the
/// task's outcome on the loop thread and forwards it through the channel.
#[verifier::reject_recursive_types(T)]
pub struct PyTaskCompleter<T> {
    tx: Option<Sender<T>>,
}

impl<T> PyTaskCompleter<T> {
    /// Whether the sender half has already been consumed.
    pub closed spec fn is_consumed(&self) -> bool {
        self.tx is None
    }

    /// Forward the finished task's outcome through the channel. The first
    /// invocation consumes the sender and reports `true`; any later
    /// invocation is a safe no-op reporting `false` — a second delivery,
    /// which the host loop should never produce but may, must never panic.
    /// A receiver that has gone away is not an error either: cancellation
    /// is a normal outcome for the sending side.
    pub fn call(&mut self, outcome: T) -> (accepted: bool)
        ensures
            accepted == !old(self).is_consumed(),
            final(self).is_consumed(),
    {
        match self.tx.take() {
            Some(tx) => {
                let _ = oneshot_send(tx, outcome);
                true
            },
            None => false,
        }
    }
}

/// A request to invoke a callback object on the host loop's own thread,
/// through the loop's thread-safe call scheduler.
#[derive(Clone, Copy, PartialEq, Eq, Structural, Debug)]
pub struct ScheduleRequest {
    /// The cached thread-safe call scheduler to invoke the callback with.
    pub scheduler: ObjectHandle,
}

/// The callback scheduled onto the host loop when a conversion begins:
/// invoked on the loop thread, it hands out the awaitable to be wrapped
/// into a host task together with the armed completion handler for that
/// task.
#[verifier::reject_recursive_types(T)]
pub struct PyEnsureFuture<T> {
    awaitable: ObjectHandle,
    tx: Option<Sender<T>>,
}

impl<T> PyEnsureFuture<T> {
    /// The foreign awaitable this conversion drives.
    pub closed spec fn awaitable(&self) -> ObjectHandle {
        self.awaitable
    }

    /// Whether the sender half has already moved into a completer.
    pub closed spec fn is_consumed(&self) -> bool {
        self.tx is None
    }

    /// First invocation: hand out the awaitable to wrap into a host task,
    /// and the completion handler to attach to that task. Any later
    /// invocation is a safe no-op: the sender is gone, so nothing can be
    /// delivered twice.
    pub fn call(&mut self) -> (r: Option<(ObjectHandle, PyTaskCompleter<T>)>)
        ensures
            old(self).is_consumed() ==> r is None,
            !old(self).is_consumed() ==> r is Some && r->Some_0.0 == old(self).awaitable()
                && !r->Some_0.1.is_consumed(),
            final(self).is_consumed(),
            final(self).awaitable() == old(self).awaitable(),
    {
        match self.tx.take() {
            Some(tx) => Some((self.awaitable, PyTaskCompleter { tx: Some(tx) })),
            None => None,
        }
    }
}

impl<T> PyFuture<T> {
    /// Begin converting a foreign awaitable into a native future: create
    /// the conversion's channel, arm the loop-side callback with the sender
    /// half and the awaitable, and request that the callback be scheduled
    /// on the host loop through the registry's cached thread-safe
    /// scheduler. The returned future holds the receiver half.
    pub fn try_from(registry: &LoopRegistry, awaitable: ObjectHandle) -> (r: (
        PyFuture<T>,
        PyEnsureFuture<T>,
        ScheduleRequest,
    ))
        requires
            registry.initialized(),
        ensures
            r.1.awaitable() == awaitable,
            !r.1.is_consumed(),
            r.2.scheduler == registry.handles().call_soon,
    {
        let (tx, rx) = oneshot_channel();
        (
            PyFuture { rx },
            PyEnsureFuture { awaitable, tx: Some(tx) },
            ScheduleRequest { scheduler: registry.call_soon() },
        )
    }
}

/// Convert a foreign awaitable into a native future, as
/// [`PyFuture::try_from`] does.
pub fn into_future<T>(registry: &LoopRegistry, awaitable: ObjectHandle) -> (r: (
    PyFuture<T>,
    PyEnsureFuture<T>,
    ScheduleRequest,
))
    requires
        registry.initialized(),
    ensures
        r.1.awaitable() == awaitable,
        !r.1.is_consumed(),
        r.2.scheduler == registry.handles().call_soon,
{
    PyFuture::try_from(registry, awaitable)
}

/// Resolve one look at a conversion carrying a task outcome: a delivered
/// value resolves the future, a delivered exception is forwarded opaquely,
/// and a disconnected channel is surfaced as a cancellation error — the
/// future never hangs silently and never reports anything twice.
pub fn resolve_delivery(d: Delivery<TaskOutcome>) -> (r: Option<Result<ObjectHandle, BridgeError>>)
    ensures
        d is Pending ==> r is None,
        d matches Delivery::Delivered(o) ==> r == Some(task_outcome_result(o)),
        d is Cancelled ==> r == Some(Err::<ObjectHandle, BridgeError>(BridgeError::Cancelled)),
{
    match d {
        Delivery::Pending => None,
        Delivery::Delivered(TaskOutcome::Value(v)) => Some(Ok(v)),
        Delivery::Delivered(TaskOutcome::Raised(e)) => Some(Err(BridgeError::Foreign(e))),
        Delivery::Cancelled => Some(Err(BridgeError::Cancelled)),
    }
}

/// How a finished task's outcome surfaces to native code: its value, or its
/// exception carried opaquely.
pub open spec fn task_outcome_result(o: TaskOutcome) -> Result<ObjectHandle, BridgeError> {
    match o {
        TaskOutcome::Value(v) => Ok(v),
        TaskOutcome::Raised(e) => Err(BridgeError::Foreign(e)),
    }
}

} // verus!
