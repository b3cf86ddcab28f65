//! The error taxonomy of the bridge.
//!
//! Conversions never swallow errors: every foreign exception and every
//! native failure is forwarded across the boundary it crosses. Misuse of the
//! API contract (touching the registry before initialization, using a
//! thread-unsafe conversion outside a local execution context) is not an
//! error value at all: those are preconditions of the functions concerned.

use crate::object::ObjectHandle;
use vstd::prelude::*;

verus! {

/// An error carried across the bridge.
#[derive(Clone, Copy, PartialEq, Eq, Structural, Debug)]
pub enum BridgeError {
    /// The host module or loop could not be obtained during startup.
    Initialization,
    /// An exception raised by foreign code, carried opaquely end-to-end.
    Foreign(ObjectHandle),
    /// Synthesized when a one-shot delivery is abandoned without a send, or
    /// when a host future is cancelled.
    Cancelled,
    /// A spawned native task panicked; translated into a foreign exception
    /// at the host boundary so host code observes a normal exception.
    JoinPanic,
}

/// What a finished foreign task handed back: its result object, or the
/// exception it raised.
#[derive(Clone, Copy, PartialEq, Eq, Structural, Debug)]
pub enum TaskOutcome {
    /// The task finished with this result object.
    Value(ObjectHandle),
    /// The task raised this exception object.
    Raised(ObjectHandle),
}

/// Classify a native join failure: a panicked task becomes [`BridgeError::JoinPanic`]
/// (surfaced to the host as an exception), any other join failure means the
/// task was aborted, which the host observes as a cancellation.
pub fn classify_join_failure(is_panic: bool) -> (e: BridgeError)
    ensures
        e == if is_panic {
            BridgeError::JoinPanic
        } else {
            BridgeError::Cancelled
        },
{
    if is_panic {
        BridgeError::JoinPanic
    } else {
        BridgeError::Cancelled
    }
}

} // verus!
