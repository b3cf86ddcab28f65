//! Opaque foreign objects and the task-local snapshot built from them.
//!
//! The host interpreter owns its objects; this library never looks inside
//! one. All it needs is identity: two handles with the same id refer to the
//! same foreign object, and duplicating a handle is a cheap reference-count
//! bump performed by the binding, not a copy of the object.

use vstd::prelude::*;

verus! {

/// Identity of a reference-counted foreign object owned by the host
/// interpreter. The binding that performs foreign calls keeps the actual
/// object; the verified core tracks which object a value refers to.
#[derive(Clone, Copy, PartialEq, Eq, Structural, Debug)]
pub struct ObjectHandle {
    /// Identity: equal ids refer to the same foreign object.
    pub id: u64,
}

impl ObjectHandle {
    /// Duplicate the handle. The foreign object is shared, never copied.
    pub fn clone_ref(&self) -> (r: ObjectHandle)
        ensures
            r == *self,
    {
        ObjectHandle { id: self.id }
    }
}

/// An immutable snapshot of the execution context a piece of async work
/// should run under: which host event loop, and which ambient host
/// context-variables snapshot, if any.
///
/// Once constructed a snapshot is never mutated; duplicating one duplicates
/// two handles and nothing else.
#[derive(Clone, Copy, PartialEq, Eq, Structural, Debug)]
pub struct TaskLocals {
    /// The host event loop this work is bound to.
    pub event_loop: ObjectHandle,
    /// The ambient host context-variables snapshot. Absent for snapshots
    /// derived from a bare loop handle: context propagation is only
    /// guaranteed when an explicit snapshot is carried.
    pub context: Option<ObjectHandle>,
}

impl TaskLocals {
    /// A snapshot bound to `event_loop` with no ambient context.
    pub fn new(event_loop: ObjectHandle) -> (r: TaskLocals)
        ensures
            r.event_loop == event_loop,
            r.context is None,
    {
        TaskLocals { event_loop, context: None }
    }

    /// The same snapshot with its ambient context replaced by `context`.
    pub fn with_context(self, context: ObjectHandle) -> (r: TaskLocals)
        ensures
            r.event_loop == self.event_loop,
            r.context == Some(context),
    {
        TaskLocals { event_loop: self.event_loop, context: Some(context) }
    }

    /// The host event loop this snapshot is bound to.
    pub fn event_loop(&self) -> (r: ObjectHandle)
        ensures
            r == self.event_loop,
    {
        self.event_loop
    }

    /// The ambient context-variables snapshot, if one is carried.
    pub fn context(&self) -> (r: Option<ObjectHandle>)
        ensures
            r == self.context,
    {
        self.context
    }

    /// Duplicate the snapshot: both fields are handles, so duplication is
    /// two reference-count bumps.
    pub fn clone_ref(&self) -> (r: TaskLocals)
        ensures
            r == *self,
    {
        TaskLocals { event_loop: self.event_loop, context: self.context }
    }
}

} // verus!
