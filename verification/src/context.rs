//! The ambient task-local execution context of the native scheduler.
//!
//! A concrete scheduler binding keeps one [`TaskContext`] per native task
//! and drives it around the future it runs: entering a scope installs a
//! task-locals snapshot for the duration, leaving it restores whatever was
//! installed before. [`get_task_locals`] reads the innermost installed
//! snapshot and sees nothing outside any scope — the visibility law is
//! proved below. The context also records whether a single-threaded local
//! execution context is active on the current thread, which the
//! thread-unsafe conversions require as a precondition.

use crate::error::BridgeError;
use crate::object::ObjectHandle;
use crate::object::TaskLocals;
use vstd::prelude::*;

verus! {

/// The ambient execution context of one native task: a stack of installed
/// task-locals snapshots, innermost last, and the local-execution marker.
pub struct TaskContext {
    scopes: Vec<TaskLocals>,
    local_executor: bool,
}

/// The innermost snapshot of a stack of installed scopes, if any scope is
/// active.
pub open spec fn innermost(scopes: Seq<TaskLocals>) -> Option<TaskLocals> {
    if scopes.len() == 0 {
        None
    } else {
        Some(scopes.last())
    }
}

impl TaskContext {
    /// The installed scopes, outermost first.
    pub closed spec fn scopes(&self) -> Seq<TaskLocals> {
        self.scopes@
    }

    /// Whether a single-threaded local execution context is active.
    pub closed spec fn in_local_executor(&self) -> bool {
        self.local_executor
    }

    /// The currently visible task-locals snapshot, if any.
    pub open spec fn current(&self) -> Option<TaskLocals> {
        innermost(self.scopes())
    }

    /// The context of a task that has installed nothing: no snapshot is
    /// visible and no local execution context is active.
    pub fn new() -> (r: TaskContext)
        ensures
            r.scopes() == Seq::<TaskLocals>::empty(),
            !r.in_local_executor(),
    {
        TaskContext { scopes: Vec::new(), local_executor: false }
    }

    /// Install `locals` as the ambient context for the span of one scoped
    /// future; visible until the matching [`TaskContext::scope_exit`].
    pub fn scope(&mut self, locals: TaskLocals)
        ensures
            final(self).scopes() == old(self).scopes().push(locals),
            final(self).current() == Some(locals),
            final(self).in_local_executor() == old(self).in_local_executor(),
    {
        self.scopes.push(locals);
    }

    /// Install `locals` around a thread-unsafe future. The installation
    /// behaves exactly like [`TaskContext::scope`]; what differs is where
    /// the binding may run the scoped future, which the local-execution
    /// marker tracks.
    pub fn scope_local(&mut self, locals: TaskLocals)
        requires
            old(self).in_local_executor(),
        ensures
            final(self).scopes() == old(self).scopes().push(locals),
            final(self).current() == Some(locals),
            final(self).in_local_executor() == old(self).in_local_executor(),
    {
        self.scopes.push(locals);
    }

    /// Leave the innermost scope, restoring the context that was visible
    /// before it was entered.
    pub fn scope_exit(&mut self)
        requires
            old(self).scopes().len() > 0,
        ensures
            final(self).scopes() == old(self).scopes().drop_last(),
            final(self).in_local_executor() == old(self).in_local_executor(),
    {
        let _ = self.scopes.pop();
    }

    /// Read the currently installed task-locals snapshot: the innermost
    /// scope's, or nothing when no scope is active.
    pub fn get_task_locals(&self) -> (r: Option<TaskLocals>)
        ensures
            r == self.current(),
    {
        if self.scopes.len() == 0 {
            None
        } else {
            Some(self.scopes[self.scopes.len() - 1])
        }
    }

    /// Mark that a single-threaded local execution context is active on the
    /// current thread, as the binding establishes one.
    pub fn enter_local_executor(&mut self)
        ensures
            final(self).scopes() == old(self).scopes(),
            final(self).in_local_executor(),
    {
        self.local_executor = true;
    }

    /// Mark that the local execution context ended.
    pub fn exit_local_executor(&mut self)
        ensures
            final(self).scopes() == old(self).scopes(),
            !final(self).in_local_executor(),
    {
        self.local_executor = false;
    }

    /// Whether a single-threaded local execution context is active.
    pub fn is_in_local_executor(&self) -> (r: bool)
        ensures
            r == self.in_local_executor(),
    {
        self.local_executor
    }
}

/// Law: a scoped snapshot is visible strictly within its scope. Entering a
/// scope makes exactly the installed snapshot visible, and leaving it
/// restores the stack — and so the visible snapshot — to what it was
/// immediately before.
pub proof fn lemma_scope_visibility(scopes: Seq<TaskLocals>, locals: TaskLocals)
    ensures
        innermost(scopes.push(locals)) == Some(locals),
        scopes.push(locals).drop_last() == scopes,
        innermost(scopes.push(locals).drop_last()) == innermost(scopes),
{
    assert(scopes.push(locals).last() == locals);
    assert(scopes.push(locals).drop_last() =~= scopes);
}

/// The snapshot a conversion runs under: the ambient one if a scope is
/// active, otherwise a fresh snapshot read from the host — the running
/// loop and a copy of the current host context variables, fetched by the
/// binding and passed in as `fresh`.
pub fn get_current_locals(ctx: &TaskContext, fresh: Result<TaskLocals, BridgeError>) -> (r: Result<
    TaskLocals,
    BridgeError,
>)
    ensures
        ctx.current() is Some ==> r == Ok::<TaskLocals, BridgeError>(ctx.current()->Some_0),
        ctx.current() is None ==> r == fresh,
{
    match ctx.get_task_locals() {
        Some(locals) => Ok(locals),
        None => fresh,
    }
}

/// The host loop a conversion is bound to: the ambient snapshot's loop if a
/// scope is active, otherwise the loop currently running on this thread,
/// fetched by the binding and passed in as `running_loop`.
pub fn get_current_loop(ctx: &TaskContext, running_loop: Result<ObjectHandle, BridgeError>) -> (r:
    Result<ObjectHandle, BridgeError>)
    ensures
        ctx.current() is Some ==> r == Ok::<ObjectHandle, BridgeError>(
            ctx.current()->Some_0.event_loop,
        ),
        ctx.current() is None ==> r == running_loop,
{
    match ctx.get_task_locals() {
        Some(locals) => Ok(locals.event_loop),
        None => running_loop,
    }
}

} // verus!
