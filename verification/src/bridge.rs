//! Native-future to foreign-awaitable conversion.
//!
//! Converting a native future hands back a foreign future placeholder
//! immediately and spawns a native task that drives the inner future under
//! the given task-locals. The placeholder lives on the host loop and is
//! only ever touched there: when the native side finishes, the outcome
//! crosses back as a scheduled loop callback that resolves, rejects or
//! cancels the placeholder. Cancellation is wired in both directions —
//! cancelling the placeholder from the host aborts the native task's join
//! handle within the same step, and a native abort schedules a guarded
//! cancellation of the placeholder.
//!
//! [`FutureBridge`] is the state of one such conversion. The binding drives
//! it with the events it observes (the inner future's completion, the
//! host-side done-callback) and performs the requests the bridge hands
//! back. The laws at the bottom pin the round trip down: a value the native
//! future completes with is exactly what the placeholder resolves to, and a
//! settled placeholder never changes again.

use crate::context::TaskContext;
use crate::error::BridgeError;
use crate::object::ObjectHandle;
use crate::object::TaskLocals;
use vstd::prelude::*;

verus! {

/// The state of the foreign future placeholder, as the host loop sees it.
#[derive(Clone, Copy, PartialEq, Eq, Structural, Debug)]
pub enum PlaceholderState {
    /// Not yet resolved.
    Pending,
    /// Resolved with the result object of the native future.
    Resolved(ObjectHandle),
    /// Rejected with the exception object the native future produced.
    Rejected(ObjectHandle),
    /// Cancelled, from the host side or after a native abort.
    Cancelled,
}

/// The state of the spawned native task driving the inner future.
#[derive(Clone, Copy, PartialEq, Eq, Structural, Debug)]
pub enum NativeTaskState {
    /// Still driving the inner future.
    Running,
    /// The inner future completed and its outcome was handed across.
    Finished,
    /// The task was aborted through its join handle.
    Aborted,
}

/// How the inner native future ended.
#[derive(Clone, Copy, PartialEq, Eq, Structural, Debug)]
pub enum NativeOutcome {
    /// Completed with this result object.
    Success(ObjectHandle),
    /// Failed with this exception object (a native error, or a panic
    /// already translated into an exception object by the binding).
    Failure(ObjectHandle),
    /// Observed its own cancellation after an abort.
    Cancelled,
}

/// Which execution contexts may run the spawned task.
#[derive(Clone, Copy, PartialEq, Eq, Structural, Debug)]
pub enum SpawnKind {
    /// The task may run anywhere on the multi-threaded scheduler.
    ThreadSafe,
    /// The task must stay on the single-threaded local execution context it
    /// was spawned from.
    Local,
}

/// A request to spawn the native task that drives the inner future, with
/// `locals` installed as its ambient context for the duration.
#[derive(Clone, Copy, PartialEq, Eq, Structural, Debug)]
pub struct SpawnRequest {
    /// The task-locals to install around the inner future.
    pub locals: TaskLocals,
    /// Where the task may run.
    pub kind: SpawnKind,
}

/// A callback to schedule on the host loop, through its thread-safe call
/// scheduler; the only sanctioned way to touch the placeholder from a
/// native thread.
#[derive(Clone, Copy, PartialEq, Eq, Structural, Debug)]
pub enum LoopCallback {
    /// Set the placeholder's result to this object.
    SetResult(ObjectHandle),
    /// Set the placeholder's exception to this object.
    SetException(ObjectHandle),
    /// Cancel the placeholder, if it is not already done.
    CancelPlaceholder,
}

/// How a scheduled callback changes the placeholder when the loop runs it.
/// A placeholder that is no longer pending is left exactly as it is: the
/// host may have cancelled it while the callback was in flight, and a
/// guarded no-op is the defined behaviour, never a fault.
pub open spec fn apply_callback(p: PlaceholderState, cb: LoopCallback) -> PlaceholderState {
    if p is Pending {
        match cb {
            LoopCallback::SetResult(v) => PlaceholderState::Resolved(v),
            LoopCallback::SetException(e) => PlaceholderState::Rejected(e),
            LoopCallback::CancelPlaceholder => PlaceholderState::Cancelled,
        }
    } else {
        p
    }
}

/// Which callback the native side schedules for an outcome: success
/// resolves the placeholder, failure rejects it, and an observed abort
/// cancels it if the host has not already done so.
pub open spec fn outcome_callback(o: NativeOutcome) -> LoopCallback {
    match o {
        NativeOutcome::Success(v) => LoopCallback::SetResult(v),
        NativeOutcome::Failure(e) => LoopCallback::SetException(e),
        NativeOutcome::Cancelled => LoopCallback::CancelPlaceholder,
    }
}

/// One in-flight conversion of a native future into a foreign placeholder.
pub struct FutureBridge {
    placeholder_obj: ObjectHandle,
    placeholder: PlaceholderState,
    task: NativeTaskState,
    locals: TaskLocals,
}

impl FutureBridge {
    /// The foreign placeholder object handed back to host code.
    pub closed spec fn placeholder_obj(&self) -> ObjectHandle {
        self.placeholder_obj
    }

    /// The placeholder's state on the host loop.
    pub closed spec fn placeholder(&self) -> PlaceholderState {
        self.placeholder
    }

    /// The spawned native task's state.
    pub closed spec fn task(&self) -> NativeTaskState {
        self.task
    }

    /// The task-locals the conversion runs under.
    pub closed spec fn locals(&self) -> TaskLocals {
        self.locals
    }

    /// The placeholder's state, for observers.
    pub fn placeholder_state(&self) -> (r: PlaceholderState)
        ensures
            r == self.placeholder(),
    {
        self.placeholder
    }

    /// The native task's state, for observers.
    pub fn task_state(&self) -> (r: NativeTaskState)
        ensures
            r == self.task(),
    {
        self.task
    }

    /// The inner native future ended: record it and hand back the loop
    /// callback to schedule, chosen as [`outcome_callback`] says. The task
    /// ends exactly once, so the bridge requires it to still be running.
    pub fn on_native_done(&mut self, outcome: NativeOutcome) -> (cb: LoopCallback)
        requires
            old(self).task() is Running,
        ensures
            cb == outcome_callback(outcome),
            final(self).task() == if outcome is Cancelled {
                NativeTaskState::Aborted
            } else {
                NativeTaskState::Finished
            },
            final(self).placeholder() == old(self).placeholder(),
            final(self).placeholder_obj() == old(self).placeholder_obj(),
            final(self).locals() == old(self).locals(),
    {
        match outcome {
            NativeOutcome::Success(v) => {
                self.task = NativeTaskState::Finished;
                LoopCallback::SetResult(v)
            },
            NativeOutcome::Failure(e) => {
                self.task = NativeTaskState::Finished;
                LoopCallback::SetException(e)
            },
            NativeOutcome::Cancelled => {
                self.task = NativeTaskState::Aborted;
                LoopCallback::CancelPlaceholder
            },
        }
    }

    /// The host cancelled the pending placeholder: the placeholder settles
    /// as cancelled and, in the same step, the paired native join handle is
    /// to be aborted — `abort` says whether there is still a running task
    /// to abort. Cancelling an already settled placeholder is not possible
    /// on the host side, hence the precondition.
    pub fn on_host_cancel(&mut self) -> (abort: bool)
        requires
            old(self).placeholder() is Pending,
        ensures
            final(self).placeholder() is Cancelled,
            abort == (old(self).task() is Running),
            final(self).task() == if old(self).task() is Running {
                NativeTaskState::Aborted
            } else {
                old(self).task()
            },
            final(self).placeholder_obj() == old(self).placeholder_obj(),
            final(self).locals() == old(self).locals(),
    {
        self.placeholder = PlaceholderState::Cancelled;
        match self.task {
            NativeTaskState::Running => {
                self.task = NativeTaskState::Aborted;
                true
            },
            _ => false,
        }
    }

    /// The loop ran a scheduled callback against the placeholder, as
    /// [`apply_callback`] says: a pending placeholder settles, a settled
    /// one is left alone.
    pub fn on_loop_callback(&mut self, cb: LoopCallback)
        ensures
            final(self).placeholder() == apply_callback(old(self).placeholder(), cb),
            final(self).task() == old(self).task(),
            final(self).placeholder_obj() == old(self).placeholder_obj(),
            final(self).locals() == old(self).locals(),
    {
        match self.placeholder {
            PlaceholderState::Pending => {
                self.placeholder = match cb {
                    LoopCallback::SetResult(v) => PlaceholderState::Resolved(v),
                    LoopCallback::SetException(e) => PlaceholderState::Rejected(e),
                    LoopCallback::CancelPlaceholder => PlaceholderState::Cancelled,
                };
            },
            _ => {},
        }
    }
}

/// Convert a native future under an explicit task-locals snapshot: hand
/// back the bridge for the placeholder just created on the target loop,
/// and the request to spawn the driving task with `locals` installed. The
/// placeholder is returned to host code immediately, unresolved.
pub fn future_into_py_with_locals(locals: TaskLocals, placeholder_obj: ObjectHandle) -> (r: (
    FutureBridge,
    SpawnRequest,
))
    ensures
        r.0.placeholder_obj() == placeholder_obj,
        r.0.placeholder() is Pending,
        r.0.task() is Running,
        r.0.locals() == locals,
        r.1 == (SpawnRequest { locals, kind: SpawnKind::ThreadSafe }),
{
    (
        FutureBridge {
            placeholder_obj,
            placeholder: PlaceholderState::Pending,
            task: NativeTaskState::Running,
            locals,
        },
        SpawnRequest { locals, kind: SpawnKind::ThreadSafe },
    )
}

/// Convert a native future under the current context: the ambient
/// task-locals if a scope is active, otherwise the fresh snapshot fetched
/// from the host. Fails exactly when no snapshot could be obtained.
pub fn future_into_py(
    ctx: &TaskContext,
    fresh: Result<TaskLocals, BridgeError>,
    placeholder_obj: ObjectHandle,
) -> (r: Result<(FutureBridge, SpawnRequest), BridgeError>)
    ensures
        ctx.current() is Some || fresh is Ok ==> r is Ok && r->Ok_0.0.placeholder_obj()
            == placeholder_obj && r->Ok_0.0.placeholder() is Pending && r->Ok_0.0.task() is Running
            && r->Ok_0.1.kind is ThreadSafe,
        ctx.current() is Some ==> r is Ok && r->Ok_0.0.locals() == ctx.current()->Some_0
            && r->Ok_0.1.locals == ctx.current()->Some_0,
        ctx.current() is None && fresh is Ok ==> r is Ok && r->Ok_0.0.locals() == fresh->Ok_0
            && r->Ok_0.1.locals == fresh->Ok_0,
        ctx.current() is None && fresh is Err ==> r == Err::<(FutureBridge, SpawnRequest),
            BridgeError,
        >(fresh->Err_0),
{
    match crate::context::get_current_locals(ctx, fresh) {
        Ok(locals) => Ok(future_into_py_with_locals(locals, placeholder_obj)),
        Err(e) => Err(e),
    }
}

/// Convert a native future attached to a bare loop handle. The snapshot
/// derived this way carries no ambient context, so context-variable
/// propagation is only guaranteed through the explicit-locals entry point —
/// a documented limitation of the loop-based surface, which survives only
/// for compatibility.
pub fn future_into_py_with_loop(event_loop: ObjectHandle, placeholder_obj: ObjectHandle) -> (r: (
    FutureBridge,
    SpawnRequest,
))
    ensures
        r.0.placeholder_obj() == placeholder_obj,
        r.0.placeholder() is Pending,
        r.0.task() is Running,
        r.0.locals() == (TaskLocals { event_loop, context: None::<ObjectHandle> }),
        r.1 == (SpawnRequest {
            locals: TaskLocals { event_loop, context: None::<ObjectHandle> },
            kind: SpawnKind::ThreadSafe,
        }),
{
    future_into_py_with_locals(TaskLocals::new(event_loop), placeholder_obj)
}

/// Convert a native future attached to a bare loop handle, with
/// cancellation wired. Cancellation wiring became the default for every
/// conversion, so this surviving entry point behaves exactly like
/// [`future_into_py_with_loop`].
pub fn cancellable_future_into_py_with_loop(
    event_loop: ObjectHandle,
    placeholder_obj: ObjectHandle,
) -> (r: (FutureBridge, SpawnRequest))
    ensures
        r.0.placeholder_obj() == placeholder_obj,
        r.0.placeholder() is Pending,
        r.0.task() is Running,
        r.0.locals() == (TaskLocals { event_loop, context: None::<ObjectHandle> }),
        r.1 == (SpawnRequest {
            locals: TaskLocals { event_loop, context: None::<ObjectHandle> },
            kind: SpawnKind::ThreadSafe,
        }),
{
    future_into_py_with_loop(event_loop, placeholder_obj)
}

/// Convert a native future under the current context, with cancellation
/// wired; identical to [`future_into_py`], kept for the surviving dual
/// surface.
pub fn cancellable_future_into_py(
    ctx: &TaskContext,
    fresh: Result<TaskLocals, BridgeError>,
    placeholder_obj: ObjectHandle,
) -> (r: Result<(FutureBridge, SpawnRequest), BridgeError>)
    ensures
        ctx.current() is Some || fresh is Ok ==> r is Ok && r->Ok_0.0.placeholder_obj()
            == placeholder_obj && r->Ok_0.0.placeholder() is Pending && r->Ok_0.0.task() is Running
            && r->Ok_0.1.kind is ThreadSafe,
        ctx.current() is Some ==> r is Ok && r->Ok_0.0.locals() == ctx.current()->Some_0,
        ctx.current() is None && fresh is Ok ==> r is Ok && r->Ok_0.0.locals() == fresh->Ok_0,
        ctx.current() is None && fresh is Err ==> r == Err::<(FutureBridge, SpawnRequest),
            BridgeError,
        >(fresh->Err_0),
{
    future_into_py(ctx, fresh, placeholder_obj)
}

/// Convert a thread-unsafe native future under an explicit snapshot. The
/// driving task must stay on a single-threaded local execution context, so
/// one must be active for the current thread; using the local surface
/// without one is a misuse of the API, excluded by precondition.
pub fn local_future_into_py_with_locals(
    ctx: &TaskContext,
    locals: TaskLocals,
    placeholder_obj: ObjectHandle,
) -> (r: (FutureBridge, SpawnRequest))
    requires
        ctx.in_local_executor(),
    ensures
        r.0.placeholder_obj() == placeholder_obj,
        r.0.placeholder() is Pending,
        r.0.task() is Running,
        r.0.locals() == locals,
        r.1 == (SpawnRequest { locals, kind: SpawnKind::Local }),
{
    (
        FutureBridge {
            placeholder_obj,
            placeholder: PlaceholderState::Pending,
            task: NativeTaskState::Running,
            locals,
        },
        SpawnRequest { locals, kind: SpawnKind::Local },
    )
}

/// Convert a thread-unsafe native future under the current context; the
/// local counterpart of [`future_into_py`].
pub fn local_future_into_py(
    ctx: &TaskContext,
    fresh: Result<TaskLocals, BridgeError>,
    placeholder_obj: ObjectHandle,
) -> (r: Result<(FutureBridge, SpawnRequest), BridgeError>)
    requires
        ctx.in_local_executor(),
    ensures
        ctx.current() is Some || fresh is Ok ==> r is Ok && r->Ok_0.0.placeholder_obj()
            == placeholder_obj && r->Ok_0.0.placeholder() is Pending && r->Ok_0.0.task() is Running
            && r->Ok_0.1.kind is Local,
        ctx.current() is Some ==> r is Ok && r->Ok_0.0.locals() == ctx.current()->Some_0,
        ctx.current() is None && fresh is Ok ==> r is Ok && r->Ok_0.0.locals() == fresh->Ok_0,
        ctx.current() is None && fresh is Err ==> r == Err::<(FutureBridge, SpawnRequest),
            BridgeError,
        >(fresh->Err_0),
{
    match crate::context::get_current_locals(ctx, fresh) {
        Ok(locals) => Ok(local_future_into_py_with_locals(ctx, locals, placeholder_obj)),
        Err(e) => Err(e),
    }
}

/// Convert a thread-unsafe native future attached to a bare loop handle;
/// the local counterpart of [`future_into_py_with_loop`], with the same
/// missing-context limitation.
pub fn local_future_into_py_with_loop(
    ctx: &TaskContext,
    event_loop: ObjectHandle,
    placeholder_obj: ObjectHandle,
) -> (r: (FutureBridge, SpawnRequest))
    requires
        ctx.in_local_executor(),
    ensures
        r.0.placeholder_obj() == placeholder_obj,
        r.0.placeholder() is Pending,
        r.0.task() is Running,
        r.0.locals() == (TaskLocals { event_loop, context: None::<ObjectHandle> }),
        r.1 == (SpawnRequest {
            locals: TaskLocals { event_loop, context: None::<ObjectHandle> },
            kind: SpawnKind::Local,
        }),
{
    local_future_into_py_with_locals(ctx, TaskLocals::new(event_loop), placeholder_obj)
}

/// The cancellable alias of [`local_future_into_py_with_loop`]; behaves
/// identically, cancellation wiring being the default.
pub fn local_cancellable_future_into_py_with_loop(
    ctx: &TaskContext,
    event_loop: ObjectHandle,
    placeholder_obj: ObjectHandle,
) -> (r: (FutureBridge, SpawnRequest))
    requires
        ctx.in_local_executor(),
    ensures
        r.0.placeholder_obj() == placeholder_obj,
        r.0.placeholder() is Pending,
        r.0.task() is Running,
        r.0.locals() == (TaskLocals { event_loop, context: None::<ObjectHandle> }),
        r.1 == (SpawnRequest {
            locals: TaskLocals { event_loop, context: None::<ObjectHandle> },
            kind: SpawnKind::Local,
        }),
{
    local_future_into_py_with_loop(ctx, event_loop, placeholder_obj)
}

/// The cancellable alias of [`local_future_into_py`]; behaves identically,
/// cancellation wiring being the default.
pub fn local_cancellable_future_into_py(
    ctx: &TaskContext,
    fresh: Result<TaskLocals, BridgeError>,
    placeholder_obj: ObjectHandle,
) -> (r: Result<(FutureBridge, SpawnRequest), BridgeError>)
    requires
        ctx.in_local_executor(),
    ensures
        ctx.current() is Some || fresh is Ok ==> r is Ok && r->Ok_0.0.placeholder_obj()
            == placeholder_obj && r->Ok_0.0.placeholder() is Pending && r->Ok_0.0.task() is Running
            && r->Ok_0.1.kind is Local,
        ctx.current() is Some ==> r is Ok && r->Ok_0.0.locals() == ctx.current()->Some_0,
        ctx.current() is None && fresh is Ok ==> r is Ok && r->Ok_0.0.locals() == fresh->Ok_0,
        ctx.current() is None && fresh is Err ==> r == Err::<(FutureBridge, SpawnRequest),
            BridgeError,
        >(fresh->Err_0),
{
    local_future_into_py(ctx, fresh, placeholder_obj)
}

/// The placeholder after the loop processed a queue of scheduled callbacks,
/// in order.
pub open spec fn run_callbacks(p: PlaceholderState, cbs: Seq<LoopCallback>) -> PlaceholderState
    decreases cbs.len(),
{
    if cbs.len() == 0 {
        p
    } else {
        run_callbacks(apply_callback(p, cbs[0]), cbs.skip(1))
    }
}

/// Law: a settled placeholder never changes again, whatever callbacks reach
/// the loop afterwards — late completions and repeated cancellations are
/// guarded no-ops.
pub proof fn lemma_settled_placeholder_is_stable(p: PlaceholderState, cbs: Seq<LoopCallback>)
    ensures
        !(p is Pending) ==> run_callbacks(p, cbs) == p,
    decreases cbs.len(),
{
    if cbs.len() > 0 {
        lemma_settled_placeholder_is_stable(apply_callback(p, cbs[0]), cbs.skip(1));
    }
}

/// Law: a native future that completes with value `v` resolves the
/// placeholder to exactly `v`, once the loop processes the scheduled
/// completion ahead of whatever follows it — the placeholder eventually
/// reflects the native value, and nothing can change it afterwards.
pub proof fn lemma_native_value_reaches_placeholder(v: ObjectHandle, later: Seq<LoopCallback>)
    ensures
        run_callbacks(
            apply_callback(PlaceholderState::Pending, outcome_callback(NativeOutcome::Success(v))),
            later,
        ) == PlaceholderState::Resolved(v),
{
    lemma_settled_placeholder_is_stable(PlaceholderState::Resolved(v), later);
}

/// Law: a host-side cancellation that beats the completion wins, and the
/// late completion is a no-op: the placeholder stays cancelled, whatever
/// the aborted native side still managed to schedule.
pub proof fn lemma_host_cancellation_wins(later: Seq<LoopCallback>)
    ensures
        run_callbacks(PlaceholderState::Cancelled, later) == PlaceholderState::Cancelled,
{
    lemma_settled_placeholder_is_stable(PlaceholderState::Cancelled, later);
}

} // verus!
