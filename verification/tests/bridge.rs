//! Tests of the native-future to foreign-placeholder conversion: the value
//! round trip, bidirectional cancellation, the guarded no-ops, and the
//! local-variant capability marker.

use pyo3_asyncio::bridge::cancellable_future_into_py;
use pyo3_asyncio::bridge::cancellable_future_into_py_with_loop;
use pyo3_asyncio::bridge::future_into_py;
use pyo3_asyncio::bridge::future_into_py_with_locals;
use pyo3_asyncio::bridge::future_into_py_with_loop;
use pyo3_asyncio::bridge::local_cancellable_future_into_py;
use pyo3_asyncio::bridge::local_cancellable_future_into_py_with_loop;
use pyo3_asyncio::bridge::local_future_into_py;
use pyo3_asyncio::bridge::local_future_into_py_with_locals;
use pyo3_asyncio::bridge::local_future_into_py_with_loop;
use pyo3_asyncio::bridge::LoopCallback;
use pyo3_asyncio::bridge::NativeOutcome;
use pyo3_asyncio::bridge::NativeTaskState;
use pyo3_asyncio::bridge::PlaceholderState;
use pyo3_asyncio::bridge::SpawnKind;
use pyo3_asyncio::context::TaskContext;
use pyo3_asyncio::error::BridgeError;
use pyo3_asyncio::object::ObjectHandle;
use pyo3_asyncio::object::TaskLocals;

fn locals() -> TaskLocals {
    TaskLocals::new(ObjectHandle { id: 2 }).with_context(ObjectHandle { id: 3 })
}

fn placeholder() -> ObjectHandle {
    ObjectHandle { id: 90 }
}

/// A native future that sleeps one time-unit and returns a value: the
/// placeholder is handed back immediately and unresolved, stays pending
/// while the native side runs, and reflects exactly the value once the loop
/// processes the scheduled completion — after at least one time-unit.
#[test]
fn test_future_into_py() {
    let (mut bridge, spawn) = future_into_py_with_locals(locals(), placeholder());
    assert_eq!(spawn.locals, locals());
    assert_eq!(spawn.kind, SpawnKind::ThreadSafe);
    assert_eq!(bridge.placeholder_state(), PlaceholderState::Pending);
    assert_eq!(bridge.task_state(), NativeTaskState::Running);

    let mut ticks: u64 = 0;
    // One time-unit of native sleeping passes before the inner future
    // completes with 42.
    ticks += 1;
    let cb = bridge.on_native_done(NativeOutcome::Success(ObjectHandle { id: 42 }));
    assert_eq!(cb, LoopCallback::SetResult(ObjectHandle { id: 42 }));
    assert_eq!(bridge.task_state(), NativeTaskState::Finished);

    // The loop runs the scheduled callback on its own thread.
    bridge.on_loop_callback(cb);
    assert!(ticks >= 1);
    assert_eq!(
        bridge.placeholder_state(),
        PlaceholderState::Resolved(ObjectHandle { id: 42 })
    );
}

/// A native failure rejects the placeholder with the exception object,
/// carried opaquely.
#[test]
fn test_native_failure_rejects_placeholder() {
    let (mut bridge, _) = future_into_py_with_locals(locals(), placeholder());
    let cb = bridge.on_native_done(NativeOutcome::Failure(ObjectHandle { id: 66 }));
    assert_eq!(cb, LoopCallback::SetException(ObjectHandle { id: 66 }));
    bridge.on_loop_callback(cb);
    assert_eq!(
        bridge.placeholder_state(),
        PlaceholderState::Rejected(ObjectHandle { id: 66 })
    );
}

/// Cancelling the placeholder from the host before the native future
/// completes aborts the native execution within the same step, and a late
/// completion is a guarded no-op.
#[test]
fn test_host_cancel_aborts_native_task() {
    let (mut bridge, _) = future_into_py_with_locals(locals(), placeholder());
    let abort = bridge.on_host_cancel();
    assert!(abort);
    assert_eq!(bridge.task_state(), NativeTaskState::Aborted);
    assert_eq!(bridge.placeholder_state(), PlaceholderState::Cancelled);

    // Whatever the aborted native side still scheduled changes nothing.
    bridge.on_loop_callback(LoopCallback::SetResult(ObjectHandle { id: 1 }));
    assert_eq!(bridge.placeholder_state(), PlaceholderState::Cancelled);
}

/// A native task that observes its own cancellation schedules a guarded
/// cancellation of the placeholder.
#[test]
fn test_native_abort_cancels_placeholder() {
    let (mut bridge, _) = future_into_py_with_locals(locals(), placeholder());
    let cb = bridge.on_native_done(NativeOutcome::Cancelled);
    assert_eq!(cb, LoopCallback::CancelPlaceholder);
    assert_eq!(bridge.task_state(), NativeTaskState::Aborted);
    bridge.on_loop_callback(cb);
    assert_eq!(bridge.placeholder_state(), PlaceholderState::Cancelled);
}

/// A host cancellation after the task already finished has nothing left to
/// abort.
#[test]
fn test_host_cancel_after_completion_aborts_nothing() {
    let (mut bridge, _) = future_into_py_with_locals(locals(), placeholder());
    let cb = bridge.on_native_done(NativeOutcome::Success(ObjectHandle { id: 5 }));
    // The completion callback has not run yet: the placeholder is still
    // pending and the host may still cancel it.
    let abort = bridge.on_host_cancel();
    assert!(!abort);
    assert_eq!(bridge.task_state(), NativeTaskState::Finished);
    // The late completion is a guarded no-op.
    bridge.on_loop_callback(cb);
    assert_eq!(bridge.placeholder_state(), PlaceholderState::Cancelled);
}

/// The ambient-context entry point uses the scoped snapshot when one is
/// installed and the fresh one otherwise; it fails exactly when neither is
/// available.
#[test]
fn test_future_into_py_context_choice() {
    let mut ctx = TaskContext::new();
    let fresh = TaskLocals::new(ObjectHandle { id: 7 });

    let (bridge, spawn) = future_into_py(&ctx, Ok(fresh), placeholder()).unwrap();
    assert_eq!(spawn.locals, fresh);
    assert_eq!(bridge.placeholder_state(), PlaceholderState::Pending);

    ctx.scope(locals());
    let (_, spawn) = future_into_py(&ctx, Ok(fresh), placeholder()).unwrap();
    assert_eq!(spawn.locals, locals());
    ctx.scope_exit();

    let failed = future_into_py(&ctx, Err(BridgeError::Initialization), placeholder());
    assert!(matches!(failed, Err(BridgeError::Initialization)));

    let cancellable = cancellable_future_into_py(&ctx, Ok(fresh), placeholder()).unwrap();
    assert_eq!(cancellable.1.locals, fresh);
}

/// The loop-based surface derives a snapshot with no ambient context: the
/// documented limitation of the surviving dual API.
#[test]
fn test_future_into_py_with_loop_has_no_context() {
    let event_loop = ObjectHandle { id: 31 };
    let (bridge, spawn) = future_into_py_with_loop(event_loop, placeholder());
    assert_eq!(spawn.locals.event_loop(), event_loop);
    assert_eq!(spawn.locals.context(), None);
    assert_eq!(bridge.placeholder_state(), PlaceholderState::Pending);

    let (_, spawn) = cancellable_future_into_py_with_loop(event_loop, placeholder());
    assert_eq!(spawn.locals.event_loop(), event_loop);
    assert_eq!(spawn.kind, SpawnKind::ThreadSafe);
}

/// The thread-unsafe variants spawn onto the local execution context and
/// are only usable while one is active.
#[test]
fn test_local_variants_spawn_locally() {
    let mut ctx = TaskContext::new();
    ctx.enter_local_executor();

    let (_, spawn) = local_future_into_py_with_locals(&ctx, locals(), placeholder());
    assert_eq!(spawn.kind, SpawnKind::Local);
    assert_eq!(spawn.locals, locals());

    let (_, spawn) = local_future_into_py_with_loop(&ctx, ObjectHandle { id: 8 }, placeholder());
    assert_eq!(spawn.kind, SpawnKind::Local);
    assert_eq!(spawn.locals.context(), None);

    let (_, spawn) =
        local_cancellable_future_into_py_with_loop(&ctx, ObjectHandle { id: 8 }, placeholder());
    assert_eq!(spawn.kind, SpawnKind::Local);

    let fresh = TaskLocals::new(ObjectHandle { id: 9 });
    let (_, spawn) = local_future_into_py(&ctx, Ok(fresh), placeholder()).unwrap();
    assert_eq!(spawn.kind, SpawnKind::Local);
    assert_eq!(spawn.locals, fresh);

    let (_, spawn) = local_cancellable_future_into_py(&ctx, Ok(fresh), placeholder()).unwrap();
    assert_eq!(spawn.kind, SpawnKind::Local);
}
