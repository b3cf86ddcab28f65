//! Tests of the native scheduler cell and the blocking entry points.

use pyo3_asyncio::error::classify_join_failure;
use pyo3_asyncio::error::BridgeError;
use pyo3_asyncio::object::ObjectHandle;
use pyo3_asyncio::registry::HostHandles;
use pyo3_asyncio::registry::LoopRegistry;
use pyo3_asyncio::runtime::multi_thread;
use pyo3_asyncio::runtime::run;
use pyo3_asyncio::runtime::run_until_complete;
use pyo3_asyncio::runtime::RuntimeBuilder;
use pyo3_asyncio::runtime::RuntimeCell;
use pyo3_asyncio::runtime::RuntimeFlavor;
use pyo3_asyncio::runtime::RuntimeHandle;

/// Requesting the runtime twice serves the same runtime: the first build
/// wins and reinitialization causes no problem.
#[test]
fn test_init_tokio_twice() {
    let mut cell = RuntimeCell::new();
    let first = cell.get_runtime(RuntimeHandle { id: 1 });
    assert_eq!(first, RuntimeHandle { id: 1 });
    let second = cell.get_runtime(RuntimeHandle { id: 2 });
    assert_eq!(second, first);

    // Reconfiguring after the build changes nothing about the built
    // runtime.
    cell.init(RuntimeBuilder { flavor: RuntimeFlavor::CurrentThread });
    assert_eq!(cell.get_runtime(RuntimeHandle { id: 3 }), first);
}

/// A custom builder installed before the first build is the one the build
/// uses; the default is the multi-threaded scheduler.
#[test]
fn test_custom_builder_before_build() {
    assert_eq!(multi_thread().flavor, RuntimeFlavor::MultiThread);
    let mut cell = RuntimeCell::new();
    cell.init(RuntimeBuilder { flavor: RuntimeFlavor::CurrentThread });
    let built = cell.get_runtime(RuntimeHandle { id: 4 });
    assert_eq!(built, RuntimeHandle { id: 4 });
}

/// Driving the loop until a converted future completes: the conversion is
/// bound to the given loop and the run targets the placeholder.
#[test]
fn test_run_until_complete_plan() {
    let event_loop = ObjectHandle { id: 5 };
    let context = Some(ObjectHandle { id: 6 });
    let placeholder = ObjectHandle { id: 7 };
    let (bridge, spawn, request) = run_until_complete(event_loop, context, placeholder);
    assert_eq!(spawn.locals.event_loop(), event_loop);
    assert_eq!(spawn.locals.context(), context);
    assert_eq!(request.event_loop, event_loop);
    assert_eq!(request.placeholder, placeholder);
    assert_eq!(
        bridge.placeholder_state(),
        pyo3_asyncio::bridge::PlaceholderState::Pending
    );
}

/// The process-wide run drives the registry's cached loop.
#[test]
fn test_run_uses_registry_loop() {
    let mut registry = LoopRegistry::new();
    registry
        .try_init(Ok(HostHandles {
            asyncio: ObjectHandle { id: 1 },
            event_loop: ObjectHandle { id: 2 },
            ensure_future: ObjectHandle { id: 3 },
            call_soon: ObjectHandle { id: 4 },
            executor: ObjectHandle { id: 5 },
            create_future: ObjectHandle { id: 6 },
        }))
        .unwrap();
    let (_, spawn, request) = run(&registry, None, ObjectHandle { id: 9 });
    assert_eq!(spawn.locals.event_loop(), ObjectHandle { id: 2 });
    assert_eq!(request.event_loop, ObjectHandle { id: 2 });
}

/// Join failures are classified: a panicked task surfaces as an exception
/// at the host boundary, an aborted one as a cancellation.
#[test]
fn test_join_failure_classification() {
    assert_eq!(classify_join_failure(true), BridgeError::JoinPanic);
    assert_eq!(classify_join_failure(false), BridgeError::Cancelled);
}
