//! Tests of the process-wide loop registry: idempotent initialization,
//! accessors, shutdown ordering, and the bracketed-run asymmetry.

use pyo3_asyncio::error::BridgeError;
use pyo3_asyncio::object::ObjectHandle;
use pyo3_asyncio::registry::classify_run_forever;
use pyo3_asyncio::registry::with_runtime_finish;
use pyo3_asyncio::registry::HostHandles;
use pyo3_asyncio::registry::LoopRegistry;

fn handles(base: u64) -> HostHandles {
    HostHandles {
        asyncio: ObjectHandle { id: base },
        event_loop: ObjectHandle { id: base + 1 },
        ensure_future: ObjectHandle { id: base + 2 },
        call_soon: ObjectHandle { id: base + 3 },
        executor: ObjectHandle { id: base + 4 },
        create_future: ObjectHandle { id: base + 5 },
    }
}

/// Initializing twice in a row: the second call succeeds without re-running
/// the setup — the cached handles, the executor among them, stay exactly
/// those of the first call.
#[test]
fn test_init_twice() {
    let mut registry = LoopRegistry::new();
    assert!(!registry.is_initialized());
    assert!(registry.try_init(Ok(handles(100))).is_ok());
    assert!(registry.is_initialized());
    let first_loop = registry.get_event_loop();

    // The second attempt arrives with different handles; none of them are
    // installed, and no duplicate executor appears.
    assert!(registry.try_init(Ok(handles(200))).is_ok());
    assert_eq!(registry.get_event_loop(), first_loop);
    assert_eq!(registry.try_close().shutdown_executor, ObjectHandle { id: 104 });
}

/// Racing initializers converge on the first successful population; a
/// failed fetch is reported to its caller alone and a later attempt may
/// still initialize.
#[test]
fn test_first_writer_wins() {
    let mut registry = LoopRegistry::new();
    assert_eq!(
        registry.try_init(Err(BridgeError::Initialization)),
        Err(BridgeError::Initialization)
    );
    assert!(!registry.is_initialized());

    assert!(registry.try_init(Ok(handles(10))).is_ok());
    assert!(registry.try_init(Ok(handles(20))).is_ok());
    assert!(registry.try_init(Err(BridgeError::Initialization)).is_ok());
    assert_eq!(registry.get_event_loop(), ObjectHandle { id: 11 });
    assert_eq!(registry.call_soon(), ObjectHandle { id: 13 });
    assert_eq!(registry.ensure_future(), ObjectHandle { id: 12 });
    assert_eq!(registry.asyncio(), ObjectHandle { id: 10 });
    assert_eq!(registry.create_future(), ObjectHandle { id: 15 });
}

/// Shutdown touches the cached executor first, then stops and closes the
/// cached loop.
#[test]
fn test_try_close_plan() {
    let mut registry = LoopRegistry::new();
    registry.try_init(Ok(handles(0))).unwrap();
    let plan = registry.try_close();
    assert_eq!(plan.shutdown_executor, ObjectHandle { id: 4 });
    assert_eq!(plan.stop_loop, ObjectHandle { id: 1 });
    assert_eq!(plan.close_loop, ObjectHandle { id: 1 });
    // The registry itself stays populated after a close.
    assert!(registry.is_initialized());
    assert_eq!(registry.run_forever(), ObjectHandle { id: 1 });
}

/// A host-level interrupt while the loop runs forever is normal
/// termination; any other foreign exception is forwarded.
#[test]
fn test_run_forever_interrupt_is_normal() {
    assert_eq!(classify_run_forever(Ok(()), false), Ok(()));
    assert_eq!(classify_run_forever(Err(ObjectHandle { id: 9 }), true), Ok(()));
    assert_eq!(
        classify_run_forever(Err(ObjectHandle { id: 9 }), false),
        Err(BridgeError::Foreign(ObjectHandle { id: 9 }))
    );
}

/// A bracketed run only tears the loop down when the body succeeded: a
/// failing body deliberately leaves the loop running.
#[test]
fn test_with_runtime_close_asymmetry() {
    let mut registry = LoopRegistry::new();
    registry.try_init(Ok(handles(50))).unwrap();

    let (ok_result, plan) = with_runtime_finish(&registry, Ok(41_u64));
    assert_eq!(ok_result, Ok(41));
    let plan = plan.expect("a successful body is followed by shutdown");
    assert_eq!(plan.shutdown_executor, ObjectHandle { id: 54 });
    assert_eq!(plan.stop_loop, ObjectHandle { id: 51 });

    let failed: Result<u64, BridgeError> =
        Err(BridgeError::Foreign(ObjectHandle { id: 7 }));
    let (err_result, plan) = with_runtime_finish(&registry, failed);
    assert_eq!(err_result, Err(BridgeError::Foreign(ObjectHandle { id: 7 })));
    assert!(plan.is_none());
}
