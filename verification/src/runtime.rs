//! The native scheduler cell and the blocking entry points built on it.
//!
//! The bridge does not implement a scheduler; it keeps one process-wide
//! native runtime, built lazily from a configurable builder. Reconfiguring
//! is only effective before the first build: once built, the runtime is
//! cached and every later request observes the same one.
//!
//! [`run_until_complete`] and [`run`] are the blocking entry points: they
//! convert a native future and hand back what the binding must do — spawn
//! the driving task and drive the host loop until the placeholder settles.

use crate::bridge::FutureBridge;
use crate::bridge::SpawnRequest;
use crate::bridge::future_into_py_with_locals;
use crate::object::ObjectHandle;
use crate::object::TaskLocals;
use crate::registry::LoopRegistry;
use vstd::prelude::*;

verus! {

/// Which scheduler the builder configures.
#[derive(Clone, Copy, PartialEq, Eq, Structural, Debug)]
pub enum RuntimeFlavor {
    /// A multi-threaded, work-stealing scheduler.
    MultiThread,
    /// A scheduler confined to the current thread.
    CurrentThread,
}

/// The configuration the native runtime is built from.
#[derive(Clone, Copy, PartialEq, Eq, Structural, Debug)]
pub struct RuntimeBuilder {
    /// The scheduler flavor to build.
    pub flavor: RuntimeFlavor,
}

/// The default configuration: a multi-threaded scheduler with all drivers
/// enabled.
pub fn multi_thread() -> (b: RuntimeBuilder)
    ensures
        b.flavor is MultiThread,
{
    RuntimeBuilder { flavor: RuntimeFlavor::MultiThread }
}

/// Identity of a built native runtime.
#[derive(Clone, Copy, PartialEq, Eq, Structural, Debug)]
pub struct RuntimeHandle {
    /// Identity: equal ids refer to the same built runtime.
    pub id: u64,
}

/// The process-wide cell holding the native runtime: a builder until the
/// first request, the built runtime from then on.
pub struct RuntimeCell {
    builder: RuntimeBuilder,
    runtime: Option<RuntimeHandle>,
}

impl RuntimeCell {
    /// The current builder configuration.
    pub closed spec fn builder(&self) -> RuntimeBuilder {
        self.builder
    }

    /// The built runtime, once one exists.
    pub closed spec fn runtime(&self) -> Option<RuntimeHandle> {
        self.runtime
    }

    /// A fresh cell: the default multi-threaded builder, nothing built yet.
    pub fn new() -> (r: RuntimeCell)
        ensures
            r.builder().flavor is MultiThread,
            r.runtime() is None,
    {
        RuntimeCell { builder: multi_thread(), runtime: None }
    }

    /// Replace the builder with a custom configuration. Reconfiguring after
    /// the runtime was built changes nothing about the built runtime: the
    /// cell keeps serving it.
    pub fn init(&mut self, builder: RuntimeBuilder)
        ensures
            final(self).builder() == builder,
            final(self).runtime() == old(self).runtime(),
    {
        self.builder = builder;
    }

    /// The process-wide runtime. The first request installs `fresh` — the
    /// runtime the binding built from the current builder — and every later
    /// request observes that same runtime, whatever was built or configured
    /// since.
    pub fn get_runtime(&mut self, fresh: RuntimeHandle) -> (r: RuntimeHandle)
        ensures
            old(self).runtime() is Some ==> r == old(self).runtime()->Some_0 && *final(self)
                == *old(self),
            old(self).runtime() is None ==> r == fresh && final(self).runtime() == Some(fresh)
                && final(self).builder() == old(self).builder(),
    {
        match self.runtime {
            Some(handle) => handle,
            None => {
                self.runtime = Some(fresh);
                fresh
            },
        }
    }
}

/// A request to drive the host loop until a placeholder settles, blocking
/// the calling thread.
#[derive(Clone, Copy, PartialEq, Eq, Structural, Debug)]
pub struct RunRequest {
    /// The host loop to drive.
    pub event_loop: ObjectHandle,
    /// The placeholder whose settlement ends the run.
    pub placeholder: ObjectHandle,
}

/// Drive the host loop until the given native future completes: convert it
/// into a placeholder bound to `event_loop` under a snapshot carrying
/// `context` (a copy of the current host context variables, fetched by the
/// binding), and request that the loop be driven until that placeholder
/// settles.
pub fn run_until_complete(
    event_loop: ObjectHandle,
    context: Option<ObjectHandle>,
    placeholder_obj: ObjectHandle,
) -> (r: (FutureBridge, SpawnRequest, RunRequest))
    ensures
        r.0.placeholder_obj() == placeholder_obj,
        r.0.placeholder() is Pending,
        r.0.task() is Running,
        r.0.locals() == (TaskLocals { event_loop, context }),
        r.1.locals == (TaskLocals { event_loop, context }),
        r.1.kind is ThreadSafe,
        r.2 == (RunRequest { event_loop, placeholder: placeholder_obj }),
{
    let locals = TaskLocals { event_loop, context };
    let (bridge, spawn) = future_into_py_with_locals(locals, placeholder_obj);
    (bridge, spawn, RunRequest { event_loop, placeholder: placeholder_obj })
}

/// Drive the registry's cached loop until the given native future
/// completes; [`run_until_complete`] on the process-wide loop.
pub fn run(
    registry: &LoopRegistry,
    context: Option<ObjectHandle>,
    placeholder_obj: ObjectHandle,
) -> (r: (FutureBridge, SpawnRequest, RunRequest))
    requires
        registry.initialized(),
    ensures
        r.0.placeholder_obj() == placeholder_obj,
        r.0.placeholder() is Pending,
        r.0.task() is Running,
        r.0.locals() == (TaskLocals { event_loop: registry.handles().event_loop, context }),
        r.1.locals == (TaskLocals { event_loop: registry.handles().event_loop, context }),
        r.1.kind is ThreadSafe,
        r.2 == (RunRequest {
            event_loop: registry.handles().event_loop,
            placeholder: placeholder_obj,
        }),
{
    run_until_complete(registry.get_event_loop(), context, placeholder_obj)
}

} // verus!
