//! The process-wide loop registry.
//!
//! The registry caches, once per process, the handles the bridge needs from
//! the host interpreter: the event loop, its task-wrapping function, its
//! thread-safe call scheduler, the executor installed for blocking calls,
//! the loop's future constructor and the coroutine module itself. The
//! binding fetches those handles under the exclusivity lock and hands the
//! result to [`LoopRegistry::try_init`], which installs it with
//! first-writer-wins semantics: once the registry is populated, every later
//! initialization attempt is a no-op that reports success, so racing
//! initializers converge on exactly one population.
//!
//! Reading the registry before initialization is a misuse of the API, not a
//! runtime condition, so the accessors require an initialized registry.

use crate::error::BridgeError;
use crate::object::ObjectHandle;
use vstd::prelude::*;

verus! {

/// The handles cached by an initialized registry, all referring to objects
/// owned by the host interpreter.
#[derive(Clone, Copy, PartialEq, Eq, Structural, Debug)]
pub struct HostHandles {
    /// The host coroutine / event-loop module.
    pub asyncio: ObjectHandle,
    /// The running host event loop.
    pub event_loop: ObjectHandle,
    /// The host function that wraps an awaitable into a task on the loop.
    pub ensure_future: ObjectHandle,
    /// The loop's thread-safe call scheduler, the only sanctioned way to
    /// reach foreign state from a native scheduler thread.
    pub call_soon: ObjectHandle,
    /// The executor installed as the loop's default executor for blocking
    /// calls.
    pub executor: ObjectHandle,
    /// The loop's constructor for fresh, unresolved future placeholders.
    pub create_future: ObjectHandle,
}

/// The foreign calls that shut the bridge down, in the order they must be
/// performed: first shut down the executor (blocking until its threads
/// drain), then stop the loop, then close it.
#[derive(Clone, Copy, PartialEq, Eq, Structural, Debug)]
pub struct ShutdownPlan {
    /// Call `shutdown` on this executor first and wait for it to drain.
    pub shutdown_executor: ObjectHandle,
    /// Then call `stop` on this loop.
    pub stop_loop: ObjectHandle,
    /// Then call `close` on the same loop.
    pub close_loop: ObjectHandle,
}

/// Process-wide storage for the host-loop handles, populated at most once.
pub struct LoopRegistry {
    cached: Option<HostHandles>,
}

impl LoopRegistry {
    /// What the registry holds: nothing before initialization, the first
    /// successfully installed handles afterwards.
    pub closed spec fn cache(&self) -> Option<HostHandles> {
        self.cached
    }

    /// Whether the registry has been populated.
    pub open spec fn initialized(&self) -> bool {
        self.cache() is Some
    }

    /// The cached handles, meaningful only once initialized.
    pub open spec fn handles(&self) -> HostHandles
        recommends
            self.initialized(),
    {
        self.cache()->Some_0
    }

    /// An empty registry: no loop has been cached yet.
    pub fn new() -> (r: LoopRegistry)
        ensures
            !r.initialized(),
    {
        LoopRegistry { cached: None }
    }

    /// Whether the registry has been populated.
    pub fn is_initialized(&self) -> (r: bool)
        ensures
            r == self.initialized(),
    {
        self.cached.is_some()
    }

    /// Install the result of fetching the host handles, idempotently.
    ///
    /// The first caller that arrives with successfully fetched handles
    /// populates the registry; everyone after that — including callers
    /// racing with the first — observes the cached result and succeeds
    /// without re-running any setup. A failed fetch leaves the registry
    /// untouched and is reported to its caller alone, so a later attempt
    /// may still initialize.
    pub fn try_init(&mut self, fetched: Result<HostHandles, BridgeError>) -> (r: Result<
        (),
        BridgeError,
    >)
        ensures
            final(self).cache() == try_init_transition(old(self).cache(), fetched),
            old(self).initialized() ==> r is Ok && final(self).cache() == old(self).cache(),
            !old(self).initialized() && fetched is Ok ==> r is Ok && final(self).cache() == Some(
                fetched->Ok_0,
            ),
            !old(self).initialized() && fetched is Err ==> r == Err::<(), BridgeError>(
                fetched->Err_0,
            ) && final(self).cache() == old(self).cache(),
    {
        match self.cached {
            Some(_) => Ok(()),
            None => {
                match fetched {
                    Ok(handles) => {
                        self.cached = Some(handles);
                        Ok(())
                    },
                    Err(e) => Err(e),
                }
            },
        }
    }

    /// The cached host event loop.
    pub fn get_event_loop(&self) -> (r: ObjectHandle)
        requires
            self.initialized(),
        ensures
            r == self.handles().event_loop,
    {
        self.cached.unwrap().event_loop
    }

    /// The cached task-wrapping function of the host loop.
    pub fn ensure_future(&self) -> (r: ObjectHandle)
        requires
            self.initialized(),
        ensures
            r == self.handles().ensure_future,
    {
        self.cached.unwrap().ensure_future
    }

    /// The cached thread-safe call scheduler of the host loop.
    pub fn call_soon(&self) -> (r: ObjectHandle)
        requires
            self.initialized(),
        ensures
            r == self.handles().call_soon,
    {
        self.cached.unwrap().call_soon
    }

    /// The cached coroutine module of the host.
    pub fn asyncio(&self) -> (r: ObjectHandle)
        requires
            self.initialized(),
        ensures
            r == self.handles().asyncio,
    {
        self.cached.unwrap().asyncio
    }

    /// The cached future constructor of the host loop.
    pub fn create_future(&self) -> (r: ObjectHandle)
        requires
            self.initialized(),
        ensures
            r == self.handles().create_future,
    {
        self.cached.unwrap().create_future
    }

    /// The foreign calls that tear the bridge down, in order. Calling this
    /// before initialization is a programming error by design: shutdown
    /// assumes the registry is already populated. The registry itself stays
    /// populated; only the foreign loop and executor are affected.
    pub fn try_close(&self) -> (plan: ShutdownPlan)
        requires
            self.initialized(),
        ensures
            plan.shutdown_executor == self.handles().executor,
            plan.stop_loop == self.handles().event_loop,
            plan.close_loop == self.handles().event_loop,
    {
        let handles = self.cached.unwrap();
        ShutdownPlan {
            shutdown_executor: handles.executor,
            stop_loop: handles.event_loop,
            close_loop: handles.event_loop,
        }
    }

    /// The loop to drive when running forever; requires an initialized
    /// registry, like every other accessor.
    pub fn run_forever(&self) -> (r: ObjectHandle)
        requires
            self.initialized(),
        ensures
            r == self.handles().event_loop,
    {
        self.get_event_loop()
    }
}

/// How one initialization attempt changes the cache: the first successful
/// fetch wins, everything later leaves the cache alone.
pub open spec fn try_init_transition(
    cache: Option<HostHandles>,
    fetched: Result<HostHandles, BridgeError>,
) -> Option<HostHandles> {
    if cache is Some {
        cache
    } else {
        match fetched {
            Ok(handles) => Some(handles),
            Err(_) => None,
        }
    }
}

/// The cache left by a sequence of initialization attempts, applied in the
/// order the attempts reach the set-once cell. Concurrent initializers are
/// serialized by that cell, so an arbitrary sequence covers every
/// interleaving of racing threads.
pub open spec fn run_inits(
    cache: Option<HostHandles>,
    attempts: Seq<Result<HostHandles, BridgeError>>,
) -> Option<HostHandles>
    decreases attempts.len(),
{
    if attempts.len() == 0 {
        cache
    } else {
        run_inits(try_init_transition(cache, attempts[0]), attempts.skip(1))
    }
}

/// The first successfully fetched handles in a sequence of attempts, if any
/// attempt succeeded.
pub open spec fn first_successful_fetch(attempts: Seq<Result<HostHandles, BridgeError>>) -> Option<
    HostHandles,
>
    decreases attempts.len(),
{
    if attempts.len() == 0 {
        None
    } else {
        match attempts[0] {
            Ok(h) => Some(h),
            Err(_) => first_successful_fetch(attempts.skip(1)),
        }
    }
}

/// Law: a populated registry is never repopulated. However many
/// initialization attempts follow, with whatever results, the cache keeps
/// the handles it holds — so every reader after the first population sees
/// the same event loop.
pub proof fn lemma_population_is_stable(
    h: HostHandles,
    attempts: Seq<Result<HostHandles, BridgeError>>,
)
    ensures
        run_inits(Some(h), attempts) == Some(h),
    decreases attempts.len(),
{
    if attempts.len() > 0 {
        lemma_population_is_stable(h, attempts.skip(1));
    }
}

/// Law: initialization attempts racing on an empty registry result in
/// exactly one population, holding the handles of the first successful
/// fetch; failed attempts do not count and later successes are ignored.
pub proof fn lemma_exactly_one_population(attempts: Seq<Result<HostHandles, BridgeError>>)
    ensures
        run_inits(None, attempts) == first_successful_fetch(attempts),
    decreases attempts.len(),
{
    if attempts.len() > 0 {
        match attempts[0] {
            Ok(h) => {
                lemma_population_is_stable(h, attempts.skip(1));
            },
            Err(_) => {
                lemma_exactly_one_population(attempts.skip(1));
            },
        }
    }
}

/// What driving the loop forever amounts to: a host-level interrupt signal
/// raised while the loop runs is normal termination, any other foreign
/// exception is forwarded.
pub open spec fn run_forever_verdict(
    outcome: Result<(), ObjectHandle>,
    is_keyboard_interrupt: bool,
) -> Result<(), BridgeError> {
    match outcome {
        Ok(_) => Ok(()),
        Err(e) => if is_keyboard_interrupt {
            Ok(())
        } else {
            Err(BridgeError::Foreign(e))
        },
    }
}

/// Classify the outcome of driving the loop forever, as
/// [`run_forever_verdict`] says.
pub fn classify_run_forever(outcome: Result<(), ObjectHandle>, is_keyboard_interrupt: bool) -> (r:
    Result<(), BridgeError>)
    ensures
        r == run_forever_verdict(outcome, is_keyboard_interrupt),
{
    match outcome {
        Ok(()) => Ok(()),
        Err(e) => {
            if is_keyboard_interrupt {
                Ok(())
            } else {
                Err(BridgeError::Foreign(e))
            }
        },
    }
}

/// Finish a bracketed run of the bridge: given what the user code returned,
/// decide whether shutdown runs. Shutdown is only attempted when the body
/// succeeded — a failing body deliberately leaves the loop running so the
/// caller can inspect the host error state before any forced teardown.
pub fn with_runtime_finish<R>(registry: &LoopRegistry, body: Result<R, BridgeError>) -> (r: (
    Result<R, BridgeError>,
    Option<ShutdownPlan>,
))
    requires
        registry.initialized(),
    ensures
        r.0 == body,
        body is Ok ==> r.1 is Some,
        body is Ok ==> r.1->Some_0.shutdown_executor == registry.handles().executor,
        body is Ok ==> r.1->Some_0.stop_loop == registry.handles().event_loop,
        body is Ok ==> r.1->Some_0.close_loop == registry.handles().event_loop,
        body is Err ==> r.1 is None,
{
    match body {
        Ok(value) => {
            let plan = registry.try_close();
            (Ok(value), Some(plan))
        },
        Err(e) => (Err(e), None),
    }
}

} // verus!
