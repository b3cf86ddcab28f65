//! A verified core for bridging two asynchronous execution models: a host
//! interpreter that runs a single cooperative event loop under a global
//! exclusivity lock, and a native multi-threaded task scheduler.
//!
//! Values that stand for "eventually available results" flow across that
//! boundary in both directions:
//!
//! - a foreign awaitable becomes a native future through a one-shot
//!   completion channel ([`chan`]); the conversation-level protocol and its
//!   delivery laws live in [`awaitable`];
//! - a native future becomes a foreign future placeholder driven by a
//!   spawned native task, with cancellation wired in both directions
//!   ([`bridge`]).
//!
//! The process-wide loop registry lives in [`registry`], the ambient
//! task-local execution context in [`context`], the native scheduler cell
//! and the blocking entry points in [`runtime`], and the error taxonomy in
//! [`error`]. Foreign objects themselves are opaque here: the library
//! reasons about them by identity ([`object::ObjectHandle`]), and every
//! call that must touch one is handed back to the binding as an explicit
//! request, to be performed on the host loop under the exclusivity lock.

pub mod awaitable;
pub mod bridge;
pub mod chan;
pub mod context;
pub mod error;
pub mod object;
pub mod registry;
pub mod runtime;
