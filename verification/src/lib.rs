//! Verified core of an asynchronous binding to a callback-driven storage engine.
//!
//! The crate holds the part of such a binding that decides: the one-shot
//! completion slot that carries a native callback's result to a suspended
//! computation, the bridge that turns "issue a native call, be called back once"
//! into a pollable operation, and the task executor that hosts computations on a
//! reactor driven by pollers. Every function here is a plain state transition;
//! the native calls themselves are made by the surrounding program, which does
//! to the native reactor what these functions do to their record of it.
//!
//! - [`slab`]: a table of values under generation-checked keys.
//! - [`reactor`]: the poller table of a reactor, and which pollers are due.
//! - [`waker`]: the wake token, the resume signal of a poller.
//! - [`complete`]: the completion slot.
//! - [`error`]: failures of native operations, and how status codes are read.
//! - [`bridge`]: one awaited native operation.
//! - [`executor`]: tasks, join handles and the root task.
//! - [`blob`], [`engine`], [`opts`]: the plain values of the storage side, and
//!   the order of the requests of the storage engine's operations.

pub mod blob;
pub mod bridge;
pub mod complete;
pub mod engine;
pub mod error;
pub mod executor;
pub mod opts;
pub mod reactor;
pub mod slab;
pub mod waker;
