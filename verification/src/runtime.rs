//! What a Rust async runtime provides.

use crate::locals::TaskLocals;
use std::future::Future;
use vstd::prelude::*;

verus! {

/// Generic utilities for a JoinError
pub trait JoinError {
    /// Check if the spawned task exited because of a panic
    fn is_panic(&self) -> bool;
}

/// Generic Rust async/await runtime
pub trait Runtime {
    /// The error returned by a JoinHandle after being awaited
    type JoinError: JoinError + Send;

    /// A future that completes with the result of the spawned task
    type JoinHandle: Future<Output = Result<(), Self::JoinError>> + Send;

    /// Spawn a future onto this runtime's event loop
    fn spawn<F>(fut: F) -> Self::JoinHandle where F: Future<Output = ()> + Send + 'static;
}

/// Extension trait for async/await runtimes that support spawning local tasks
pub trait SpawnLocalExt: Runtime {
    /// Spawn a !Send future onto this runtime's event loop
    fn spawn_local<F>(fut: F) -> Self::JoinHandle where F: Future<Output = ()> + 'static;
}

/// Exposes the task-local data of the Runtime
pub trait ContextExt: Runtime {
    /// Get the task locals for the current task
    fn get_task_locals() -> Option<TaskLocals>;
}

} // verus!
