//! Spawning the private agent driver onto the Tokio runtime of the caller.

use std::future::Future;

use vstd::prelude::*;

use crate::error::PicocodexError;

verus! {

#[verifier::external_type_specification]
#[verifier::external_body]
pub struct ExRuntimeHandle(tokio::runtime::Handle);

/// Calls `tokio::runtime::Handle::try_current` and keeps the handle when the
/// calling thread is inside a Tokio runtime. Whether it is depends on the
/// thread's context, not on anything passed in, so nothing is promised of the
/// outcome.
#[verifier::external_body]
fn current_runtime() -> (runtime: Option<tokio::runtime::Handle>) {
    tokio::runtime::Handle::try_current().ok()
}

/// Calls `tokio::runtime::Handle::spawn`, which hands the driver to the
/// runtime's executor and returns a join handle; the handle is dropped, which
/// detaches the task. Nothing here is observable to the caller.
#[verifier::external_body]
fn spawn_detached<F>(runtime: &tokio::runtime::Handle, driver: F) where
    F: Future<Output = ()> + Send + 'static,
 {
    drop(runtime.spawn(driver));
}

/// What spawning decides from the runtime that the calling thread is in:
/// the runtime to spawn onto, or `TokioRuntimeUnavailable` when there is none.
pub fn require_runtime(runtime: Option<tokio::runtime::Handle>) -> (outcome: Result<
    tokio::runtime::Handle,
    PicocodexError,
>)
    ensures
        runtime is Some <==> outcome is Ok,
        runtime matches Some(handle) ==> outcome == Ok::<tokio::runtime::Handle, PicocodexError>(handle),
        runtime is None ==> outcome matches Err(PicocodexError::TokioRuntimeUnavailable),
{
    match runtime {
        Some(handle) => Ok(handle),
        None => Err(PicocodexError::TokioRuntimeUnavailable),
    }
}

/// The runtime of the calling thread, or `TokioRuntimeUnavailable` outside any
/// Tokio runtime.
pub fn current_runtime_or_error() -> (outcome: Result<tokio::runtime::Handle, PicocodexError>)
    ensures
        outcome is Ok || outcome matches Err(PicocodexError::TokioRuntimeUnavailable),
{
    require_runtime(current_runtime())
}

/// Spawns the private agent driver onto the caller's Tokio runtime and detaches
/// it. Fails with `TokioRuntimeUnavailable`, spawning nothing, outside a runtime.
pub fn spawn_driver<F>(driver: F) -> (outcome: Result<(), PicocodexError>) where
    F: Future<Output = ()> + Send + 'static,

    ensures
        outcome is Ok || outcome matches Err(PicocodexError::TokioRuntimeUnavailable),
{
    let runtime = current_runtime_or_error()?;
    spawn_detached(&runtime, driver);
    Ok(())
}

} // verus!
