//! Running a plugin's asynchronous construction to completion, whether or not
//! the calling thread already has a tokio scheduler.

use vstd::prelude::*;
use std::sync::Arc;
use vstd::future::FutureAdditionalSpecFns;
use crate::config::Value;
use crate::napcat::current_thread_runtime;
use crate::plugin::PluginError;
use crate::scheduler::{blocking_plan, current_scheduler, is_multi_thread, run_on_blocking_pool, BlockingPlan};

verus! {

/// Where the construction runs.
#[derive(Debug, Clone, Copy, PartialEq, Eq, Structural)]
pub enum SchedulerPlan {
    /// On the scheduler that the calling thread is already in.
    ReuseCurrent,
    /// On a private single-threaded scheduler made for this one call and
    /// shut down when it returns.
    CreatePrivate,
}

/// The plan for a thread: reuse its scheduler where it has one, else start a
/// private one. A thread that has a scheduler never gets a second one.
pub fn plan_construction(scheduler_active: bool) -> (r: SchedulerPlan)
    ensures
        scheduler_active ==> r == SchedulerPlan::ReuseCurrent,
        !scheduler_active ==> r == SchedulerPlan::CreatePrivate,
{
    if scheduler_active {
        SchedulerPlan::ReuseCurrent
    } else {
        SchedulerPlan::CreatePrivate
    }
}

/// Relies on tokio's `Handle::block_on`: runs `work` on the handle's
/// scheduler and returns its output. tokio panics where the calling thread
/// drives a scheduler; the one caller reaches it only on a thread of the
/// scheduler's blocking pool, which drives none.
#[verifier::external_body]
fn block_on_handle<F: std::future::Future>(handle: &tokio::runtime::Handle, work: F) -> (r: F::Output)
    ensures
        r == work@,
{
    handle.block_on(work)
}

/// Relies on tokio's `Runtime::block_on`: runs `work` on the runtime and
/// returns its output; the runtime is dropped, and so shut down, before this
/// returns. tokio panics where the calling thread drives a scheduler; the
/// one caller reaches it only where the thread is in no scheduler's context.
#[verifier::external_body]
fn block_on_private<F: std::future::Future>(runtime: tokio::runtime::Runtime, work: F) -> (r: F::Output)
    ensures
        r == work@,
{
    runtime.block_on(work)
}

/// Runs `work` to completion and returns its output. Where the calling
/// thread is in no scheduler's context, on a private scheduler that lives for
/// this call only. Where it is in a multi-thread scheduler's context, on that
/// scheduler: `work` is driven from a thread of its blocking pool while the
/// calling thread waits. `None` where no scheduler can be used: the thread's
/// own is single-threaded (see `BlockingPlan::Refuse`), the result never
/// came back, or none was running and none could be started.
pub fn run_to_completion<O: Send + 'static, F: std::future::Future<Output = O> + Send + 'static>(work: F) -> (r: Option<O>)
    ensures
        r is Some ==> r->Some_0 == work@,
{
    let current = current_scheduler();
    match plan_construction(current.is_some()) {
        SchedulerPlan::ReuseCurrent => match current {
            Some(handle) => match blocking_plan(true, is_multi_thread(&handle)) {
                BlockingPlan::OnBlockingPool => {
                    let ghost expected = work@;
                    let waited = run_on_blocking_pool(&handle, move || -> (out: Option<O>)
                        ensures
                            out is Some ==> out->Some_0 == expected,
                        {
                            match current_scheduler() {
                                Some(reused) => Some(block_on_handle(&reused, work)),
                                None => None,
                            }
                        });
                    match waited {
                        Some(Some(output)) => Some(output),
                        _ => None,
                    }
                },
                _ => None,
            },
            None => {
                assert(false);
                None
            },
        },
        SchedulerPlan::CreatePrivate => match current_thread_runtime() {
            Ok(runtime) => Some(block_on_private(runtime, work)),
            Err(_) => None,
        },
    }
}

/// The plugin factory: hands the shared configuration to `create` and runs
/// the construction that it returns to completion, on whatever scheduler
/// the calling thread offers. `SchedulerUnavailable` only where no
/// scheduler can be used (see `run_to_completion`).
pub fn create_plugin<P, C, F>(config: Arc<Value>, create: C) -> (r: Result<P, PluginError>)
    where
        P: Send + 'static,
        C: FnOnce(Arc<Value>) -> F,
        F: std::future::Future<Output = Result<P, PluginError>> + Send + 'static,
    requires
        create.requires((config,)),
    ensures
        r matches Err(PluginError::SchedulerUnavailable) || exists|work: F|
            create.ensures((config,), work) && r == work@,
{
    let work = create(config);
    match run_to_completion(work) {
        Some(built) => built,
        None => Err(PluginError::SchedulerUnavailable),
    }
}

} // verus!
