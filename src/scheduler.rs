//! Waiting for work that runs on a tokio scheduler, from a thread that may
//! itself be driving a scheduler. The work goes to a thread of a runtime's
//! blocking pool and the caller waits on a plain channel, which tokio does
//! not police; the caller's own scheduler is never blocked on from within.

use vstd::prelude::*;

verus! {

#[verifier::external_type_specification]
#[verifier::external_body]
pub struct ExHandle(tokio::runtime::Handle);

/// How the calling thread can wait for work that needs its scheduler.
#[derive(Debug, Clone, Copy, PartialEq, Eq, Structural)]
pub enum BlockingPlan {
    /// The thread is in no scheduler's context: run the work here.
    RunHere,
    /// The thread is in a multi-thread scheduler's context: run the work on
    /// that scheduler's blocking pool while the thread waits; the
    /// scheduler's other workers keep driving it.
    OnBlockingPool,
    /// The thread is in a single-threaded scheduler's context, which may be
    /// driven by this very thread: waiting could never end, so refuse.
    Refuse,
}

/// The plan for a thread, from whether it is in a scheduler's context and
/// whether that scheduler is a multi-thread one.
pub fn blocking_plan(in_context: bool, multi_thread: bool) -> (r: BlockingPlan)
    ensures
        r == (if !in_context {
            BlockingPlan::RunHere
        } else if multi_thread {
            BlockingPlan::OnBlockingPool
        } else {
            BlockingPlan::Refuse
        }),
{
    if !in_context {
        BlockingPlan::RunHere
    } else if multi_thread {
        BlockingPlan::OnBlockingPool
    } else {
        BlockingPlan::Refuse
    }
}

/// Relies on tokio's `Handle::try_current`: the handle of the scheduler
/// whose context the calling thread is in, or `None` where it is in none.
#[verifier::external_body]
pub(crate) fn current_scheduler() -> Option<tokio::runtime::Handle> {
    tokio::runtime::Handle::try_current().ok()
}

/// Relies on tokio's `Handle::runtime_flavor`: whether the scheduler is a
/// multi-thread one.
#[verifier::external_body]
pub(crate) fn is_multi_thread(handle: &tokio::runtime::Handle) -> bool {
    matches!(handle.runtime_flavor(), tokio::runtime::RuntimeFlavor::MultiThread)
}

/// Relies on tokio's `Handle::spawn_blocking` and std's `mpsc` channel: `f`
/// runs on a thread of the handle's blocking pool, which is in no
/// scheduler's driving context, and its result is sent back over the
/// channel while the calling thread waits in `Receiver::recv`, which never
/// panics. `None` where the result never comes: the runtime is shutting
/// down and drops `f` unrun, or `f` panicked. tokio panics only where the
/// operating system refuses a new thread.
#[verifier::external_body]
pub(crate) fn run_on_blocking_pool<R: Send + 'static, F: FnOnce() -> R + Send + 'static>(
    pool: &tokio::runtime::Handle,
    f: F,
) -> (r: Option<R>)
    requires
        f.requires(()),
    ensures
        r is Some ==> f.ensures((), r->Some_0),
{
    let (sender, receiver) = std::sync::mpsc::channel();
    drop(pool.spawn_blocking(move || sender.send(f())));
    receiver.recv().ok()
}

} // verus!
