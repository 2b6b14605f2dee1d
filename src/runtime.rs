//! The async runtime's types that handles hold, and the calls the library
//! makes on them.

use vstd::prelude::*;

verus! {

/// A spawned task's handle: awaited outside the library, held and aborted here.
#[verifier::external_type_specification]
#[verifier::external_body]
#[verifier::reject_recursive_types(T)]
pub struct ExJoinHandle<T>(tokio::task::JoinHandle<T>);

/// Why awaiting a spawned task gave no output.
#[verifier::external_type_specification]
#[verifier::external_body]
pub struct ExJoinError(tokio::task::JoinError);

/// The sending half of a single-shot channel.
#[verifier::external_type_specification]
#[verifier::external_body]
#[verifier::reject_recursive_types(T)]
pub struct ExOneshotSender<T>(tokio::sync::oneshot::Sender<T>);

/// Relies on tokio's `JoinHandle::abort`: asks the runtime to cancel the
/// task; it never panics and returns nothing.
#[verifier::external_body]
pub(crate) fn cancel_task<T>(handle: &tokio::task::JoinHandle<T>) {
    handle.abort()
}

/// A handle on a tokio runtime, through which tasks are spawned.
#[verifier::external_type_specification]
#[verifier::external_body]
pub struct ExRuntimeHandle(tokio::runtime::Handle);

/// Whether the task behind the error panicked (rather than being cancelled):
/// what `JoinError::is_panic` answers, which depends on the error alone.
pub uninterp spec fn join_error_panicked(error: tokio::task::JoinError) -> bool;

/// Relies on tokio's `JoinError::is_panic`: whether the task panicked rather
/// than being cancelled.
pub assume_specification[ tokio::task::JoinError::is_panic ](error: &tokio::task::JoinError) -> (r:
    bool)
    ensures
        r == join_error_panicked(*error),
;

/// Relies on tokio's `oneshot::Sender::send`: consumes the sender; when the
/// receiver is gone, the value comes back in `Err`.
pub assume_specification<T>[ tokio::sync::oneshot::Sender::<T>::send ](
    sender: tokio::sync::oneshot::Sender<T>,
    t: T,
) -> (r: Result<(), T>)
    ensures
        r matches Err(back) ==> back == t,
;

/// Relies on tokio's `runtime::Handle::spawn`: starts the future on the
/// runtime that the handle refers to and returns the handle of the new task;
/// unlike `task::spawn`, it needs no runtime in the calling context.
#[verifier::external_body]
pub(crate) fn spawn_task<F>(runtime: &tokio::runtime::Handle, future: F) -> tokio::task::JoinHandle<
    F::Output,
> where F: core::future::Future + Send + 'static, F::Output: Send + 'static {
    runtime.spawn(future)
}

} // verus!
