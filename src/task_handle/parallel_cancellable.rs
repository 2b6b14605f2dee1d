use vstd::prelude::*;

use crate::runtime::join_error_panicked;

use tokio::runtime::Handle;
use tokio::task::{JoinError, JoinHandle};

use super::{PollPlan, TaskHandle};

verus! {

/// Holds work spawned on the runtime; `abort` cancels the spawned task, and
/// awaiting the handle then gives the output type's default.
#[verifier::reject_recursive_types(T)]
pub enum ParallelCancellableTaskHandle<T> {
    Handle(JoinHandle<T>),
    Finished,
}

impl<T> ParallelCancellableTaskHandle<T> {
    /// Spawns the future on the runtime.
    pub fn new<F>(runtime: &Handle, future: F) -> (r: Self) where
        F: core::future::Future<Output = T> + Send + 'static,
        T: Send + 'static,

        ensures
            r is Handle,
    {
        ParallelCancellableTaskHandle::Handle(crate::runtime::spawn_task(runtime, future))
    }

    /// What awaiting the task gave, with cancellation turned into the
    /// default output; a panic of the task comes back as `Err` to be resumed.
    pub fn unwrap_output_result(output_result: Result<T, JoinError>) -> (r: Result<T, JoinError>) where
        T: Default,

        ensures
            output_result matches Ok(output) ==> r == Ok::<T, JoinError>(output),
            output_result matches Err(error) ==> if join_error_panicked(error) {
                r == Err::<T, JoinError>(error)
            } else {
                r matches Ok(output) && call_ensures(T::default, (), output)
            },
    {
        match output_result {
            Ok(output) => Ok(output),
            Err(join_error) => {
                if join_error.is_panic() {
                    Err(join_error)
                } else {
                    Ok(T::default())
                }
            },
        }
    }

    pub fn poll_plan(&self) -> (r: PollPlan)
        ensures
            r == (if *self is Finished {
                PollPlan::AlreadyFinished
            } else {
                PollPlan::PollWork
            }),
    {
        match self {
            ParallelCancellableTaskHandle::Handle(_) => PollPlan::PollWork,
            ParallelCancellableTaskHandle::Finished => PollPlan::AlreadyFinished,
        }
    }

    /// Marks the output as handed on.
    pub fn finish(&mut self)
        ensures
            *final(self) is Finished,
    {
        *self = ParallelCancellableTaskHandle::Finished;
    }

    pub fn is_terminated(&self) -> (r: bool)
        ensures
            r == (*self is Finished),
    {
        match self {
            ParallelCancellableTaskHandle::Finished => true,
            _ => false,
        }
    }
}

impl<T> TaskHandle for ParallelCancellableTaskHandle<T> {
    /// Asks the runtime to cancel the task; the handle stays as it is.
    fn abort(&mut self)
        ensures
            *final(self) == *old(self),
    {
        if let ParallelCancellableTaskHandle::Handle(handle) = self {
            crate::runtime::cancel_task(handle);
        }
    }
}

} // verus!
