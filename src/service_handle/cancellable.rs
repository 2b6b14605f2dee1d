use vstd::prelude::*;

use crate::runtime::join_error_panicked;

use tokio::task::{JoinError, JoinHandle};

use crate::exit_status::{ExitStatus, ServiceExitStatus};

use super::{HandleEvent, ServiceHandle, ServicePollPlan, Stage, next_stage, poll_plan_of};

verus! {

/// A service whose shutdown cancels its task; a cancelled service's output
/// is the output type's default.
#[verifier::reject_recursive_types(T)]
pub enum CancellableServiceHandle<T> {
    Handle(JoinHandle<T>),
    Output(T),
    Taken,
}

impl<T> CancellableServiceHandle<T> {
    pub fn new(handle: JoinHandle<T>) -> (r: Self)
        ensures
            r.stage() is Running,
    {
        CancellableServiceHandle::Handle(handle)
    }

    /// What awaiting the task gave, with cancellation turned into the
    /// default output; a panic of the task comes back as `Err` to be resumed.
    pub fn unwrap_output_result(output_result: Result<T, JoinError>) -> (r: Result<T, JoinError>) where
        T: Default,

        ensures
            output_result matches Ok(output) ==> r == Ok::<T, JoinError>(output),
            output_result matches Err(error) ==> if join_error_panicked(error) {
                r == Err::<T, JoinError>(error)
            } else {
                r matches Ok(output) && call_ensures(T::default, (), output)
            },
    {
        match output_result {
            Ok(output) => Ok(output),
            Err(join_error) => {
                if join_error.is_panic() {
                    Err(join_error)
                } else {
                    Ok(T::default())
                }
            },
        }
    }

    /// Keeps the output of the task, which was awaited to its end.
    pub fn complete(&mut self, output: T)
        requires
            old(self).stage() is Running,
        ensures
            final(self).stage() == next_stage(old(self).stage(), HandleEvent::Completed(output)),
    {
        *self = CancellableServiceHandle::Output(output);
    }

    pub fn poll_plan(&self) -> (r: ServicePollPlan)
        ensures
            r == poll_plan_of(self.stage()),
    {
        match self {
            CancellableServiceHandle::Handle(_) => ServicePollPlan::PollTask,
            CancellableServiceHandle::Output(_) => ServicePollPlan::YieldHeld,
            CancellableServiceHandle::Taken => ServicePollPlan::AlreadyTaken,
        }
    }

    /// Marks the output, handed on by a poll of the task, as taken.
    pub fn finish_polled(&mut self)
        requires
            old(self).stage() is Running,
        ensures
            final(self).stage() == next_stage(old(self).stage(), HandleEvent::Awaited),
    {
        *self = CancellableServiceHandle::Taken;
    }

    pub fn is_terminated(&self) -> (r: bool)
        ensures
            r == (self.stage() is Taken),
    {
        match self {
            CancellableServiceHandle::Taken => true,
            _ => false,
        }
    }

    /// The exit status once the task has been awaited: that of the kept
    /// output, or `None` once it was taken.
    pub fn settled_exit_status(&self) -> (r: Option<ExitStatus>) where T: ServiceExitStatus
        requires
            !(self.stage() is Running),
        ensures
            r == (match self.stage() {
                Stage::Held(output) => Some(output.reported_status()),
                _ => None,
            }),
    {
        match self {
            CancellableServiceHandle::Output(output) => Some(output.exit_status()),
            _ => None,
        }
    }
}

impl<T> ServiceHandle for CancellableServiceHandle<T> {
    type Output = T;

    open spec fn stage(&self) -> Stage<T> {
        match self {
            CancellableServiceHandle::Handle(_) => Stage::Running,
            CancellableServiceHandle::Output(output) => Stage::Held(*output),
            CancellableServiceHandle::Taken => Stage::Taken,
        }
    }

    /// Cancels the task.
    fn shutdown(&mut self)
        ensures
            *final(self) == *old(self),
    {
        if let CancellableServiceHandle::Handle(handle) = self {
            crate::runtime::cancel_task(handle);
        }
    }

    fn take_output(&mut self) -> (r: Option<T>)
        ensures
            *old(self) is Handle ==> *final(self) == *old(self),
    {
        let mut previous = CancellableServiceHandle::Taken;
        core::mem::swap(self, &mut previous);
        match previous {
            CancellableServiceHandle::Handle(handle) => {
                *self = CancellableServiceHandle::Handle(handle);
                None
            },
            CancellableServiceHandle::Output(output) => Some(output),
            CancellableServiceHandle::Taken => None,
        }
    }
}

} // verus!
