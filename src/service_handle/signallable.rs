use vstd::prelude::*;

use tokio::sync::oneshot::Sender;
use tokio::task::JoinHandle;

use crate::exit_status::{ExitStatus, ServiceExitStatus};

use super::{HandleEvent, ServiceHandle, ServicePollPlan, Stage, next_stage, poll_plan_of};

verus! {

/// A service whose shutdown sends a signal that the service answers by
/// ending by itself.
#[verifier::reject_recursive_types(T)]
pub enum SignallableServiceHandle<T> {
    Handle { handle: JoinHandle<T>, shutdown_trigger: Option<Sender<()>> },
    Output(T),
    Taken,
}

impl<T> SignallableServiceHandle<T> {
    pub fn new(handle: JoinHandle<T>, shutdown_trigger: Sender<()>) -> (r: Self)
        ensures
            r.stage() is Running,
            r.armed(),
    {
        SignallableServiceHandle::Handle { handle, shutdown_trigger: Some(shutdown_trigger) }
    }

    /// Whether the shutdown signal can still be sent.
    pub open spec fn armed(&self) -> bool {
        self matches SignallableServiceHandle::Handle { shutdown_trigger: Some(_), .. }
    }

    /// Keeps the output of the task, which was awaited to its end.
    pub fn complete(&mut self, output: T)
        requires
            old(self).stage() is Running,
        ensures
            final(self).stage() == next_stage(old(self).stage(), HandleEvent::Completed(output)),
    {
        *self = SignallableServiceHandle::Output(output);
    }

    pub fn poll_plan(&self) -> (r: ServicePollPlan)
        ensures
            r == poll_plan_of(self.stage()),
    {
        match self {
            SignallableServiceHandle::Handle { .. } => ServicePollPlan::PollTask,
            SignallableServiceHandle::Output(_) => ServicePollPlan::YieldHeld,
            SignallableServiceHandle::Taken => ServicePollPlan::AlreadyTaken,
        }
    }

    /// Marks the output, handed on by a poll of the task, as taken.
    pub fn finish_polled(&mut self)
        requires
            old(self).stage() is Running,
        ensures
            final(self).stage() == next_stage(old(self).stage(), HandleEvent::Awaited),
    {
        *self = SignallableServiceHandle::Taken;
    }

    pub fn is_terminated(&self) -> (r: bool)
        ensures
            r == (self.stage() is Taken),
    {
        match self {
            SignallableServiceHandle::Taken => true,
            _ => false,
        }
    }

    /// The exit status once the task has been awaited: that of the kept
    /// output, or `None` once it was taken.
    pub fn settled_exit_status(&self) -> (r: Option<ExitStatus>) where T: ServiceExitStatus
        requires
            !(self.stage() is Running),
        ensures
            r == (match self.stage() {
                Stage::Held(output) => Some(output.reported_status()),
                _ => None,
            }),
    {
        match self {
            SignallableServiceHandle::Output(output) => Some(output.exit_status()),
            _ => None,
        }
    }
}

impl<T> ServiceHandle for SignallableServiceHandle<T> {
    type Output = T;

    open spec fn stage(&self) -> Stage<T> {
        match self {
            SignallableServiceHandle::Handle { .. } => Stage::Running,
            SignallableServiceHandle::Output(output) => Stage::Held(*output),
            SignallableServiceHandle::Taken => Stage::Taken,
        }
    }

    /// Sends the shutdown signal if it was not sent before.
    fn shutdown(&mut self)
        ensures
            !final(self).armed(),
            !old(self).armed() ==> *final(self) == *old(self),
    {
        if let SignallableServiceHandle::Handle { shutdown_trigger, .. } = self {
            if let Some(trigger) = shutdown_trigger.take() {
                let _ = trigger.send(());
            }
        }
    }

    fn take_output(&mut self) -> (r: Option<T>)
        ensures
            *old(self) is Handle ==> *final(self) == *old(self),
    {
        let mut previous = SignallableServiceHandle::Taken;
        core::mem::swap(self, &mut previous);
        match previous {
            SignallableServiceHandle::Output(output) => Some(output),
            SignallableServiceHandle::Taken => None,
            handle => {
                *self = handle;
                None
            },
        }
    }
}

} // verus!
