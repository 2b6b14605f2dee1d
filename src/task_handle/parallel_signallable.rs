use vstd::prelude::*;

use tokio::sync::oneshot::Sender;
use tokio::runtime::Handle;
use tokio::task::JoinHandle;

use super::{PollPlan, TaskHandle};

verus! {

/// Holds work spawned on the runtime together with the trigger of its
/// shutdown signal; `abort` fires the trigger.
#[verifier::reject_recursive_types(T)]
pub enum ParallelSignallableTaskHandle<T> {
    Handle { handle: JoinHandle<T>, shutdown_trigger: Option<Sender<()>> },
    Finished,
}

impl<T> ParallelSignallableTaskHandle<T> {
    /// Spawns the future on the runtime, keeping the trigger of the signal
    /// that it listens to.
    pub fn new<F>(runtime: &Handle, future: F, shutdown_trigger: Sender<()>) -> (r: Self) where
        F: core::future::Future<Output = T> + Send + 'static,
        T: Send + 'static,

        ensures
            r matches ParallelSignallableTaskHandle::Handle { shutdown_trigger: trigger, .. }
                && trigger == Some(shutdown_trigger),
    {
        ParallelSignallableTaskHandle::Handle {
            handle: crate::runtime::spawn_task(runtime, future),
            shutdown_trigger: Some(shutdown_trigger),
        }
    }

    /// Whether the shutdown signal can still be sent.
    pub open spec fn armed(&self) -> bool {
        self matches ParallelSignallableTaskHandle::Handle { shutdown_trigger: Some(_), .. }
    }

    pub fn poll_plan(&self) -> (r: PollPlan)
        ensures
            r == (if *self is Finished {
                PollPlan::AlreadyFinished
            } else {
                PollPlan::PollWork
            }),
    {
        match self {
            ParallelSignallableTaskHandle::Handle { .. } => PollPlan::PollWork,
            ParallelSignallableTaskHandle::Finished => PollPlan::AlreadyFinished,
        }
    }

    /// Marks the output as handed on.
    pub fn finish(&mut self)
        ensures
            *final(self) is Finished,
    {
        *self = ParallelSignallableTaskHandle::Finished;
    }

    pub fn is_terminated(&self) -> (r: bool)
        ensures
            r == (*self is Finished),
    {
        match self {
            ParallelSignallableTaskHandle::Finished => true,
            _ => false,
        }
    }
}

impl<T> TaskHandle for ParallelSignallableTaskHandle<T> {
    /// Sends the shutdown signal if it was not sent before.
    fn abort(&mut self)
        ensures
            !final(self).armed(),
            !old(self).armed() ==> *final(self) == *old(self),
            *old(self) is Finished <==> *final(self) is Finished,
    {
        if let ParallelSignallableTaskHandle::Handle { shutdown_trigger, .. } = self {
            if let Some(trigger) = shutdown_trigger.take() {
                let _ = trigger.send(());
            }
        }
    }
}

} // verus!
