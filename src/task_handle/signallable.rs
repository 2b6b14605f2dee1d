use vstd::prelude::*;

use tokio::sync::oneshot::Sender;

use super::{PollPlan, TaskHandle};

verus! {

/// Holds work in place together with the trigger of its shutdown signal;
/// `abort` fires the trigger and the work is expected to end by itself.
pub enum SignallableTaskHandle<F> {
    Future { future: F, shutdown_trigger: Option<Sender<()>> },
    Finished,
}

impl<F> SignallableTaskHandle<F> {
    pub fn new(future: F, shutdown_trigger: Sender<()>) -> (r: Self)
        ensures
            r == (SignallableTaskHandle::Future { future, shutdown_trigger: Some(shutdown_trigger) }),
    {
        SignallableTaskHandle::Future { future, shutdown_trigger: Some(shutdown_trigger) }
    }

    /// Whether the shutdown signal can still be sent.
    pub open spec fn armed(&self) -> bool {
        self matches SignallableTaskHandle::Future { shutdown_trigger: Some(_), .. }
    }

    pub fn poll_plan(&self) -> (r: PollPlan)
        ensures
            r == (if *self is Finished {
                PollPlan::AlreadyFinished
            } else {
                PollPlan::PollWork
            }),
    {
        match self {
            SignallableTaskHandle::Future { .. } => PollPlan::PollWork,
            SignallableTaskHandle::Finished => PollPlan::AlreadyFinished,
        }
    }

    /// Marks the output as handed on.
    pub fn finish(&mut self)
        ensures
            *final(self) is Finished,
    {
        *self = SignallableTaskHandle::Finished;
    }

    pub fn is_terminated(&self) -> (r: bool)
        ensures
            r == (*self is Finished),
    {
        match self {
            SignallableTaskHandle::Finished => true,
            _ => false,
        }
    }
}

impl<F> TaskHandle for SignallableTaskHandle<F> {
    /// Sends the shutdown signal if it was not sent before; the work and the
    /// handle's stage stay as they are.
    fn abort(&mut self)
        ensures
            !final(self).armed(),
            !old(self).armed() ==> *final(self) == *old(self),
            *old(self) is Finished <==> *final(self) is Finished,
            *old(self) matches SignallableTaskHandle::Future { future, .. } ==> *final(self)
                matches SignallableTaskHandle::Future { future: future2, .. } && future2 == future,
    {
        if let SignallableTaskHandle::Future { shutdown_trigger, .. } = self {
            if let Some(trigger) = shutdown_trigger.take() {
                let _ = trigger.send(());
            }
        }
    }
}

} // verus!
