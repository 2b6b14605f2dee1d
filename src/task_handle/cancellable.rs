use vstd::prelude::*;

use super::{PollPlan, TaskHandle};

verus! {

/// Holds work in place; `abort` drops it, and awaiting the handle then gives
/// the output type's default.
pub enum CancellableTaskHandle<F> {
    Future(F),
    Aborted,
    Finished,
}

impl<F> CancellableTaskHandle<F> {
    pub fn new(future: F) -> (r: Self)
        ensures
            r == CancellableTaskHandle::Future(future),
    {
        CancellableTaskHandle::Future(future)
    }

    pub fn poll_plan(&self) -> (r: PollPlan)
        ensures
            r == (match self {
                CancellableTaskHandle::Future(_) => PollPlan::PollWork,
                CancellableTaskHandle::Aborted => PollPlan::YieldDefault,
                CancellableTaskHandle::Finished => PollPlan::AlreadyFinished,
            }),
    {
        match self {
            CancellableTaskHandle::Future(_) => PollPlan::PollWork,
            CancellableTaskHandle::Aborted => PollPlan::YieldDefault,
            CancellableTaskHandle::Finished => PollPlan::AlreadyFinished,
        }
    }

    /// Marks the output as handed on.
    pub fn finish(&mut self)
        ensures
            *final(self) == CancellableTaskHandle::<F>::Finished,
    {
        *self = CancellableTaskHandle::Finished;
    }

    pub fn is_terminated(&self) -> (r: bool)
        ensures
            r == (*self is Finished),
    {
        match self {
            CancellableTaskHandle::Finished => true,
            _ => false,
        }
    }
}

impl<F> TaskHandle for CancellableTaskHandle<F> {
    /// Drops the work; awaiting the handle then gives the default output.
    fn abort(&mut self)
        ensures
            *final(self) == CancellableTaskHandle::<F>::Aborted,
    {
        *self = CancellableTaskHandle::Aborted;
    }
}

} // verus!
