//! Handles that own one unit of async work and can abort it.
//!
//! A handle's state lives here; the runtime polls the work it holds, and
//! asks the handle through `poll_plan` what a poll has to do.

use vstd::prelude::*;

mod cancellable;
pub use cancellable::CancellableTaskHandle;

mod signallable;
pub use signallable::SignallableTaskHandle;

mod parallel_cancellable;
pub use parallel_cancellable::ParallelCancellableTaskHandle;

mod parallel_signallable;
pub use parallel_signallable::ParallelSignallableTaskHandle;

verus! {

/// A handle on work that can be told to stop.
pub trait TaskHandle {
    fn abort(&mut self);
}

/// What a poll of a task handle has to do.
#[derive(Copy, Clone, Debug, PartialEq, Eq, Structural)]
pub enum PollPlan {
    /// Poll the work; when it is ready, hand its output on and mark the
    /// handle finished.
    PollWork,
    /// The work was dropped by `abort`: hand on the output type's default and
    /// mark the handle finished.
    YieldDefault,
    /// The output was already handed on: polling again is a programmer error.
    AlreadyFinished,
}

} // verus!
