//! Handles on running services: graceful shutdown, and an output that is
//! handed out once.
//!
//! A handle goes from `Running` to `Held` (the task ended and its output is
//! kept) to `Taken`. The runtime awaits the task; the handle's transitions
//! are made here.

use vstd::prelude::*;

mod cancellable;
pub use cancellable::CancellableServiceHandle;

mod signallable;
pub use signallable::SignallableServiceHandle;

verus! {

/// Where a service handle is in its life.
pub enum Stage<T> {
    /// The task runs, or ended without the handle having seen it.
    Running,
    /// The task ended; its output is kept until it is taken.
    Held(T),
    /// The output was handed out.
    Taken,
}

/// What can happen to a service handle.
pub enum HandleEvent<T> {
    /// `shutdown` was called.
    ShutdownRequested,
    /// The task was awaited to its end and its output kept.
    Completed(T),
    /// `take_output` was called.
    OutputTaken,
    /// The handle itself was awaited to its end.
    Awaited,
}

/// The stage that an event leads to.
pub open spec fn next_stage<T>(stage: Stage<T>, event: HandleEvent<T>) -> Stage<T> {
    match event {
        HandleEvent::ShutdownRequested => stage,
        HandleEvent::Completed(output) => if stage is Running {
            Stage::Held(output)
        } else {
            stage
        },
        HandleEvent::OutputTaken => if stage is Held {
            Stage::Taken
        } else {
            stage
        },
        HandleEvent::Awaited => Stage::Taken,
    }
}

/// Whether the event hands the output out of the handle.
pub open spec fn hands_out<T>(stage: Stage<T>, event: HandleEvent<T>) -> bool {
    match event {
        HandleEvent::OutputTaken => stage is Held,
        HandleEvent::Awaited => !(stage is Taken),
        _ => false,
    }
}

/// How many of the events, in order from the stage, hand the output out.
pub open spec fn handouts<T>(stage: Stage<T>, events: Seq<HandleEvent<T>>) -> nat
    decreases events.len(),
{
    if events.len() == 0 {
        0
    } else {
        (if hands_out(stage, events[0]) {
            1nat
        } else {
            0nat
        }) + handouts(next_stage(stage, events[0]), events.drop_first())
    }
}

/// A handle hands its output out at most once, whatever happens to it; once
/// the output is taken, nothing hands it out again.
pub proof fn lemma_output_handed_out_at_most_once<T>(stage: Stage<T>, events: Seq<HandleEvent<T>>)
    ensures
        handouts(stage, events) <= 1,
        stage is Taken ==> handouts(stage, events) == 0,
    decreases events.len(),
{
    if events.len() > 0 {
        let next = next_stage(stage, events[0]);
        lemma_output_handed_out_at_most_once(next, events.drop_first());
        if hands_out(stage, events[0]) {
            assert(next is Taken);
        }
    }
}

/// What a poll of a service handle has to do.
#[derive(Copy, Clone, Debug, PartialEq, Eq, Structural)]
pub enum ServicePollPlan {
    /// Poll the task; when it ends, hand its output on and call
    /// `finish_polled`.
    PollTask,
    /// Hand on the kept output, through `take_output`.
    YieldHeld,
    /// The output was already handed out: polling again is a programmer
    /// error.
    AlreadyTaken,
}

/// The poll plan for a handle at the stage.
pub open spec fn poll_plan_of<T>(stage: Stage<T>) -> ServicePollPlan {
    match stage {
        Stage::Running => ServicePollPlan::PollTask,
        Stage::Held(_) => ServicePollPlan::YieldHeld,
        Stage::Taken => ServicePollPlan::AlreadyTaken,
    }
}

/// A handle on a running service.
pub trait ServiceHandle {
    type Output;

    /// The handle's stage.
    spec fn stage(&self) -> Stage<Self::Output>;

    /// Asks the service to end; calling it again does nothing more.
    fn shutdown(&mut self)
        ensures
            final(self).stage() == next_stage(old(self).stage(), HandleEvent::ShutdownRequested),
    ;

    /// Hands out the kept output, once; `None` while the task runs or after
    /// the output was taken.
    fn take_output(&mut self) -> (r: Option<Self::Output>)
        ensures
            final(self).stage() == next_stage(old(self).stage(), HandleEvent::OutputTaken),
            r == (match old(self).stage() {
                Stage::Held(output) => Some(output),
                _ => None,
            }),
    ;
}

} // verus!
