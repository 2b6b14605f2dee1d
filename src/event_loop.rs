//! The decisions of a biased select and of an event loop: which branch runs,
//! what an ended stream or a refused item reports, and when a loop ends.

use vstd::prelude::*;

use crate::exit_status::{
    AlwaysClean,
    ExitStatus,
    ShouldTerminateClean,
    ShouldTerminateWithStatus,
    WithStatus,
};

verus! {

/// Whether `index` is the first ready branch, in declaration order.
pub open spec fn is_first_ready(ready: Seq<bool>, index: int) -> bool {
    &&& 0 <= index < ready.len()
    &&& ready[index]
    &&& forall|j: int| 0 <= j < index ==> !ready[j]
}

/// The branch that a biased select runs: the first ready one in declaration
/// order, or `None` while no branch is ready.
pub fn biased_choice(ready: &Vec<bool>) -> (r: Option<usize>)
    ensures
        r matches Some(index) ==> is_first_ready(ready@, index as int),
        r is None <==> forall|j: int| 0 <= j < ready@.len() ==> !ready@[j],
{
    let mut i: usize = 0;
    while i < ready.len()
        invariant
            i <= ready@.len(),
            forall|j: int| 0 <= j < i ==> !ready@[j],
        decreases ready@.len() - i,
    {
        if ready[i] {
            return Some(i);
        }
        i += 1;
    }
    None
}

/// What a stream branch reports when its stream has ended, in a loop whose
/// streams cannot fail: end the loop.
pub fn stream_end_clean() -> (r: ShouldTerminateClean)
    ensures
        r.should_terminate,
{
    ShouldTerminateClean::new((), true)
}

/// What a stream branch reports when its stream has ended, in a loop whose
/// streams may fail: end the loop, `Spurious` where the branch is marked
/// fallible and `Clean` otherwise.
pub fn stream_end(fallible: bool) -> (r: ShouldTerminateWithStatus)
    ensures
        r.should_terminate_status == Some(
            if fallible {
                ExitStatus::Spurious
            } else {
                ExitStatus::Clean
            },
        ),
{
    if fallible {
        ShouldTerminateWithStatus::new((), Some(ExitStatus::Spurious))
    } else {
        ShouldTerminateWithStatus::new((), Some(ExitStatus::Clean))
    }
}

/// What feeding an item to a sink reports, in a loop that cannot fail: a
/// refused item ends the loop.
pub fn feed_report_clean(accepted: bool) -> (r: ShouldTerminateClean)
    ensures
        r.should_terminate == !accepted,
{
    ShouldTerminateClean::new((), !accepted)
}

/// What feeding an item to a sink reports, in a loop that may fail: a
/// refused item ends the loop as `Spurious`.
pub fn feed_report(accepted: bool) -> (r: ShouldTerminateWithStatus)
    ensures
        r.should_terminate_status == (if accepted {
            None
        } else {
            Some(ExitStatus::Spurious)
        }),
{
    if accepted {
        ShouldTerminateWithStatus::new((), None)
    } else {
        ShouldTerminateWithStatus::new((), Some(ExitStatus::Spurious))
    }
}

/// The carrier with which a loop that cannot fail ends, if the step report
/// asks it to end.
pub fn loop_exit_clean<T>(report: &ShouldTerminateClean<T>) -> (r: Option<AlwaysClean>)
    ensures
        r is Some <==> report.should_terminate,
{
    if report.should_terminate {
        Some(AlwaysClean::new(()))
    } else {
        None
    }
}

/// The carrier with which a loop that may fail ends, if the step report
/// asks it to end: it carries the status that the report gives.
pub fn loop_exit<T>(report: &ShouldTerminateWithStatus<T>) -> (r: Option<WithStatus>)
    ensures
        r is Some <==> report.should_terminate_status is Some,
        r matches Some(carrier) ==> Some(carrier.status) == report.should_terminate_status,
{
    match report.should_terminate_status {
        Some(status) => Some(WithStatus::new((), status)),
        None => None,
    }
}

} // verus!
