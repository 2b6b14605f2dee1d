use vstd::prelude::*;

use super::{ExitStatus, ServiceShouldTerminate, ShouldTerminateClean};

verus! {

/// An event-loop step report: a value, and the status with which the loop
/// should end (`None`: it goes on).
pub struct ShouldTerminateWithStatus<T = ()> {
    pub value: T,
    pub should_terminate_status: Option<ExitStatus>,
}

impl<T> ShouldTerminateWithStatus<T> {
    pub fn new(value: T, should_terminate_status: Option<ExitStatus>) -> (r: Self)
        ensures
            r.value == value,
            r.should_terminate_status == should_terminate_status,
    {
        ShouldTerminateWithStatus { value, should_terminate_status }
    }

    pub fn split(self) -> (r: (T, ShouldTerminateWithStatus<()>))
        ensures
            r.0 == self.value,
            r.1.should_terminate_status == self.should_terminate_status,
    {
        (self.value, ShouldTerminateWithStatus::from(self.should_terminate_status))
    }

    pub fn with_value<U>(self, value: U) -> (r: ShouldTerminateWithStatus<U>)
        ensures
            r.value == value,
            r.should_terminate_status == self.should_terminate_status,
    {
        ShouldTerminateWithStatus::new(value, self.should_terminate_status)
    }

    pub fn map_value<F, R>(self, f: F) -> (r: ShouldTerminateWithStatus<R>) where
        F: FnOnce(T) -> R,

        requires
            f.requires((self.value,)),
        ensures
            f.ensures((self.value,), r.value),
            r.should_terminate_status == self.should_terminate_status,
    {
        ShouldTerminateWithStatus::new(f(self.value), self.should_terminate_status)
    }
}

impl<T: Default> Default for ShouldTerminateWithStatus<T> {
    fn default() -> (r: Self)
        ensures
            r.should_terminate_status is None,
            call_ensures(T::default, (), r.value),
    {
        ShouldTerminateWithStatus { value: T::default(), should_terminate_status: None }
    }
}

impl From<()> for ShouldTerminateWithStatus {
    fn from(unit: ()) -> (r: Self) {
        ShouldTerminateWithStatus { value: unit, should_terminate_status: None }
    }
}

impl vstd::std_specs::convert::FromSpecImpl<()> for ShouldTerminateWithStatus {
    open spec fn obeys_from_spec() -> bool {
        true
    }

    open spec fn from_spec(unit: ()) -> Self {
        ShouldTerminateWithStatus { value: unit, should_terminate_status: None }
    }
}

impl From<ExitStatus> for ShouldTerminateWithStatus {
    fn from(status: ExitStatus) -> (r: Self) {
        ShouldTerminateWithStatus { value: (), should_terminate_status: Some(status) }
    }
}

impl vstd::std_specs::convert::FromSpecImpl<ExitStatus> for ShouldTerminateWithStatus {
    open spec fn obeys_from_spec() -> bool {
        true
    }

    open spec fn from_spec(status: ExitStatus) -> Self {
        ShouldTerminateWithStatus { value: (), should_terminate_status: Some(status) }
    }
}

impl From<Option<ExitStatus>> for ShouldTerminateWithStatus {
    fn from(should_terminate_status: Option<ExitStatus>) -> (r: Self) {
        ShouldTerminateWithStatus { value: (), should_terminate_status }
    }
}

impl vstd::std_specs::convert::FromSpecImpl<Option<ExitStatus>> for ShouldTerminateWithStatus {
    open spec fn obeys_from_spec() -> bool {
        true
    }

    open spec fn from_spec(should_terminate_status: Option<ExitStatus>) -> Self {
        ShouldTerminateWithStatus { value: (), should_terminate_status }
    }
}

/// The status with which a clean-only termination flag ends a loop.
pub open spec fn clean_termination(should_terminate: bool) -> Option<ExitStatus> {
    if should_terminate {
        Some(ExitStatus::Clean)
    } else {
        None
    }
}

impl<T> From<ShouldTerminateClean<T>> for ShouldTerminateWithStatus<T> {
    fn from(should_terminate_clean: ShouldTerminateClean<T>) -> (r: Self) {
        let should_terminate_status = if should_terminate_clean.should_terminate {
            Some(ExitStatus::Clean)
        } else {
            None
        };
        ShouldTerminateWithStatus { value: should_terminate_clean.value, should_terminate_status }
    }
}

impl<T> vstd::std_specs::convert::FromSpecImpl<ShouldTerminateClean<T>> for ShouldTerminateWithStatus<T> {
    open spec fn obeys_from_spec() -> bool {
        true
    }

    open spec fn from_spec(should_terminate_clean: ShouldTerminateClean<T>) -> Self {
        ShouldTerminateWithStatus {
            value: should_terminate_clean.value,
            should_terminate_status: clean_termination(should_terminate_clean.should_terminate),
        }
    }
}

impl<T> ServiceShouldTerminate for ShouldTerminateWithStatus<T> {
    open spec fn requests_termination(&self) -> bool {
        self.should_terminate_status is Some
    }

    fn should_terminate(&self) -> (r: bool) {
        self.should_terminate_status.is_some()
    }
}

} // verus!
