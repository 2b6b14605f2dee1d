use vstd::prelude::*;

use super::ServiceShouldTerminate;

verus! {

/// An event-loop step report: a value, and whether the loop should end
/// (cleanly).
pub struct ShouldTerminateClean<T = ()> {
    pub value: T,
    pub should_terminate: bool,
}

impl<T> ShouldTerminateClean<T> {
    pub fn new(value: T, should_terminate: bool) -> (r: Self)
        ensures
            r.value == value,
            r.should_terminate == should_terminate,
    {
        ShouldTerminateClean { value, should_terminate }
    }

    pub fn split(self) -> (r: (T, ShouldTerminateClean<()>))
        ensures
            r.0 == self.value,
            r.1.should_terminate == self.should_terminate,
    {
        (self.value, ShouldTerminateClean::from(self.should_terminate))
    }

    pub fn with_value<U>(self, value: U) -> (r: ShouldTerminateClean<U>)
        ensures
            r.value == value,
            r.should_terminate == self.should_terminate,
    {
        ShouldTerminateClean::new(value, self.should_terminate)
    }

    pub fn map_value<F, R>(self, f: F) -> (r: ShouldTerminateClean<R>) where F: FnOnce(T) -> R
        requires
            f.requires((self.value,)),
        ensures
            f.ensures((self.value,), r.value),
            r.should_terminate == self.should_terminate,
    {
        ShouldTerminateClean::new(f(self.value), self.should_terminate)
    }
}

impl<T: Default> Default for ShouldTerminateClean<T> {
    fn default() -> (r: Self)
        ensures
            !r.should_terminate,
            call_ensures(T::default, (), r.value),
    {
        ShouldTerminateClean { value: T::default(), should_terminate: false }
    }
}

impl From<()> for ShouldTerminateClean {
    fn from(unit: ()) -> (r: Self) {
        ShouldTerminateClean { value: unit, should_terminate: false }
    }
}

impl vstd::std_specs::convert::FromSpecImpl<()> for ShouldTerminateClean {
    open spec fn obeys_from_spec() -> bool {
        true
    }

    open spec fn from_spec(unit: ()) -> Self {
        ShouldTerminateClean { value: unit, should_terminate: false }
    }
}

impl From<bool> for ShouldTerminateClean {
    fn from(should_terminate: bool) -> (r: Self) {
        ShouldTerminateClean { value: (), should_terminate }
    }
}

impl vstd::std_specs::convert::FromSpecImpl<bool> for ShouldTerminateClean {
    open spec fn obeys_from_spec() -> bool {
        true
    }

    open spec fn from_spec(should_terminate: bool) -> Self {
        ShouldTerminateClean { value: (), should_terminate }
    }
}

impl<T> ServiceShouldTerminate for ShouldTerminateClean<T> {
    open spec fn requests_termination(&self) -> bool {
        self.should_terminate
    }

    fn should_terminate(&self) -> (r: bool) {
        self.should_terminate
    }
}

} // verus!
