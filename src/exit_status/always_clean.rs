use vstd::prelude::*;

use super::{ExitStatus, ServiceExitStatus};

verus! {

/// A value reported together with the implicit status `Clean`: the output of
/// a service that cannot fail.
pub struct AlwaysClean<T = ()> {
    pub value: T,
}

impl<T> AlwaysClean<T> {
    pub fn new(value: T) -> (r: Self)
        ensures
            r.value == value,
    {
        AlwaysClean { value }
    }

    pub fn split(self) -> (r: (T, AlwaysClean<()>))
        ensures
            r.0 == self.value,
    {
        (self.value, AlwaysClean::from(()))
    }

    pub fn with_value<U>(self, value: U) -> (r: AlwaysClean<U>)
        ensures
            r.value == value,
    {
        AlwaysClean::new(value)
    }

    pub fn map_value<F, R>(self, f: F) -> (r: AlwaysClean<R>) where F: FnOnce(T) -> R
        requires
            f.requires((self.value,)),
        ensures
            f.ensures((self.value,), r.value),
    {
        AlwaysClean::new(f(self.value))
    }

    pub fn into_value(self) -> (r: T)
        ensures
            r == self.value,
    {
        self.value
    }
}

impl<T: Default> Default for AlwaysClean<T> {
    fn default() -> (r: Self)
        ensures
            r.reported_status() == ExitStatus::Clean,
            call_ensures(T::default, (), r.value),
    {
        AlwaysClean { value: T::default() }
    }
}

impl From<()> for AlwaysClean {
    fn from(unit: ()) -> (r: Self) {
        AlwaysClean { value: unit }
    }
}

impl vstd::std_specs::convert::FromSpecImpl<()> for AlwaysClean {
    open spec fn obeys_from_spec() -> bool {
        true
    }

    open spec fn from_spec(unit: ()) -> Self {
        AlwaysClean { value: unit }
    }
}

impl<T> ServiceExitStatus for AlwaysClean<T> {
    type Value = T;

    open spec fn reported_status(&self) -> ExitStatus {
        ExitStatus::Clean
    }

    fn exit_status(&self) -> (r: ExitStatus) {
        ExitStatus::Clean
    }
}

} // verus!
