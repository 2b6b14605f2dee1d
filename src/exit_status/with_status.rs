use vstd::prelude::*;

use super::{AlwaysClean, ExitStatus, ServiceExitStatus};

verus! {

/// A value reported together with an explicit exit status.
pub struct WithStatus<T = ()> {
    pub value: T,
    pub status: ExitStatus,
}

impl<T> WithStatus<T> {
    pub fn new(value: T, status: ExitStatus) -> (r: Self)
        ensures
            r.value == value,
            r.status == status,
    {
        WithStatus { value, status }
    }

    pub fn split(self) -> (r: (T, WithStatus<()>))
        ensures
            r.0 == self.value,
            r.1.status == self.status,
    {
        (self.value, WithStatus::from(self.status))
    }

    pub fn with_value<U>(self, value: U) -> (r: WithStatus<U>)
        ensures
            r.value == value,
            r.status == self.status,
    {
        WithStatus::new(value, self.status)
    }

    pub fn map_value<F, R>(self, f: F) -> (r: WithStatus<R>) where F: FnOnce(T) -> R
        requires
            f.requires((self.value,)),
        ensures
            f.ensures((self.value,), r.value),
            r.status == self.status,
    {
        WithStatus::new(f(self.value), self.status)
    }

    pub fn into_value(self) -> (r: T)
        ensures
            r == self.value,
    {
        self.value
    }
}

impl<T: Default> Default for WithStatus<T> {
    fn default() -> (r: Self)
        ensures
            r.status == ExitStatus::Clean,
            call_ensures(T::default, (), r.value),
    {
        WithStatus { value: T::default(), status: ExitStatus::Clean }
    }
}

impl From<()> for WithStatus {
    fn from(unit: ()) -> (r: Self) {
        WithStatus { value: unit, status: ExitStatus::Clean }
    }
}

impl vstd::std_specs::convert::FromSpecImpl<()> for WithStatus {
    open spec fn obeys_from_spec() -> bool {
        true
    }

    open spec fn from_spec(unit: ()) -> Self {
        WithStatus { value: unit, status: ExitStatus::Clean }
    }
}

impl From<ExitStatus> for WithStatus {
    fn from(status: ExitStatus) -> (r: Self) {
        WithStatus { value: (), status }
    }
}

impl vstd::std_specs::convert::FromSpecImpl<ExitStatus> for WithStatus {
    open spec fn obeys_from_spec() -> bool {
        true
    }

    open spec fn from_spec(status: ExitStatus) -> Self {
        WithStatus { value: (), status }
    }
}

impl<T> From<AlwaysClean<T>> for WithStatus<T> {
    fn from(always_clean: AlwaysClean<T>) -> (r: Self) {
        WithStatus { value: always_clean.value, status: ExitStatus::Clean }
    }
}

impl<T> vstd::std_specs::convert::FromSpecImpl<AlwaysClean<T>> for WithStatus<T> {
    open spec fn obeys_from_spec() -> bool {
        true
    }

    open spec fn from_spec(always_clean: AlwaysClean<T>) -> Self {
        WithStatus { value: always_clean.value, status: ExitStatus::Clean }
    }
}

impl<T> ServiceExitStatus for WithStatus<T> {
    type Value = T;

    open spec fn reported_status(&self) -> ExitStatus {
        self.status
    }

    fn exit_status(&self) -> (r: ExitStatus) {
        self.status
    }
}

} // verus!
