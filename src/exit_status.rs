//! Reports with which services end, and with which event-loop steps ask to
//! end the loop.

use vstd::prelude::*;
use vstd::std_specs::convert::FromSpec;

mod always_clean;
pub use always_clean::AlwaysClean;

mod with_status;
pub use with_status::WithStatus;

mod should_terminate_clean;
pub use should_terminate_clean::ShouldTerminateClean;

mod should_terminate_with_status;
pub use should_terminate_with_status::ShouldTerminateWithStatus;

verus! {

/// How a service ended: as expected, or through a recoverable failure.
#[derive(Copy, Clone, Debug, Hash, PartialEq, Eq, Structural)]
pub enum ExitStatus {
    Clean,
    Spurious,
}

impl Default for ExitStatus {
    fn default() -> (r: Self)
        ensures
            r == ExitStatus::Clean,
    {
        ExitStatus::Clean
    }
}

impl ExitStatus {
    pub fn into_result(self) -> (r: Result<(), ()>)
        ensures
            r is Ok <==> self == ExitStatus::Clean,
    {
        match self {
            ExitStatus::Clean => Ok(()),
            ExitStatus::Spurious => Err(()),
        }
    }

    pub fn is_clean(&self) -> (r: bool)
        ensures
            r == (*self == ExitStatus::Clean),
    {
        match self {
            ExitStatus::Clean => true,
            ExitStatus::Spurious => false,
        }
    }

    pub fn is_spurious(&self) -> (r: bool)
        ensures
            r == (*self == ExitStatus::Spurious),
    {
        match self {
            ExitStatus::Clean => false,
            ExitStatus::Spurious => true,
        }
    }
}

/// A service output that carries an exit status.
pub trait ServiceExitStatus {
    type Value;

    /// The status that `exit_status` reports.
    spec fn reported_status(&self) -> ExitStatus;

    fn exit_status(&self) -> (r: ExitStatus)
        ensures
            r == self.reported_status(),
    ;

    fn status_clean(&self) -> (r: bool)
        ensures
            r == (self.reported_status() == ExitStatus::Clean),
    {
        self.exit_status().is_clean()
    }

    fn status_spurious(&self) -> (r: bool)
        ensures
            r == (self.reported_status() == ExitStatus::Spurious),
    {
        self.exit_status().is_spurious()
    }
}

/// An event-loop step report that may ask the loop to end.
pub trait ServiceShouldTerminate {
    /// Whether `should_terminate` answers yes.
    spec fn requests_termination(&self) -> bool;

    fn should_terminate(&self) -> (r: bool)
        ensures
            r == self.requests_termination(),
    ;
}

/// A carrier that cannot fail reports `Clean`, whatever value it holds.
pub proof fn lemma_always_clean_reports_clean<T>(carrier: AlwaysClean<T>)
    ensures
        carrier.reported_status() == ExitStatus::Clean,
{
}

/// Turning an `AlwaysClean` into a `WithStatus` keeps the value and sets the
/// status to `Clean`.
pub proof fn lemma_with_status_from_always_clean<T>(v: T)
    ensures
        <WithStatus<T> as FromSpec<AlwaysClean<T>>>::from_spec(AlwaysClean { value: v }).value
            == v,
        <WithStatus<T> as FromSpec<AlwaysClean<T>>>::from_spec(AlwaysClean { value: v }).status
            == ExitStatus::Clean,
{
}

/// Turning a clean termination flag into a termination status keeps the
/// value, and maps `true` to `Some(Clean)` and `false` to `None`.
pub proof fn lemma_should_terminate_from_clean<T>(v: T, should_terminate: bool)
    ensures
        <ShouldTerminateWithStatus<T> as FromSpec<ShouldTerminateClean<T>>>::from_spec(
            ShouldTerminateClean { value: v, should_terminate },
        ) == (ShouldTerminateWithStatus {
            value: v,
            should_terminate_status: if should_terminate {
                Some(ExitStatus::Clean)
            } else {
                None
            },
        }),
{
}

/// A value routed through `AlwaysClean` and then `WithStatus` is reported
/// `Clean`, whatever status the value itself reports: the carrier decides.
pub proof fn lemma_carrier_status_dominates<T: ServiceExitStatus>(v: T)
    ensures
        <WithStatus<T> as FromSpec<AlwaysClean<T>>>::from_spec(
            AlwaysClean { value: v },
        ).reported_status() == ExitStatus::Clean,
        <WithStatus<T> as FromSpec<AlwaysClean<T>>>::from_spec(AlwaysClean { value: v }).value
            == v,
{
}

} // verus!
