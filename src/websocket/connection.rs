//! How a connection's services are wired and how their reports combine.

use vstd::prelude::*;

use crate::exit_status::{ExitStatus, WithStatus};
use crate::join::aggregate_status;

verus! {

/// The capacity of the channels that carry pings and pongs between the
/// keepalive and the shuttles: a stalled peer holds back the next ping.
pub const KEEPALIVE_CHANNEL_CAPACITY: usize = 1;

/// How a connection ends once its services are joined.
#[derive(Copy, Clone, Debug, PartialEq, Eq, Structural)]
pub enum ConnectionEnd {
    /// Every service ended cleanly: send a close frame (its failure does not
    /// matter) and report `Clean`.
    CloseAndReportClean,
    /// Some service failed: report `Spurious`.
    ReportSpurious,
}

/// How a connection ends, from the statuses of its joined services.
pub fn connection_end(statuses: &Vec<ExitStatus>) -> (r: ConnectionEnd)
    ensures
        r == ConnectionEnd::ReportSpurious <==> exists|i: int|
            0 <= i < statuses@.len() && statuses@[i] == ExitStatus::Spurious,
{
    match aggregate_status(statuses) {
        ExitStatus::Spurious => ConnectionEnd::ReportSpurious,
        ExitStatus::Clean => ConnectionEnd::CloseAndReportClean,
    }
}

/// The report with which a connection ends.
pub fn connection_report(end: ConnectionEnd) -> (r: WithStatus)
    ensures
        r.status == (match end {
            ConnectionEnd::CloseAndReportClean => ExitStatus::Clean,
            ConnectionEnd::ReportSpurious => ExitStatus::Spurious,
        }),
{
    match end {
        ConnectionEnd::CloseAndReportClean => WithStatus::from(ExitStatus::Clean),
        ConnectionEnd::ReportSpurious => WithStatus::from(ExitStatus::Spurious),
    }
}

} // verus!
