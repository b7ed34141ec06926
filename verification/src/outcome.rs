//! Probe outcomes and their status tokens. Each probed flow ends in
//! exactly one outcome, and each outcome has one textual token in the
//! per-flow report line.

use vstd::prelude::*;
use vstd::string::StringExecFns;

verus! {

/// Why a connection attempt failed: the categorical causes the platform
/// commonly exposes, with a fallback carrying the platform's own
/// description of anything else.
pub enum FailureCause {
    Refused,
    TimedOut,
    PermissionDenied,
    Unreachable,
    Other(String),
}

/// How one flow's probe ended: the TCP connection was established (and
/// closed again), the endpoint could not be resolved to an address, or the
/// connection attempt failed.
pub enum ProbeOutcome {
    Connected,
    Unresolved,
    ConnectFailed(FailureCause),
}

/// The token that reports a failure cause.
pub open spec fn spec_cause_token(cause: FailureCause) -> Seq<char> {
    match cause {
        FailureCause::Refused => "ConnectionRefused"@,
        FailureCause::TimedOut => "TimedOut"@,
        FailureCause::PermissionDenied => "PermissionDenied"@,
        FailureCause::Unreachable => "HostUnreachable"@,
        FailureCause::Other(d) => d@,
    }
}

/// The status token that ends a report line: `OK` for an established
/// connection, `HostnameUnresolved` for a resolution failure, and the
/// failure cause's own token otherwise.
pub open spec fn spec_status_token(outcome: ProbeOutcome) -> Seq<char> {
    match outcome {
        ProbeOutcome::Connected => "OK"@,
        ProbeOutcome::Unresolved => "HostnameUnresolved"@,
        ProbeOutcome::ConnectFailed(cause) => spec_cause_token(cause),
    }
}

/// Renders the status token of one probe outcome.
pub fn status_token(outcome: &ProbeOutcome) -> (r: String)
    ensures
        r@ == spec_status_token(*outcome),
{
    match outcome {
        ProbeOutcome::Connected => String::from_str("OK"),
        ProbeOutcome::Unresolved => String::from_str("HostnameUnresolved"),
        ProbeOutcome::ConnectFailed(cause) => match cause {
            FailureCause::Refused => String::from_str("ConnectionRefused"),
            FailureCause::TimedOut => String::from_str("TimedOut"),
            FailureCause::PermissionDenied => String::from_str("PermissionDenied"),
            FailureCause::Unreachable => String::from_str("HostUnreachable"),
            FailureCause::Other(d) => d.clone(),
        },
    }
}

} // verus!
