//! Rendering the one-line report for a probed flow:
//! `<id> <endpoint> <status>`.

use vstd::prelude::*;
use vstd::string::StringExecFns;

use crate::manifest::FlowRecord;
use crate::outcome::spec_status_token;
use crate::outcome::status_token;
use crate::outcome::ProbeOutcome;

verus! {

/// The report line for one flow: its id, its endpoint, and the status
/// token of its outcome, separated by single spaces.
pub open spec fn spec_report_line(id: Seq<char>, endpoint: Seq<char>, outcome: ProbeOutcome) -> Seq<
    char,
> {
    id + " "@ + endpoint + " "@ + spec_status_token(outcome)
}

/// Renders the report line for one flow.
pub fn report_line(record: &FlowRecord, outcome: &ProbeOutcome) -> (r: String)
    ensures
        r@ == spec_report_line(record.id@, record.endpoint_spec@, *outcome),
{
    let mut line: String = record.id.clone();
    line.append(" ");
    line.append(record.endpoint_spec.as_str());
    line.append(" ");
    let token: String = status_token(outcome);
    line.append(token.as_str());
    proof {
        assert(line@ =~= spec_report_line(record.id@, record.endpoint_spec@, *outcome));
    }
    line
}

} // verus!
