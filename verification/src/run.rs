//! The run driver: the decision core of one checking run. The surrounding
//! binary reads manifest lines and performs the probes; the driver parses
//! each line, tallies each outcome, and renders each report line, keeping
//! the counters balanced throughout.

use vstd::prelude::*;

verus! {

use crate::manifest::line_parses;
use crate::manifest::parse_line;
use crate::manifest::parsed_endpoint;
use crate::manifest::parsed_id;
use crate::manifest::FlowRecord;
use crate::outcome::ProbeOutcome;
use crate::report::report_line;
use crate::report::spec_report_line;
use crate::stats::Stats;

/// Drives one run over one manifest. `pending` is true exactly while one
/// flow has been counted but its probe outcome has not been tallied yet;
/// the caller probes one flow at a time, in manifest order.
pub struct RunDriver {
    pub stats: Stats,
    pub pending: bool,
}

impl RunDriver {
    /// Between flows the counters balance; while one flow's probe is
    /// outstanding its line is counted but no outcome bucket is yet.
    pub open spec fn wf(self) -> bool {
        self.stats.flow_ok + self.stats.unresolved + self.stats.other + (if self.pending {
            1int
        } else {
            0int
        }) == self.stats.lines
    }

    pub fn new() -> (d: RunDriver)
        ensures
            d.wf(),
            !d.pending,
            d.stats.lines == 0,
            d.stats.flow_ok == 0,
            d.stats.unresolved == 0,
            d.stats.other == 0,
    {
        RunDriver { stats: Stats::new(), pending: false }
    }

    /// Accepts one raw manifest line. A line that parses is counted and
    /// its flow record returned for probing; any other line changes
    /// nothing.
    pub fn on_line(&mut self, line: &str) -> (r: Option<FlowRecord>)
        requires
            old(self).wf(),
            !old(self).pending,
            old(self).stats.lines < u64::MAX,
        ensures
            final(self).wf(),
            match r {
                Some(rec) => {
                    &&& line_parses(line@)
                    &&& rec.id@ == parsed_id(line@)
                    &&& rec.endpoint_spec@ == parsed_endpoint(line@)
                    &&& final(self).pending
                    &&& final(self).stats.lines == old(self).stats.lines + 1
                },
                None => {
                    &&& !line_parses(line@)
                    &&& !final(self).pending
                    &&& final(self).stats.lines == old(self).stats.lines
                },
            },
            final(self).stats.flow_ok == old(self).stats.flow_ok,
            final(self).stats.unresolved == old(self).stats.unresolved,
            final(self).stats.other == old(self).stats.other,
    {
        let parsed = parse_line(line);
        match parsed {
            Some(rec) => {
                self.stats.add_flow();
                self.pending = true;
                Some(rec)
            },
            None => None,
        }
    }

    /// Tallies the probe outcome of the pending flow — exactly one outcome
    /// bucket grows, and a resolution failure never lands in the other
    /// failures — and renders its report line.
    pub fn on_outcome(&mut self, record: &FlowRecord, outcome: &ProbeOutcome) -> (r: String)
        requires
            old(self).wf(),
            old(self).pending,
        ensures
            final(self).wf(),
            !final(self).pending,
            final(self).stats.lines == old(self).stats.lines,
            r@ == spec_report_line(record.id@, record.endpoint_spec@, *outcome),
            match *outcome {
                ProbeOutcome::Connected => {
                    &&& final(self).stats.flow_ok == old(self).stats.flow_ok + 1
                    &&& final(self).stats.unresolved == old(self).stats.unresolved
                    &&& final(self).stats.other == old(self).stats.other
                },
                ProbeOutcome::Unresolved => {
                    &&& final(self).stats.unresolved == old(self).stats.unresolved + 1
                    &&& final(self).stats.flow_ok == old(self).stats.flow_ok
                    &&& final(self).stats.other == old(self).stats.other
                },
                ProbeOutcome::ConnectFailed(_) => {
                    &&& final(self).stats.other == old(self).stats.other + 1
                    &&& final(self).stats.flow_ok == old(self).stats.flow_ok
                    &&& final(self).stats.unresolved == old(self).stats.unresolved
                },
            },
    {
        match outcome {
            ProbeOutcome::Connected => self.stats.add_flowok(),
            ProbeOutcome::Unresolved => self.stats.add_unresolved(),
            ProbeOutcome::ConnectFailed(_) => self.stats.add_other(),
        }
        self.pending = false;
        report_line(record, outcome)
    }
}

/// Law: at run end — whenever no flow's probe is outstanding — the number
/// of counted flows equals the sum of the three outcome buckets: every
/// counted flow landed in exactly one bucket.
pub proof fn lemma_counters_balanced(d: RunDriver)
    requires
        d.wf(),
        !d.pending,
    ensures
        d.stats.lines == d.stats.flow_ok + d.stats.unresolved + d.stats.other,
{
}

} // verus!
