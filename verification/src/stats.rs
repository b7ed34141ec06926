//! Run-level counters: one line count plus one bucket per probe outcome.

use vstd::prelude::*;
use vstd::string::StringExecFns;

use crate::decimal::spec_decimal;
use crate::decimal::u64_to_decimal;

verus! {

/// Counters accumulated over one run. `lines` counts every syntactically
/// valid flow line; each probed flow lands in exactly one of the three
/// outcome buckets.
pub struct Stats {
    pub lines: u64,
    pub flow_ok: u64,
    pub unresolved: u64,
    pub other: u64,
}

/// The one-line summary of a run's counters.
pub open spec fn spec_summary(s: Stats) -> Seq<char> {
    "(Lines:"@ + spec_decimal(s.lines as nat) + ", OK:"@ + spec_decimal(s.flow_ok as nat)
        + ", Unresolved:"@ + spec_decimal(s.unresolved as nat) + ", Other: "@ + spec_decimal(
        s.other as nat,
    ) + ")"@
}

impl Stats {
    pub fn new() -> (s: Stats)
        ensures
            s.lines == 0,
            s.flow_ok == 0,
            s.unresolved == 0,
            s.other == 0,
    {
        Stats { lines: 0, flow_ok: 0, unresolved: 0, other: 0 }
    }

    pub fn add_flow(&mut self)
        requires
            old(self).lines < u64::MAX,
        ensures
            final(self).lines == old(self).lines + 1,
            final(self).flow_ok == old(self).flow_ok,
            final(self).unresolved == old(self).unresolved,
            final(self).other == old(self).other,
    {
        self.lines = self.lines + 1;
    }

    pub fn add_unresolved(&mut self)
        requires
            old(self).unresolved < u64::MAX,
        ensures
            final(self).unresolved == old(self).unresolved + 1,
            final(self).lines == old(self).lines,
            final(self).flow_ok == old(self).flow_ok,
            final(self).other == old(self).other,
    {
        self.unresolved = self.unresolved + 1;
    }

    pub fn add_flowok(&mut self)
        requires
            old(self).flow_ok < u64::MAX,
        ensures
            final(self).flow_ok == old(self).flow_ok + 1,
            final(self).lines == old(self).lines,
            final(self).unresolved == old(self).unresolved,
            final(self).other == old(self).other,
    {
        self.flow_ok = self.flow_ok + 1;
    }

    pub fn add_other(&mut self)
        requires
            old(self).other < u64::MAX,
        ensures
            final(self).other == old(self).other + 1,
            final(self).lines == old(self).lines,
            final(self).flow_ok == old(self).flow_ok,
            final(self).unresolved == old(self).unresolved,
    {
        self.other = self.other + 1;
    }

    /// Renders the counters as one summary line.
    pub fn summary(&self) -> (r: String)
        ensures
            r@ == spec_summary(*self),
    {
        let mut r: String = String::from_str("(Lines:");
        let lines_s: String = u64_to_decimal(self.lines);
        r.append(lines_s.as_str());
        r.append(", OK:");
        let ok_s: String = u64_to_decimal(self.flow_ok);
        r.append(ok_s.as_str());
        r.append(", Unresolved:");
        let unresolved_s: String = u64_to_decimal(self.unresolved);
        r.append(unresolved_s.as_str());
        r.append(", Other: ");
        let other_s: String = u64_to_decimal(self.other);
        r.append(other_s.as_str());
        r.append(")");
        proof {
            assert(r@ =~= spec_summary(*self));
        }
        r
    }
}

} // verus!
