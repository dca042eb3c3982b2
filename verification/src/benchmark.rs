//! The integer side of the benchmark engine: process and thread counts, their
//! deltas, and the verdict printed beside a delta.

use vstd::prelude::*;
use crate::text::{trim, trimmed, parse_unsigned, parsed_unsigned};

verus! {

/// The verdict on a change of a metric where lower is better.
#[derive(Clone, Copy, Debug, PartialEq, Eq, Structural)]
pub enum DeltaVerdict {
    Better,
    Higher,
    Same,
}

/// The verdict on an integer delta: a drop is better, a rise higher.
pub open spec fn verdict_of(delta: int) -> DeltaVerdict {
    if delta < 0 {
        DeltaVerdict::Better
    } else if delta > 0 {
        DeltaVerdict::Higher
    } else {
        DeltaVerdict::Same
    }
}

impl DeltaVerdict {
    /// The label of the verdict column in the comparison report.
    pub fn label(self) -> (r: &'static str)
        ensures
            r@ == match self {
                DeltaVerdict::Better => "↓ BETTER"@,
                DeltaVerdict::Higher => "↑ higher"@,
                DeltaVerdict::Same => "≈ same"@,
            },
    {
        match self {
            DeltaVerdict::Better => "↓ BETTER",
            DeltaVerdict::Higher => "↑ higher",
            DeltaVerdict::Same => "≈ same",
        }
    }

    /// The arrow printed after a delta on the console.
    pub fn arrow(self) -> (r: &'static str)
        ensures
            r@ == match self {
                DeltaVerdict::Better => "↓"@,
                DeltaVerdict::Higher => "↑"@,
                DeltaVerdict::Same => "≈"@,
            },
    {
        match self {
            DeltaVerdict::Better => "↓",
            DeltaVerdict::Higher => "↑",
            DeltaVerdict::Same => "≈",
        }
    }
}

/// The change of a count from `before` to `after`, as a signed number.
pub fn count_delta(before: usize, after: usize) -> (r: isize)
    requires
        before <= isize::MAX,
        after <= isize::MAX,
    ensures
        r == after - before,
{
    (after as isize) - (before as isize)
}

/// The verdict on a delta of counts.
pub fn count_verdict(delta: isize) -> (r: DeltaVerdict)
    ensures
        r == verdict_of(delta as int),
{
    if delta < 0 {
        DeltaVerdict::Better
    } else if delta > 0 {
        DeltaVerdict::Higher
    } else {
        DeltaVerdict::Same
    }
}

/// The thread count printed by the WMI query, or `fallback` (the process count)
/// when the query gave no output or its trimmed output is no `usize`.
pub fn thread_count_from_output(stdout: Option<&str>, fallback: usize) -> (r: usize)
    ensures
        r == match stdout {
            Some(s) => match parsed_unsigned(trimmed(s@), usize::MAX as nat) {
                Some(v) => v,
                None => fallback as nat,
            },
            None => fallback as nat,
        },
{
    match stdout {
        Some(s) => match parse_unsigned(trim(s), usize::MAX as u64) {
            Some(v) => v as usize,
            None => fallback,
        },
        None => fallback,
    }
}

/// Swapping the two captures turns a better verdict into a higher one and back,
/// and leaves an unchanged count unchanged.
pub proof fn law_verdict_swaps_with_captures(before: int, after: int)
    ensures
        verdict_of(after - before) == DeltaVerdict::Better <==> verdict_of(before - after)
            == DeltaVerdict::Higher,
        verdict_of(after - before) == DeltaVerdict::Same <==> verdict_of(before - after)
            == DeltaVerdict::Same,
        verdict_of(after - before) == DeltaVerdict::Same <==> before == after,
{
}

/// The file a benchmark labelled `label` is saved to.
pub fn benchmark_file_name(label: &str) -> (r: String)
    ensures
        r@ == "benchmark-"@ + label@ + ".json"@,
{
    let mut r = String::from_str("benchmark-");
    r.append(label);
    r.append(".json");
    r
}

/// A fall in a count is better, a rise is higher, and no change is the same.
pub proof fn law_verdict_follows_sign(delta: int)
    ensures
        verdict_of(delta) == DeltaVerdict::Better <==> delta < 0,
        verdict_of(delta) == DeltaVerdict::Higher <==> delta > 0,
        verdict_of(delta) == DeltaVerdict::Same <==> delta == 0,
{
}

} // verus!
