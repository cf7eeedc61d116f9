//! The structured diagnostic report an external builder parses out of the
//! captured output, and the error raised when no report could be built.

use vstd::prelude::*;
use crate::lines::reverse_vec;

verus! {

/// Aggregate statistics of a report.
#[derive(Clone, Copy, Debug, PartialEq, Eq, Structural)]
pub struct Stats {
    pub errors: usize,
    pub warnings: usize,
}

/// A structured diagnostic result: an ordered sequence of diagnostic lines
/// and aggregate statistics. It is produced outside this crate by parsing the
/// full ordered sequence of captured output lines; the classifier only reads
/// `stats.errors`, counts `lines`, or reverses their ordering.
#[derive(Clone, Debug)]
pub struct Report {
    pub lines: Vec<String>,
    pub stats: Stats,
}

/// The external report builder could not construct a [`Report`] at all from
/// the given lines. This is a hard failure of classification, distinct from a
/// trust mismatch, which is a successful classification.
#[derive(Clone, Debug)]
pub struct ParseFailure {
    pub message: String,
}

impl Report {
    /// Reverses the report's own diagnostic-line ordering; the statistics are
    /// untouched.
    pub fn reverse(&mut self)
        ensures
            final(self).lines@ == old(self).lines@.reverse(),
            final(self).stats == old(self).stats,
    {
        reverse_vec(&mut self.lines);
    }
}

} // verus!
