//! Classifying a finished command run: trust the parsed report, or keep the
//! raw output.

use vstd::prelude::*;
use crate::lines::{reverse_vec, CommandOutputLine};
use crate::report::{ParseFailure, Report};

verus! {

/// What this crate retains of a process's exit status: the platform exit
/// code, when the status carried one. A status without a code (for example
/// termination by a signal) is `code: None`.
#[derive(Clone, Copy, Debug, PartialEq, Eq, Structural)]
pub struct ExitInfo {
    pub code: Option<i32>,
}

/// Raw command output retained verbatim because the parsed report would
/// misrepresent reality: the process reported the nonzero exit code
/// `error_code` while the report found no error of its own.
#[derive(Clone, Debug)]
pub struct Failure {
    pub error_code: i32,
    pub lines: Vec<CommandOutputLine>,
}

/// What we get from the execution of a command.
pub enum CommandResult {
    /// a trustable report with errors and warnings computed
    Report(Report),
    /// we don't have a proper report
    Failure(Failure),
    /// not yet computed
    NotComputed,
}

/// The nonzero exit code of a run, if any: present exactly when a status was
/// observed, it carried a platform exit code, and that code is not zero.
pub open spec fn error_code_of(exit_status: Option<ExitInfo>) -> Option<i32> {
    match exit_status {
        Some(status) => match status.code {
            Some(code) => if code != 0 {
                Some(code)
            } else {
                None
            },
            None => None,
        },
        None => None,
    }
}

/// The classification policy. A report claiming errors is always trusted,
/// even on a zero exit code; only "process signals failure, report signals no
/// error" is treated as untrustworthy, and then the original lines are kept
/// verbatim. A builder failure is propagated as it came.
pub open spec fn classify_spec(
    lines: Vec<CommandOutputLine>,
    exit_status: Option<ExitInfo>,
    built: Result<Report, ParseFailure>,
) -> Result<CommandResult, ParseFailure> {
    match built {
        Ok(report) => match error_code_of(exit_status) {
            Some(error_code) => if report.stats.errors == 0 {
                Ok(CommandResult::Failure(Failure { error_code, lines }))
            } else {
                Ok(CommandResult::Report(report))
            },
            None => Ok(CommandResult::Report(report)),
        },
        Err(e) => Err(e),
    }
}

impl CommandResult {
    /// Classifies a finished run: `lines` is the full captured output in
    /// emission order, `exit_status` the process's completion status if one
    /// was observed, and `built` what the external report builder made of
    /// those same lines.
    pub fn new(
        lines: Vec<CommandOutputLine>,
        exit_status: Option<ExitInfo>,
        built: Result<Report, ParseFailure>,
    ) -> (result: Result<Self, ParseFailure>)
        ensures
            result == classify_spec(lines, exit_status, built),
    {
        let error_code: Option<i32> = match exit_status {
            Some(status) => match status.code {
                Some(code) => if code != 0 {
                    Some(code)
                } else {
                    None
                },
                None => None,
            },
            None => None,
        };
        let report = match built {
            Ok(report) => report,
            Err(e) => {
                return Err(e);
            },
        };
        if let Some(error_code) = error_code {
            if report.stats.errors == 0 {
                // report shows no error while the command exe reported
                // an error, so the report can't be trusted
                return Ok(Self::Failure(Failure { error_code, lines }));
            }
        }
        // report looks valid
        Ok(Self::Report(report))
    }

    /// The number of lines the outcome holds: the report's structured
    /// diagnostic lines, a failure's raw retained lines, or zero.
    pub open spec fn spec_lines_len(self) -> nat {
        match self {
            CommandResult::Report(report) => report.lines@.len(),
            CommandResult::Failure(failure) => failure.lines@.len(),
            CommandResult::NotComputed => 0,
        }
    }

    /// Reverses the line ordering of whichever variant is active: a report's
    /// own diagnostic lines, a failure's raw lines; on `NotComputed` nothing
    /// happens. The variant and everything but the ordering are kept.
    pub fn reverse(&mut self)
        ensures
            reversed_outcome(*old(self), *final(self)),
    {
        match self {
            Self::Report(report) => {
                report.reverse();
            },
            Self::Failure(failure) => {
                reverse_vec(&mut failure.lines);
            },
            Self::NotComputed => {},
        }
    }

    /// The number of lines the outcome holds; read-only.
    pub fn lines_len(&self) -> (n: usize)
        ensures
            n == self.spec_lines_len(),
    {
        match self {
            Self::Report(report) => report.lines.len(),
            Self::Failure(failure) => failure.lines.len(),
            Self::NotComputed => 0,
        }
    }
}

/// Holds when `after` is `before` with its line ordering reversed: the same
/// variant, the same statistics or exit code, and the lines of the active
/// payload in reverse order.
pub open spec fn reversed_outcome(before: CommandResult, after: CommandResult) -> bool {
    match (before, after) {
        (CommandResult::Report(r0), CommandResult::Report(r1)) => r1.lines@ == r0.lines@.reverse()
            && r1.stats == r0.stats,
        (CommandResult::Failure(f0), CommandResult::Failure(f1)) => f1.lines@ == f0.lines@.reverse()
            && f1.error_code == f0.error_code,
        (CommandResult::NotComputed, CommandResult::NotComputed) => true,
        _ => false,
    }
}

/// Holds when `a` and `b` agree in variant, line ordering, and the rest of
/// the active payload: what two outcomes that differ at most in allocation
/// have in common.
pub open spec fn same_outcome(a: CommandResult, b: CommandResult) -> bool {
    match (a, b) {
        (CommandResult::Report(r0), CommandResult::Report(r1)) => r1.lines@ == r0.lines@
            && r1.stats == r0.stats,
        (CommandResult::Failure(f0), CommandResult::Failure(f1)) => f1.lines@ == f0.lines@
            && f1.error_code == f0.error_code,
        (CommandResult::NotComputed, CommandResult::NotComputed) => true,
        _ => false,
    }
}

/// Law: when the exit status is absent or carries code 0, classification
/// never yields `Failure`; the built report is trusted as it stands,
/// whatever its own error count.
pub proof fn lemma_clean_exit_is_trusted(
    lines: Vec<CommandOutputLine>,
    exit_status: Option<ExitInfo>,
    built: Result<Report, ParseFailure>,
)
    requires
        exit_status is None || (exit_status matches Some(status) && status.code == Some(0i32)),
        built matches Ok(report),
    ensures
        classify_spec(lines, exit_status, built) == Ok::<CommandResult, ParseFailure>(
            CommandResult::Report(built->Ok_0),
        ),
        !(classify_spec(lines, exit_status, built) matches Ok(CommandResult::Failure(_))),
{
}

/// Law: when the exit code is nonzero but the built report counts at least
/// one error of its own, the report corroborates the failure and is trusted:
/// the result is `Report`, never `Failure`.
pub proof fn lemma_corroborated_report_is_trusted(
    lines: Vec<CommandOutputLine>,
    exit_status: Option<ExitInfo>,
    built: Result<Report, ParseFailure>,
)
    requires
        exit_status matches Some(status) && status.code matches Some(code) && code != 0,
        built matches Ok(report) && report.stats.errors > 0,
    ensures
        classify_spec(lines, exit_status, built) == Ok::<CommandResult, ParseFailure>(
            CommandResult::Report(built->Ok_0),
        ),
{
}

/// Law: when the exit code is nonzero and the built report counts no error,
/// the report cannot be trusted: the result is exactly `Failure` carrying
/// that code and the original input lines unmodified.
pub proof fn lemma_trust_mismatch_is_failure(
    lines: Vec<CommandOutputLine>,
    exit_status: Option<ExitInfo>,
    built: Result<Report, ParseFailure>,
)
    requires
        exit_status matches Some(status) && status.code matches Some(code) && code != 0,
        built matches Ok(report) && report.stats.errors == 0,
    ensures
        classify_spec(lines, exit_status, built) == Ok::<CommandResult, ParseFailure>(
            CommandResult::Failure(
                Failure { error_code: exit_status->0.code->0, lines },
            ),
        ),
{
}

/// Law: reversing an outcome twice restores the original line ordering, on
/// every variant; the variant and the rest of the payload are kept
/// throughout.
pub proof fn lemma_reverse_is_involution(a: CommandResult, b: CommandResult, c: CommandResult)
    requires
        reversed_outcome(a, b),
        reversed_outcome(b, c),
    ensures
        same_outcome(a, c),
{
    match (a, c) {
        (CommandResult::Report(r0), CommandResult::Report(r1)) => {
            assert(r1.lines@ =~= r0.lines@);
        },
        (CommandResult::Failure(f0), CommandResult::Failure(f1)) => {
            assert(f1.lines@ =~= f0.lines@);
        },
        _ => {},
    }
}

} // verus!
