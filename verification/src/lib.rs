//! Classification of a finished command's captured output.
//!
//! A command run yields an ordered sequence of output lines and, possibly, an
//! exit status. An external report builder parses those lines into a
//! structured [`report::Report`]. This crate decides whether that report can
//! be trusted or whether the raw output must be kept verbatim instead, and
//! offers the resulting tri-state [`command_result::CommandResult`] with its
//! order-reversal and line-count operations.

pub mod command_result;
pub mod lines;
pub mod report;

pub use command_result::{CommandResult, ExitInfo, Failure};
pub use lines::{CommandOutputLine, LineOrigin};
pub use report::{ParseFailure, Report, Stats};
