//! How serious a reported code is. A renderer maps each level to its own
//! styling; the framework itself only records the level.

use vstd::prelude::*;

verus! {

/// Severity of a diagnostic, from an internal fault of the tool itself down
/// to a hint that is safe to ignore.
#[derive(Clone, Copy, Debug, PartialEq, Eq, Structural)]
pub enum Severity {
    /// An unexpected fault of the toolchain itself.
    Bug,
    /// The input is wrong and processing of it failed.
    Error,
    /// The input is suspect but processing went on.
    Warning,
    /// Additional context attached to another report.
    Note,
    /// A suggestion on how to improve the input.
    Help,
}

} // verus!
