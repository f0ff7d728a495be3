//! The capability context's debug-message policy.
//!
//! The context registers a message sink with the graphics API. The filter
//! below is the policy that sink is registered with; every message it lets
//! through is forwarded to the logging collaborator and never changes control
//! flow.

use vstd::prelude::*;

verus! {

/// How severe a debug message is.
#[derive(Clone, Copy, Debug, PartialEq, Eq, Structural)]
pub enum MessageSeverity {
    Verbose,
    Info,
    Warning,
    Error,
}

/// Which part of the API a debug message is about.
#[derive(Clone, Copy, Debug, PartialEq, Eq, Structural)]
pub enum MessageCategory {
    General,
    Performance,
    Validation,
}

/// Whether the debug sink forwards a message: warnings and errors pass, in
/// every category; verbose and informational messages are dropped.
pub fn message_forwarded(severity: MessageSeverity, category: MessageCategory) -> (forwarded:
    bool)
    ensures
        forwarded <==> (severity is Warning || severity is Error),
{
    let _ = category;
    match severity {
        MessageSeverity::Warning => true,
        MessageSeverity::Error => true,
        _ => false,
    }
}

} // verus!
