//! The engine's error taxonomy: context construction failures, which abort
//! a whole backend assembly, and capability unavailability, which surfaces
//! only when an operation is actually invoked.

use vstd::prelude::*;

use crate::kind::{BackendKind, Operation};

verus! {

/// An error of the composition engine itself.
///
/// Results of a delegated operation are never wrapped here: once a call is
/// dispatched, the underlying implementation's outcome is forwarded to the
/// caller verbatim.
#[derive(Clone, Debug)]
pub enum BackendError {
    /// The invoked operation has no populated capability slot, because it
    /// is unconfigured, its configured kind does not support it, or the
    /// implementation for that kind is not registered. `configured` is the
    /// kind the account configures for the operation, if any.
    CapabilityUnavailable { operation: Operation, configured: Option<BackendKind> },
    /// Constructing the context for `kind` failed; the whole backend
    /// assembly is aborted and no backend exists.
    ContextFailure { kind: BackendKind, reason: String },
}

impl BackendError {
    /// Does this error report the unavailability of `op`?
    pub open spec fn spec_is_unavailable(self, op: Operation) -> bool {
        match self {
            BackendError::CapabilityUnavailable { operation, .. } => operation == op,
            BackendError::ContextFailure { .. } => false,
        }
    }

    /// Executable check: does this error report the unavailability of `op`?
    pub fn is_unavailable(&self, op: Operation) -> (r: bool)
        ensures
            r == self.spec_is_unavailable(op),
    {
        match self {
            BackendError::CapabilityUnavailable { operation, .. } => *operation == op,
            BackendError::ContextFailure { .. } => false,
        }
    }

    /// The aborting error for a context whose construction failed.
    pub fn context_failure(kind: BackendKind, reason: String) -> (r: BackendError)
        ensures
            r == (BackendError::ContextFailure { kind, reason }),
    {
        BackendError::ContextFailure { kind, reason }
    }
}

} // verus!
