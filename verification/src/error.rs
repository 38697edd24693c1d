use vstd::prelude::*;

use crate::metadata::Role;

verus! {

/// Failures surfaced by the refresh protocol.
#[derive(Clone, Copy, Debug, PartialEq, Eq, Structural)]
pub enum Error {
    /// A semantic trust violation: a rollback attempt, a missing or
    /// unusable descriptor, a failed signature threshold, or fetched
    /// content that breaks a size or digest bound.
    VerificationFailure,
    /// A stage ran before the role it depends on was ever trusted.
    MissingMetadata(Role),
    /// The trust store rejected a candidate the orchestrator had already
    /// range-validated: a programming defect, not an attacker event.
    Generic,
    /// The source holds no document for the requested role and version.
    NotFound,
}

} // verus!
