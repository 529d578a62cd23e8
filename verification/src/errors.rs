use vstd::prelude::*;

verus! {

/// Failures surfaced by the role/identity store adapter.
#[derive(Copy, Clone, PartialEq, Eq, Structural, Debug)]
pub enum StoreError {
    /// No record exists for the requested subject.
    NotFound,
    /// The backing store is unreachable.
    Unavailable,
    /// An insert collided with an existing row for the same id.
    DuplicateId,
    /// The default role row of a new account could not be written.
    RoleWriteFailed,
}

/// The failure taxonomy of the authentication and authorization pipeline.
/// Verification failures are never distinguished beyond `Unauthorized`,
/// so that callers cannot probe why a credential was rejected.
#[derive(Copy, Clone, PartialEq, Eq, Structural, Debug)]
pub enum ApiError {
    /// Absent, empty, invalid or expired credential.
    Unauthorized,
    /// Authenticated, but the required role is not held.
    Forbidden,
    /// Authenticated, but no store record exists for the subject.
    NotFound,
    /// The identity provider could not be reached.
    ProviderUnavailable,
    /// The store could not be reached.
    StorageUnavailable,
    /// The signing key of the minting path is misconfigured.
    SigningError,
    /// The identity provider rejected a minted assertion.
    InvalidAssertion,
}

/// How a store failure observed by a guard is surfaced to the caller:
/// a missing record keeps its meaning, everything else is infrastructure.
pub open spec fn spec_store_failure(e: StoreError) -> ApiError {
    match e {
        StoreError::NotFound => ApiError::NotFound,
        _ => ApiError::StorageUnavailable,
    }
}

impl ApiError {
    pub fn from_store(e: StoreError) -> (r: ApiError)
        ensures
            r == spec_store_failure(e),
    {
        match e {
            StoreError::NotFound => ApiError::NotFound,
            _ => ApiError::StorageUnavailable,
        }
    }
}

} // verus!
