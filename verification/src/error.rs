use vstd::prelude::*;

verus! {

/// An infrastructure failure reported by the user store. It is carried
/// through authentication unchanged, so that operators can tell outages
/// apart from credential failures; it is never collapsed into
/// `Unauthorized`.
#[derive(Debug, Clone, PartialEq, Eq)]
pub struct StoreError {
    pub message: String,
}

/// The failures authentication can surface.
///
/// Every credential problem — a token that does not decode, a bad or foreign
/// signature, an expired access token, an unknown claimed subject, a CSRF
/// mismatch — is deliberately collapsed to the single `Unauthorized` kind,
/// so that the outward error never reveals which check failed.
#[derive(Debug, Clone, PartialEq, Eq)]
pub enum AuthError {
    /// Any failure of the two-phase token validation, a CSRF mismatch, or a
    /// claimed subject the store does not know.
    Unauthorized,
    /// A store row that has neither a complete legacy credential nor a
    /// complete federated one: a data-integrity violation, not a bad request.
    MalformedCredentialState,
    /// An infrastructure failure from the store, passed through as-is.
    Store(StoreError),
}

} // verus!
