use vstd::prelude::*;

use crate::error::{AuthError, StoreError};
use crate::identity::{spec_resolve_row, AuthenticatedUser, Credential, Row};
use crate::secret::{
    credentials_agree, length_framed, lemma_signing_secret_framed, lemma_signing_secret_injective,
    secret_len_bounds, spec_signing_secret,
};
use crate::token::{access_token_accepted, csrf_token_accepted, jwt_claims_of};

verus! {

/// What a store lookup for the claimed subject came back with. `NotFound`
/// is an authentication decision (the claimed subject does not exist);
/// `Failed` is infrastructure trouble and is kept distinguishable.
pub enum FetchOutcome {
    Found(Row),
    NotFound,
    Failed(StoreError),
}

/// How a lookup outcome resolves: a found row resolves by its credential
/// columns; a missing row fails with the same outward `Unauthorized` as a
/// bad signature, so an observer cannot probe which ids exist; a store
/// failure is passed through unchanged.
pub open spec fn spec_resolve_fetched(fetched: FetchOutcome) -> Result<
    AuthenticatedUser,
    AuthError,
> {
    match fetched {
        FetchOutcome::Found(row) => spec_resolve_row(row),
        FetchOutcome::NotFound => Err(AuthError::Unauthorized),
        FetchOutcome::Failed(e) => Err(AuthError::Store(e)),
    }
}

/// Resolves a store lookup outcome into an identity variant, as both lookup
/// entry points (by id and by display name) do.
pub fn resolve_fetched(fetched: FetchOutcome) -> (r: Result<AuthenticatedUser, AuthError>)
    ensures
        r == spec_resolve_fetched(fetched),
{
    match fetched {
        FetchOutcome::Found(row) => crate::identity::resolve_row(row),
        FetchOutcome::NotFound => Err(AuthError::Unauthorized),
        FetchOutcome::Failed(e) => Err(AuthError::Store(e)),
    }
}

/// The whole authentication decision as a function of the inputs: resolve
/// the fetched row, re-validate the access token against the resolved
/// identity's current derived secret (expiry enforced at `now`), and, when a
/// CSRF token was supplied, validate it against the same secret and the same
/// subject.
pub open spec fn spec_token_auth(
    access_token: Seq<char>,
    csrf_token: Option<Seq<char>>,
    fetched: FetchOutcome,
    now: i64,
) -> Result<AuthenticatedUser, AuthError> {
    match spec_resolve_fetched(fetched) {
        Err(e) => Err(e),
        Ok(user) => {
            let key = spec_signing_secret(user.credential);
            if !access_token_accepted(access_token, key, user.user.id as i64, now) {
                Err(AuthError::Unauthorized)
            } else {
                match csrf_token {
                    None => Ok(user),
                    Some(csrf) => if csrf_token_accepted(csrf, key, user.user.id as i64) {
                        Ok(user)
                    } else {
                        Err(AuthError::Unauthorized)
                    },
                }
            }
        },
    }
}

/// The view of an optional token.
pub open spec fn spec_opt_str(s: Option<&str>) -> Option<Seq<char>> {
    match s {
        Some(t) => Some(t@),
        None => None,
    }
}

impl AuthenticatedUser {
    /// Token authentication, given the outcome of the store lookup for the
    /// claimed subject. The caller learns whom to look up from
    /// `claimed_subject` (the untrusted first phase); everything here is the
    /// trusted second phase, and it trusts nothing about the lookup: the
    /// token is re-validated against the secret derived from the row that
    /// was actually fetched, so a wrong row merely fails validation.
    pub fn token_auth(
        access_token: &str,
        csrf_token: Option<&str>,
        fetched: FetchOutcome,
        now: i64,
    ) -> (r: Result<AuthenticatedUser, AuthError>)
        ensures
            r == spec_token_auth(access_token@, spec_opt_str(csrf_token), fetched, now),
    {
        let user = match resolve_fetched(fetched) {
            Ok(user) => user,
            Err(e) => {
                return Err(e);
            },
        };
        match user.validate_access_token(access_token, now) {
            Ok(()) => {},
            Err(e) => {
                return Err(e);
            },
        }
        if let Some(csrf) = csrf_token {
            match user.validate_csrf_token(csrf) {
                Ok(()) => {},
                Err(e) => {
                    return Err(e);
                },
            }
        }
        Ok(user)
    }
}

/// Law: issuance and resolution agree. A token carrying an identity's own
/// id, verified under that identity's current derived secret — which is
/// what `issue_access_token` guarantees of a fresh token — resolves to that
/// identity as long as its expiry has not passed and the store still yields
/// the row it was issued against.
pub proof fn lemma_fresh_token_resolves(
    token: Seq<char>,
    row: Row,
    u: AuthenticatedUser,
    issued_at: Option<i64>,
    expires_at: Option<i64>,
    now: i64,
)
    requires
        spec_resolve_row(row) == Ok::<AuthenticatedUser, AuthError>(u),
        jwt_claims_of(token, spec_signing_secret(u.credential)) == Some(
            (u.user.id as i64, issued_at, expires_at),
        ),
        expires_at matches Some(e) ==> now < e,
    ensures
        spec_token_auth(token, None, FetchOutcome::Found(row), now) == Ok::<
            AuthenticatedUser,
            AuthError,
        >(u),
{
}

/// Law: a token signed with one identity's derived secret fails trusted
/// re-validation against every identity whose credential differs — as an
/// access token and as a CSRF token alike. The first hypothesis is exactly
/// what issuing a token under credential `a` guarantees about it.
pub proof fn lemma_foreign_token_rejected(token: Seq<char>, a: Credential, b: Credential)
    requires
        forall|other: Seq<u8>|
            length_framed(other) && other != spec_signing_secret(a) ==> jwt_claims_of(
                token,
                other,
            ) is None,
        !credentials_agree(a, b),
        secret_len_bounds(a),
        secret_len_bounds(b),
    ensures
        jwt_claims_of(token, spec_signing_secret(b)) is None,
        forall|subject: i64, now: i64|
            !access_token_accepted(token, spec_signing_secret(b), subject, now),
        forall|subject: i64| !csrf_token_accepted(token, spec_signing_secret(b), subject),
{
    lemma_signing_secret_injective(a, b);
    lemma_signing_secret_framed(b);
}

/// Law: expiry binds access tokens only. A token whose expiry claim has
/// passed is rejected as an access token, while a CSRF check of the very
/// same token — same claims, same signature — does not fail on expiry.
pub proof fn lemma_expiry_limits_access_tokens_only(
    token: Seq<char>,
    key: Seq<u8>,
    subject: i64,
    issued_at: Option<i64>,
    expires_at: i64,
    now: i64,
)
    requires
        jwt_claims_of(token, key) == Some((subject, issued_at, Some(expires_at))),
        expires_at <= now,
    ensures
        !access_token_accepted(token, key, subject, now),
        csrf_token_accepted(token, key, subject),
{
}

/// Law: every credential failure surfaces as exactly `Unauthorized` — an
/// unknown claimed subject, an access token that does not verify (tampered,
/// foreign or expired), and a supplied CSRF token that does not verify all
/// yield the same outward error — while a store failure keeps its own kind
/// and a corrupt row is reported as data corruption, not as a bad request.
pub proof fn lemma_failures_collapse_to_unauthorized(
    access_token: Seq<char>,
    csrf_token: Option<Seq<char>>,
    fetched: FetchOutcome,
    now: i64,
)
    ensures
        fetched is NotFound ==> spec_token_auth(access_token, csrf_token, fetched, now) == Err::<
            AuthenticatedUser,
            AuthError,
        >(AuthError::Unauthorized),
        forall|row: Row|
            fetched == FetchOutcome::Found(row) && (spec_resolve_row(row) matches Ok(user)
                && !access_token_accepted(
                access_token,
                spec_signing_secret(user.credential),
                user.user.id as i64,
                now,
            )) ==> spec_token_auth(access_token, csrf_token, fetched, now) == Err::<
                AuthenticatedUser,
                AuthError,
            >(AuthError::Unauthorized),
        forall|row: Row, csrf: Seq<char>|
            fetched == FetchOutcome::Found(row) && csrf_token == Some(csrf)
                && (spec_resolve_row(row) matches Ok(user) && !csrf_token_accepted(
                csrf,
                spec_signing_secret(user.credential),
                user.user.id as i64,
            )) ==> spec_token_auth(access_token, csrf_token, fetched, now) == Err::<
                AuthenticatedUser,
                AuthError,
            >(AuthError::Unauthorized),
        forall|row: Row|
            fetched == FetchOutcome::Found(row) && spec_resolve_row(row) == Err::<
                AuthenticatedUser,
                AuthError,
            >(AuthError::MalformedCredentialState) ==> spec_token_auth(
                access_token,
                csrf_token,
                fetched,
                now,
            ) == Err::<AuthenticatedUser, AuthError>(AuthError::MalformedCredentialState),
        forall|e: StoreError|
            fetched == FetchOutcome::Failed(e) ==> spec_token_auth(
                access_token,
                csrf_token,
                fetched,
                now,
            ) == Err::<AuthenticatedUser, AuthError>(AuthError::Store(e)),
{
}

} // verus!
