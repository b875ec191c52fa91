use vstd::prelude::*;

use crate::error::AuthError;

verus! {

/// The shape of a user row handed over by the store: the stable attributes
/// of a member plus the nullable columns from which exactly one credential
/// variant is reconstructed.
pub struct Row {
    pub id: i32,
    pub name: String,
    pub permissions: u32,
    pub verified_email: Option<String>,
    pub password_digest: Option<String>,
    pub external_account_id: Option<String>,
}

/// The public identity attributes: immutable numeric id, display name and
/// permission bits. None of these may enter the signing-secret derivation.
pub struct User {
    pub id: i32,
    pub name: String,
    pub permissions: u32,
}

/// Exactly one credential backs an identity; the closed enum enforces the
/// "precisely one variant populated" invariant by construction.
pub enum Credential {
    /// A password-based account: an opaque digest produced by the password
    /// hasher, which already contains a per-user random salt.
    Legacy { password_digest: String },
    /// An account enrolled through an external identity provider: the
    /// provider-side account id together with the verified email address.
    Federated { external_account_id: String, verified_email: String },
}

/// An authenticated principal: the identity attributes together with the
/// credential record its signing secret is derived from. Constructed fresh
/// from a store row on every authentication attempt and never mutated here.
pub struct AuthenticatedUser {
    pub user: User,
    pub credential: Credential,
}

impl AuthenticatedUser {
    /// Builds a password-backed identity.
    pub fn legacy(user: User, password_digest: String) -> (r: AuthenticatedUser)
        ensures
            r == (AuthenticatedUser {
                user,
                credential: Credential::Legacy { password_digest },
            }),
    {
        AuthenticatedUser { user, credential: Credential::Legacy { password_digest } }
    }

    /// Builds an identity enrolled through the external provider.
    pub fn oauth2(user: User, verified_email: String, external_account_id: String) -> (r:
        AuthenticatedUser)
        ensures
            r == (AuthenticatedUser {
                user,
                credential: Credential::Federated { external_account_id, verified_email },
            }),
    {
        AuthenticatedUser {
            user,
            credential: Credential::Federated { external_account_id, verified_email },
        }
    }

    pub fn id(&self) -> (r: i32)
        ensures
            r == self.user.id,
    {
        self.user.id
    }

    pub fn permissions(&self) -> (r: u32)
        ensures
            r == self.user.permissions,
    {
        self.user.permissions
    }

    pub fn user(&self) -> (r: &User)
        ensures
            r == &self.user,
    {
        &self.user
    }
}

/// How a store row resolves into an identity variant: a row carrying both a
/// non-null external account id and a non-null verified email is federated;
/// otherwise a non-null password digest makes it legacy; a row satisfying
/// neither is corrupt.
pub open spec fn spec_resolve_row(row: Row) -> Result<AuthenticatedUser, AuthError> {
    let user = User { id: row.id, name: row.name, permissions: row.permissions };
    match (row.external_account_id, row.verified_email) {
        (Some(external_account_id), Some(verified_email)) => Ok(
            AuthenticatedUser {
                user,
                credential: Credential::Federated { external_account_id, verified_email },
            },
        ),
        _ => match row.password_digest {
            Some(password_digest) => Ok(
                AuthenticatedUser { user, credential: Credential::Legacy { password_digest } },
            ),
            None => Err(AuthError::MalformedCredentialState),
        },
    }
}

/// Reconstructs the identity variant a store row describes, or reports the
/// row as corrupt when it backs neither variant completely.
pub fn resolve_row(row: Row) -> (r: Result<AuthenticatedUser, AuthError>)
    ensures
        r == spec_resolve_row(row),
{
    let Row { id, name, permissions, verified_email, password_digest, external_account_id } = row;
    let user = User { id, name, permissions };
    match (external_account_id, verified_email) {
        (Some(account), Some(email)) => Ok(AuthenticatedUser::oauth2(user, email, account)),
        _ => match password_digest {
            Some(digest) => Ok(AuthenticatedUser::legacy(user, digest)),
            None => Err(AuthError::MalformedCredentialState),
        },
    }
}

} // verus!
