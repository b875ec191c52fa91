use vstd::prelude::*;

use crate::error::AuthError;
use crate::identity::AuthenticatedUser;
use crate::secret::{length_framed, spec_signing_secret};

verus! {

/// The token jsonwebtoken mints for the claim set {id, optional iat,
/// optional exp} under an HMAC key: a deterministic function of the claims
/// and the key alone.
pub uninterp spec fn jwt_of(
    id: i64,
    issued_at: Option<i64>,
    expires_at: Option<i64>,
    key: Seq<u8>,
) -> Seq<char>;

/// The claim set {id, iat, exp} that trusted re-validation of a token under
/// an HMAC key yields, or `None` when the token is malformed, carries no
/// numeric id claim, or fails the signature check. A deterministic function
/// of the token and the key alone.
pub uninterp spec fn jwt_claims_of(token: Seq<char>, key: Seq<u8>) -> Option<
    (i64, Option<i64>, Option<i64>),
>;

/// The claim set {id, iat, exp} an untrusted decode of a token yields —
/// signature and expiry deliberately ignored — or `None` when the token is
/// malformed or carries no numeric id claim. A deterministic function of the
/// token alone. It only ever tells authentication *whom to look up*; it
/// must never drive an authorization decision.
pub uninterp spec fn jwt_claims_noverify(token: Seq<char>) -> Option<
    (i64, Option<i64>, Option<i64>),
>;

/// Relies on jsonwebtoken::encode with the default HS256 header: the token
/// is a deterministic function of the claims map and the key, HMAC signing
/// accepts keys of any length and cannot fail, and jsonwebtoken::decode
/// accepts the result under the signing key while rejecting it under every
/// other key — distinct keys sign differently unless they are related by
/// HMAC's key padding, which two distinct length-framed keys never are.
#[verifier::external_body]
fn jwt_sign(id: i64, issued_at: Option<i64>, expires_at: Option<i64>, key: &[u8]) -> (t: String)
    ensures
        t@ == jwt_of(id, issued_at, expires_at, key@),
        jwt_claims_of(t@, key@) == Some((id, issued_at, expires_at)),
        jwt_claims_noverify(t@) == Some((id, issued_at, expires_at)),
        forall|other: Seq<u8>|
            length_framed(key@) && length_framed(other) && other != key@ ==> jwt_claims_of(
                t@,
                other,
            ) is None,
{
    let mut claims = std::collections::BTreeMap::new();
    claims.insert("id", id);
    if let Some(iat) = issued_at {
        claims.insert("iat", iat);
    }
    if let Some(exp) = expires_at {
        claims.insert("exp", exp);
    }
    let encoding_key = jsonwebtoken::EncodingKey::from_secret(key);
    jsonwebtoken::encode(&jsonwebtoken::Header::default(), &claims, &encoding_key).unwrap()
}

/// Relies on jsonwebtoken::decode restricted to HS256: it checks the token's
/// structure and HMAC signature and parses the claims, a deterministic
/// function of token and key. Expiry is deliberately not checked here: the
/// caller enforces it for access tokens and skips it for CSRF tokens.
#[verifier::external_body]
fn jwt_verify(token: &str, key: &[u8]) -> (r: Result<(i64, Option<i64>, Option<i64>), ()>)
    ensures
        (r is Ok) == (jwt_claims_of(token@, key@) is Some),
        r matches Ok(claims) ==> jwt_claims_of(token@, key@) == Some(claims),
{
    let mut validation = jsonwebtoken::Validation::new(jsonwebtoken::Algorithm::HS256);
    validation.validate_exp = false;
    validation.required_spec_claims = std::collections::HashSet::new();
    let decoding_key = jsonwebtoken::DecodingKey::from_secret(key);
    match jsonwebtoken::decode::<std::collections::BTreeMap<String, i64>>(
        token,
        &decoding_key,
        &validation,
    ) {
        Ok(data) => match data.claims.get("id") {
            Some(&id) => Ok((id, data.claims.get("iat").copied(), data.claims.get("exp").copied())),
            None => Err(()),
        },
        Err(_) => Err(()),
    }
}

/// Relies on jsonwebtoken::insecure_decode: it parses the claims with the
/// signature check disabled and nothing validated, a deterministic function
/// of the token alone.
#[verifier::external_body]
fn jwt_decode_insecure(token: &str) -> (r: Result<(i64, Option<i64>, Option<i64>), ()>)
    ensures
        (r is Ok) == (jwt_claims_noverify(token@) is Some),
        r matches Ok(claims) ==> jwt_claims_noverify(token@) == Some(claims),
{
    match jsonwebtoken::dangerous::insecure_decode::<std::collections::BTreeMap<String, i64>>(token) {
        Ok(data) => match data.claims.get("id") {
            Some(&id) => Ok((id, data.claims.get("iat").copied(), data.claims.get("exp").copied())),
            None => Err(()),
        },
        Err(_) => Err(()),
    }
}

/// When trusted re-validation accepts a token as an access token for the
/// given subject: the signature verifies under the key, the id claim names
/// the subject, and any expiry claim still lies in the future.
pub open spec fn access_token_accepted(
    token: Seq<char>,
    key: Seq<u8>,
    subject: i64,
    now: i64,
) -> bool {
    match jwt_claims_of(token, key) {
        Some(claims) => claims.0 == subject && match claims.2 {
            Some(expires_at) => now < expires_at,
            None => true,
        },
        None => false,
    }
}

/// When trusted re-validation accepts a token as a CSRF token for the given
/// subject: the signature verifies under the key and the id claim names the
/// subject. Expiry is never enforced: the token only serves double-submit
/// protection, not session timing.
pub open spec fn csrf_token_accepted(token: Seq<char>, key: Seq<u8>, subject: i64) -> bool {
    match jwt_claims_of(token, key) {
        Some(claims) => claims.0 == subject,
        None => false,
    }
}

impl AuthenticatedUser {
    /// Mints an access token for this identity, signed with its derived
    /// secret: it validates under that secret and under no other
    /// length-framed key, so it dies with the credential it was signed
    /// under.
    pub fn issue_access_token(&self, issued_at: i64, expires_at: Option<i64>) -> (t: String)
        ensures
            t@ == jwt_of(
                self.user.id as i64,
                Some(issued_at),
                expires_at,
                spec_signing_secret(self.credential),
            ),
            jwt_claims_of(t@, spec_signing_secret(self.credential)) == Some(
                (self.user.id as i64, Some(issued_at), expires_at),
            ),
            jwt_claims_noverify(t@) == Some((self.user.id as i64, Some(issued_at), expires_at)),
            forall|other: Seq<u8>|
                length_framed(other) && other != spec_signing_secret(self.credential)
                    ==> jwt_claims_of(t@, other) is None,
    {
        let key = self.derive_signing_secret();
        jwt_sign(self.user.id as i64, Some(issued_at), expires_at, key.as_slice())
    }

    /// Mints a CSRF token for this identity: the subject id alone, signed
    /// with the derived secret, with no expiry by design.
    pub fn issue_csrf_token(&self) -> (t: String)
        ensures
            t@ == jwt_of(
                self.user.id as i64,
                None::<i64>,
                None::<i64>,
                spec_signing_secret(self.credential),
            ),
            jwt_claims_of(t@, spec_signing_secret(self.credential)) == Some(
                (self.user.id as i64, None::<i64>, None::<i64>),
            ),
            jwt_claims_noverify(t@) == Some((self.user.id as i64, None::<i64>, None::<i64>)),
            forall|other: Seq<u8>|
                length_framed(other) && other != spec_signing_secret(self.credential)
                    ==> jwt_claims_of(t@, other) is None,
    {
        let key = self.derive_signing_secret();
        jwt_sign(self.user.id as i64, None, None, key.as_slice())
    }

    /// Trusted re-validation of an access token (the second phase): the
    /// token must verify under this identity's current derived secret, name
    /// this identity as its subject, and not be past its expiry at `now`
    /// (seconds since the epoch). Every failure collapses to `Unauthorized`.
    pub fn validate_access_token(&self, token: &str, now: i64) -> (r: Result<(), AuthError>)
        ensures
            (r is Ok) == access_token_accepted(
                token@,
                spec_signing_secret(self.credential),
                self.user.id as i64,
                now,
            ),
            r is Err ==> r == Err::<(), AuthError>(AuthError::Unauthorized),
    {
        let key = self.derive_signing_secret();
        match jwt_verify(token, key.as_slice()) {
            Ok((id, _issued_at, expires_at)) => {
                if id == self.user.id as i64 {
                    match expires_at {
                        Some(e) => if now < e {
                            Ok(())
                        } else {
                            Err(AuthError::Unauthorized)
                        },
                        None => Ok(()),
                    }
                } else {
                    Err(AuthError::Unauthorized)
                }
            },
            Err(()) => Err(AuthError::Unauthorized),
        }
    }

    /// Trusted validation of a CSRF token: it must verify under this
    /// identity's current derived secret and carry this identity's id;
    /// expiry is deliberately not checked. Every failure collapses to
    /// `Unauthorized`.
    pub fn validate_csrf_token(&self, token: &str) -> (r: Result<(), AuthError>)
        ensures
            (r is Ok) == csrf_token_accepted(
                token@,
                spec_signing_secret(self.credential),
                self.user.id as i64,
            ),
            r is Err ==> r == Err::<(), AuthError>(AuthError::Unauthorized),
    {
        let key = self.derive_signing_secret();
        match jwt_verify(token, key.as_slice()) {
            Ok((id, _issued_at, _expires_at)) => {
                if id == self.user.id as i64 {
                    Ok(())
                } else {
                    Err(AuthError::Unauthorized)
                }
            },
            Err(()) => Err(AuthError::Unauthorized),
        }
    }

    /// The untrusted first phase: decode the access token with signature and
    /// expiry checks disabled, only to learn the claimed subject id cheaply
    /// before any store access. The result proves nothing about identity.
    pub fn claimed_subject(access_token: &str) -> (r: Result<i32, AuthError>)
        ensures
            r == spec_claimed_subject(access_token@),
    {
        match jwt_decode_insecure(access_token) {
            Ok((id, _issued_at, _expires_at)) => {
                if i32::MIN as i64 <= id && id <= i32::MAX as i64 {
                    Ok(id as i32)
                } else {
                    Err(AuthError::Unauthorized)
                }
            },
            Err(()) => Err(AuthError::Unauthorized),
        }
    }
}

/// What the untrusted first phase yields: the claimed subject id, when the
/// token parses and the id fits the store's id column; `Unauthorized`
/// otherwise.
pub open spec fn spec_claimed_subject(token: Seq<char>) -> Result<i32, AuthError> {
    match jwt_claims_noverify(token) {
        Some(claims) => if i32::MIN <= claims.0 <= i32::MAX {
            Ok(claims.0 as i32)
        } else {
            Err(AuthError::Unauthorized)
        },
        None => Err(AuthError::Unauthorized),
    }
}

} // verus!
