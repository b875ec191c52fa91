use pointercrate_auth::auth::FetchOutcome;
use pointercrate_auth::error::{AuthError, StoreError};
use pointercrate_auth::identity::{resolve_row, AuthenticatedUser, Credential, Row, User};

fn user(id: i32, name: &str) -> User {
    User { id, name: name.to_string(), permissions: 0x3 }
}

fn legacy_user(id: i32, digest: &str) -> AuthenticatedUser {
    AuthenticatedUser::legacy(user(id, "alice"), digest.to_string())
}

fn federated_user(id: i32, email: &str, account: &str) -> AuthenticatedUser {
    AuthenticatedUser::oauth2(user(id, "bob"), email.to_string(), account.to_string())
}

fn legacy_row(id: i32, digest: &str) -> Row {
    Row {
        id,
        name: "alice".to_string(),
        permissions: 0x3,
        verified_email: None,
        password_digest: Some(digest.to_string()),
        external_account_id: None,
    }
}

fn federated_row(id: i32, email: &str, account: &str) -> Row {
    Row {
        id,
        name: "bob".to_string(),
        permissions: 0x3,
        verified_email: Some(email.to_string()),
        password_digest: None,
        external_account_id: Some(account.to_string()),
    }
}

#[test]
fn derive_signing_secret_is_deterministic() {
    let a = legacy_user(7, "$2y$salted-digest");
    assert_eq!(a.derive_signing_secret(), a.derive_signing_secret());
    let b = federated_user(8, "a@b.com", "g-123");
    assert_eq!(b.derive_signing_secret(), b.derive_signing_secret());
    // a freshly built identity with the same credential derives the same secret
    let c = legacy_user(9, "$2y$salted-digest");
    assert_eq!(a.derive_signing_secret(), c.derive_signing_secret());
}

#[test]
fn changing_password_digest_changes_secret() {
    let before = legacy_user(7, "$2y$digest-one");
    let after = legacy_user(7, "$2y$digest-two");
    assert_ne!(before.derive_signing_secret(), after.derive_signing_secret());
}

#[test]
fn changing_federated_fields_changes_secret() {
    let base = federated_user(7, "a@b.com", "g-123");
    let other_email = federated_user(7, "a@c.com", "g-123");
    let other_account = federated_user(7, "a@b.com", "g-124");
    assert_ne!(base.derive_signing_secret(), other_email.derive_signing_secret());
    assert_ne!(base.derive_signing_secret(), other_account.derive_signing_secret());
}

#[test]
fn variants_never_share_a_secret() {
    // a legacy digest equal to a federated account id still gives another secret
    let legacy = legacy_user(7, "g-123a@b.com");
    let federated = federated_user(7, "a@b.com", "g-123");
    assert_ne!(legacy.derive_signing_secret(), federated.derive_signing_secret());
}

#[test]
fn token_of_one_identity_fails_against_another() {
    let a = legacy_user(7, "$2y$digest-of-a");
    let b = legacy_user(9, "$2y$digest-of-b");
    let token = a.issue_access_token(1000, Some(100_000));
    assert!(a.validate_access_token(&token, 1500).is_ok());
    assert!(matches!(b.validate_access_token(&token, 1500), Err(AuthError::Unauthorized)));
    // the same holds for the federated variant
    let c = federated_user(7, "a@b.com", "g-123");
    let d = federated_user(7, "a@c.com", "g-123");
    let token = c.issue_access_token(1000, None);
    assert!(c.validate_access_token(&token, 1500).is_ok());
    assert!(matches!(d.validate_access_token(&token, 1500), Err(AuthError::Unauthorized)));
}

#[test]
fn expiry_limits_access_tokens_but_not_csrf_checks() {
    let a = legacy_user(7, "$2y$digest");
    let token = a.issue_access_token(1000, Some(2000));
    assert!(a.validate_access_token(&token, 1500).is_ok());
    // expiry passed: rejected as an access token ...
    assert!(matches!(a.validate_access_token(&token, 2000), Err(AuthError::Unauthorized)));
    assert!(matches!(a.validate_access_token(&token, 9000), Err(AuthError::Unauthorized)));
    // ... but the same claims under the same signature pass the CSRF check
    assert!(a.validate_csrf_token(&token).is_ok());
}

#[test]
fn resolution_failures_collapse_to_unauthorized() {
    let a = legacy_user(7, "$2y$digest");
    let token = a.issue_access_token(1000, Some(2000));

    // unknown subject id
    let r = AuthenticatedUser::token_auth(&token, None, FetchOutcome::NotFound, 1500);
    assert!(matches!(r, Err(AuthError::Unauthorized)));

    // tampered signature: flip the last character of the signature part
    let mut tampered = token.clone();
    let last = tampered.pop().unwrap();
    tampered.push(if last == 'A' { 'B' } else { 'A' });
    let r = AuthenticatedUser::token_auth(
        &tampered,
        None,
        FetchOutcome::Found(legacy_row(7, "$2y$digest")),
        1500,
    );
    assert!(matches!(r, Err(AuthError::Unauthorized)));

    // expired access token
    let r = AuthenticatedUser::token_auth(
        &token,
        None,
        FetchOutcome::Found(legacy_row(7, "$2y$digest")),
        3000,
    );
    assert!(matches!(r, Err(AuthError::Unauthorized)));

    // CSRF token present but signed with the wrong secret
    let stranger = legacy_user(7, "$2y$another-digest");
    let foreign_csrf = stranger.issue_csrf_token();
    let r = AuthenticatedUser::token_auth(
        &token,
        Some(&foreign_csrf),
        FetchOutcome::Found(legacy_row(7, "$2y$digest")),
        1500,
    );
    assert!(matches!(r, Err(AuthError::Unauthorized)));

    // a store failure, by contrast, keeps its own kind and its message
    let outage = StoreError { message: "connection pool exhausted".to_string() };
    let r = AuthenticatedUser::token_auth(&token, None, FetchOutcome::Failed(outage), 1500);
    match r {
        Err(AuthError::Store(e)) => assert_eq!(e.message, "connection pool exhausted"),
        other => panic!("expected a store error, got {:?}", other.map(|u| u.id())),
    }
}

#[test]
fn password_change_invalidates_outstanding_tokens() {
    let before = legacy_user(7, "$2y$digest-d");
    let token = before.issue_access_token(1000, Some(100_000));

    let r = AuthenticatedUser::token_auth(
        &token,
        None,
        FetchOutcome::Found(legacy_row(7, "$2y$digest-d")),
        1500,
    );
    let resolved = r.expect("fresh token must resolve");
    assert_eq!(resolved.id(), 7);

    // the store now holds a new digest for id 7; the same token dies
    let r = AuthenticatedUser::token_auth(
        &token,
        None,
        FetchOutcome::Found(legacy_row(7, "$2y$digest-d-prime")),
        1500,
    );
    assert!(matches!(r, Err(AuthError::Unauthorized)));
}

#[test]
fn row_resolution_picks_the_credential_variant() {
    let resolved = resolve_row(federated_row(3, "a@b.com", "g-123")).unwrap();
    match &resolved.credential {
        Credential::Federated { external_account_id, verified_email } => {
            assert_eq!(external_account_id, "g-123");
            assert_eq!(verified_email, "a@b.com");
        },
        Credential::Legacy { .. } => panic!("expected the federated variant"),
    }

    let resolved = resolve_row(legacy_row(4, "$2y$digest")).unwrap();
    match &resolved.credential {
        Credential::Legacy { password_digest } => assert_eq!(password_digest, "$2y$digest"),
        Credential::Federated { .. } => panic!("expected the legacy variant"),
    }

    // a row with an external account id but no verified email is not federated
    let mut partial = federated_row(5, "a@b.com", "g-123");
    partial.verified_email = None;
    partial.password_digest = Some("$2y$digest".to_string());
    let resolved = resolve_row(partial).unwrap();
    assert!(matches!(resolved.credential, Credential::Legacy { .. }));

    // a row backing neither variant is data corruption, not a bad request
    let mut corrupt = legacy_row(6, "unused");
    corrupt.password_digest = None;
    assert!(matches!(resolve_row(corrupt), Err(AuthError::MalformedCredentialState)));
}

#[test]
fn csrf_token_must_name_the_same_subject() {
    // two identities sharing a digest share a secret, so the CSRF token of
    // one *verifies* under the other's secret; the subject check still
    // rejects it
    let seven = legacy_user(7, "$2y$shared-digest");
    let nine = legacy_user(9, "$2y$shared-digest");
    let access_for_nine = nine.issue_access_token(1000, Some(100_000));
    let csrf_for_seven = seven.issue_csrf_token();
    let r = AuthenticatedUser::token_auth(
        &access_for_nine,
        Some(&csrf_for_seven),
        FetchOutcome::Found(legacy_row(9, "$2y$shared-digest")),
        1500,
    );
    assert!(matches!(r, Err(AuthError::Unauthorized)));

    // the matching CSRF token passes
    let csrf_for_nine = nine.issue_csrf_token();
    let r = AuthenticatedUser::token_auth(
        &access_for_nine,
        Some(&csrf_for_nine),
        FetchOutcome::Found(legacy_row(9, "$2y$shared-digest")),
        1500,
    );
    assert_eq!(r.unwrap().id(), 9);
}

#[test]
fn untrusted_decode_learns_the_claimed_subject() {
    let a = legacy_user(42, "$2y$digest");
    let token = a.issue_access_token(1000, None);
    assert_eq!(AuthenticatedUser::claimed_subject(&token).unwrap(), 42);
    // garbage is Unauthorized before any store access
    assert!(matches!(
        AuthenticatedUser::claimed_subject("not-a-token"),
        Err(AuthError::Unauthorized)
    ));
    // the untrusted pass proves nothing: it accepts a tampered token whose
    // signature could never verify
    let mut tampered = token.clone();
    let last = tampered.pop().unwrap();
    tampered.push(if last == 'A' { 'B' } else { 'A' });
    assert_eq!(AuthenticatedUser::claimed_subject(&tampered).unwrap(), 42);
}

#[test]
fn csrf_tokens_verify_against_the_current_secret() {
    let a = federated_user(7, "a@b.com", "g-123");
    let csrf = a.issue_csrf_token();
    assert!(a.validate_csrf_token(&csrf).is_ok());
    // unlinking or relinking the federation changes the secret; the CSRF
    // token dies with it
    let relinked = federated_user(7, "a@b.com", "g-999");
    assert!(matches!(relinked.validate_csrf_token(&csrf), Err(AuthError::Unauthorized)));
}

#[test]
fn claimed_subject_rejects_ids_outside_the_id_column() {
    // a foreign token whose id claim cannot be a member id
    let mut claims = std::collections::BTreeMap::new();
    claims.insert("id", (i32::MAX as i64) + 1);
    let token = jsonwebtoken::encode(
        &jsonwebtoken::Header::default(),
        &claims,
        &jsonwebtoken::EncodingKey::from_secret(b"whatever"),
    )
    .unwrap();
    assert!(matches!(
        AuthenticatedUser::claimed_subject(&token),
        Err(AuthError::Unauthorized)
    ));
}

#[test]
fn corrupt_row_surfaces_as_data_corruption_not_unauthorized() {
    let a = legacy_user(7, "$2y$digest");
    let token = a.issue_access_token(1000, None);
    let corrupt = Row {
        id: 7,
        name: "alice".to_string(),
        permissions: 0x3,
        verified_email: None,
        password_digest: None,
        external_account_id: None,
    };
    let r = AuthenticatedUser::token_auth(&token, None, FetchOutcome::Found(corrupt), 1500);
    assert!(matches!(r, Err(AuthError::MalformedCredentialState)));
}
