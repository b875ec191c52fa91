use vstd::prelude::*;

use vstd::bytes::{
    lemma_auto_spec_u128_to_from_le_bytes, lemma_auto_spec_u64_to_from_le_bytes,
    spec_u128_to_le_bytes, spec_u64_to_le_bytes, u128_to_le_bytes, u64_to_le_bytes,
};
use vstd::utf8::{encode_utf8, encode_utf8_decode_utf8};

use crate::identity::{AuthenticatedUser, Credential};

verus! {

/// First byte after the length frame of a secret derived from a password
/// digest.
pub const LEGACY_TAG: u8 = 0;

/// First byte after the length frame of a secret derived from a federated
/// credential.
pub const FEDERATED_TAG: u8 = 1;

/// The signing secret a password-backed identity derives: the total length
/// (16 little-endian bytes), the legacy tag, then the digest bytes. The
/// digest already carries a per-user random salt, so two users sharing a
/// password still derive different secrets.
pub open spec fn spec_legacy_secret(digest: Seq<char>) -> Seq<u8> {
    let payload = encode_utf8(digest);
    spec_u128_to_le_bytes((17 + payload.len()) as u128) + seq![LEGACY_TAG] + payload
}

/// The signing secret a federated identity derives: the total length
/// (16 little-endian bytes), the federated tag, the byte length of the
/// external account id (8 little-endian bytes), the account id bytes, then
/// the verified email bytes. The embedded account-id length keeps the
/// combination injective: no two (account id, email) pairs share a secret.
pub open spec fn spec_federated_secret(account: Seq<char>, email: Seq<char>) -> Seq<u8> {
    let account_bytes = encode_utf8(account);
    let email_bytes = encode_utf8(email);
    spec_u128_to_le_bytes((25 + account_bytes.len() + email_bytes.len()) as u128) + seq![
        FEDERATED_TAG,
    ] + spec_u64_to_le_bytes(account_bytes.len() as u64) + account_bytes + email_bytes
}

/// The signing secret of an identity, as a function of its credential alone.
/// Public identity attributes (id, display name) never enter it, so a secret
/// cannot be reconstructed from public data.
pub open spec fn spec_signing_secret(credential: Credential) -> Seq<u8> {
    match credential {
        Credential::Legacy { password_digest } => spec_legacy_secret(password_digest@),
        Credential::Federated { external_account_id, verified_email } => spec_federated_secret(
            external_account_id@,
            verified_email@,
        ),
    }
}

/// A byte string that begins with the 16-byte little-endian encoding of its
/// own length. Every derived secret has this shape. Two distinct
/// length-framed keys are never related by the HMAC key paddings (one being
/// the other zero-extended, or one being the block-length digest of the
/// other): equal frames force equal lengths.
pub open spec fn length_framed(key: Seq<u8>) -> bool {
    &&& key.len() >= 16
    &&& key.len() <= u128::MAX
    &&& key.subrange(0, 16) == spec_u128_to_le_bytes(key.len() as u128)
}

/// The byte lengths a credential's fields can have once they have lived in
/// memory as strings; every credential built at runtime satisfies this.
pub open spec fn secret_len_bounds(credential: Credential) -> bool {
    match credential {
        Credential::Legacy { password_digest } => encode_utf8(password_digest@).len()
            <= u64::MAX,
        Credential::Federated { external_account_id, verified_email } => encode_utf8(
            external_account_id@,
        ).len() <= u64::MAX && encode_utf8(verified_email@).len() <= u64::MAX,
    }
}

/// Whether two credentials agree: same variant and equal field contents.
/// Identities that agree here derive the same secret; identities that do not
/// derive different ones.
pub open spec fn credentials_agree(c: Credential, d: Credential) -> bool {
    match (c, d) {
        (
            Credential::Legacy { password_digest: d1 },
            Credential::Legacy { password_digest: d2 },
        ) => d1@ == d2@,
        (
            Credential::Federated { external_account_id: a1, verified_email: e1 },
            Credential::Federated { external_account_id: a2, verified_email: e2 },
        ) => a1@ == a2@ && e1@ == e2@,
        _ => false,
    }
}

impl AuthenticatedUser {
    /// Derives the per-identity signing secret from the credential's stable
    /// state. Total and deterministic: the same credential always yields the
    /// same secret, and nothing else enters the derivation.
    pub fn derive_signing_secret(&self) -> (r: Vec<u8>)
        ensures
            r@ == spec_signing_secret(self.credential),
            length_framed(r@),
            secret_len_bounds(self.credential),
    {
        proof {
            lemma_auto_spec_u128_to_from_le_bytes();
            lemma_auto_spec_u64_to_from_le_bytes();
        }
        match &self.credential {
            Credential::Legacy { password_digest } => {
                let mut payload = password_digest.as_str().as_bytes_vec();
                let total: u128 = 17u128 + (payload.len() as u128);
                let mut secret = u128_to_le_bytes(total);
                secret.push(LEGACY_TAG);
                secret.append(&mut payload);
                proof {
                    assert(secret@ =~= spec_legacy_secret(password_digest@));
                    assert(secret@.subrange(0, 16) =~= spec_u128_to_le_bytes(
                        secret@.len() as u128,
                    ));
                }
                secret
            },
            Credential::Federated { external_account_id, verified_email } => {
                let mut account_bytes = external_account_id.as_str().as_bytes_vec();
                let mut email_bytes = verified_email.as_str().as_bytes_vec();
                let total: u128 = 25u128 + (account_bytes.len() as u128) + (
                email_bytes.len() as u128);
                let mut secret = u128_to_le_bytes(total);
                secret.push(FEDERATED_TAG);
                let mut account_len = u64_to_le_bytes(account_bytes.len() as u64);
                secret.append(&mut account_len);
                secret.append(&mut account_bytes);
                secret.append(&mut email_bytes);
                proof {
                    assert(secret@ =~= spec_federated_secret(
                        external_account_id@,
                        verified_email@,
                    ));
                    assert(secret@.subrange(0, 16) =~= spec_u128_to_le_bytes(
                        secret@.len() as u128,
                    ));
                }
                secret
            },
        }
    }
}

/// Law: secret derivation is deterministic. Identities whose credentials
/// agree derive the same signing secret, however often it is recomputed.
pub proof fn lemma_signing_secret_deterministic(c: Credential, d: Credential)
    requires
        credentials_agree(c, d),
    ensures
        spec_signing_secret(c) == spec_signing_secret(d),
{
}

/// Law: changing the password digest changes the derived secret, and with it
/// invalidates every token signed under the old digest.
pub proof fn lemma_legacy_secret_injective(d1: Seq<char>, d2: Seq<char>)
    requires
        d1 != d2,
    ensures
        spec_legacy_secret(d1) != spec_legacy_secret(d2),
{
    let bytes1 = encode_utf8(d1);
    let bytes2 = encode_utf8(d2);
    encode_utf8_decode_utf8(d1);
    encode_utf8_decode_utf8(d2);
    assert(bytes1 != bytes2);
    if spec_legacy_secret(d1) == spec_legacy_secret(d2) {
        lemma_auto_spec_u128_to_from_le_bytes();
        let s1 = spec_legacy_secret(d1);
        let s2 = spec_legacy_secret(d2);
        assert(s1.len() == 17 + bytes1.len());
        assert(s2.len() == 17 + bytes2.len());
        assert(bytes1 =~= s1.subrange(17, s1.len() as int));
        assert(bytes2 =~= s2.subrange(17, s2.len() as int));
    }
}

/// Law: changing the linked email or the external account id (or both)
/// changes the derived secret of a federated identity.
pub proof fn lemma_federated_secret_injective(
    a1: Seq<char>,
    e1: Seq<char>,
    a2: Seq<char>,
    e2: Seq<char>,
)
    requires
        a1 != a2 || e1 != e2,
        encode_utf8(a1).len() <= u64::MAX,
        encode_utf8(a2).len() <= u64::MAX,
    ensures
        spec_federated_secret(a1, e1) != spec_federated_secret(a2, e2),
{
    let ab1 = encode_utf8(a1);
    let ab2 = encode_utf8(a2);
    let eb1 = encode_utf8(e1);
    let eb2 = encode_utf8(e2);
    encode_utf8_decode_utf8(a1);
    encode_utf8_decode_utf8(a2);
    encode_utf8_decode_utf8(e1);
    encode_utf8_decode_utf8(e2);
    if spec_federated_secret(a1, e1) == spec_federated_secret(a2, e2) {
        lemma_auto_spec_u128_to_from_le_bytes();
        lemma_auto_spec_u64_to_from_le_bytes();
        let s1 = spec_federated_secret(a1, e1);
        let s2 = spec_federated_secret(a2, e2);
        assert(s1.len() == 25 + ab1.len() + eb1.len());
        assert(s2.len() == 25 + ab2.len() + eb2.len());
        assert(spec_u64_to_le_bytes(ab1.len() as u64) =~= s1.subrange(17, 25));
        assert(spec_u64_to_le_bytes(ab2.len() as u64) =~= s2.subrange(17, 25));
        assert(ab1.len() as u64 == ab2.len() as u64);
        assert(ab1.len() == ab2.len());
        assert(eb1.len() == eb2.len());
        assert(ab1 =~= s1.subrange(25, 25 + ab1.len() as int));
        assert(ab2 =~= s2.subrange(25, 25 + ab2.len() as int));
        assert(eb1 =~= s1.subrange(25 + ab1.len() as int, s1.len() as int));
        assert(eb2 =~= s2.subrange(25 + ab2.len() as int, s2.len() as int));
        assert(a1 == a2 && e1 == e2);
    }
}

/// Law: secret derivation is injective over credentials. Distinct
/// credentials — a different digest, a different account id or email, or a
/// different variant altogether — always derive distinct secrets.
pub proof fn lemma_signing_secret_injective(c: Credential, d: Credential)
    requires
        !credentials_agree(c, d),
        secret_len_bounds(c),
        secret_len_bounds(d),
    ensures
        spec_signing_secret(c) != spec_signing_secret(d),
{
    match (c, d) {
        (
            Credential::Legacy { password_digest: d1 },
            Credential::Legacy { password_digest: d2 },
        ) => {
            lemma_legacy_secret_injective(d1@, d2@);
        },
        (
            Credential::Federated { external_account_id: a1, verified_email: e1 },
            Credential::Federated { external_account_id: a2, verified_email: e2 },
        ) => {
            lemma_federated_secret_injective(a1@, e1@, a2@, e2@);
        },
        (
            Credential::Legacy { password_digest: d1 },
            Credential::Federated { external_account_id: a2, verified_email: e2 },
        ) => {
            lemma_auto_spec_u128_to_from_le_bytes();
            let s1 = spec_signing_secret(c);
            let s2 = spec_signing_secret(d);
            assert(s1[16] == LEGACY_TAG);
            assert(s2[16] == FEDERATED_TAG);
        },
        (
            Credential::Federated { external_account_id: a1, verified_email: e1 },
            Credential::Legacy { password_digest: d2 },
        ) => {
            lemma_auto_spec_u128_to_from_le_bytes();
            let s1 = spec_signing_secret(c);
            let s2 = spec_signing_secret(d);
            assert(s1[16] == FEDERATED_TAG);
            assert(s2[16] == LEGACY_TAG);
        },
    }
}

/// Every secret that `secret_len_bounds` admits is length-framed; together
/// with `lemma_signing_secret_injective` this is what lets a verifier treat
/// "different credential" and "different signing key" as the same thing.
pub proof fn lemma_signing_secret_framed(c: Credential)
    requires
        secret_len_bounds(c),
    ensures
        length_framed(spec_signing_secret(c)),
{
    lemma_auto_spec_u128_to_from_le_bytes();
    lemma_auto_spec_u64_to_from_le_bytes();
    match c {
        Credential::Legacy { password_digest } => {
            let s = spec_signing_secret(c);
            assert(s.subrange(0, 16) =~= spec_u128_to_le_bytes(s.len() as u128));
        },
        Credential::Federated { external_account_id, verified_email } => {
            let s = spec_signing_secret(c);
            assert(s.subrange(0, 16) =~= spec_u128_to_le_bytes(s.len() as u128));
        },
    }
}

} // verus!
