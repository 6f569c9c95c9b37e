//! Ed25519 identities and signatures over canonical bytes.
use ed25519_dalek::{Signer, Verifier};
use vstd::prelude::*;
use vstd::std_specs::cmp::PartialEqSpecImpl;
use vstd::string::StringSliceAdditionalSpecFns;

use crate::bytes::bytes64_eq;
use crate::codec::{
    canonical_bytes, json_byte_array, json_hex, json_string, lit, write_json_byte_array,
    write_json_hex, write_lit, Canonical,
};
use crate::error::{ErrorView, HorizonError, HorizonResult, result_view};
use crate::ids::{parts_digest, AccountId, Digest};

verus! {

/// The Ed25519 public key of the secret seed `seed`.
pub uninterp spec fn ed25519_public(seed: Seq<u8>) -> [u8; 32];

/// The Ed25519 signature of `message` by the secret seed `seed`.
pub uninterp spec fn ed25519_signature(seed: Seq<u8>, message: Seq<u8>) -> [u8; 64];

/// Whether `public` decodes to a point of the curve, so that it can verify.
pub uninterp spec fn ed25519_key_valid(public: Seq<u8>) -> bool;

/// Whether `signature` is a valid signature of `message` under `public`.
pub uninterp spec fn ed25519_verifies(public: Seq<u8>, message: Seq<u8>, signature: Seq<u8>) -> bool;

/// Calls `SigningKey::from_bytes(seed).verifying_key().to_bytes()`. Trusted: the
/// result is the public key of `seed`, a function of the seed alone, and it
/// decodes again as a verifying key (it is the encoding of a curve point).
#[verifier::external_body]
fn ed25519_public_key(seed: &[u8; 32]) -> (r: [u8; 32])
    ensures
        r == ed25519_public(seed@),
        ed25519_key_valid(r@),
{
    ed25519_dalek::SigningKey::from_bytes(seed).verifying_key().to_bytes()
}

/// Calls `Signer::sign` of `SigningKey::from_bytes(seed)` and takes the bytes of
/// the signature. Trusted: Ed25519 signing is deterministic, so the result is a
/// function of the seed and the message, and it verifies against the seed's
/// public key.
#[verifier::external_body]
fn ed25519_sign(seed: &[u8; 32], message: &[u8]) -> (r: [u8; 64])
    ensures
        r == ed25519_signature(seed@, message@),
        ed25519_verifies(ed25519_public(seed@)@, message@, r@),
{
    ed25519_dalek::SigningKey::from_bytes(seed).sign(message).to_bytes()
}

/// Calls `VerifyingKey::from_bytes(public)` and then `Verifier::verify` with the
/// signature decoded by `Signature::from_bytes`. Trusted: a key that does not
/// decode gives `InvalidPublicKey`; otherwise the outcome is whether the
/// signature verifies, a function of the three byte strings.
#[verifier::external_body]
fn ed25519_verify(public: &[u8; 32], message: &[u8], signature: &[u8; 64]) -> (r: HorizonResult<()>)
    ensures
        r is Ok == (ed25519_key_valid(public@) && ed25519_verifies(public@, message@, signature@)),
        r matches Err(e) ==> e@ == (if ed25519_key_valid(public@) {
            ErrorView::InvalidSignature
        } else {
            ErrorView::InvalidPublicKey
        }),
{
    match ed25519_dalek::VerifyingKey::from_bytes(public) {
        Err(_) => Err(HorizonError::InvalidPublicKey),
        Ok(key) => match key.verify(message, &ed25519_dalek::Signature::from_bytes(signature)) {
            Ok(()) => Ok(()),
            Err(_) => Err(HorizonError::InvalidSignature),
        },
    }
}

/// The account that a verifying key stands for.
pub open spec fn account_of_key(verifying_key: Seq<u8>) -> [u8; 32] {
    parts_digest("horizon-account-v1".spec_bytes(), seq![verifying_key])
}

/// The bytes that are signed for `payload` under `domain`: the canonical
/// encoding of the pair `(domain, payload)`.
pub open spec fn signed_message(domain: Seq<char>, payload: Seq<u8>) -> Seq<u8> {
    lit("[") + json_string(vstd::utf8::encode_utf8(domain)) + lit(",") + payload + lit("]")
}

/// A signing key, held as its 32-byte secret seed.
#[derive(Clone)]
pub struct KeyPair {
    seed: [u8; 32],
}

#[derive(Copy, Clone, Debug, Eq, PartialEq)]
pub struct PublicIdentity {
    pub account: AccountId,
    pub verifying_key: [u8; 32],
}

impl View for KeyPair {
    type V = Seq<u8>;

    closed spec fn view(&self) -> Seq<u8> {
        self.seed@
    }
}

impl KeyPair {
    pub fn from_seed(seed: [u8; 32]) -> (r: Self)
        ensures
            r@ == seed@,
    {
        KeyPair { seed }
    }

    /// The public key of this key pair and the account derived from it.
    pub fn public_identity(&self) -> (r: PublicIdentity)
        ensures
            r.verifying_key == ed25519_public(self@),
            r.account.0 == account_of_key(r.verifying_key@),
            identity_consistent(r),
            ed25519_key_valid(r.verifying_key@),
    {
        let verifying_key = ed25519_public_key(&self.seed);
        let parts: [&[u8]; 1] = [&verifying_key];
        proof {
            assert(parts@.map_values(|p: &[u8]| p@) =~= seq![verifying_key@]);
        }
        let account = AccountId(Digest::from_parts("horizon-account-v1", &parts).0);
        PublicIdentity { account, verifying_key }
    }

    /// Signs the canonical bytes of `(domain, payload)`.
    pub fn sign<T: Canonical>(&self, domain: &str, payload: &T) -> (r: HorizonResult<SignatureBytes>)
        ensures
            r matches Ok(sig) && sig.0 == ed25519_signature(self@, signed_message(domain@, T::json(payload@))),
            r matches Ok(sig) && ed25519_verifies(
                ed25519_public(self@)@,
                signed_message(domain@, T::json(payload@)),
                sig.0@,
            ),
    {
        let bytes = canonical_bytes(&(domain, payload))?;
        Ok(SignatureBytes(ed25519_sign(&self.seed, bytes.as_slice())))
    }
}

/// Whether the account of an identity is the one derived from its key.
pub open spec fn identity_consistent(identity: PublicIdentity) -> bool {
    identity.account.0 == account_of_key(identity.verifying_key@)
}

impl PublicIdentity {
    pub fn verify_consistency(self) -> (r: HorizonResult<()>)
        ensures
            identity_consistent(self) ==> r is Ok,
            !identity_consistent(self) ==> result_view(r) == Err::<(), ErrorView>(
                ErrorView::IdentityMismatch(self.account),
            ),
    {
        let parts: [&[u8]; 1] = [&self.verifying_key];
        proof {
            assert(parts@.map_values(|p: &[u8]| p@) =~= seq![self.verifying_key@]);
        }
        let expected = AccountId(Digest::from_parts("horizon-account-v1", &parts).0);
        if expected != self.account {
            return Err(HorizonError::IdentityMismatch(self.account));
        }
        Ok(())
    }
}

impl View for PublicIdentity {
    type V = PublicIdentity;

    open spec fn view(&self) -> PublicIdentity {
        *self
    }
}

impl Canonical for PublicIdentity {
    open spec fn json(v: PublicIdentity) -> Seq<u8> {
        lit("{\"account\":") + AccountId::json(v.account) + lit(",\"verifying_key\":")
            + json_byte_array(v.verifying_key@) + lit("}")
    }

    fn write_json(&self, out: &mut Vec<u8>) {
        write_lit("{\"account\":", out);
        self.account.write_json(out);
        write_lit(",\"verifying_key\":", out);
        write_json_byte_array(&self.verifying_key, out);
        write_lit("}", out);
        assert(out@ =~= old(out)@ + Self::json(*self));
    }
}

#[derive(Copy, Clone, Debug, Eq)]
pub struct SignatureBytes(pub [u8; 64]);

impl PartialEq for SignatureBytes {
    fn eq(&self, other: &Self) -> (r: bool) {
        bytes64_eq(&self.0, &other.0)
    }
}

impl PartialEqSpecImpl for SignatureBytes {
    open spec fn obeys_eq_spec() -> bool {
        true
    }

    open spec fn eq_spec(&self, other: &Self) -> bool {
        *self == *other
    }
}

impl SignatureBytes {
    pub fn from_bytes(bytes: [u8; 64]) -> (r: Self)
        ensures
            r.0 == bytes,
    {
        SignatureBytes(bytes)
    }

    pub fn bytes(self) -> (r: [u8; 64])
        ensures
            r == self.0,
    {
        self.0
    }
}

impl View for SignatureBytes {
    type V = SignatureBytes;

    open spec fn view(&self) -> SignatureBytes {
        *self
    }
}

impl Canonical for SignatureBytes {
    open spec fn json(v: SignatureBytes) -> Seq<u8> {
        json_hex(v.0@)
    }

    fn write_json(&self, out: &mut Vec<u8>) {
        write_json_hex(&self.0, out);
    }
}

/// Checks that `signature` signs the canonical bytes of `(domain, payload)`
/// for `identity`, after checking that the identity's account matches its key.
pub fn verify_signature<T: Canonical>(
    identity: PublicIdentity,
    signature: SignatureBytes,
    domain: &str,
    payload: &T,
) -> (r: HorizonResult<()>)
    ensures
        result_view(r) == spec_verify_signature(identity, signature, signed_message(domain@, T::json(payload@))),
{
    identity.verify_consistency()?;
    let bytes = canonical_bytes(&(domain, payload))?;
    ed25519_verify(&identity.verifying_key, bytes.as_slice(), &signature.0)
}

/// The outcome of checking `signature` over `message` for `identity`.
pub open spec fn spec_verify_signature(
    identity: PublicIdentity,
    signature: SignatureBytes,
    message: Seq<u8>,
) -> Result<(), ErrorView> {
    if !identity_consistent(identity) {
        Err(ErrorView::IdentityMismatch(identity.account))
    } else if !ed25519_key_valid(identity.verifying_key@) {
        Err(ErrorView::InvalidPublicKey)
    } else if !ed25519_verifies(identity.verifying_key@, message, signature.0@) {
        Err(ErrorView::InvalidSignature)
    } else {
        Ok(())
    }
}

} // verus!
