//! Key material and the cryptographic capabilities the agent relies on:
//! Ed25519 keypair generation, signing and verification (ed25519-dalek), the
//! authenticated cipher used for sealing (ring, AES-128-GCM), and the system
//! randomness for nonces (rand). Each outside call stands behind a trusted
//! wrapper; everything around the calls is verified.

use vstd::prelude::*;
use ed25519_dalek::Signer;
use ed25519_dalek::Verifier;
use rand::RngCore;

verus! {

/// The verifying-key bytes ed25519-dalek derives from a 32-byte secret key.
pub uninterp spec fn ed25519_public_of(seed: Seq<u8>) -> Seq<u8>;

/// The signature bytes ed25519-dalek produces for a secret key and message;
/// Ed25519 signing is deterministic (RFC 8032), so this is a function of the
/// two alone.
pub uninterp spec fn ed25519_signature_of(seed: Seq<u8>, msg: Seq<u8>) -> Seq<u8>;

/// ed25519-dalek's verification verdict on public-key, message and signature
/// bytes; false wherever the public key or signature is not a valid encoding.
pub uninterp spec fn ed25519_verifies(pk: Seq<u8>, msg: Seq<u8>, sig: Seq<u8>) -> bool;

/// What ring's AES-128-GCM opening returns for a key, nonce and ciphertext:
/// the plaintext where the ciphertext authenticates under that key and nonce,
/// `None` otherwise.
pub uninterp spec fn aead_opened(key: Seq<u8>, nonce: Seq<u8>, ct: Seq<u8>) -> Option<Seq<u8>>;

/// An Ed25519 keypair held only in the agent's volatile memory: the 32-byte
/// secret key and the public key derived from it. The secret never crosses
/// the enclave boundary in the clear.
pub struct Keypair {
    pub seed: Vec<u8>,
    pub public: Vec<u8>,
}

/// Mathematical model of a `Keypair`.
#[verifier::ext_equal]
pub ghost struct KeypairV {
    pub seed: Seq<u8>,
    pub public: Seq<u8>,
}

impl View for Keypair {
    type V = KeypairV;

    open spec fn view(&self) -> KeypairV {
        KeypairV { seed: self.seed@, public: self.public@ }
    }
}

impl KeypairV {
    /// Well-formedness: the public key is the one derived from the secret.
    pub open spec fn wf(self) -> bool {
        &&& self.seed.len() == 32
        &&& self.public.len() == 32
        &&& self.public == ed25519_public_of(self.seed)
    }
}

impl Keypair {
    pub open spec fn wf(&self) -> bool {
        self@.wf()
    }

    /// Sign a message with the held secret key. The signature verifies under
    /// the keypair's public key.
    pub fn sign(&self, msg: &Vec<u8>) -> (r: Vec<u8>)
        requires
            self.wf(),
        ensures
            r@ == ed25519_signature_of(self@.seed, msg@),
            r@.len() == 64,
            ed25519_verifies(self@.public, msg@, r@),
    {
        ed25519_sign(&self.seed, msg)
    }
}

/// Rebuild the keypair a 32-byte secret key determines.
pub fn keypair_from_seed(seed: Vec<u8>) -> (r: Keypair)
    requires
        seed@.len() == 32,
    ensures
        r.wf(),
        r@.seed == seed@,
{
    let public = derive_public_key(&seed);
    Keypair { seed, public }
}

/// Relies on ed25519_dalek::SigningKey::generate: a keypair drawn from the
/// system's cryptographic randomness, with the verifying key derived from
/// the fresh secret key. The secret is random: nothing more is promised.
#[verifier::external_body]
pub fn keypair_generate() -> (r: Keypair)
    ensures
        r.wf(),
{
    let mut csprng = rand::rngs::OsRng;
    let sk = ed25519_dalek::SigningKey::generate(&mut csprng);
    let public = sk.verifying_key().to_bytes().to_vec();
    Keypair { seed: sk.to_bytes().to_vec(), public }
}

/// Relies on ed25519_dalek::SigningKey::from_bytes (every 32-byte string is
/// a valid secret key) and VerifyingKey: the derived verifying key is a
/// function of the secret key alone.
#[verifier::external_body]
pub(crate) fn derive_public_key(seed: &Vec<u8>) -> (r: Vec<u8>)
    requires
        seed@.len() == 32,
    ensures
        r@ == ed25519_public_of(seed@),
        r@.len() == 32,
{
    let mut b = [0u8; 32];
    b.copy_from_slice(seed.as_slice());
    ed25519_dalek::SigningKey::from_bytes(&b).verifying_key().to_bytes().to_vec()
}

/// Relies on ed25519_dalek's `Signer::sign`: deterministic Ed25519 signing
/// (RFC 8032); the produced 64-byte signature verifies under the verifying
/// key derived from the same secret key.
#[verifier::external_body]
pub(crate) fn ed25519_sign(seed: &Vec<u8>, msg: &Vec<u8>) -> (r: Vec<u8>)
    requires
        seed@.len() == 32,
    ensures
        r@ == ed25519_signature_of(seed@, msg@),
        r@.len() == 64,
        ed25519_verifies(ed25519_public_of(seed@), msg@, r@),
{
    let mut b = [0u8; 32];
    b.copy_from_slice(seed.as_slice());
    let sk = ed25519_dalek::SigningKey::from_bytes(&b);
    sk.sign(msg.as_slice()).to_bytes().to_vec()
}

/// Relies on ed25519_dalek::VerifyingKey::verify: a deterministic verdict on
/// the given bytes; an invalid public-key or signature encoding never
/// verifies.
#[verifier::external_body]
pub fn ed25519_verify(pk: &Vec<u8>, msg: &Vec<u8>, sig: &Vec<u8>) -> (r: bool)
    ensures
        r == ed25519_verifies(pk@, msg@, sig@),
{
    let Ok(pkb) = <[u8; 32]>::try_from(pk.as_slice()) else { return false };
    let Ok(vk) = ed25519_dalek::VerifyingKey::from_bytes(&pkb) else { return false };
    let Ok(sigv) = ed25519_dalek::Signature::from_slice(sig.as_slice()) else { return false };
    vk.verify(msg.as_slice(), &sigv).is_ok()
}

/// Relies on ring::aead::LessSafeKey::seal_in_place_append_tag with
/// AES-128-GCM: on success the ciphertext is the plaintext plus a 16-byte
/// tag, and opening it with the same key and nonce returns the plaintext.
/// Sealing refuses only an input beyond the cipher's length limit (just
/// under 2^36 bytes), so it succeeds on anything shorter than 2^32 bytes;
/// the key-length check cannot fail for the 16 bytes required here.
#[verifier::external_body]
pub(crate) fn aead_seal(key: &Vec<u8>, nonce: &Vec<u8>, plain: &Vec<u8>) -> (r: Option<Vec<u8>>)
    requires
        key@.len() == 16,
        nonce@.len() == 12,
    ensures
        plain@.len() < 0x100000000 ==> r is Some,
        r matches Some(ct) ==> {
            &&& ct@.len() == plain@.len() + 16
            &&& aead_opened(key@, nonce@, ct@) == Some(plain@)
        },
{
    let ub = ring::aead::UnboundKey::new(&ring::aead::AES_128_GCM, key.as_slice()).ok()?;
    let n: [u8; 12] = nonce.as_slice().try_into().unwrap();
    let n = ring::aead::Nonce::assume_unique_for_key(n);
    let mut buf = plain.clone();
    let k = ring::aead::LessSafeKey::new(ub);
    k.seal_in_place_append_tag(n, ring::aead::Aad::empty(), &mut buf).ok()?;
    Some(buf)
}

/// Relies on ring::aead::LessSafeKey::open_in_place with AES-128-GCM: returns
/// the plaintext exactly when the ciphertext authenticates under the key and
/// nonce, and fails (without panicking) otherwise.
#[verifier::external_body]
pub(crate) fn aead_open(key: &Vec<u8>, nonce: &Vec<u8>, ct: &Vec<u8>) -> (r: Option<Vec<u8>>)
    requires
        key@.len() == 16,
        nonce@.len() == 12,
    ensures
        r matches Some(p) ==> aead_opened(key@, nonce@, ct@) == Some(p@),
        r is None ==> aead_opened(key@, nonce@, ct@) is None,
{
    let ub = ring::aead::UnboundKey::new(&ring::aead::AES_128_GCM, key.as_slice()).ok()?;
    let n: [u8; 12] = nonce.as_slice().try_into().unwrap();
    let n = ring::aead::Nonce::assume_unique_for_key(n);
    let mut buf = ct.clone();
    let k = ring::aead::LessSafeKey::new(ub);
    let p = k.open_in_place(n, ring::aead::Aad::empty(), &mut buf).ok()?;
    Some(p.to_vec())
}

/// Relies on rand's OsRng `fill_bytes`: 12 bytes of system randomness for a
/// fresh sealing nonce. The bytes are random: only the length is promised.
#[verifier::external_body]
pub(crate) fn random_nonce() -> (r: Vec<u8>)
    ensures
        r@.len() == 12,
{
    let mut b = [0u8; 12];
    rand::rngs::OsRng.fill_bytes(&mut b);
    b.to_vec()
}

} // verus!
