//! Sealing and unsealing of the agent's keypair. Sealing binds the secret
//! key to the enclave's key-derivation parameters and a freshly drawn nonce
//! under authenticated encryption with the hardware-derived sealing key;
//! unsealing reproduces the keypair only from an unmodified record presented
//! to an enclave with matching identity, and fails closed on any mismatch,
//! corruption, or forged record.

use vstd::prelude::*;
use crate::crypto::{
    aead_opened, aead_open, aead_seal, ed25519_public_of, keypair_from_seed, random_nonce,
    Keypair, KeypairV,
};
use crate::protocol::{
    bytes_eq, copy_bytes, copy_words, words_eq, KeyRequest, KeyRequestV, SealedKeyData,
    SealedKeyDataV,
};

verus! {

/// All key-derivation parameters but the binding tag agree with the
/// enclave's identity.
pub open spec fn request_matches_identity(req: KeyRequestV, identity: KeyRequestV) -> bool {
    &&& req.keyname == identity.keyname
    &&& req.keypolicy == identity.keypolicy
    &&& req.isvsvn == identity.isvsvn
    &&& req.cpusvn == identity.cpusvn
    &&& req.attributemask == identity.attributemask
    &&& req.miscmask == identity.miscmask
}

/// What a successful sealing produces: a well-formed record carrying the
/// enclave's own key-derivation parameters with the keypair's public key as
/// binding tag, whose ciphertext opens, under the sealing key and the
/// record's nonce, to exactly the keypair's secret.
pub open spec fn seal_post(
    identity: KeyRequestV,
    seal_key: Seq<u8>,
    kp: KeypairV,
    sealed: SealedKeyDataV,
) -> bool {
    &&& sealed.wf()
    &&& request_matches_identity(sealed.seal_key_request, identity)
    &&& sealed.seal_key_request.keyid == kp.public
    &&& aead_opened(seal_key, sealed.nonce, sealed.sealed_secret) == Some(kp.seed)
}

/// Exactly the records unsealing accepts: well-formed, parameters matching
/// the enclave identity, ciphertext authenticating under the sealing key and
/// nonce to a 32-byte secret whose derived public key is the binding tag.
pub open spec fn unseal_accepts(
    identity: KeyRequestV,
    seal_key: Seq<u8>,
    sealed: SealedKeyDataV,
) -> bool {
    &&& sealed.wf()
    &&& request_matches_identity(sealed.seal_key_request, identity)
    &&& aead_opened(seal_key, sealed.nonce, sealed.sealed_secret) matches Some(s)
        && s.len() == 32 && ed25519_public_of(s) == sealed.seal_key_request.keyid
}

/// Seal a keypair: bind its secret to the enclave's key-derivation
/// parameters and a fresh random nonce. A 32-byte secret is far below the
/// cipher's length limit, so sealing always succeeds.
pub fn seal(identity: &KeyRequest, seal_key: &Vec<u8>, kp: &Keypair) -> (r: SealedKeyData)
    requires
        identity.wf(),
        seal_key@.len() == 16,
        kp.wf(),
    ensures
        seal_post(identity@, seal_key@, kp@, r@),
{
    let nonce = random_nonce();
    let sealed_secret = match aead_seal(seal_key, &nonce, &kp.seed) {
        Some(ct) => ct,
        None => vstd::pervasive::unreached(),
    };
    let seal_key_request = KeyRequest {
        keyname: identity.keyname,
        keypolicy: identity.keypolicy,
        isvsvn: identity.isvsvn,
        cpusvn: copy_bytes(&identity.cpusvn),
        attributemask: copy_words(&identity.attributemask),
        keyid: copy_bytes(&kp.public),
        miscmask: identity.miscmask,
    };
    SealedKeyData { seal_key_request, nonce, sealed_secret }
}

/// Unseal a presented record. Returns the keypair exactly when the record is
/// one `unseal_accepts` describes; rejects (never panics) on any mismatch,
/// corruption, or forged record, leaving nothing adopted.
pub fn unseal(identity: &KeyRequest, seal_key: &Vec<u8>, sealed: &SealedKeyData) -> (r: Option<
    Keypair,
>)
    requires
        identity.wf(),
        seal_key@.len() == 16,
    ensures
        r matches Some(kp) ==> {
            &&& unseal_accepts(identity@, seal_key@, sealed@)
            &&& kp.wf()
            &&& Some(kp@.seed) == aead_opened(seal_key@, sealed@.nonce, sealed@.sealed_secret)
            &&& kp@.public == sealed@.seal_key_request.keyid
        },
        r is None ==> !unseal_accepts(identity@, seal_key@, sealed@),
{
    let req = &sealed.seal_key_request;
    if sealed.nonce.len() != 12 || req.cpusvn.len() != 16 || req.attributemask.len() != 2
        || req.keyid.len() != 32 || sealed.sealed_secret.len() as u64 >= 0x100000000u64 {
        return None;
    }
    if req.keyname != identity.keyname || req.keypolicy != identity.keypolicy || req.isvsvn
        != identity.isvsvn || req.miscmask != identity.miscmask {
        return None;
    }
    if !bytes_eq(&req.cpusvn, &identity.cpusvn) || !words_eq(
        &req.attributemask,
        &identity.attributemask,
    ) {
        return None;
    }
    let secret = match aead_open(seal_key, &sealed.nonce, &sealed.sealed_secret) {
        Some(p) => p,
        None => {
            return None;
        }
    };
    if secret.len() != 32 {
        return None;
    }
    let kp = keypair_from_seed(secret);
    if !bytes_eq(&kp.public, &req.keyid) {
        return None;
    }
    Some(kp)
}

/// Law: sealing then unsealing an untouched record, under the identity and
/// sealing key that produced it, accepts it and reproduces a keypair whose
/// secret and public key equal the original's.
pub proof fn lemma_seal_unseal_roundtrip(
    identity: KeyRequestV,
    seal_key: Seq<u8>,
    kp: KeypairV,
    sealed: SealedKeyDataV,
)
    requires
        kp.wf(),
        seal_post(identity, seal_key, kp, sealed),
    ensures
        unseal_accepts(identity, seal_key, sealed),
        aead_opened(seal_key, sealed.nonce, sealed.sealed_secret) == Some(kp.seed),
        sealed.seal_key_request.keyid == kp.public,
{
}

/// Law (tamper, identity parameters): a record whose key-derivation
/// parameters disagree with the enclave identity in any field but the
/// binding tag is rejected by unsealing.
pub proof fn lemma_unseal_rejects_foreign_request(
    identity: KeyRequestV,
    seal_key: Seq<u8>,
    sealed: SealedKeyDataV,
)
    requires
        !request_matches_identity(sealed.seal_key_request, identity),
    ensures
        !unseal_accepts(identity, seal_key, sealed),
{
}

/// Law (tamper, key-request): change any key-derivation field of a validly
/// sealed record — a derivation parameter or the binding tag — while keeping
/// its nonce and ciphertext, and unsealing rejects the result.
pub proof fn lemma_tampered_request_rejected(
    identity: KeyRequestV,
    seal_key: Seq<u8>,
    kp: KeypairV,
    sealed: SealedKeyDataV,
    sealed2: SealedKeyDataV,
)
    requires
        kp.wf(),
        seal_post(identity, seal_key, kp, sealed),
        sealed2.nonce == sealed.nonce,
        sealed2.sealed_secret == sealed.sealed_secret,
        sealed2.seal_key_request != sealed.seal_key_request,
    ensures
        !unseal_accepts(identity, seal_key, sealed2),
{
    if request_matches_identity(sealed2.seal_key_request, identity) {
        // Every derivation parameter agrees with the identity's, hence with
        // the sealed record's; the difference must lie in the binding tag.
        assert(sealed2.seal_key_request.keyid != sealed.seal_key_request.keyid) by {
            if sealed2.seal_key_request.keyid == sealed.seal_key_request.keyid {
                assert(sealed2.seal_key_request =~= sealed.seal_key_request);
            }
        }
        // The ciphertext still opens to the original secret, whose derived
        // public key is the original tag, not the altered one.
        assert(aead_opened(seal_key, sealed2.nonce, sealed2.sealed_secret) == Some(kp.seed));
    }
}

/// Law (tamper, binding tag): a record whose binding tag is not the public
/// key derived from whatever its ciphertext opens to is rejected by
/// unsealing.
pub proof fn lemma_unseal_rejects_wrong_tag(
    identity: KeyRequestV,
    seal_key: Seq<u8>,
    sealed: SealedKeyDataV,
)
    requires
        aead_opened(seal_key, sealed.nonce, sealed.sealed_secret) matches Some(s)
            ==> ed25519_public_of(s) != sealed.seal_key_request.keyid,
    ensures
        !unseal_accepts(identity, seal_key, sealed),
{
}

} // verus!
