//! The agent's lifecycle driven over the wire codec, as the host would.

use signatory_sgx::agent::{EnclaveAgent, MessageOutcome};
use signatory_sgx::codec::{decode_response, encode_request};
use signatory_sgx::crypto::{ed25519_verify, keypair_generate};
use signatory_sgx::protocol::{KeyRequest, SgxRequest, SgxResponse, SgxResponseError};
use signatory_sgx::seal::seal;
use ed25519_dalek::Verifier;

fn test_identity() -> KeyRequest {
    KeyRequest {
        keyname: 4,
        keypolicy: 2,
        isvsvn: 1,
        cpusvn: vec![7u8; 16],
        attributemask: vec![0x06, 0x03],
        keyid: vec![0u8; 32],
        miscmask: 0,
    }
}

fn test_seal_key() -> Vec<u8> {
    (0u8..16).collect()
}

fn fresh_agent() -> EnclaveAgent {
    EnclaveAgent::new(test_identity(), test_seal_key())
}

/// Send one request and return the decoded reply.
fn exchange(agent: &mut EnclaveAgent, req: SgxRequest) -> SgxResponse {
    let bytes = encode_request(&req);
    match agent.handle_message(&bytes) {
        MessageOutcome::Reply(out) => {
            let (resp, used) = decode_response(&out).expect("reply decodes");
            assert_eq!(used, out.len());
            resp
        }
        other => panic!("expected a reply, agent answered {:?}", kind_of(&other)),
    }
}

fn kind_of(o: &MessageOutcome) -> &'static str {
    match o {
        MessageOutcome::Reply(_) => "reply",
        MessageOutcome::Silent => "silence",
        MessageOutcome::Halt => "halt",
    }
}

#[test]
fn test_basic_flow() {
    let mut agent = fresh_agent();
    let pk = match exchange(&mut agent, SgxRequest::KeyGen) {
        SgxResponse::KeyPair(sealed_data) => sealed_data.seal_key_request.keyid,
        _ => panic!("wrong keygen response"),
    };
    let pk2 = match exchange(&mut agent, SgxRequest::GetPublicKey) {
        SgxResponse::PublicKey(public_key) => public_key,
        _ => panic!("wrong public key response"),
    };
    assert_eq!(pk, pk2, "public keys match");
    let msg = b"hello".to_vec();
    let sig = match exchange(&mut agent, SgxRequest::Sign(msg.clone())) {
        SgxResponse::Signed(sig) => sig,
        _ => panic!("wrong sign response"),
    };
    let pk_arr: [u8; 32] = pk.as_slice().try_into().unwrap();
    let public_key = ed25519_dalek::VerifyingKey::from_bytes(&pk_arr).expect("valid public key");
    let dalek_sig = ed25519_dalek::Signature::from_slice(&sig).unwrap();
    assert!(public_key.verify(&msg, &dalek_sig).is_ok(), "signature is valid");
    let bytes = encode_request(&SgxRequest::Shutdown);
    assert!(matches!(agent.handle_message(&bytes), MessageOutcome::Halt));
}

#[test]
fn test_unseal() {
    let kp = keypair_generate();
    let sealed_data = seal(&test_identity(), &test_seal_key(), &kp);
    let mut mangled_sealed_data = sealed_data.clone();
    // Flip one nonce bit (xor, so the flip never degenerates to a no-op on a
    // random nonce).
    mangled_sealed_data.nonce[0] ^= 1;
    let mut agent = fresh_agent();
    match exchange(&mut agent, SgxRequest::Import(mangled_sealed_data)) {
        SgxResponse::Error(SgxResponseError::UnsealFailed) => {
            // ok
        }
        _ => panic!("wrong import response"),
    };
    match exchange(&mut agent, SgxRequest::Import(sealed_data)) {
        SgxResponse::PublicKey(pk) => {
            assert_eq!(pk, kp.public, "public key matches");
        }
        _ => panic!("wrong import response"),
    };
}

#[test]
fn sign_verifies_for_empty_and_nonempty_messages() {
    let mut agent = fresh_agent();
    let pk = match exchange(&mut agent, SgxRequest::KeyGen) {
        SgxResponse::KeyPair(sealed) => sealed.seal_key_request.keyid,
        _ => panic!("wrong keygen response"),
    };
    for msg in [b"".to_vec(), b"m".to_vec(), b"a longer message payload".to_vec()] {
        let sig = match exchange(&mut agent, SgxRequest::Sign(msg.clone())) {
            SgxResponse::Signed(sig) => sig,
            _ => panic!("wrong sign response"),
        };
        assert!(ed25519_verify(&pk, &msg, &sig), "library verification succeeds");
        let pk_arr: [u8; 32] = pk.as_slice().try_into().unwrap();
        let vk = ed25519_dalek::VerifyingKey::from_bytes(&pk_arr).unwrap();
        let dalek_sig = ed25519_dalek::Signature::from_slice(&sig).unwrap();
            assert!(vk.verify(&msg, &dalek_sig).is_ok(), "independent verification succeeds");
    }
}

#[test]
fn get_public_key_twice_returns_identical_bytes() {
    let mut agent = fresh_agent();
    exchange(&mut agent, SgxRequest::KeyGen);
    let a = match exchange(&mut agent, SgxRequest::GetPublicKey) {
        SgxResponse::PublicKey(pk) => pk,
        _ => panic!("wrong public key response"),
    };
    let b = match exchange(&mut agent, SgxRequest::GetPublicKey) {
        SgxResponse::PublicKey(pk) => pk,
        _ => panic!("wrong public key response"),
    };
    assert_eq!(a, b);
}

#[test]
fn second_keygen_refused_and_key_kept() {
    let mut agent = fresh_agent();
    let pk = match exchange(&mut agent, SgxRequest::KeyGen) {
        SgxResponse::KeyPair(sealed) => sealed.seal_key_request.keyid,
        _ => panic!("wrong keygen response"),
    };
    match exchange(&mut agent, SgxRequest::KeyGen) {
        SgxResponse::Error(SgxResponseError::KeyAlreadySet) => {}
        _ => panic!("second keygen must be refused"),
    }
    let msg = b"still the first key".to_vec();
    let sig = match exchange(&mut agent, SgxRequest::Sign(msg.clone())) {
        SgxResponse::Signed(sig) => sig,
        _ => panic!("wrong sign response"),
    };
    assert!(ed25519_verify(&pk, &msg, &sig), "signs with the original key");
}

#[test]
fn empty_state_refuses_sign_and_public_key() {
    let mut agent = fresh_agent();
    match exchange(&mut agent, SgxRequest::Sign(b"x".to_vec())) {
        SgxResponse::Error(SgxResponseError::KeyNotSet) => {}
        _ => panic!("sign in empty state must return KeyNotSet"),
    }
    match exchange(&mut agent, SgxRequest::GetPublicKey) {
        SgxResponse::Error(SgxResponseError::KeyNotSet) => {}
        _ => panic!("get public key in empty state must return KeyNotSet"),
    }
}

#[test]
fn end_to_end_restart_and_import() {
    let mut agent = fresh_agent();
    let (sealed, pk1) = match exchange(&mut agent, SgxRequest::KeyGen) {
        SgxResponse::KeyPair(sealed) => {
            let pk = sealed.seal_key_request.keyid.clone();
            (sealed, pk)
        }
        _ => panic!("wrong keygen response"),
    };
    let bytes = encode_request(&SgxRequest::Shutdown);
    assert!(matches!(agent.handle_message(&bytes), MessageOutcome::Halt));

    // A fresh agent instance with the same enclave identity and sealing key.
    let mut agent2 = fresh_agent();
    match exchange(&mut agent2, SgxRequest::Import(sealed)) {
        SgxResponse::PublicKey(pk) => assert_eq!(pk, pk1, "restored public key equals original"),
        _ => panic!("wrong import response"),
    }
    let msg = b"hello".to_vec();
    let sig = match exchange(&mut agent2, SgxRequest::Sign(msg.clone())) {
        SgxResponse::Signed(sig) => sig,
        _ => panic!("wrong sign response"),
    };
    assert!(ed25519_verify(&pk1, &msg, &sig), "signature verifies under original key");
}

#[test]
fn malformed_request_is_skipped_silently() {
    let mut agent = fresh_agent();
    exchange(&mut agent, SgxRequest::KeyGen);

    // An undecodable byte sequence: no response at all.
    assert!(matches!(agent.handle_message(&vec![0xff, 0xee, 0xdd]), MessageOutcome::Silent));
    // A known tag with trailing garbage is malformed too.
    let mut padded = encode_request(&SgxRequest::GetPublicKey);
    padded.push(0);
    assert!(matches!(agent.handle_message(&padded), MessageOutcome::Silent));
    // An unknown tag.
    assert!(matches!(agent.handle_message(&vec![9, 0, 0, 0]), MessageOutcome::Silent));

    // The next valid request yields exactly its own response.
    match exchange(&mut agent, SgxRequest::GetPublicKey) {
        SgxResponse::PublicKey(pk) => assert_eq!(pk.len(), 32),
        _ => panic!("wrong public key response"),
    }
}
