//! Wire-format round trips, exact encodings, and the host-side reply
//! interpretation.

use signatory_sgx::codec::{decode_request, decode_response, encode_request, encode_response};
use signatory_sgx::crypto::keypair_generate;
use signatory_sgx::host::{
    import_request, keygen_request, parse_import_reply, parse_keygen_reply,
    parse_public_key_reply, parse_sign_reply, public_key_request, shutdown_request, sign_request,
};
use signatory_sgx::protocol::{
    KeyRequest, SealedKeyData, SgxRequest, SgxResponse, SgxResponseError,
};
use signatory_sgx::seal::seal;

fn sample_key_request() -> KeyRequest {
    KeyRequest {
        keyname: 0x0104,
        keypolicy: 2,
        isvsvn: 7,
        cpusvn: (0u8..16).collect(),
        attributemask: vec![0x0123456789abcdef, 0x06],
        keyid: (10u8..42).collect(),
        miscmask: 0xf0000000,
    }
}

fn sample_sealed() -> SealedKeyData {
    SealedKeyData {
        seal_key_request: sample_key_request(),
        nonce: (50u8..62).collect(),
        sealed_secret: vec![9, 8, 7, 6, 5],
    }
}

#[test]
fn request_encodings_are_exact() {
    assert_eq!(encode_request(&SgxRequest::KeyGen), vec![0, 0, 0, 0]);
    assert_eq!(encode_request(&SgxRequest::GetPublicKey), vec![1, 0, 0, 0]);
    assert_eq!(encode_request(&SgxRequest::Shutdown), vec![4, 0, 0, 0]);
    assert_eq!(
        encode_request(&SgxRequest::Sign(b"ab".to_vec())),
        vec![3, 0, 0, 0, 2, 0, 0, 0, 0x61, 0x62]
    );
}

#[test]
fn key_request_encoding_is_exact() {
    let sealed = sample_sealed();
    let bytes = encode_request(&SgxRequest::Import(sealed));
    // tag, then 74 bytes of key request, 12 of nonce, 4 of length, 5 of data.
    assert_eq!(bytes.len(), 4 + 74 + 12 + 4 + 5);
    assert_eq!(&bytes[0..4], &[2, 0, 0, 0], "import tag");
    assert_eq!(&bytes[4..6], &[0x04, 0x01], "keyname, little endian");
    assert_eq!(&bytes[6..8], &[2, 0], "keypolicy");
    assert_eq!(&bytes[8..10], &[7, 0], "isvsvn");
    assert_eq!(&bytes[10..26], (0u8..16).collect::<Vec<u8>>().as_slice(), "cpusvn raw");
    assert_eq!(
        &bytes[26..34],
        &[0xef, 0xcd, 0xab, 0x89, 0x67, 0x45, 0x23, 0x01],
        "first attribute-mask word"
    );
    assert_eq!(&bytes[34..42], &[6, 0, 0, 0, 0, 0, 0, 0], "second attribute-mask word");
    assert_eq!(&bytes[42..74], (10u8..42).collect::<Vec<u8>>().as_slice(), "keyid raw");
    assert_eq!(&bytes[74..78], &[0, 0, 0, 0xf0], "miscmask");
    assert_eq!(&bytes[78..90], (50u8..62).collect::<Vec<u8>>().as_slice(), "nonce raw");
    assert_eq!(&bytes[90..94], &[5, 0, 0, 0], "ciphertext length");
    assert_eq!(&bytes[94..99], &[9, 8, 7, 6, 5], "ciphertext");
}

#[test]
fn request_roundtrip_all_variants() {
    let reqs = vec![
        SgxRequest::KeyGen,
        SgxRequest::GetPublicKey,
        SgxRequest::Import(sample_sealed()),
        SgxRequest::Sign(b"message".to_vec()),
        SgxRequest::Sign(Vec::new()),
        SgxRequest::Shutdown,
    ];
    for req in reqs {
        let bytes = encode_request(&req);
        let (back, used) = decode_request(&bytes).expect("decodes");
        assert_eq!(used, bytes.len(), "whole encoding consumed");
        // Compare via re-encoding: the types carry no equality of their own.
        assert_eq!(encode_request(&back), bytes);
    }
}

#[test]
fn response_roundtrip_all_variants() {
    let resps = vec![
        SgxResponse::KeyPair(sample_sealed()),
        SgxResponse::PublicKey((0u8..32).collect()),
        SgxResponse::Signed((0u8..64).collect()),
        SgxResponse::Error(SgxResponseError::KeyAlreadySet),
        SgxResponse::Error(SgxResponseError::KeyNotSet),
        SgxResponse::Error(SgxResponseError::SealFailed),
        SgxResponse::Error(SgxResponseError::UnsealFailed),
        SgxResponse::Error(SgxResponseError::Unexpected),
    ];
    for resp in resps {
        let bytes = encode_response(&resp);
        let (back, used) = decode_response(&bytes).expect("decodes");
        assert_eq!(used, bytes.len(), "whole encoding consumed");
        assert_eq!(encode_response(&back), bytes);
    }
}

#[test]
fn truncated_and_garbled_messages_are_rejected() {
    assert!(decode_request(&Vec::new()).is_none());
    assert!(decode_request(&vec![0, 0, 0]).is_none(), "truncated tag");
    assert!(decode_request(&vec![9, 0, 0, 0]).is_none(), "unknown tag");
    assert!(decode_request(&vec![3, 0, 0, 0, 5, 0, 0, 0, 1]).is_none(), "short sign payload");
    assert!(decode_request(&vec![2, 0, 0, 0, 1, 2, 3]).is_none(), "truncated import");
    assert!(decode_response(&vec![5, 0, 0, 0]).is_none(), "unknown response tag");
    assert!(decode_response(&vec![3, 0, 0, 0, 9, 0, 0, 0]).is_none(), "unknown error code");
    assert!(decode_response(&vec![1, 0, 0, 0, 1, 2, 3]).is_none(), "short public key");
}

#[test]
fn request_builders_match_encoder() {
    assert_eq!(keygen_request(), encode_request(&SgxRequest::KeyGen));
    assert_eq!(public_key_request(), encode_request(&SgxRequest::GetPublicKey));
    assert_eq!(shutdown_request(), encode_request(&SgxRequest::Shutdown));
    assert_eq!(
        sign_request(b"hi".to_vec()),
        encode_request(&SgxRequest::Sign(b"hi".to_vec()))
    );
    let sealed = sample_sealed();
    assert_eq!(
        import_request(sealed.clone()),
        encode_request(&SgxRequest::Import(sealed))
    );
}

#[test]
fn host_reply_parsing() {
    let sealed = sample_sealed();
    let keypair_reply = encode_response(&SgxResponse::KeyPair(sealed.clone()));
    let got = parse_keygen_reply(&keypair_reply).expect("sealed artifact comes back");
    assert_eq!(encode_request(&SgxRequest::Import(got)), encode_request(&SgxRequest::Import(sealed)));

    let pk: Vec<u8> = (0u8..32).collect();
    let pk_reply = encode_response(&SgxResponse::PublicKey(pk.clone()));
    assert_eq!(parse_public_key_reply(&pk_reply), Ok(pk.clone()));
    assert_eq!(parse_import_reply(&pk_reply), Ok(pk));

    let sig: Vec<u8> = (0u8..64).collect();
    let sig_reply = encode_response(&SgxResponse::Signed(sig.clone()));
    assert_eq!(parse_sign_reply(&sig_reply), Ok(sig));

    // The agent's reported error propagates.
    let err_reply = encode_response(&SgxResponse::Error(SgxResponseError::KeyNotSet));
    assert_eq!(parse_public_key_reply(&err_reply), Err(SgxResponseError::KeyNotSet));
    assert_eq!(parse_sign_reply(&err_reply), Err(SgxResponseError::KeyNotSet));

    // A reply of the wrong shape, garbage, or trailing bytes is Unexpected.
    let wrong_shape = encode_response(&SgxResponse::Signed((0u8..64).collect()));
    assert_eq!(
        parse_public_key_reply(&wrong_shape),
        Err(SgxResponseError::Unexpected)
    );
    assert!(matches!(
        parse_keygen_reply(&vec![0xaa, 0xbb]),
        Err(SgxResponseError::Unexpected)
    ));
    let mut padded = encode_response(&SgxResponse::Error(SgxResponseError::KeyNotSet));
    padded.push(0);
    assert_eq!(parse_sign_reply(&padded), Err(SgxResponseError::Unexpected));
}

#[test]
fn hardware_request_conversion_checks_keypolicy() {
    let req = sample_key_request();
    let hw = req.to_hardware().expect("both policy bits defined");
    assert_eq!(hw.keyname, req.keyname);
    assert_eq!(hw.isvsvn, req.isvsvn);
    assert_eq!(hw.keyid.to_vec(), req.keyid);
    let mut bad = sample_key_request();
    bad.keypolicy = 0x00ff;
    assert!(bad.to_hardware().is_none(), "undefined policy bits are refused");
    // A record sealed under a valid identity still converts: the sealing key
    // request inherits the identity's policy bits.
    let kp = keypair_generate();
    let sealed = seal(&req, &(0u8..16).collect::<Vec<u8>>(), &kp);
    assert!(sealed.seal_key_request.to_hardware().is_some());
}
