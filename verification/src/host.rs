//! The host controller's verified half: building the wire bytes of each
//! request, and turning the raw reply bytes of an exchange into the typed
//! result or error the caller sees. The transport itself (the duplex stream
//! to the enclave, launching and joining the enclave's worker) lives with
//! the unverified process wiring, which hands the bytes in and out.

use vstd::prelude::*;
use crate::codec::{
    decode_response, encode_request, spec_decode_response, spec_encode_request,
};
use crate::protocol::{
    SealedKeyData, SgxRequest, SgxRequestV, SgxResponse, SgxResponseError, SgxResponseV,
};

verus! {

/// The wire bytes of `KeyGen`.
pub fn keygen_request() -> (r: Vec<u8>)
    ensures
        r@ == spec_encode_request(SgxRequestV::KeyGen),
{
    encode_request(&SgxRequest::KeyGen)
}

/// The wire bytes of `GetPublicKey`.
pub fn public_key_request() -> (r: Vec<u8>)
    ensures
        r@ == spec_encode_request(SgxRequestV::GetPublicKey),
{
    encode_request(&SgxRequest::GetPublicKey)
}

/// The wire bytes of `Sign` over a message.
pub fn sign_request(msg: Vec<u8>) -> (r: Vec<u8>)
    requires
        msg@.len() < 0x100000000,
    ensures
        r@ == spec_encode_request(SgxRequestV::Sign(msg@)),
{
    encode_request(&SgxRequest::Sign(msg))
}

/// The wire bytes of `Import` of a sealed record.
pub fn import_request(sealed: SealedKeyData) -> (r: Vec<u8>)
    requires
        sealed.wf(),
    ensures
        r@ == spec_encode_request(SgxRequestV::Import(sealed@)),
{
    encode_request(&SgxRequest::Import(sealed))
}

/// The wire bytes of `Shutdown`.
pub fn shutdown_request() -> (r: Vec<u8>)
    ensures
        r@ == spec_encode_request(SgxRequestV::Shutdown),
{
    encode_request(&SgxRequest::Shutdown)
}

/// Whether `bytes` decodes exactly to one response, with nothing left over.
pub open spec fn reply_of(bytes: Seq<u8>) -> Option<SgxResponseV> {
    match spec_decode_response(bytes) {
        Some((resp, used)) => if used == bytes.len() {
            Some(resp)
        } else {
            None
        },
        None => None,
    }
}

/// Interpret the reply to `KeyGen`: the sealed artifact, the agent's
/// reported error, or `Unexpected` for anything that is not a well-formed
/// reply of the right shape.
pub fn parse_keygen_reply(bytes: &Vec<u8>) -> (r: Result<SealedKeyData, SgxResponseError>)
    ensures
        match reply_of(bytes@) {
            Some(SgxResponseV::KeyPair(s)) => r matches Ok(out) && out@ == s && out.wf(),
            Some(SgxResponseV::Error(e)) => r == Err::<SealedKeyData, SgxResponseError>(e),
            _ => r == Err::<SealedKeyData, SgxResponseError>(SgxResponseError::Unexpected),
        },
{
    match decode_exact(bytes) {
        Some(SgxResponse::KeyPair(s)) => Ok(s),
        Some(SgxResponse::Error(e)) => Err(e),
        _ => Err(SgxResponseError::Unexpected),
    }
}

/// Interpret the reply to `GetPublicKey`: the 32 public-key bytes, the
/// agent's reported error, or `Unexpected`.
pub fn parse_public_key_reply(bytes: &Vec<u8>) -> (r: Result<Vec<u8>, SgxResponseError>)
    ensures
        match reply_of(bytes@) {
            Some(SgxResponseV::PublicKey(pk)) => r matches Ok(out) && out@ == pk && out@.len()
                == 32,
            Some(SgxResponseV::Error(e)) => r == Err::<Vec<u8>, SgxResponseError>(e),
            _ => r == Err::<Vec<u8>, SgxResponseError>(SgxResponseError::Unexpected),
        },
{
    match decode_exact(bytes) {
        Some(SgxResponse::PublicKey(pk)) => Ok(pk),
        Some(SgxResponse::Error(e)) => Err(e),
        _ => Err(SgxResponseError::Unexpected),
    }
}

/// Interpret the reply to `Sign`: the 64 signature bytes, the agent's
/// reported error, or `Unexpected`.
pub fn parse_sign_reply(bytes: &Vec<u8>) -> (r: Result<Vec<u8>, SgxResponseError>)
    ensures
        match reply_of(bytes@) {
            Some(SgxResponseV::Signed(sig)) => r matches Ok(out) && out@ == sig && out@.len()
                == 64,
            Some(SgxResponseV::Error(e)) => r == Err::<Vec<u8>, SgxResponseError>(e),
            _ => r == Err::<Vec<u8>, SgxResponseError>(SgxResponseError::Unexpected),
        },
{
    match decode_exact(bytes) {
        Some(SgxResponse::Signed(sig)) => Ok(sig),
        Some(SgxResponse::Error(e)) => Err(e),
        _ => Err(SgxResponseError::Unexpected),
    }
}

/// Interpret the reply to `Import`: the restored public key, the agent's
/// reported error, or `Unexpected`.
pub fn parse_import_reply(bytes: &Vec<u8>) -> (r: Result<Vec<u8>, SgxResponseError>)
    ensures
        match reply_of(bytes@) {
            Some(SgxResponseV::PublicKey(pk)) => r matches Ok(out) && out@ == pk && out@.len()
                == 32,
            Some(SgxResponseV::Error(e)) => r == Err::<Vec<u8>, SgxResponseError>(e),
            _ => r == Err::<Vec<u8>, SgxResponseError>(SgxResponseError::Unexpected),
        },
{
    match decode_exact(bytes) {
        Some(SgxResponse::PublicKey(pk)) => Ok(pk),
        Some(SgxResponse::Error(e)) => Err(e),
        _ => Err(SgxResponseError::Unexpected),
    }
}

/// Decode one response occupying the whole buffer, or `None`.
fn decode_exact(bytes: &Vec<u8>) -> (r: Option<SgxResponse>)
    ensures
        r matches Some(resp) ==> resp.wf() && reply_of(bytes@) == Some(resp@),
        r is None ==> reply_of(bytes@) is None,
{
    match decode_response(bytes) {
        Some((resp, used)) => {
            if used == bytes.len() {
                Some(resp)
            } else {
                None
            }
        },
        None => None,
    }
}

} // verus!
