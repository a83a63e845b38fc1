//! Wire form of the protocol: one self-describing binary message per request
//! and per response. Multi-byte integers are little-endian; fixed-size byte
//! fields are written raw; variable-length byte fields carry a 32-bit length
//! prefix; enum variants carry a 32-bit tag. Both endpoints use exactly this
//! encoding, so they agree bit-for-bit.

use vstd::prelude::*;
use vstd::arithmetic::div_mod::lemma_fundamental_div_mod;
use vstd::assert_seqs_equal;
use crate::protocol::{
    KeyRequest, KeyRequestV, SealedKeyData, SealedKeyDataV, SgxRequest, SgxRequestV, SgxResponse,
    SgxResponseV, SgxResponseError,
};

verus! {

// ---------------------------------------------------------------------------
// Little-endian integers
// ---------------------------------------------------------------------------

/// Two little-endian bytes of a `u16`.
pub open spec fn le2(x: u16) -> Seq<u8> {
    seq![(x % 0x100) as u8, (x / 0x100) as u8]
}

/// The `u16` read from two little-endian bytes at offset `i`.
pub open spec fn de2(b: Seq<u8>, i: int) -> u16 {
    (b[i] + b[i + 1] * 0x100) as u16
}

/// Four little-endian bytes of a `u32`.
pub open spec fn le4(x: u32) -> Seq<u8> {
    le2((x % 0x10000) as u16) + le2((x / 0x10000) as u16)
}

/// The `u32` read from four little-endian bytes at offset `i`.
pub open spec fn de4(b: Seq<u8>, i: int) -> u32 {
    (de2(b, i) + de2(b, i + 2) * 0x10000) as u32
}

/// Eight little-endian bytes of a `u64`.
pub open spec fn le8(x: u64) -> Seq<u8> {
    le4((x % 0x100000000) as u32) + le4((x / 0x100000000) as u32)
}

/// The `u64` read from eight little-endian bytes at offset `i`.
pub open spec fn de8(b: Seq<u8>, i: int) -> u64 {
    (de4(b, i) + de4(b, i + 4) * 0x100000000) as u64
}

pub proof fn lemma_le2_roundtrip(x: u16, b: Seq<u8>, i: int)
    requires
        0 <= i,
        i + 2 <= b.len(),
        b.subrange(i, i + 2) == le2(x),
    ensures
        de2(b, i) == x,
{
    assert(b[i] == le2(x)[0]);
    assert(b[i + 1] == le2(x)[1]);
    lemma_fundamental_div_mod(x as int, 0x100);
}

pub proof fn lemma_le4_roundtrip(x: u32, b: Seq<u8>, i: int)
    requires
        0 <= i,
        i + 4 <= b.len(),
        b.subrange(i, i + 4) == le4(x),
    ensures
        de4(b, i) == x,
{
    let lo = (x % 0x10000) as u16;
    let hi = (x / 0x10000) as u16;
    let s = b.subrange(i, i + 4);
    assert(forall|k: int| 0 <= k < 4 ==> b[i + k] == #[trigger] s[k]);
    assert_seqs_equal!(b.subrange(i, i + 2), le2(lo), k => {
        assert(b[i + k] == s[k]);
    });
    assert_seqs_equal!(b.subrange(i + 2, i + 4), le2(hi), k => {
        assert(b[i + (2 + k)] == s[2 + k]);
    });
    lemma_le2_roundtrip(lo, b, i);
    lemma_le2_roundtrip(hi, b, i + 2);
    lemma_fundamental_div_mod(x as int, 0x10000);
}

pub proof fn lemma_le8_roundtrip(x: u64, b: Seq<u8>, i: int)
    requires
        0 <= i,
        i + 8 <= b.len(),
        b.subrange(i, i + 8) == le8(x),
    ensures
        de8(b, i) == x,
{
    let lo = (x % 0x100000000) as u32;
    let hi = (x / 0x100000000) as u32;
    let s = b.subrange(i, i + 8);
    assert(forall|k: int| 0 <= k < 8 ==> b[i + k] == #[trigger] s[k]);
    assert_seqs_equal!(b.subrange(i, i + 4), le4(lo), k => {
        assert(b[i + k] == s[k]);
    });
    assert_seqs_equal!(b.subrange(i + 4, i + 8), le4(hi), k => {
        assert(b[i + (4 + k)] == s[4 + k]);
    });
    lemma_le4_roundtrip(lo, b, i);
    lemma_le4_roundtrip(hi, b, i + 4);
    lemma_fundamental_div_mod(x as int, 0x100000000);
}

fn push_u16(out: &mut Vec<u8>, x: u16)
    ensures
        final(out)@ == old(out)@ + le2(x),
{
    out.push((x % 0x100) as u8);
    out.push((x / 0x100) as u8);
    proof {
        assert_seqs_equal!(out@, old(out)@ + le2(x));
    }
}

fn push_u32(out: &mut Vec<u8>, x: u32)
    ensures
        final(out)@ == old(out)@ + le4(x),
{
    push_u16(out, (x % 0x10000) as u16);
    push_u16(out, (x / 0x10000) as u16);
    proof {
        assert_seqs_equal!(out@, old(out)@ + le4(x));
    }
}

fn push_u64(out: &mut Vec<u8>, x: u64)
    ensures
        final(out)@ == old(out)@ + le8(x),
{
    push_u32(out, (x % 0x100000000) as u32);
    push_u32(out, (x / 0x100000000) as u32);
    proof {
        assert_seqs_equal!(out@, old(out)@ + le8(x));
    }
}

fn push_bytes(out: &mut Vec<u8>, bytes: &Vec<u8>)
    ensures
        final(out)@ == old(out)@ + bytes@,
{
    let mut j: usize = 0;
    while j < bytes.len()
        invariant
            j <= bytes.len(),
            out@ == old(out)@ + bytes@.subrange(0, j as int),
        decreases bytes.len() - j,
    {
        out.push(bytes[j]);
        j = j + 1;
        proof {
            assert_seqs_equal!(out@, old(out)@ + bytes@.subrange(0, j as int));
        }
    }
    proof {
        assert_seqs_equal!(out@, old(out)@ + bytes@);
    }
}

fn read_u16(b: &Vec<u8>, i: usize) -> (r: u16)
    requires
        i + 2 <= b@.len(),
    ensures
        r == de2(b@, i as int),
{
    let n = b.len();
    proof {
        assert(i + 2 <= n);
    }
    (b[i] as u16) + (b[i + 1] as u16) * 0x100
}

fn read_u32(b: &Vec<u8>, i: usize) -> (r: u32)
    requires
        i + 4 <= b@.len(),
    ensures
        r == de4(b@, i as int),
{
    let n = b.len();
    proof {
        assert(i + 4 <= n);
    }
    (read_u16(b, i) as u32) + (read_u16(b, i + 2) as u32) * 0x10000
}

fn read_u64(b: &Vec<u8>, i: usize) -> (r: u64)
    requires
        i + 8 <= b@.len(),
    ensures
        r == de8(b@, i as int),
{
    let n = b.len();
    proof {
        assert(i + 8 <= n);
    }
    (read_u32(b, i) as u64) + (read_u32(b, i + 4) as u64) * 0x100000000
}

fn read_bytes(b: &Vec<u8>, i: usize, n: usize) -> (r: Vec<u8>)
    requires
        i + n <= b@.len(),
    ensures
        r@ == b@.subrange(i as int, i as int + n as int),
{
    let len = b.len();
    let mut out: Vec<u8> = Vec::new();
    let mut j: usize = 0;
    while j < n
        invariant
            j <= n,
            i + n <= b@.len(),
            len == b@.len(),
            out@ == b@.subrange(i as int, i as int + j as int),
        decreases n - j,
    {
        out.push(b[i + j]);
        j = j + 1;
        proof {
            assert_seqs_equal!(out@, b@.subrange(i as int, i as int + j as int));
        }
    }
    out
}

// ---------------------------------------------------------------------------
// Message layout
// ---------------------------------------------------------------------------

/// Bytes of a `KeyRequest` (74 in all: 2 + 2 + 2 + 16 + 8 + 8 + 32 + 4):
/// the three version words, the CPU security-version
/// snapshot, the two attribute-mask words, the key-identifying tag, and the
/// miscellaneous-selector mask.
pub open spec fn spec_encode_key_request(r: KeyRequestV) -> Seq<u8> {
    le2(r.keyname) + le2(r.keypolicy) + le2(r.isvsvn) + r.cpusvn + le8(r.attributemask[0])
        + le8(r.attributemask[1]) + r.keyid + le4(r.miscmask)
}

/// Bytes of a `SealedKeyData`: the key request, the raw nonce, then the
/// length-prefixed ciphertext.
pub open spec fn spec_encode_sealed(s: SealedKeyDataV) -> Seq<u8> {
    spec_encode_key_request(s.seal_key_request) + s.nonce + le4(s.sealed_secret.len() as u32)
        + s.sealed_secret
}

/// Bytes of a request: a 32-bit variant tag, then the variant's payload.
pub open spec fn spec_encode_request(r: SgxRequestV) -> Seq<u8> {
    match r {
        SgxRequestV::KeyGen => le4(0),
        SgxRequestV::GetPublicKey => le4(1),
        SgxRequestV::Import(s) => le4(2) + spec_encode_sealed(s),
        SgxRequestV::Sign(m) => le4(3) + le4(m.len() as u32) + m,
        SgxRequestV::Shutdown => le4(4),
    }
}

/// Wire code of each error kind.
pub open spec fn spec_error_code(e: SgxResponseError) -> u32 {
    match e {
        SgxResponseError::KeyAlreadySet => 0,
        SgxResponseError::KeyNotSet => 1,
        SgxResponseError::SealFailed => 2,
        SgxResponseError::UnsealFailed => 3,
        SgxResponseError::Unexpected => 4,
    }
}

/// The error kind a wire code stands for, if any.
pub open spec fn spec_error_from_code(c: u32) -> Option<SgxResponseError> {
    if c == 0 {
        Some(SgxResponseError::KeyAlreadySet)
    } else if c == 1 {
        Some(SgxResponseError::KeyNotSet)
    } else if c == 2 {
        Some(SgxResponseError::SealFailed)
    } else if c == 3 {
        Some(SgxResponseError::UnsealFailed)
    } else if c == 4 {
        Some(SgxResponseError::Unexpected)
    } else {
        None
    }
}

/// Bytes of a response: a 32-bit variant tag, then the variant's payload.
pub open spec fn spec_encode_response(r: SgxResponseV) -> Seq<u8> {
    match r {
        SgxResponseV::KeyPair(s) => le4(0) + spec_encode_sealed(s),
        SgxResponseV::PublicKey(pk) => le4(1) + pk,
        SgxResponseV::Signed(sig) => le4(2) + sig,
        SgxResponseV::Error(e) => le4(3) + le4(spec_error_code(e)),
    }
}

// ---------------------------------------------------------------------------
// Encoders
// ---------------------------------------------------------------------------

fn encode_key_request_into(r: &KeyRequest, out: &mut Vec<u8>)
    requires
        r.wf(),
    ensures
        final(out)@ == old(out)@ + spec_encode_key_request(r@),
{
    push_u16(out, r.keyname);
    push_u16(out, r.keypolicy);
    push_u16(out, r.isvsvn);
    push_bytes(out, &r.cpusvn);
    push_u64(out, r.attributemask[0]);
    push_u64(out, r.attributemask[1]);
    push_bytes(out, &r.keyid);
    push_u32(out, r.miscmask);
    proof {
        assert_seqs_equal!(out@, old(out)@ + spec_encode_key_request(r@));
    }
}

fn encode_sealed_into(s: &SealedKeyData, out: &mut Vec<u8>)
    requires
        s.wf(),
    ensures
        final(out)@ == old(out)@ + spec_encode_sealed(s@),
{
    encode_key_request_into(&s.seal_key_request, out);
    push_bytes(out, &s.nonce);
    push_u32(out, s.sealed_secret.len() as u32);
    push_bytes(out, &s.sealed_secret);
    proof {
        assert_seqs_equal!(out@, old(out)@ + spec_encode_sealed(s@));
    }
}

/// Encode a request for the wire.
pub fn encode_request(req: &SgxRequest) -> (r: Vec<u8>)
    requires
        req.wf(),
    ensures
        r@ == spec_encode_request(req@),
{
    let mut out: Vec<u8> = Vec::new();
    match req {
        SgxRequest::KeyGen => {
            push_u32(&mut out, 0);
        }
        SgxRequest::GetPublicKey => {
            push_u32(&mut out, 1);
        }
        SgxRequest::Import(sealed) => {
            push_u32(&mut out, 2);
            encode_sealed_into(sealed, &mut out);
        }
        SgxRequest::Sign(msg) => {
            push_u32(&mut out, 3);
            push_u32(&mut out, msg.len() as u32);
            push_bytes(&mut out, msg);
        }
        SgxRequest::Shutdown => {
            push_u32(&mut out, 4);
        }
    }
    proof {
        assert_seqs_equal!(out@, spec_encode_request(req@));
    }
    out
}

/// Encode a response for the wire.
pub fn encode_response(resp: &SgxResponse) -> (r: Vec<u8>)
    requires
        resp.wf(),
    ensures
        r@ == spec_encode_response(resp@),
{
    let mut out: Vec<u8> = Vec::new();
    match resp {
        SgxResponse::KeyPair(sealed) => {
            push_u32(&mut out, 0);
            encode_sealed_into(sealed, &mut out);
        }
        SgxResponse::PublicKey(pk) => {
            push_u32(&mut out, 1);
            push_bytes(&mut out, pk);
        }
        SgxResponse::Signed(sig) => {
            push_u32(&mut out, 2);
            push_bytes(&mut out, sig);
        }
        SgxResponse::Error(e) => {
            push_u32(&mut out, 3);
            let code: u32 = match e {
                SgxResponseError::KeyAlreadySet => 0,
                SgxResponseError::KeyNotSet => 1,
                SgxResponseError::SealFailed => 2,
                SgxResponseError::UnsealFailed => 3,
                SgxResponseError::Unexpected => 4,
            };
            push_u32(&mut out, code);
        }
    }
    proof {
        assert_seqs_equal!(out@, spec_encode_response(resp@));
    }
    out
}

// ---------------------------------------------------------------------------
// Decoders
// ---------------------------------------------------------------------------

/// The `KeyRequest` whose 74 bytes start at offset `i`, if `b` is long enough.
pub open spec fn spec_dec_key_request(b: Seq<u8>, i: int) -> Option<KeyRequestV> {
    if 0 <= i && i + 74 <= b.len() {
        Some(KeyRequestV {
            keyname: de2(b, i),
            keypolicy: de2(b, i + 2),
            isvsvn: de2(b, i + 4),
            cpusvn: b.subrange(i + 6, i + 22),
            attributemask: seq![de8(b, i + 22), de8(b, i + 30)],
            keyid: b.subrange(i + 38, i + 70),
            miscmask: de4(b, i + 70),
        })
    } else {
        None
    }
}

/// The `SealedKeyData` starting at offset `i` and the offset just past it,
/// if `b` holds a complete record there.
pub open spec fn spec_dec_sealed(b: Seq<u8>, i: int) -> Option<(SealedKeyDataV, int)> {
    match spec_dec_key_request(b, i) {
        Some(req) => {
            if i + 90 <= b.len() {
                let ctlen = de4(b, i + 86) as int;
                if i + 90 + ctlen <= b.len() {
                    Some(
                        (
                            SealedKeyDataV {
                                seal_key_request: req,
                                nonce: b.subrange(i + 74, i + 86),
                                sealed_secret: b.subrange(i + 90, i + 90 + ctlen),
                            },
                            i + 90 + ctlen,
                        ),
                    )
                } else {
                    None
                }
            } else {
                None
            }
        }
        None => None,
    }
}

/// The request encoded at the front of `b` and the number of bytes it
/// occupies, or `None` if no request is encoded there.
pub open spec fn spec_decode_request(b: Seq<u8>) -> Option<(SgxRequestV, int)> {
    if 4 <= b.len() {
        let tag = de4(b, 0);
        if tag == 0 {
            Some((SgxRequestV::KeyGen, 4))
        } else if tag == 1 {
            Some((SgxRequestV::GetPublicKey, 4))
        } else if tag == 2 {
            match spec_dec_sealed(b, 4) {
                Some((s, end)) => Some((SgxRequestV::Import(s), end)),
                None => None,
            }
        } else if tag == 3 {
            if 8 <= b.len() {
                let mlen = de4(b, 4) as int;
                if 8 + mlen <= b.len() {
                    Some((SgxRequestV::Sign(b.subrange(8, 8 + mlen)), 8 + mlen))
                } else {
                    None
                }
            } else {
                None
            }
        } else if tag == 4 {
            Some((SgxRequestV::Shutdown, 4))
        } else {
            None
        }
    } else {
        None
    }
}

/// The response encoded at the front of `b` and the number of bytes it
/// occupies, or `None` if no response is encoded there.
pub open spec fn spec_decode_response(b: Seq<u8>) -> Option<(SgxResponseV, int)> {
    if 4 <= b.len() {
        let tag = de4(b, 0);
        if tag == 0 {
            match spec_dec_sealed(b, 4) {
                Some((s, end)) => Some((SgxResponseV::KeyPair(s), end)),
                None => None,
            }
        } else if tag == 1 {
            if 36 <= b.len() {
                Some((SgxResponseV::PublicKey(b.subrange(4, 36)), 36))
            } else {
                None
            }
        } else if tag == 2 {
            if 68 <= b.len() {
                Some((SgxResponseV::Signed(b.subrange(4, 68)), 68))
            } else {
                None
            }
        } else if tag == 3 {
            if 8 <= b.len() {
                match spec_error_from_code(de4(b, 4)) {
                    Some(e) => Some((SgxResponseV::Error(e), 8)),
                    None => None,
                }
            } else {
                None
            }
        } else {
            None
        }
    } else {
        None
    }
}

fn dec_key_request(b: &Vec<u8>, i: usize) -> (r: Option<KeyRequest>)
    requires
        i + 74 <= b@.len(),
    ensures
        r matches Some(req) && req.wf() && spec_dec_key_request(b@, i as int) == Some(req@),
{
    let n = b.len();
    proof {
        assert(i + 74 <= n);
    }
    let mut attributemask: Vec<u64> = Vec::new();
    attributemask.push(read_u64(b, i + 22));
    attributemask.push(read_u64(b, i + 30));
    let req = KeyRequest {
        keyname: read_u16(b, i),
        keypolicy: read_u16(b, i + 2),
        isvsvn: read_u16(b, i + 4),
        cpusvn: read_bytes(b, i + 6, 16),
        attributemask,
        keyid: read_bytes(b, i + 38, 32),
        miscmask: read_u32(b, i + 70),
    };
    proof {
        assert(spec_dec_key_request(b@, i as int)->Some_0 =~= req@);
    }
    Some(req)
}

fn dec_sealed(b: &Vec<u8>, i: usize) -> (r: Option<(SealedKeyData, usize)>)
    requires
        i <= b@.len(),
    ensures
        r matches Some((s, end)) ==> s.wf() && spec_dec_sealed(b@, i as int) == Some(
            (s@, end as int),
        ),
        r is None ==> spec_dec_sealed(b@, i as int) is None,
{
    let n = b.len();
    if n - i < 90 {
        return None;
    }
    let req = match dec_key_request(b, i) {
        Some(req) => req,
        None => {
            return None;
        }
    };
    let nonce = read_bytes(b, i + 74, 12);
    let ctlen_w = read_u32(b, i + 86);
    let ctlen: usize = ctlen_w as usize;
    if ctlen > n - (i + 90) {
        return None;
    }
    let sealed_secret = read_bytes(b, i + 90, ctlen);
    let s = SealedKeyData { seal_key_request: req, nonce, sealed_secret };
    proof {
        assert(spec_dec_sealed(b@, i as int)->Some_0.0 =~= s@);
    }
    Some((s, i + 90 + ctlen))
}

/// Decode the request at the front of `bytes`; `None` on any malformed or
/// truncated input.
pub fn decode_request(bytes: &Vec<u8>) -> (r: Option<(SgxRequest, usize)>)
    ensures
        r matches Some((req, end)) ==> req.wf() && spec_decode_request(bytes@) == Some(
            (req@, end as int),
        ),
        r is None ==> spec_decode_request(bytes@) is None,
{
    let n = bytes.len();
    if n < 4 {
        return None;
    }
    let tag = read_u32(bytes, 0);
    if tag == 0 {
        Some((SgxRequest::KeyGen, 4))
    } else if tag == 1 {
        Some((SgxRequest::GetPublicKey, 4))
    } else if tag == 2 {
        match dec_sealed(bytes, 4) {
            Some((s, end)) => Some((SgxRequest::Import(s), end)),
            None => None,
        }
    } else if tag == 3 {
        if n < 8 {
            return None;
        }
        let mlen_w = read_u32(bytes, 4);
        let mlen: usize = mlen_w as usize;
        if mlen > n - 8 {
            return None;
        }
        let msg = read_bytes(bytes, 8, mlen);
        Some((SgxRequest::Sign(msg), 8 + mlen))
    } else if tag == 4 {
        Some((SgxRequest::Shutdown, 4))
    } else {
        None
    }
}

/// Decode the response at the front of `bytes`; `None` on any malformed or
/// truncated input.
pub fn decode_response(bytes: &Vec<u8>) -> (r: Option<(SgxResponse, usize)>)
    ensures
        r matches Some((resp, end)) ==> resp.wf() && spec_decode_response(bytes@) == Some(
            (resp@, end as int),
        ),
        r is None ==> spec_decode_response(bytes@) is None,
{
    let n = bytes.len();
    if n < 4 {
        return None;
    }
    let tag = read_u32(bytes, 0);
    if tag == 0 {
        match dec_sealed(bytes, 4) {
            Some((s, end)) => Some((SgxResponse::KeyPair(s), end)),
            None => None,
        }
    } else if tag == 1 {
        if n < 36 {
            return None;
        }
        Some((SgxResponse::PublicKey(read_bytes(bytes, 4, 32)), 36))
    } else if tag == 2 {
        if n < 68 {
            return None;
        }
        Some((SgxResponse::Signed(read_bytes(bytes, 4, 64)), 68))
    } else if tag == 3 {
        if n < 8 {
            return None;
        }
        let code = read_u32(bytes, 4);
        let e = if code == 0 {
            SgxResponseError::KeyAlreadySet
        } else if code == 1 {
            SgxResponseError::KeyNotSet
        } else if code == 2 {
            SgxResponseError::SealFailed
        } else if code == 3 {
            SgxResponseError::UnsealFailed
        } else if code == 4 {
            SgxResponseError::Unexpected
        } else {
            return None;
        };
        Some((SgxResponse::Error(e), 8))
    } else {
        None
    }
}

// ---------------------------------------------------------------------------
// Round-trip laws: decoding an encoded message yields the message back and
// consumes exactly its bytes, wherever it stands in a larger buffer.
// ---------------------------------------------------------------------------

/// A well-formed `KeyRequest` encoded at offset `i` decodes to itself.
#[verifier::spinoff_prover]
pub proof fn lemma_key_request_roundtrip(r: KeyRequestV, b: Seq<u8>, i: int)
    requires
        r.wf(),
        0 <= i,
        i + 74 <= b.len(),
        b.subrange(i, i + 74) == spec_encode_key_request(r),
    ensures
        spec_dec_key_request(b, i) == Some(r),
{
    let s = b.subrange(i, i + 74);
    assert(forall|k: int| 0 <= k < 74 ==> b[i + k] == #[trigger] s[k]);
    assert_seqs_equal!(b.subrange(i, i + 2), le2(r.keyname), k => {
        assert(b[i + k] == s[k]);
    });
    lemma_le2_roundtrip(r.keyname, b, i);
    assert_seqs_equal!(b.subrange(i + 2, i + 4), le2(r.keypolicy), k => {
        assert(b[i + (2 + k)] == s[2 + k]);
    });
    lemma_le2_roundtrip(r.keypolicy, b, i + 2);
    assert_seqs_equal!(b.subrange(i + 4, i + 6), le2(r.isvsvn), k => {
        assert(b[i + (4 + k)] == s[4 + k]);
    });
    lemma_le2_roundtrip(r.isvsvn, b, i + 4);
    assert_seqs_equal!(b.subrange(i + 6, i + 22), r.cpusvn, k => {
        assert(b[i + (6 + k)] == s[6 + k]);
    });
    assert_seqs_equal!(b.subrange(i + 22, i + 30), le8(r.attributemask[0]), k => {
        assert(b[i + (22 + k)] == s[22 + k]);
    });
    lemma_le8_roundtrip(r.attributemask[0], b, i + 22);
    assert_seqs_equal!(b.subrange(i + 30, i + 38), le8(r.attributemask[1]), k => {
        assert(b[i + (30 + k)] == s[30 + k]);
    });
    lemma_le8_roundtrip(r.attributemask[1], b, i + 30);
    assert_seqs_equal!(b.subrange(i + 38, i + 70), r.keyid, k => {
        assert(b[i + (38 + k)] == s[38 + k]);
    });
    assert_seqs_equal!(b.subrange(i + 70, i + 74), le4(r.miscmask), k => {
        assert(b[i + (70 + k)] == s[70 + k]);
    });
    lemma_le4_roundtrip(r.miscmask, b, i + 70);
    assert(seq![de8(b, i + 22), de8(b, i + 30)] =~= r.attributemask);
    assert(spec_dec_key_request(b, i)->Some_0 =~= r);
}

/// A well-formed `SealedKeyData` encoded at offset `i` decodes to itself and
/// consumes exactly its encoded length.
#[verifier::spinoff_prover]
pub proof fn lemma_sealed_roundtrip(s: SealedKeyDataV, b: Seq<u8>, i: int)
    requires
        s.wf(),
        0 <= i,
        i + 90 + s.sealed_secret.len() <= b.len(),
        b.subrange(i, i + 90 + s.sealed_secret.len()) == spec_encode_sealed(s),
    ensures
        spec_dec_sealed(b, i) == Some((s, i + 90 + s.sealed_secret.len())),
{
    let ctlen = s.sealed_secret.len() as int;
    let enc = spec_encode_sealed(s);
    assert(enc.len() == 90 + ctlen);
    let sub = b.subrange(i, i + 90 + ctlen);
    assert(forall|k: int| 0 <= k < 90 + ctlen ==> b[i + k] == #[trigger] sub[k]);
    assert_seqs_equal!(b.subrange(i, i + 74), spec_encode_key_request(s.seal_key_request), k => {
        assert(b[i + k] == sub[k]);
    });
    lemma_key_request_roundtrip(s.seal_key_request, b, i);
    assert_seqs_equal!(b.subrange(i + 74, i + 86), s.nonce, k => {
        assert(b[i + (74 + k)] == sub[74 + k]);
    });
    assert_seqs_equal!(b.subrange(i + 86, i + 90), le4(s.sealed_secret.len() as u32), k => {
        assert(b[i + (86 + k)] == sub[86 + k]);
    });
    lemma_le4_roundtrip(s.sealed_secret.len() as u32, b, i + 86);
    assert(de4(b, i + 86) as int == ctlen);
    assert_seqs_equal!(b.subrange(i + 90, i + 90 + ctlen), s.sealed_secret, k => {
        assert(b[i + (90 + k)] == sub[90 + k]);
    });
    assert(spec_dec_sealed(b, i)->Some_0.0 =~= s);
}

#[verifier::rlimit(100)]
#[verifier::spinoff_prover]
proof fn lemma_request_roundtrip_import(s: SealedKeyDataV)
    requires
        s.wf(),
    ensures
        spec_decode_request(spec_encode_request(SgxRequestV::Import(s))) == Some(
            (
                SgxRequestV::Import(s),
                spec_encode_request(SgxRequestV::Import(s)).len() as int,
            ),
        ),
{
    let b = spec_encode_request(SgxRequestV::Import(s));
    let enc = spec_encode_sealed(s);
    assert(b.subrange(0, 4) =~= le4(2));
    lemma_le4_roundtrip(2, b, 0);
    assert(b.subrange(4, 4 + enc.len() as int) =~= enc);
    lemma_sealed_roundtrip(s, b, 4);
}

/// Law: decoding an encoded request yields the request back, consuming the
/// whole encoding.
#[verifier::rlimit(100)]
pub proof fn lemma_request_roundtrip(r: SgxRequestV)
    requires
        r.wf(),
    ensures
        spec_decode_request(spec_encode_request(r)) == Some(
            (r, spec_encode_request(r).len() as int),
        ),
{
    let b = spec_encode_request(r);
    match r {
        SgxRequestV::KeyGen => {
            assert(b.subrange(0, 4) =~= le4(0));
            lemma_le4_roundtrip(0, b, 0);
        }
        SgxRequestV::GetPublicKey => {
            assert(b.subrange(0, 4) =~= le4(1));
            lemma_le4_roundtrip(1, b, 0);
        }
        SgxRequestV::Import(s) => {
            lemma_request_roundtrip_import(s);
        }
        SgxRequestV::Sign(m) => {
            let mlen = m.len() as int;
            assert(b.subrange(0, 4) =~= le4(3));
            lemma_le4_roundtrip(3, b, 0);
            assert(b.subrange(4, 8) =~= le4(m.len() as u32));
            lemma_le4_roundtrip(m.len() as u32, b, 4);
            assert(de4(b, 4) as int == mlen);
            assert(b.subrange(8, 8 + mlen) =~= m);
        }
        SgxRequestV::Shutdown => {
            assert(b.subrange(0, 4) =~= le4(4));
            lemma_le4_roundtrip(4, b, 0);
        }
    }
}

/// Law: decoding an encoded response yields the response back, consuming the
/// whole encoding.
#[verifier::rlimit(100)]
#[verifier::spinoff_prover]
proof fn lemma_response_roundtrip_keypair(s: SealedKeyDataV)
    requires
        s.wf(),
    ensures
        spec_decode_response(spec_encode_response(SgxResponseV::KeyPair(s))) == Some(
            (
                SgxResponseV::KeyPair(s),
                spec_encode_response(SgxResponseV::KeyPair(s)).len() as int,
            ),
        ),
{
    let b = spec_encode_response(SgxResponseV::KeyPair(s));
    let enc = spec_encode_sealed(s);
    assert(b.subrange(0, 4) =~= le4(0));
    lemma_le4_roundtrip(0, b, 0);
    assert(b.subrange(4, 4 + enc.len() as int) =~= enc);
    lemma_sealed_roundtrip(s, b, 4);
}

#[verifier::rlimit(100)]
pub proof fn lemma_response_roundtrip(r: SgxResponseV)
    requires
        r.wf(),
    ensures
        spec_decode_response(spec_encode_response(r)) == Some(
            (r, spec_encode_response(r).len() as int),
        ),
{
    let b = spec_encode_response(r);
    match r {
        SgxResponseV::KeyPair(s) => {
            lemma_response_roundtrip_keypair(s);
        }
        SgxResponseV::PublicKey(pk) => {
            assert(b.subrange(0, 4) =~= le4(1));
            lemma_le4_roundtrip(1, b, 0);
            assert(b.subrange(4, 36) =~= pk);
        }
        SgxResponseV::Signed(sig) => {
            assert(b.subrange(0, 4) =~= le4(2));
            lemma_le4_roundtrip(2, b, 0);
            assert(b.subrange(4, 68) =~= sig);
        }
        SgxResponseV::Error(e) => {
            assert(b.subrange(0, 4) =~= le4(3));
            lemma_le4_roundtrip(3, b, 0);
            assert(b.subrange(4, 8) =~= le4(spec_error_code(e)));
            lemma_le4_roundtrip(spec_error_code(e), b, 4);
        }
    }
}

} // verus!
