//! Shared message vocabulary of the host/enclave protocol: request and
//! response sum types, the sealed-key record layout, and the hardware
//! key-derivation parameters. Both endpoints must agree on these bit-for-bit;
//! the wire form is defined in `codec`.

use vstd::prelude::*;

verus! {

/// Length in bytes of an Ed25519 public key.
pub const PUBLIC_KEY_LEN: usize = 32;
/// Length in bytes of an Ed25519 signature.
pub const SIGNATURE_LEN: usize = 64;
/// Length in bytes of the AEAD nonce used when sealing a key.
pub const NONCE_LEN: usize = 12;
/// Length in bytes of the CPU security-version snapshot.
pub const CPUSVN_LEN: usize = 16;
/// Number of words in the attribute mask.
pub const ATTRIBUTEMASK_WORDS: usize = 2;

/// Errors reported by the enclave agent, plus the host-side catch-all
/// `Unexpected` for transport or decoding anomalies.
#[derive(Clone, Copy, Debug, PartialEq, Eq, Structural)]
pub enum SgxResponseError {
    /// `KeyGen` or `Import` was issued while the agent already holds a key.
    KeyAlreadySet,
    /// `Sign` or `GetPublicKey` was issued before `KeyGen` or `Import`.
    KeyNotSet,
    /// Sealing the freshly generated keypair failed. Part of the wire
    /// vocabulary both endpoints agree on; this agent's sealing is total on
    /// a 32-byte secret, so it is proved never to report it.
    SealFailed,
    /// Unsealing the presented sealed record failed.
    UnsealFailed,
    /// Wrong or malformed response, or a transport problem (host side only).
    Unexpected,
}

/// Hardware key-derivation parameters, mirroring the fields of the hardware
/// key-request structure that matter for sealing. The `keyid` field doubles
/// as the binding tag: at seal time it holds the public key of the sealed
/// keypair.
#[derive(Clone, Debug)]
pub struct KeyRequest {
    pub keyname: u16,
    pub keypolicy: u16,
    pub isvsvn: u16,
    pub cpusvn: Vec<u8>,
    pub attributemask: Vec<u64>,
    pub keyid: Vec<u8>,
    pub miscmask: u32,
}

/// Mathematical model of a `KeyRequest`.
#[verifier::ext_equal]
pub ghost struct KeyRequestV {
    pub keyname: u16,
    pub keypolicy: u16,
    pub isvsvn: u16,
    pub cpusvn: Seq<u8>,
    pub attributemask: Seq<u64>,
    pub keyid: Seq<u8>,
    pub miscmask: u32,
}

impl View for KeyRequest {
    type V = KeyRequestV;

    open spec fn view(&self) -> KeyRequestV {
        KeyRequestV {
            keyname: self.keyname,
            keypolicy: self.keypolicy,
            isvsvn: self.isvsvn,
            cpusvn: self.cpusvn@,
            attributemask: self.attributemask@,
            keyid: self.keyid@,
            miscmask: self.miscmask,
        }
    }
}

impl KeyRequestV {
    /// Well-formedness: every variable-length field has its fixed wire size.
    pub open spec fn wf(self) -> bool {
        &&& self.cpusvn.len() == CPUSVN_LEN
        &&& self.attributemask.len() == ATTRIBUTEMASK_WORDS
        &&& self.keyid.len() == PUBLIC_KEY_LEN
    }
}

impl KeyRequest {
    pub open spec fn wf(&self) -> bool {
        self@.wf()
    }
}

/// Persisted artifact returned from `KeyGen` and replayed via `Import`:
/// the key-derivation parameters the sealing key was produced from, the AEAD
/// nonce, and the authenticated ciphertext of the secret key. Meaningful only
/// to an enclave with matching hardware identity; any bit flip must make
/// unsealing fail.
#[derive(Clone, Debug)]
pub struct SealedKeyData {
    pub seal_key_request: KeyRequest,
    pub nonce: Vec<u8>,
    pub sealed_secret: Vec<u8>,
}

/// Mathematical model of a `SealedKeyData`.
#[verifier::ext_equal]
pub ghost struct SealedKeyDataV {
    pub seal_key_request: KeyRequestV,
    pub nonce: Seq<u8>,
    pub sealed_secret: Seq<u8>,
}

impl View for SealedKeyData {
    type V = SealedKeyDataV;

    open spec fn view(&self) -> SealedKeyDataV {
        SealedKeyDataV {
            seal_key_request: self.seal_key_request@,
            nonce: self.nonce@,
            sealed_secret: self.sealed_secret@,
        }
    }
}

impl SealedKeyDataV {
    pub open spec fn wf(self) -> bool {
        &&& self.seal_key_request.wf()
        &&& self.nonce.len() == NONCE_LEN
        &&& self.sealed_secret.len() < 0x100000000
    }
}

impl SealedKeyData {
    pub open spec fn wf(&self) -> bool {
        self@.wf()
    }
}

/// Request sent by the host to the enclave agent.
#[derive(Clone, Debug)]
pub enum SgxRequest {
    /// Generate a new keypair, seal it, and return the sealed record.
    KeyGen,
    /// Return the public key of the held keypair.
    GetPublicKey,
    /// Import a previously persisted sealed keypair.
    Import(SealedKeyData),
    /// Sign a message with the held keypair.
    Sign(Vec<u8>),
    /// Gracefully shut down the enclave agent.
    Shutdown,
}

/// Mathematical model of an `SgxRequest`.
#[verifier::ext_equal]
pub ghost enum SgxRequestV {
    KeyGen,
    GetPublicKey,
    Import(SealedKeyDataV),
    Sign(Seq<u8>),
    Shutdown,
}

impl View for SgxRequest {
    type V = SgxRequestV;

    open spec fn view(&self) -> SgxRequestV {
        match self {
            SgxRequest::KeyGen => SgxRequestV::KeyGen,
            SgxRequest::GetPublicKey => SgxRequestV::GetPublicKey,
            SgxRequest::Import(sealed) => SgxRequestV::Import(sealed@),
            SgxRequest::Sign(msg) => SgxRequestV::Sign(msg@),
            SgxRequest::Shutdown => SgxRequestV::Shutdown,
        }
    }
}

impl SgxRequestV {
    pub open spec fn wf(self) -> bool {
        match self {
            SgxRequestV::Import(sealed) => sealed.wf(),
            SgxRequestV::Sign(msg) => msg.len() < 0x100000000,
            _ => true,
        }
    }
}

impl SgxRequest {
    pub open spec fn wf(&self) -> bool {
        self@.wf()
    }
}

/// Response sent by the enclave agent to the host.
#[derive(Clone, Debug)]
pub enum SgxResponse {
    /// Freshly generated, sealed keypair.
    KeyPair(SealedKeyData),
    /// Ed25519 public key of the held keypair.
    PublicKey(Vec<u8>),
    /// Ed25519 signature over the requested message.
    Signed(Vec<u8>),
    /// Something went wrong.
    Error(SgxResponseError),
}

/// Mathematical model of an `SgxResponse`.
#[verifier::ext_equal]
pub ghost enum SgxResponseV {
    KeyPair(SealedKeyDataV),
    PublicKey(Seq<u8>),
    Signed(Seq<u8>),
    Error(SgxResponseError),
}

impl View for SgxResponse {
    type V = SgxResponseV;

    open spec fn view(&self) -> SgxResponseV {
        match self {
            SgxResponse::KeyPair(sealed) => SgxResponseV::KeyPair(sealed@),
            SgxResponse::PublicKey(pk) => SgxResponseV::PublicKey(pk@),
            SgxResponse::Signed(sig) => SgxResponseV::Signed(sig@),
            SgxResponse::Error(e) => SgxResponseV::Error(*e),
        }
    }
}

impl SgxResponseV {
    pub open spec fn wf(self) -> bool {
        match self {
            SgxResponseV::KeyPair(sealed) => sealed.wf(),
            SgxResponseV::PublicKey(pk) => pk.len() == PUBLIC_KEY_LEN,
            SgxResponseV::Signed(sig) => sig.len() == SIGNATURE_LEN,
            SgxResponseV::Error(_) => true,
        }
    }
}

impl SgxResponse {
    pub open spec fn wf(&self) -> bool {
        self@.wf()
    }
}

/// Copy a byte vector; the derived `Clone` carries no contract, this does.
pub fn copy_bytes(v: &Vec<u8>) -> (r: Vec<u8>)
    ensures
        r@ == v@,
{
    let mut out: Vec<u8> = Vec::new();
    let mut j: usize = 0;
    while j < v.len()
        invariant
            j <= v@.len(),
            out@ == v@.subrange(0, j as int),
        decreases v@.len() - j,
    {
        out.push(v[j]);
        j = j + 1;
    }
    proof {
        assert(out@ =~= v@);
    }
    out
}

/// Copy a word vector, with the same contract as `copy_bytes`.
pub fn copy_words(v: &Vec<u64>) -> (r: Vec<u64>)
    ensures
        r@ == v@,
{
    let mut out: Vec<u64> = Vec::new();
    let mut j: usize = 0;
    while j < v.len()
        invariant
            j <= v@.len(),
            out@ == v@.subrange(0, j as int),
        decreases v@.len() - j,
    {
        out.push(v[j]);
        j = j + 1;
    }
    proof {
        assert(out@ =~= v@);
    }
    out
}

/// Compare two byte vectors for equality of their contents.
pub fn bytes_eq(a: &Vec<u8>, b: &Vec<u8>) -> (r: bool)
    ensures
        r == (a@ == b@),
{
    if a.len() != b.len() {
        proof {
            assert(a@ != b@);
        }
        return false;
    }
    let mut j: usize = 0;
    while j < a.len()
        invariant
            j <= a@.len(),
            a@.len() == b@.len(),
            forall|k: int| 0 <= k < j ==> a@[k] == b@[k],
        decreases a@.len() - j,
    {
        if a[j] != b[j] {
            proof {
                assert(a@ != b@);
            }
            return false;
        }
        j = j + 1;
    }
    proof {
        assert(a@ =~= b@);
    }
    true
}

/// Compare two word vectors for equality of their contents.
pub fn words_eq(a: &Vec<u64>, b: &Vec<u64>) -> (r: bool)
    ensures
        r == (a@ == b@),
{
    if a.len() != b.len() {
        proof {
            assert(a@ != b@);
        }
        return false;
    }
    let mut j: usize = 0;
    while j < a.len()
        invariant
            j <= a@.len(),
            a@.len() == b@.len(),
            forall|k: int| 0 <= k < j ==> a@[k] == b@[k],
        decreases a@.len() - j,
    {
        if a[j] != b[j] {
            proof {
                assert(a@ != b@);
            }
            return false;
        }
        j = j + 1;
    }
    proof {
        assert(a@ =~= b@);
    }
    true
}

} // verus!
