//! The enclave-resident key-custody agent: a two-state lifecycle machine
//! (`Empty`, holding no key, and `Keyed`, holding exactly one) that services
//! one request at a time. `handle_request` is the transition table;
//! `handle_message` wraps it in the wire codec, silently skipping malformed
//! input so a garbled message cannot desynchronize later exchanges.

use vstd::prelude::*;
use crate::crypto::{
    aead_opened, ed25519_signature_of, ed25519_verifies, keypair_generate, Keypair, KeypairV,
};
use crate::codec::{
    decode_request, encode_response, spec_decode_request, spec_encode_response,
};
use crate::protocol::{
    copy_bytes, KeyRequest, KeyRequestV, SealedKeyDataV, SgxRequest, SgxRequestV, SgxResponse,
    SgxResponseError, SgxResponseV,
};
use crate::seal::{seal, seal_post, unseal, unseal_accepts};

verus! {

/// The agent's whole volatile state: the enclave's key-derivation
/// parameters, the hardware-derived sealing key handed in at start-up, and
/// the at-most-one keypair it holds.
pub struct EnclaveAgent {
    pub identity: KeyRequest,
    pub seal_key: Vec<u8>,
    pub key: Option<Keypair>,
}

/// Mathematical model of the agent's state.
#[verifier::ext_equal]
pub ghost struct AgentV {
    pub identity: KeyRequestV,
    pub seal_key: Seq<u8>,
    pub key: Option<KeypairV>,
}

impl View for EnclaveAgent {
    type V = AgentV;

    open spec fn view(&self) -> AgentV {
        AgentV {
            identity: self.identity@,
            seal_key: self.seal_key@,
            key: match self.key {
                Some(kp) => Some(kp@),
                None => None,
            },
        }
    }
}

impl AgentV {
    pub open spec fn wf(self) -> bool {
        &&& self.identity.wf()
        &&& self.seal_key.len() == 16
        &&& self.key matches Some(kp) ==> kp.wf()
    }
}

/// What the agent does with one decoded request: answer, or halt on
/// `Shutdown` (after which the connection closes and nothing is written).
pub enum AgentStep {
    Reply(SgxResponse),
    Halt,
}

/// What the agent does with one raw message: answer, stay silent on a
/// malformed one, or halt.
pub enum MessageOutcome {
    Reply(Vec<u8>),
    Silent,
    Halt,
}

/// The transition table of the key-lifecycle state machine: relates the
/// prior state, the request, the next state, and the reply (`None` exactly
/// for `Shutdown`). The only nondeterminism is the fresh key material and
/// nonce drawn during `KeyGen`.
pub open spec fn transition(
    pre: AgentV,
    req: SgxRequestV,
    post: AgentV,
    out: Option<SgxResponseV>,
) -> bool {
    &&& post.identity == pre.identity
    &&& post.seal_key == pre.seal_key
    &&& match req {
        SgxRequestV::KeyGen => {
            if pre.key is Some {
                post == pre && out == Some(
                    SgxResponseV::Error(SgxResponseError::KeyAlreadySet),
                )
            } else {
                &&& out matches Some(SgxResponseV::KeyPair(sealed))
                &&& post.key matches Some(kp)
                &&& kp.wf()
                &&& seal_post(pre.identity, pre.seal_key, kp, sealed)
            }
        },
        SgxRequestV::GetPublicKey => {
            &&& post == pre
            &&& match pre.key {
                Some(kp) => out == Some(SgxResponseV::PublicKey(kp.public)),
                None => out == Some(SgxResponseV::Error(SgxResponseError::KeyNotSet)),
            }
        },
        SgxRequestV::Import(sealed) => {
            if pre.key is Some {
                post == pre && out == Some(
                    SgxResponseV::Error(SgxResponseError::KeyAlreadySet),
                )
            } else if unseal_accepts(pre.identity, pre.seal_key, sealed) {
                &&& post.key matches Some(kp)
                &&& kp.wf()
                &&& Some(kp.seed) == aead_opened(pre.seal_key, sealed.nonce, sealed.sealed_secret)
                &&& kp.public == sealed.seal_key_request.keyid
                &&& out == Some(SgxResponseV::PublicKey(kp.public))
            } else {
                post == pre && out == Some(SgxResponseV::Error(SgxResponseError::UnsealFailed))
            }
        },
        SgxRequestV::Sign(msg) => {
            &&& post == pre
            &&& match pre.key {
                Some(kp) => {
                    &&& out == Some(SgxResponseV::Signed(ed25519_signature_of(kp.seed, msg)))
                    &&& ed25519_verifies(kp.public, msg, ed25519_signature_of(kp.seed, msg))
                },
                None => out == Some(SgxResponseV::Error(SgxResponseError::KeyNotSet)),
            }
        },
        SgxRequestV::Shutdown => post == pre && out is None,
    }
}

impl EnclaveAgent {
    pub open spec fn wf(&self) -> bool {
        self@.wf()
    }

    /// A fresh agent in the `Empty` state, given the enclave's own
    /// key-derivation parameters and its hardware-derived sealing key.
    pub fn new(identity: KeyRequest, seal_key: Vec<u8>) -> (r: EnclaveAgent)
        requires
            identity.wf(),
            seal_key@.len() == 16,
        ensures
            r.wf(),
            r@.identity == identity@,
            r@.seal_key == seal_key@,
            r@.key is None,
    {
        EnclaveAgent { identity, seal_key, key: None }
    }

    /// Service one decoded request according to the transition table.
    pub fn handle_request(&mut self, req: &SgxRequest) -> (r: AgentStep)
        requires
            old(self).wf(),
            req.wf(),
        ensures
            final(self).wf(),
            r matches AgentStep::Reply(resp) ==> resp.wf() && transition(
                old(self)@,
                req@,
                final(self)@,
                Some(resp@),
            ),
            r is Halt ==> transition(old(self)@, req@, final(self)@, None),
    {
        match req {
            SgxRequest::KeyGen => {
                if self.key.is_some() {
                    AgentStep::Reply(SgxResponse::Error(SgxResponseError::KeyAlreadySet))
                } else {
                    let kp = keypair_generate();
                    let sealed = seal(&self.identity, &self.seal_key, &kp);
                    self.key = Some(kp);
                    AgentStep::Reply(SgxResponse::KeyPair(sealed))
                }
            },
            SgxRequest::GetPublicKey => {
                match &self.key {
                    Some(kp) => AgentStep::Reply(SgxResponse::PublicKey(copy_bytes(&kp.public))),
                    None => AgentStep::Reply(SgxResponse::Error(SgxResponseError::KeyNotSet)),
                }
            },
            SgxRequest::Import(sealed) => {
                if self.key.is_some() {
                    AgentStep::Reply(SgxResponse::Error(SgxResponseError::KeyAlreadySet))
                } else {
                    match unseal(&self.identity, &self.seal_key, sealed) {
                        Some(kp) => {
                            let pk = copy_bytes(&kp.public);
                            self.key = Some(kp);
                            AgentStep::Reply(SgxResponse::PublicKey(pk))
                        },
                        None => AgentStep::Reply(
                            SgxResponse::Error(SgxResponseError::UnsealFailed),
                        ),
                    }
                }
            },
            SgxRequest::Sign(msg) => {
                match &self.key {
                    Some(kp) => AgentStep::Reply(SgxResponse::Signed(kp.sign(msg))),
                    None => AgentStep::Reply(SgxResponse::Error(SgxResponseError::KeyNotSet)),
                }
            },
            SgxRequest::Shutdown => AgentStep::Halt,
        }
    }

    /// Service one raw wire message. A message that does not decode exactly
    /// to one request is ignored: no response, no state change, and the loop
    /// goes on, so one garbled message cannot desynchronize later valid
    /// exchanges.
    pub fn handle_message(&mut self, bytes: &Vec<u8>) -> (r: MessageOutcome)
        requires
            old(self).wf(),
        ensures
            final(self).wf(),
            (match spec_decode_request(bytes@) {
                Some((req, used)) => used == bytes@.len(),
                None => false,
            }) ==> {
                let req = spec_decode_request(bytes@)->Some_0.0;
                &&& req is Shutdown ==> r is Halt && transition(old(self)@, req, final(self)@, None)
                &&& !(req is Shutdown) ==> (r matches MessageOutcome::Reply(out)
                    && exists|resp: SgxResponseV|
                    {
                        &&& #[trigger] transition(old(self)@, req, final(self)@, Some(resp))
                        &&& resp.wf()
                        &&& out@ == spec_encode_response(resp)
                    })
            },
            !(match spec_decode_request(bytes@) {
                Some((req, used)) => used == bytes@.len(),
                None => false,
            }) ==> r is Silent && final(self)@ == old(self)@,
    {
        let decoded = decode_request(bytes);
        let (req, used) = match decoded {
            Some(p) => p,
            None => {
                return MessageOutcome::Silent;
            },
        };
        if used != bytes.len() {
            return MessageOutcome::Silent;
        }
        match self.handle_request(&req) {
            AgentStep::Reply(resp) => MessageOutcome::Reply(encode_response(&resp)),
            AgentStep::Halt => MessageOutcome::Halt,
        }
    }
}

/// Law: `GetPublicKey` answered in the `Keyed` state returns the held public
/// key and leaves the state untouched, so two issuances return identical
/// bytes.
pub proof fn lemma_get_public_key_stable(
    pre: AgentV,
    post1: AgentV,
    out1: Option<SgxResponseV>,
    post2: AgentV,
    out2: Option<SgxResponseV>,
)
    requires
        pre.key is Some,
        transition(pre, SgxRequestV::GetPublicKey, post1, out1),
        transition(post1, SgxRequestV::GetPublicKey, post2, out2),
    ensures
        post1 == pre,
        post2 == pre,
        out1 == Some(SgxResponseV::PublicKey(pre.key->Some_0.public)),
        out2 == out1,
{
}

/// Law: a second `KeyGen` without an intervening restart is refused with
/// `KeyAlreadySet` and leaves the held key intact, so a later `Sign` still
/// signs with the original key.
pub proof fn lemma_second_keygen_keeps_key(
    pre: AgentV,
    post1: AgentV,
    out1: Option<SgxResponseV>,
    msg: Seq<u8>,
    post2: AgentV,
    out2: Option<SgxResponseV>,
)
    requires
        pre.key is Some,
        transition(pre, SgxRequestV::KeyGen, post1, out1),
        transition(post1, SgxRequestV::Sign(msg), post2, out2),
    ensures
        post1 == pre,
        out1 == Some(SgxResponseV::Error(SgxResponseError::KeyAlreadySet)),
        post2 == pre,
        out2 == Some(SgxResponseV::Signed(ed25519_signature_of(pre.key->Some_0.seed, msg))),
{
}

/// Law: an `Import` the sealing discipline rejects is answered with
/// `UnsealFailed` and adopts nothing — the agent stays empty, so a
/// following `GetPublicKey` still answers `KeyNotSet`.
pub proof fn lemma_rejected_import_adopts_nothing(
    pre: AgentV,
    sealed: SealedKeyDataV,
    post1: AgentV,
    out1: Option<SgxResponseV>,
    post2: AgentV,
    out2: Option<SgxResponseV>,
)
    requires
        pre.key is None,
        !unseal_accepts(pre.identity, pre.seal_key, sealed),
        transition(pre, SgxRequestV::Import(sealed), post1, out1),
        transition(post1, SgxRequestV::GetPublicKey, post2, out2),
    ensures
        post1 == pre,
        out1 == Some(SgxResponseV::Error(SgxResponseError::UnsealFailed)),
        post2 == pre,
        out2 == Some(SgxResponseV::Error(SgxResponseError::KeyNotSet)),
{
}

/// Law: `Sign` and `GetPublicKey` issued in the `Empty` state both return
/// `KeyNotSet` and leave the agent empty.
pub proof fn lemma_empty_state_refuses(
    pre: AgentV,
    msg: Seq<u8>,
    post1: AgentV,
    out1: Option<SgxResponseV>,
    post2: AgentV,
    out2: Option<SgxResponseV>,
)
    requires
        pre.key is None,
        transition(pre, SgxRequestV::Sign(msg), post1, out1),
        transition(pre, SgxRequestV::GetPublicKey, post2, out2),
    ensures
        post1 == pre,
        post2 == pre,
        out1 == Some(SgxResponseV::Error(SgxResponseError::KeyNotSet)),
        out2 == Some(SgxResponseV::Error(SgxResponseError::KeyNotSet)),
{
}

} // verus!
