//! Custody of an Ed25519 signing key inside an isolated (SGX) execution
//! environment: the request/response protocol between the untrusted host and
//! the enclave-resident agent, the agent's key-lifecycle state machine, and
//! the sealing discipline that lets a key survive enclave restarts without
//! ever leaving hardware-rooted protection unencrypted.

use vstd::prelude::*;

pub mod agent;
pub mod codec;
pub mod crypto;
pub mod host;
pub mod hw;
pub mod protocol;
pub mod seal;

verus! {

} // verus!
