//! Bridge between the protocol's `KeyRequest` and the hardware key-request
//! structure that the enclave hands to the key-derivation instruction. The
//! protocol mirror exists because the hardware structure carries no
//! serialization; the only content of the conversion is the key-policy
//! validity check, which is stated and verified here.

use vstd::prelude::*;
use crate::protocol::{KeyRequest, KeyRequestV};

verus! {

#[verifier::external_type_specification]
#[verifier::external_body]
pub struct ExKeyrequest(sgx_isa::Keyrequest);

/// The key-policy bitmask holds only the two defined policy bits
/// (MRENCLAVE and MRSIGNER).
pub open spec fn keypolicy_valid(req: KeyRequestV) -> bool {
    req.keypolicy <= 3
}

impl KeyRequest {
    /// The hardware key-request these parameters describe, or `None` when
    /// the key-policy bitmask holds an undefined bit.
    pub fn to_hardware(&self) -> (r: Option<sgx_isa::Keyrequest>)
        requires
            self.wf(),
        ensures
            r is Some <==> keypolicy_valid(self@),
    {
        match self.to_hw_request() {
            Ok(kr) => Some(kr),
            Err(()) => None,
        }
    }

    /// Relies on sgx_isa::Keypolicy::from_bits: `Some` exactly when no bit
    /// outside MRENCLAVE | MRSIGNER (the low two) is set; the remaining
    /// fields are copied one for one, reserved fields defaulted.
    #[verifier::external_body]
    fn to_hw_request(&self) -> (r: Result<sgx_isa::Keyrequest, ()>)
        requires
            self.wf(),
        ensures
            r is Ok <==> self.keypolicy <= 3,
    {
        let keypolicy = sgx_isa::Keypolicy::from_bits(self.keypolicy).ok_or(())?;
        let mut cpusvn = [0u8; 16];
        cpusvn.copy_from_slice(self.cpusvn.as_slice());
        let mut keyid = [0u8; 32];
        keyid.copy_from_slice(self.keyid.as_slice());
        Ok(sgx_isa::Keyrequest {
            keyname: self.keyname, keypolicy, isvsvn: self.isvsvn, cpusvn,
            attributemask: [self.attributemask[0], self.attributemask[1]],
            keyid, miscmask: self.miscmask, ..Default::default()
        })
    }
}

} // verus!
