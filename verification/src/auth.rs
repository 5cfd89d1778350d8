//! The authorization gate: every mutating operation verifies the caller
//! against the required authority before touching record state.

use vstd::prelude::*;

use crate::fault::Fault;
use crate::identity::Caller;
use crate::identity::Identity;

verus! {

/// The caller is authorized as `required` exactly when it claims that
/// identity and the boundary attested its proof of control.
pub open spec fn signer_ok(caller: Caller, required: Identity) -> bool {
    caller.attested && caller.identity == required
}

/// Refuses the caller unless it is the required authority and its proof of
/// control was verified: an unattested claim is refused even when the
/// identity matches.
pub fn require_signer(caller: &Caller, required: Identity) -> (r: Result<(), Fault>)
    ensures
        r is Ok <==> signer_ok(*caller, required),
        r is Err ==> r == Err::<(), Fault>(Fault::MissingAuthorization),
{
    if caller.attested && caller.identity == required {
        Ok(())
    } else {
        Err(Fault::MissingAuthorization)
    }
}

} // verus!
