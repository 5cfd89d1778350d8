//! Caller identities and the attested claims the boundary layer hands in.

use vstd::prelude::*;

verus! {

/// An opaque caller credential (a public-key equivalent). The kernel only
/// ever compares identities for equality; it never looks inside one.
#[derive(Clone, Copy, Debug, PartialEq, Eq, Structural)]
pub struct Identity {
    pub key: u64,
}

/// A caller as presented by the invocation boundary: a claimed identity
/// together with whether the boundary's identity-verification service
/// confirmed cryptographic proof of control at invocation time.
///
/// The presence of an identity value alone authorizes nothing: every
/// authorization check also demands `attested`, so a claim that merely
/// matches a stored field is still refused.
#[derive(Clone, Copy, Debug, PartialEq, Eq, Structural)]
pub struct Caller {
    pub identity: Identity,
    pub attested: bool,
}

} // verus!
