//! The fault taxonomy: every operation of the kernel reports failure as one
//! of these kinds, never silently.

use vstd::prelude::*;

verus! {

/// Every way an operation of the kernel can fail. Each fault is returned to
/// the immediate caller as a typed result; none is recovered locally, and the
/// kernel stays usable for further operations after any of them.
#[derive(Clone, Copy, Debug, PartialEq, Eq, Structural)]
pub enum Fault {
    /// A buffer write would run past the buffer's fixed capacity.
    CapacityExceeded,
    /// A buffer read would run past the written length.
    OutOfRange,
    /// A state-gated field was touched while the record is Uninitialized.
    NotInitialized,
    /// `initialize` was called on a record that is not Uninitialized.
    AlreadyInitialized,
    /// A state-gated field was read while the record is Closed.
    UseAfterClose,
    /// `close` was called on a record that is already Closed.
    AlreadyClosed,
    /// `recover` was called on a record that is not Closed.
    NotClosed,
    /// A balance operation was attempted while the record is not Active.
    NotActive,
    /// The caller is not the required authority, or holds no verified
    /// proof of control over the identity it claims.
    MissingAuthorization,
    /// The recovery authority presented does not match the designated one,
    /// or an owner was chosen that collides with it.
    Unauthorized,
    /// A withdrawal asked for more than the balance holds.
    InsufficientFunds,
    /// A deposit would overflow the balance.
    ArithmeticOverflow,
    /// A close was attempted while funds remain in the vault.
    NonZeroBalance,
    /// The dispatcher received an unknown operation code or a payload that
    /// does not encode the operation's arguments.
    InvalidOperation,
}

} // verus!
