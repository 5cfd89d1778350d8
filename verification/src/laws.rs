//! The safety laws of the kernel, each proved over the same transition
//! specifications that the executable operations are verified against: the
//! bug classes the kernel exists to rule out — overflowing copies,
//! double close, uninitialized reads, unauthorized withdrawals, closing with
//! stranded funds, and undesignated recovery — cannot occur.

use vstd::prelude::*;

use crate::auth::signer_ok;
use crate::buffer::BufferModel;
use crate::buffer::spec_write;
use crate::fault::Fault;
use crate::identity::Caller;
use crate::lifecycle::RecordState;
use crate::lifecycle::spec_close;
use crate::record::RecordModel;
use crate::record::spec_balance;
use crate::record::spec_read_payload;
use crate::vault::VaultModel;
use crate::vault::spec_close_vault;
use crate::vault::spec_recover_vault;
use crate::vault::spec_withdraw;

verus! {

/// A write that would run past the capacity is refused whole: the fault is
/// CapacityExceeded and the buffer — its length included — is unchanged. No
/// partial copy ever executes.
pub proof fn law_oversized_write_rejected(b: BufferModel, offset: nat, data: Seq<u8>)
    requires
        offset + data.len() > b.capacity,
    ensures
        spec_write(b, offset, data) == (b, Err::<(), Fault>(Fault::CapacityExceeded)),
{
}

/// A close followed immediately by a second close reports AlreadyClosed on
/// the second call and leaves the state alone: the double-free class is a
/// reported fault, never a repeated mutation.
pub proof fn law_double_close(s: RecordState)
    requires
        spec_close(s).1 is Ok,
    ensures
        spec_close(spec_close(s).0) == (spec_close(s).0, Err::<(), Fault>(Fault::AlreadyClosed)),
{
}

/// The same at the vault level: once a close of the vault has succeeded, an
/// immediate second close by the same caller reports AlreadyClosed and
/// changes nothing.
pub proof fn law_double_close_vault(v: VaultModel, caller: Caller)
    requires
        spec_close_vault(v, caller).1 is Ok,
    ensures
        spec_close_vault(spec_close_vault(v, caller).0, caller) == (
            spec_close_vault(v, caller).0,
            Err::<(), Fault>(Fault::AlreadyClosed),
        ),
{
}

/// On an uninitialized record, every balance or payload read reports
/// NotInitialized: no default or leftover value ever escapes.
pub proof fn law_uninitialized_reads_refused(r: RecordModel, offset: nat, count: nat)
    requires
        r.state is Uninitialized,
    ensures
        spec_balance(r) == Err::<u64, Fault>(Fault::NotInitialized),
        spec_read_payload(r, offset, count) == Err::<Seq<u8>, Fault>(Fault::NotInitialized),
{
}

/// A withdrawal whose caller is not the owner, or whose proof of control
/// was not verified, reports MissingAuthorization and moves no funds: the
/// missing-signer-check class is closed.
pub proof fn law_unauthorized_withdraw_moves_nothing(v: VaultModel, caller: Caller, amount: u64)
    requires
        !signer_ok(caller, v.record.owner),
    ensures
        spec_withdraw(v, caller, amount) == (v, Err::<(), Fault>(Fault::MissingAuthorization)),
{
}

/// Closing a vault that still holds funds is refused with NonZeroBalance and
/// changes nothing — in particular an Active vault stays Active, and the
/// funds cannot be stranded behind a closed record.
pub proof fn law_close_with_funds_rejected(v: VaultModel, caller: Caller)
    requires
        signer_ok(caller, v.record.owner),
        v.record.balance != 0,
    ensures
        spec_close_vault(v, caller) == (v, Err::<(), Fault>(Fault::NonZeroBalance)),
{
}

/// Recovery of a vault that is Active reports NotClosed and is a no-op on
/// the state, even for the attested, designated recovery authority: recovery
/// exists only as a path out of the Closed state.
pub proof fn law_recover_active_is_noop(v: VaultModel, caller: Caller)
    requires
        caller.attested,
        caller.identity == v.recovery_authority,
        v.record.state is Active,
    ensures
        spec_recover_vault(v, caller) == (v, Err::<(), Fault>(Fault::NotClosed)),
{
}

} // verus!
