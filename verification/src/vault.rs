//! The vault ledger: an account holding a balance, an owner, and a payload
//! buffer, exposed through deposit / withdraw / close / recover operations.
//! Every mutating operation passes the authorization gate before it touches
//! record state, and the lifecycle guards every transition.

use vstd::prelude::*;

use crate::auth::require_signer;
use crate::auth::signer_ok;
use crate::buffer::spec_write;
use crate::fault::Fault;
use crate::identity::Caller;
use crate::identity::Identity;
use crate::lifecycle;
use crate::lifecycle::RecordState;
use crate::lifecycle::spec_close;
use crate::lifecycle::spec_initialize;
use crate::lifecycle::spec_recover;
use crate::record::Record;
use crate::record::RecordModel;
use crate::record::spec_balance;
use crate::record::spec_read_payload;

verus! {

/// The mathematical view of a vault: its record and the designated recovery
/// authority supplied at construction.
#[verifier::ext_equal]
pub struct VaultModel {
    pub record: RecordModel,
    pub recovery_authority: Identity,
}

impl VaultModel {
    /// Well-formedness: the record is well formed, and once initialized its
    /// owner is distinct from the recovery authority, so an owner can never
    /// recover its own closed vault.
    pub open spec fn wf(self) -> bool {
        &&& self.record.wf()
        &&& self.record.state !is Uninitialized ==> self.record.owner != self.recovery_authority
    }
}

/// What `initialize_vault` does: an unattested caller is refused; a caller
/// that collides with the recovery authority is refused, keeping the two
/// roles distinct; otherwise the lifecycle moves Uninitialized to Active and
/// the caller becomes the owner of an empty vault.
pub open spec fn spec_initialize_vault(v: VaultModel, caller: Caller) -> (VaultModel, Result<
    (),
    Fault,
>) {
    if !caller.attested {
        (v, Err(Fault::MissingAuthorization))
    } else if caller.identity == v.recovery_authority {
        (v, Err(Fault::Unauthorized))
    } else {
        let (s, r) = spec_initialize(v.record.state);
        if r is Err {
            (v, r)
        } else {
            (
                VaultModel {
                    record: RecordModel {
                        state: s,
                        owner: caller.identity,
                        balance: 0,
                        ..v.record
                    },
                    ..v
                },
                r,
            )
        }
    }
}

/// What `deposit` does: authorization, then the lifecycle state, then a
/// checked addition — an overflow is reported, never wrapped silently.
pub open spec fn spec_deposit(v: VaultModel, caller: Caller, amount: u64) -> (VaultModel, Result<
    (),
    Fault,
>) {
    if !signer_ok(caller, v.record.owner) {
        (v, Err(Fault::MissingAuthorization))
    } else if v.record.state !is Active {
        (v, Err(Fault::NotActive))
    } else if v.record.balance + amount > u64::MAX {
        (v, Err(Fault::ArithmeticOverflow))
    } else {
        (
            VaultModel {
                record: RecordModel {
                    balance: (v.record.balance + amount) as u64,
                    ..v.record
                },
                ..v
            },
            Ok(()),
        )
    }
}

/// What `withdraw` does: authorization, then the lifecycle state, then
/// the funds check — asking for more than the balance is refused and moves
/// nothing.
pub open spec fn spec_withdraw(v: VaultModel, caller: Caller, amount: u64) -> (VaultModel, Result<
    (),
    Fault,
>) {
    if !signer_ok(caller, v.record.owner) {
        (v, Err(Fault::MissingAuthorization))
    } else if v.record.state !is Active {
        (v, Err(Fault::NotActive))
    } else if amount > v.record.balance {
        (v, Err(Fault::InsufficientFunds))
    } else {
        (
            VaultModel {
                record: RecordModel {
                    balance: (v.record.balance - amount) as u64,
                    ..v.record
                },
                ..v
            },
            Ok(()),
        )
    }
}

/// What `close_vault` does: authorization, then a zero-balance demand that
/// forces a full withdrawal before closing, then the lifecycle close.
pub open spec fn spec_close_vault(v: VaultModel, caller: Caller) -> (VaultModel, Result<
    (),
    Fault,
>) {
    if !signer_ok(caller, v.record.owner) {
        (v, Err(Fault::MissingAuthorization))
    } else if v.record.balance != 0 {
        (v, Err(Fault::NonZeroBalance))
    } else {
        let (s, r) = spec_close(v.record.state);
        (VaultModel { record: RecordModel { state: s, ..v.record }, ..v }, r)
    }
}

/// What `recover_vault` does: an unattested caller is refused, then the
/// lifecycle recovery checks the designated authority and that the record is
/// Closed.
pub open spec fn spec_recover_vault(v: VaultModel, caller: Caller) -> (VaultModel, Result<
    (),
    Fault,
>) {
    if !caller.attested {
        (v, Err(Fault::MissingAuthorization))
    } else {
        let (s, r) = spec_recover(v.record.state, caller.identity, v.recovery_authority);
        (VaultModel { record: RecordModel { state: s, ..v.record }, ..v }, r)
    }
}

/// What `write_payload` does: authorization, then the lifecycle state,
/// then the buffer's all-or-nothing checked write.
pub open spec fn spec_write_payload(
    v: VaultModel,
    caller: Caller,
    offset: nat,
    data: Seq<u8>,
) -> (VaultModel, Result<(), Fault>) {
    if !signer_ok(caller, v.record.owner) {
        (v, Err(Fault::MissingAuthorization))
    } else if v.record.state !is Active {
        (v, Err(Fault::NotActive))
    } else {
        let (b, r) = spec_write(v.record.payload, offset, data);
        (VaultModel { record: RecordModel { payload: b, ..v.record }, ..v }, r)
    }
}

/// A vault: one record plus the externally supplied recovery authority. All
/// state lives in the value itself; the kernel holds no process-wide state.
pub struct VaultLedger {
    record: Record,
    recovery_authority: Identity,
}

impl View for VaultLedger {
    type V = VaultModel;

    closed spec fn view(&self) -> VaultModel {
        VaultModel { record: self.record@, recovery_authority: self.recovery_authority }
    }
}

impl VaultLedger {
    /// A fresh vault as the storage provider allocates it: an Uninitialized
    /// record of the given payload capacity, and the designated recovery
    /// authority — configuration passed in at construction, never a
    /// compiled-in constant.
    pub fn new(recovery_authority: Identity, capacity: usize) -> (v: VaultLedger)
        ensures
            v@.wf(),
            v@.recovery_authority == recovery_authority,
            v@.record.state is Uninitialized,
            v@.record.balance == 0,
            v@.record.payload.capacity == capacity,
            v@.record.payload.length == 0,
            v@.record.payload.bytes == Seq::new(capacity as nat, |i: int| 0u8),
    {
        VaultLedger { record: Record::new(capacity), recovery_authority }
    }

    /// Initializes the vault for the attested caller: the record becomes
    /// Active with the caller as owner and a zero balance. Valid only once;
    /// a second call reports AlreadyInitialized.
    pub fn initialize_vault(&mut self, caller: &Caller) -> (r: Result<(), Fault>)
        requires
            old(self)@.wf(),
        ensures
            final(self)@.wf(),
            (final(self)@, r) == spec_initialize_vault(old(self)@, *caller),
    {
        if !caller.attested {
            return Err(Fault::MissingAuthorization);
        }
        if caller.identity == self.recovery_authority {
            return Err(Fault::Unauthorized);
        }
        let r = lifecycle::initialize(&mut self.record.state);
        if let Err(f) = r {
            proof {
                assert(self@ =~= old(self)@);
            }
            return Err(f);
        }
        self.record.owner = caller.identity;
        self.record.balance = 0;
        proof {
            assert(self@ =~= spec_initialize_vault(old(self)@, *caller).0);
        }
        Ok(())
    }

    /// Adds funds for the attested owner. The addition is checked: an
    /// overflow reports ArithmeticOverflow and changes nothing.
    pub fn deposit(&mut self, caller: &Caller, amount: u64) -> (r: Result<(), Fault>)
        requires
            old(self)@.wf(),
        ensures
            final(self)@.wf(),
            (final(self)@, r) == spec_deposit(old(self)@, *caller, amount),
    {
        let gate = require_signer(caller, self.record.owner);
        if let Err(f) = gate {
            return Err(f);
        }
        if self.record.state != RecordState::Active {
            return Err(Fault::NotActive);
        }
        if amount > u64::MAX - self.record.balance {
            return Err(Fault::ArithmeticOverflow);
        }
        self.record.balance = self.record.balance + amount;
        proof {
            assert(self@ =~= spec_deposit(old(self)@, *caller, amount).0);
        }
        Ok(())
    }

    /// Removes funds for the attested owner. Asking for more than the
    /// balance holds reports InsufficientFunds and moves nothing.
    pub fn withdraw(&mut self, caller: &Caller, amount: u64) -> (r: Result<(), Fault>)
        requires
            old(self)@.wf(),
        ensures
            final(self)@.wf(),
            (final(self)@, r) == spec_withdraw(old(self)@, *caller, amount),
    {
        let gate = require_signer(caller, self.record.owner);
        if let Err(f) = gate {
            return Err(f);
        }
        if self.record.state != RecordState::Active {
            return Err(Fault::NotActive);
        }
        if amount > self.record.balance {
            return Err(Fault::InsufficientFunds);
        }
        self.record.balance = self.record.balance - amount;
        proof {
            assert(self@ =~= spec_withdraw(old(self)@, *caller, amount).0);
        }
        Ok(())
    }

    /// Closes the vault for the attested owner. Funds must be withdrawn in
    /// full first: a nonzero balance reports NonZeroBalance and the vault
    /// stays as it was, so closing can never strand funds.
    pub fn close_vault(&mut self, caller: &Caller) -> (r: Result<(), Fault>)
        requires
            old(self)@.wf(),
        ensures
            final(self)@.wf(),
            (final(self)@, r) == spec_close_vault(old(self)@, *caller),
    {
        let gate = require_signer(caller, self.record.owner);
        if let Err(f) = gate {
            return Err(f);
        }
        if self.record.balance != 0 {
            return Err(Fault::NonZeroBalance);
        }
        let r = lifecycle::close(&mut self.record.state);
        proof {
            assert(self@ =~= spec_close_vault(old(self)@, *caller).0);
        }
        r
    }

    /// Reactivates a Closed vault, but only for the attested, designated
    /// recovery authority — an explicit path, distinct from the owner, out
    /// of the closed state.
    pub fn recover_vault(&mut self, caller: &Caller) -> (r: Result<(), Fault>)
        requires
            old(self)@.wf(),
        ensures
            final(self)@.wf(),
            (final(self)@, r) == spec_recover_vault(old(self)@, *caller),
    {
        if !caller.attested {
            return Err(Fault::MissingAuthorization);
        }
        let r = lifecycle::recover(
            &mut self.record.state,
            caller.identity,
            self.recovery_authority,
        );
        proof {
            assert(self@ =~= spec_recover_vault(old(self)@, *caller).0);
        }
        r
    }

    /// Writes into the payload buffer for the attested owner, with the
    /// buffer's all-or-nothing capacity check.
    pub fn write_payload(&mut self, caller: &Caller, offset: usize, data: &[u8]) -> (r: Result<
        (),
        Fault,
    >)
        requires
            old(self)@.wf(),
        ensures
            final(self)@.wf(),
            (final(self)@, r) == spec_write_payload(old(self)@, *caller, offset as nat, data@),
    {
        let gate = require_signer(caller, self.record.owner);
        if let Err(f) = gate {
            return Err(f);
        }
        if self.record.state != RecordState::Active {
            return Err(Fault::NotActive);
        }
        let r = self.record.payload.write(offset, data);
        proof {
            assert(self@ =~= spec_write_payload(old(self)@, *caller, offset as nat, data@).0);
        }
        r
    }

    /// Reads from the payload buffer, gated by the record state.
    pub fn read_payload(&self, offset: usize, count: usize) -> (r: Result<Vec<u8>, Fault>)
        requires
            self@.wf(),
        ensures
            (match r {
                Ok(out) => spec_read_payload(self@.record, offset as nat, count as nat) == Ok::<
                    Seq<u8>,
                    Fault,
                >(out@),
                Err(f) => spec_read_payload(self@.record, offset as nat, count as nat) == Err::<
                    Seq<u8>,
                    Fault,
                >(f),
            }),
    {
        self.record.read_payload(offset, count)
    }

    /// The balance, gated by the record state.
    pub fn balance(&self) -> (r: Result<u64, Fault>)
        ensures
            r == spec_balance(self@.record),
    {
        self.record.balance()
    }

    /// The owner identity, readable once the vault has been initialized.
    pub fn owner(&self) -> (r: Result<Identity, Fault>)
        ensures
            r == (if self@.record.state is Uninitialized {
                Err::<Identity, Fault>(Fault::NotInitialized)
            } else {
                Ok::<Identity, Fault>(self@.record.owner)
            }),
    {
        self.record.owner()
    }

    /// The current lifecycle state of the record.
    pub fn state(&self) -> (r: RecordState)
        ensures
            r == self@.record.state,
    {
        self.record.state()
    }

    /// The designated recovery authority this vault was constructed with.
    pub fn recovery_authority(&self) -> (r: Identity)
        ensures
            r == self@.recovery_authority,
    {
        self.recovery_authority
    }
}

} // verus!
