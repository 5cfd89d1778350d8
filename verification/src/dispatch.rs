//! The operation dispatcher: the sole mutating entry surface. It routes an
//! operation code and payload to the vault operation it names, so every
//! mutating path passes the authorization gate and the lifecycle checks
//! uniformly, and it surfaces each fault kind verbatim — never a generic
//! substitute.

use vstd::prelude::*;

use crate::fault::Fault;
use crate::identity::Caller;
use crate::record::spec_balance;
use crate::record::spec_read_payload;
use crate::vault::VaultLedger;
use crate::vault::VaultModel;
use crate::vault::spec_close_vault;
use crate::vault::spec_deposit;
use crate::vault::spec_initialize_vault;
use crate::vault::spec_recover_vault;
use crate::vault::spec_withdraw;
use crate::vault::spec_write_payload;

verus! {

/// Operation codes understood by the dispatcher. Any other code is refused
/// with InvalidOperation.
pub const OP_INITIALIZE_VAULT: u8 = 1;

pub const OP_DEPOSIT: u8 = 2;

pub const OP_WITHDRAW: u8 = 3;

pub const OP_CLOSE_VAULT: u8 = 4;

pub const OP_RECOVER_VAULT: u8 = 5;

pub const OP_WRITE_PAYLOAD: u8 = 6;

pub const OP_READ_PAYLOAD: u8 = 7;

pub const OP_READ_BALANCE: u8 = 8;

/// What a successful operation hands back to the invocation boundary.
#[derive(Debug)]
pub enum Outcome {
    /// The operation mutated the vault and has nothing further to report.
    Done,
    /// The balance that a balance read returned.
    Balance(u64),
    /// The bytes that a payload read returned.
    Bytes(Vec<u8>),
}

/// The mathematical view of an outcome.
pub enum OutcomeModel {
    Done,
    Balance(u64),
    Bytes(Seq<u8>),
}

impl View for Outcome {
    type V = OutcomeModel;

    open spec fn view(&self) -> OutcomeModel {
        match self {
            Outcome::Done => OutcomeModel::Done,
            Outcome::Balance(b) => OutcomeModel::Balance(*b),
            Outcome::Bytes(v) => OutcomeModel::Bytes(v@),
        }
    }
}

/// The view of a dispatch result: outcomes by their view, faults verbatim.
pub open spec fn result_view(r: Result<Outcome, Fault>) -> Result<OutcomeModel, Fault> {
    match r {
        Ok(o) => Ok(o@),
        Err(f) => Err(f),
    }
}

/// The `u64` that eight little-endian bytes of `s` encode, starting at `i`.
pub open spec fn spec_le_u64(s: Seq<u8>, i: int) -> u64 {
    (s[i] as u64) | (s[i + 1] as u64) << 8 | (s[i + 2] as u64) << 16 | (s[i + 3] as u64) << 24 | (
    s[i + 4] as u64) << 32 | (s[i + 5] as u64) << 40 | (s[i + 6] as u64) << 48 | (s[i + 7] as u64)
        << 56
}

/// Decodes the little-endian `u64` at `offset` in `bytes`.
fn le_u64_at(bytes: &[u8], offset: usize) -> (r: u64)
    requires
        offset + 8 <= bytes@.len(),
    ensures
        r == spec_le_u64(bytes@, offset as int),
{
    (bytes[offset] as u64) | (bytes[offset + 1] as u64) << 8 | (bytes[offset + 2] as u64) << 16 | (
    bytes[offset + 3] as u64) << 24 | (bytes[offset + 4] as u64) << 32 | (bytes[offset + 5] as u64)
        << 40 | (bytes[offset + 6] as u64) << 48 | (bytes[offset + 7] as u64) << 56
}

/// How each operation code reads its payload:
/// - deposit and withdraw take exactly eight bytes, the amount;
/// - a payload write takes eight bytes of offset and then the data;
/// - a payload read takes exactly sixteen bytes, offset then count;
/// - the rest take an empty payload.
/// A payload of any other shape, an offset or count the machine cannot
/// address, or an unknown code, is refused with InvalidOperation.
pub open spec fn spec_dispatch(
    v: VaultModel,
    caller: Caller,
    op_code: u8,
    payload: Seq<u8>,
) -> (VaultModel, Result<OutcomeModel, Fault>) {
    if op_code == OP_INITIALIZE_VAULT {
        if payload.len() != 0 {
            (v, Err(Fault::InvalidOperation))
        } else {
            let (v2, r) = spec_initialize_vault(v, caller);
            (v2, done_view(r))
        }
    } else if op_code == OP_DEPOSIT {
        if payload.len() != 8 {
            (v, Err(Fault::InvalidOperation))
        } else {
            let (v2, r) = spec_deposit(v, caller, spec_le_u64(payload, 0));
            (v2, done_view(r))
        }
    } else if op_code == OP_WITHDRAW {
        if payload.len() != 8 {
            (v, Err(Fault::InvalidOperation))
        } else {
            let (v2, r) = spec_withdraw(v, caller, spec_le_u64(payload, 0));
            (v2, done_view(r))
        }
    } else if op_code == OP_CLOSE_VAULT {
        if payload.len() != 0 {
            (v, Err(Fault::InvalidOperation))
        } else {
            let (v2, r) = spec_close_vault(v, caller);
            (v2, done_view(r))
        }
    } else if op_code == OP_RECOVER_VAULT {
        if payload.len() != 0 {
            (v, Err(Fault::InvalidOperation))
        } else {
            let (v2, r) = spec_recover_vault(v, caller);
            (v2, done_view(r))
        }
    } else if op_code == OP_WRITE_PAYLOAD {
        if payload.len() < 8 || spec_le_u64(payload, 0) > usize::MAX {
            (v, Err(Fault::InvalidOperation))
        } else {
            let (v2, r) = spec_write_payload(
                v,
                caller,
                spec_le_u64(payload, 0) as nat,
                payload.skip(8),
            );
            (v2, done_view(r))
        }
    } else if op_code == OP_READ_PAYLOAD {
        if payload.len() != 16 || spec_le_u64(payload, 0) > usize::MAX || spec_le_u64(payload, 8)
            > usize::MAX {
            (v, Err(Fault::InvalidOperation))
        } else {
            (
                v,
                match spec_read_payload(
                    v.record,
                    spec_le_u64(payload, 0) as nat,
                    spec_le_u64(payload, 8) as nat,
                ) {
                    Ok(bytes) => Ok(OutcomeModel::Bytes(bytes)),
                    Err(f) => Err(f),
                },
            )
        }
    } else if op_code == OP_READ_BALANCE {
        if payload.len() != 0 {
            (v, Err(Fault::InvalidOperation))
        } else {
            (
                v,
                match spec_balance(v.record) {
                    Ok(b) => Ok(OutcomeModel::Balance(b)),
                    Err(f) => Err(f),
                },
            )
        }
    } else {
        (v, Err(Fault::InvalidOperation))
    }
}

/// Maps a mutating operation's unit result to a dispatch outcome.
pub open spec fn done_view(r: Result<(), Fault>) -> Result<OutcomeModel, Fault> {
    match r {
        Ok(u) => Ok(OutcomeModel::Done),
        Err(f) => Err(f),
    }
}

/// Routes one operation request to the vault. This is the only boundary a
/// host integrates against: every mutating path below it passes the
/// authorization gate and the lifecycle checks, and every fault kind is
/// surfaced verbatim.
pub fn dispatch(vault: &mut VaultLedger, caller: &Caller, op_code: u8, payload: &[u8]) -> (r:
    Result<Outcome, Fault>)
    requires
        old(vault)@.wf(),
    ensures
        final(vault)@.wf(),
        final(vault)@ == spec_dispatch(old(vault)@, *caller, op_code, payload@).0,
        result_view(r) == spec_dispatch(old(vault)@, *caller, op_code, payload@).1,
{
    if op_code == OP_INITIALIZE_VAULT {
        if payload.len() != 0 {
            return Err(Fault::InvalidOperation);
        }
        match vault.initialize_vault(caller) {
            Ok(_) => Ok(Outcome::Done),
            Err(f) => Err(f),
        }
    } else if op_code == OP_DEPOSIT {
        if payload.len() != 8 {
            return Err(Fault::InvalidOperation);
        }
        let amount = le_u64_at(payload, 0);
        match vault.deposit(caller, amount) {
            Ok(_) => Ok(Outcome::Done),
            Err(f) => Err(f),
        }
    } else if op_code == OP_WITHDRAW {
        if payload.len() != 8 {
            return Err(Fault::InvalidOperation);
        }
        let amount = le_u64_at(payload, 0);
        match vault.withdraw(caller, amount) {
            Ok(_) => Ok(Outcome::Done),
            Err(f) => Err(f),
        }
    } else if op_code == OP_CLOSE_VAULT {
        if payload.len() != 0 {
            return Err(Fault::InvalidOperation);
        }
        match vault.close_vault(caller) {
            Ok(_) => Ok(Outcome::Done),
            Err(f) => Err(f),
        }
    } else if op_code == OP_RECOVER_VAULT {
        if payload.len() != 0 {
            return Err(Fault::InvalidOperation);
        }
        match vault.recover_vault(caller) {
            Ok(_) => Ok(Outcome::Done),
            Err(f) => Err(f),
        }
    } else if op_code == OP_WRITE_PAYLOAD {
        if payload.len() < 8 {
            return Err(Fault::InvalidOperation);
        }
        let offset_word = le_u64_at(payload, 0);
        if offset_word > usize::MAX as u64 {
            return Err(Fault::InvalidOperation);
        }
        let offset = offset_word as usize;
        let mut data: Vec<u8> = Vec::new();
        let mut i: usize = 8;
        while i < payload.len()
            invariant
                8 <= i <= payload@.len(),
                data@ == payload@.subrange(8, i as int),
            decreases payload@.len() - i,
        {
            data.push(payload[i]);
            proof {
                assert(data@ =~= payload@.subrange(8, i + 1));
            }
            i = i + 1;
        }
        proof {
            assert(data@ =~= payload@.skip(8));
        }
        match vault.write_payload(caller, offset, data.as_slice()) {
            Ok(_) => Ok(Outcome::Done),
            Err(f) => Err(f),
        }
    } else if op_code == OP_READ_PAYLOAD {
        if payload.len() != 16 {
            return Err(Fault::InvalidOperation);
        }
        let offset_word = le_u64_at(payload, 0);
        let count_word = le_u64_at(payload, 8);
        if offset_word > usize::MAX as u64 || count_word > usize::MAX as u64 {
            return Err(Fault::InvalidOperation);
        }
        match vault.read_payload(offset_word as usize, count_word as usize) {
            Ok(bytes) => Ok(Outcome::Bytes(bytes)),
            Err(f) => Err(f),
        }
    } else if op_code == OP_READ_BALANCE {
        if payload.len() != 0 {
            return Err(Fault::InvalidOperation);
        }
        match vault.balance() {
            Ok(b) => Ok(Outcome::Balance(b)),
            Err(f) => Err(f),
        }
    } else {
        Err(Fault::InvalidOperation)
    }
}

} // verus!
