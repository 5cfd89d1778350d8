//! The account record: lifecycle state, owner, balance and payload in one
//! place. Every accessor of a state-gated field consults the lifecycle state
//! first, so an uninitialized or closed record can never leak a value.

use vstd::prelude::*;

use crate::buffer::BoundedBuffer;
use crate::buffer::BufferModel;
use crate::buffer::spec_read;
use crate::fault::Fault;
use crate::identity::Identity;
use crate::lifecycle::RecordState;

verus! {

/// The mathematical view of a record.
#[verifier::ext_equal]
pub struct RecordModel {
    pub state: RecordState,
    pub owner: Identity,
    pub balance: u64,
    pub payload: BufferModel,
}

impl RecordModel {
    /// Well-formedness: the payload buffer is well formed, and a Closed
    /// record holds no funds (closing demands a zero balance first).
    pub open spec fn wf(self) -> bool {
        &&& self.payload.wf()
        &&& self.state is Closed ==> self.balance == 0
    }
}

/// What a balance read returns: NotInitialized before initialization,
/// UseAfterClose after closing, and the balance only while Active.
pub open spec fn spec_balance(r: RecordModel) -> Result<u64, Fault> {
    match r.state {
        RecordState::Uninitialized => Err(Fault::NotInitialized),
        RecordState::Closed => Err(Fault::UseAfterClose),
        RecordState::Active => Ok(r.balance),
    }
}

/// What a payload read returns: the same state gate as the balance, then the
/// buffer's own checked read.
pub open spec fn spec_read_payload(r: RecordModel, offset: nat, count: nat) -> Result<
    Seq<u8>,
    Fault,
> {
    match r.state {
        RecordState::Uninitialized => Err(Fault::NotInitialized),
        RecordState::Closed => Err(Fault::UseAfterClose),
        RecordState::Active => spec_read(r.payload, offset, count),
    }
}

/// A fixed-size account record. It is owned and mutated exclusively by the
/// vault ledger; on its own it only answers state-gated reads.
pub struct Record {
    pub state: RecordState,
    pub owner: Identity,
    pub balance: u64,
    pub payload: BoundedBuffer,
}

impl View for Record {
    type V = RecordModel;

    open spec fn view(&self) -> RecordModel {
        RecordModel {
            state: self.state,
            owner: self.owner,
            balance: self.balance,
            payload: self.payload@,
        }
    }
}

impl Record {
    /// A fresh record as the storage provider allocates it: Uninitialized,
    /// zero balance, a zeroed payload of the given capacity, and a
    /// placeholder owner that initialization will replace.
    pub fn new(capacity: usize) -> (r: Record)
        ensures
            r@.wf(),
            r@.state is Uninitialized,
            r@.owner == (Identity { key: 0 }),
            r@.balance == 0,
            r@.payload.capacity == capacity,
            r@.payload.length == 0,
            r@.payload.bytes == Seq::new(capacity as nat, |i: int| 0u8),
    {
        Record {
            state: RecordState::Uninitialized,
            owner: Identity { key: 0 },
            balance: 0,
            payload: BoundedBuffer::new(capacity),
        }
    }

    /// The current lifecycle state. The state itself is not gated: callers
    /// must be able to see it to know what the record permits.
    pub fn state(&self) -> (r: RecordState)
        ensures
            r == self@.state,
    {
        self.state
    }

    /// The owner identity, readable once the record has been initialized.
    pub fn owner(&self) -> (r: Result<Identity, Fault>)
        ensures
            r == (if self@.state is Uninitialized {
                Err::<Identity, Fault>(Fault::NotInitialized)
            } else {
                Ok::<Identity, Fault>(self@.owner)
            }),
    {
        match self.state {
            RecordState::Uninitialized => Err(Fault::NotInitialized),
            _ => Ok(self.owner),
        }
    }

    /// The balance, gated by state: never a default or garbage value.
    pub fn balance(&self) -> (r: Result<u64, Fault>)
        ensures
            r == spec_balance(self@),
    {
        match self.state {
            RecordState::Uninitialized => Err(Fault::NotInitialized),
            RecordState::Closed => Err(Fault::UseAfterClose),
            RecordState::Active => Ok(self.balance),
        }
    }

    /// A payload read, gated by state and then bounds-checked by the buffer.
    pub fn read_payload(&self, offset: usize, count: usize) -> (r: Result<Vec<u8>, Fault>)
        requires
            self@.wf(),
        ensures
            (match r {
                Ok(out) => spec_read_payload(self@, offset as nat, count as nat) == Ok::<
                    Seq<u8>,
                    Fault,
                >(out@),
                Err(f) => spec_read_payload(self@, offset as nat, count as nat) == Err::<
                    Seq<u8>,
                    Fault,
                >(f),
            }),
    {
        match self.state {
            RecordState::Uninitialized => Err(Fault::NotInitialized),
            RecordState::Closed => Err(Fault::UseAfterClose),
            RecordState::Active => self.payload.read(offset, count),
        }
    }
}

} // verus!
