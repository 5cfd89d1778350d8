//! The record lifecycle: Uninitialized -> Active -> Closed, with Closed
//! returning to Active only through an authorized recovery. Every transition
//! is guarded; an invalid one is reported as a fault and changes nothing.

use vstd::prelude::*;

use crate::fault::Fault;
use crate::identity::Identity;

verus! {

/// The three lifecycle states of a record.
#[derive(Clone, Copy, Debug, PartialEq, Eq, Structural)]
pub enum RecordState {
    Uninitialized,
    Active,
    Closed,
}

/// What `initialize` does: Uninitialized becomes Active; any other state is
/// refused with AlreadyInitialized and left unchanged.
pub open spec fn spec_initialize(s: RecordState) -> (RecordState, Result<(), Fault>) {
    match s {
        RecordState::Uninitialized => (RecordState::Active, Ok(())),
        _ => (s, Err(Fault::AlreadyInitialized)),
    }
}

/// What `close` does: Active becomes Closed; a second close is refused with
/// AlreadyClosed (never a silent no-op), and a record never initialized is
/// refused with NotInitialized.
pub open spec fn spec_close(s: RecordState) -> (RecordState, Result<(), Fault>) {
    match s {
        RecordState::Active => (RecordState::Closed, Ok(())),
        RecordState::Closed => (s, Err(Fault::AlreadyClosed)),
        RecordState::Uninitialized => (s, Err(Fault::NotInitialized)),
    }
}

/// What `recover` does: with the designated authority, Closed becomes Active
/// again; the wrong authority is refused with Unauthorized, and a record not
/// Closed is refused with NotClosed.
pub open spec fn spec_recover(
    s: RecordState,
    authority: Identity,
    expected_authority: Identity,
) -> (RecordState, Result<(), Fault>) {
    if authority != expected_authority {
        (s, Err(Fault::Unauthorized))
    } else if s != RecordState::Closed {
        (s, Err(Fault::NotClosed))
    } else {
        (RecordState::Active, Ok(()))
    }
}

/// Moves an Uninitialized record to Active; valid only from Uninitialized.
pub fn initialize(state: &mut RecordState) -> (r: Result<(), Fault>)
    ensures
        (*final(state), r) == spec_initialize(*old(state)),
{
    match *state {
        RecordState::Uninitialized => {
            *state = RecordState::Active;
            Ok(())
        },
        _ => Err(Fault::AlreadyInitialized),
    }
}

/// Moves an Active record to Closed; valid only from Active. A repeated
/// close is reported as AlreadyClosed rather than repeated silently.
pub fn close(state: &mut RecordState) -> (r: Result<(), Fault>)
    ensures
        (*final(state), r) == spec_close(*old(state)),
{
    match *state {
        RecordState::Active => {
            *state = RecordState::Closed;
            Ok(())
        },
        RecordState::Closed => Err(Fault::AlreadyClosed),
        RecordState::Uninitialized => Err(Fault::NotInitialized),
    }
}

/// Moves a Closed record back to Active, but only for the designated
/// recovery authority; valid only from Closed.
pub fn recover(
    state: &mut RecordState,
    authority: Identity,
    expected_authority: Identity,
) -> (r: Result<(), Fault>)
    ensures
        (*final(state), r) == spec_recover(*old(state), authority, expected_authority),
{
    if authority != expected_authority {
        Err(Fault::Unauthorized)
    } else if *state != RecordState::Closed {
        Err(Fault::NotClosed)
    } else {
        *state = RecordState::Active;
        Ok(())
    }
}

} // verus!
