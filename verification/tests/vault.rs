use vault_kernel::fault::Fault;
use vault_kernel::identity::Caller;
use vault_kernel::identity::Identity;
use vault_kernel::lifecycle::RecordState;
use vault_kernel::vault::VaultLedger;

const RECOVERY: Identity = Identity { key: 99 };

fn attested(key: u64) -> Caller {
    Caller { identity: Identity { key }, attested: true }
}

fn unattested(key: u64) -> Caller {
    Caller { identity: Identity { key }, attested: false }
}

fn active_vault(owner: &Caller) -> VaultLedger {
    let mut v = VaultLedger::new(RECOVERY, 64);
    assert_eq!(v.initialize_vault(owner), Ok(()));
    v
}

#[test]
fn fresh_vault_is_uninitialized() {
    let v = VaultLedger::new(RECOVERY, 64);
    assert_eq!(v.state(), RecordState::Uninitialized);
    assert_eq!(v.balance(), Err(Fault::NotInitialized));
    assert_eq!(v.owner(), Err(Fault::NotInitialized));
    assert_eq!(v.read_payload(0, 1), Err(Fault::NotInitialized));
    assert_eq!(v.recovery_authority(), RECOVERY);
}

#[test]
fn initialize_sets_owner_and_zero_balance() {
    let a = attested(1);
    let mut v = VaultLedger::new(RECOVERY, 64);
    assert_eq!(v.initialize_vault(&a), Ok(()));
    assert_eq!(v.state(), RecordState::Active);
    assert_eq!(v.owner(), Ok(Identity { key: 1 }));
    assert_eq!(v.balance(), Ok(0));
}

#[test]
fn initialize_twice_already_initialized() {
    let a = attested(1);
    let mut v = active_vault(&a);
    assert_eq!(v.initialize_vault(&a), Err(Fault::AlreadyInitialized));
    assert_eq!(v.owner(), Ok(Identity { key: 1 }));
}

#[test]
fn initialize_needs_attestation() {
    let mut v = VaultLedger::new(RECOVERY, 64);
    assert_eq!(v.initialize_vault(&unattested(1)), Err(Fault::MissingAuthorization));
    assert_eq!(v.state(), RecordState::Uninitialized);
}

#[test]
fn owner_may_not_be_recovery_authority() {
    let mut v = VaultLedger::new(RECOVERY, 64);
    assert_eq!(v.initialize_vault(&attested(RECOVERY.key)), Err(Fault::Unauthorized));
    assert_eq!(v.state(), RecordState::Uninitialized);
}

#[test]
fn withdraw_by_non_owner_refused() {
    // initialize_vault(owner=A), deposit(A, 100), withdraw(B, 50):
    // MissingAuthorization, and the balance is still 100.
    let a = attested(1);
    let b = attested(2);
    let mut v = active_vault(&a);
    assert_eq!(v.deposit(&a, 100), Ok(()));
    assert_eq!(v.withdraw(&b, 50), Err(Fault::MissingAuthorization));
    assert_eq!(v.balance(), Ok(100));
}

#[test]
fn withdraw_without_attestation_refused() {
    // The claimed identity matches the owner, but no proof of control was
    // verified: matching a stored field is not enough.
    let a = attested(1);
    let mut v = active_vault(&a);
    assert_eq!(v.deposit(&a, 100), Ok(()));
    assert_eq!(v.withdraw(&unattested(1), 50), Err(Fault::MissingAuthorization));
    assert_eq!(v.balance(), Ok(100));
}

#[test]
fn withdraw_more_than_balance_refused() {
    // withdraw(A, 150) on balance 100: InsufficientFunds, balance unchanged.
    let a = attested(1);
    let mut v = active_vault(&a);
    assert_eq!(v.deposit(&a, 100), Ok(()));
    assert_eq!(v.withdraw(&a, 150), Err(Fault::InsufficientFunds));
    assert_eq!(v.balance(), Ok(100));
}

#[test]
fn deposit_and_withdraw_update_balance() {
    let a = attested(1);
    let mut v = active_vault(&a);
    assert_eq!(v.deposit(&a, 70), Ok(()));
    assert_eq!(v.deposit(&a, 30), Ok(()));
    assert_eq!(v.balance(), Ok(100));
    assert_eq!(v.withdraw(&a, 25), Ok(()));
    assert_eq!(v.balance(), Ok(75));
}

#[test]
fn deposit_overflow_reported() {
    let a = attested(1);
    let mut v = active_vault(&a);
    assert_eq!(v.deposit(&a, u64::MAX), Ok(()));
    assert_eq!(v.deposit(&a, 1), Err(Fault::ArithmeticOverflow));
    assert_eq!(v.balance(), Ok(u64::MAX));
}

#[test]
fn deposit_by_non_owner_refused() {
    let a = attested(1);
    let mut v = active_vault(&a);
    assert_eq!(v.deposit(&attested(2), 10), Err(Fault::MissingAuthorization));
    assert_eq!(v.balance(), Ok(0));
}

#[test]
fn close_with_funds_refused() {
    // close_vault with balance > 0: NonZeroBalance, state stays Active.
    let a = attested(1);
    let mut v = active_vault(&a);
    assert_eq!(v.deposit(&a, 5), Ok(()));
    assert_eq!(v.close_vault(&a), Err(Fault::NonZeroBalance));
    assert_eq!(v.state(), RecordState::Active);
    assert_eq!(v.balance(), Ok(5));
}

#[test]
fn close_then_deposit_not_active() {
    // close_vault with balance 0 succeeds and the state is Closed; a
    // subsequent deposit reports NotActive.
    let a = attested(1);
    let mut v = active_vault(&a);
    assert_eq!(v.close_vault(&a), Ok(()));
    assert_eq!(v.state(), RecordState::Closed);
    assert_eq!(v.deposit(&a, 1), Err(Fault::NotActive));
    assert_eq!(v.state(), RecordState::Closed);
}

#[test]
fn close_twice_already_closed() {
    let a = attested(1);
    let mut v = active_vault(&a);
    assert_eq!(v.close_vault(&a), Ok(()));
    assert_eq!(v.close_vault(&a), Err(Fault::AlreadyClosed));
    assert_eq!(v.state(), RecordState::Closed);
}

#[test]
fn close_needs_owner() {
    let a = attested(1);
    let mut v = active_vault(&a);
    assert_eq!(v.close_vault(&attested(2)), Err(Fault::MissingAuthorization));
    assert_eq!(v.close_vault(&unattested(1)), Err(Fault::MissingAuthorization));
    assert_eq!(v.state(), RecordState::Active);
}

#[test]
fn balance_read_after_close_use_after_close() {
    let a = attested(1);
    let mut v = active_vault(&a);
    assert_eq!(v.close_vault(&a), Ok(()));
    assert_eq!(v.balance(), Err(Fault::UseAfterClose));
    assert_eq!(v.read_payload(0, 0), Err(Fault::UseAfterClose));
}

#[test]
fn recover_active_is_noop() {
    // recover_vault on an Active record: NotClosed, state untouched.
    let a = attested(1);
    let recovery = attested(RECOVERY.key);
    let mut v = active_vault(&a);
    assert_eq!(v.recover_vault(&recovery), Err(Fault::NotClosed));
    assert_eq!(v.state(), RecordState::Active);
    assert_eq!(v.balance(), Ok(0));
}

#[test]
fn recover_closed_vault_reactivates() {
    let a = attested(1);
    let recovery = attested(RECOVERY.key);
    let mut v = active_vault(&a);
    assert_eq!(v.close_vault(&a), Ok(()));
    assert_eq!(v.recover_vault(&recovery), Ok(()));
    assert_eq!(v.state(), RecordState::Active);
    assert_eq!(v.balance(), Ok(0));
    assert_eq!(v.owner(), Ok(Identity { key: 1 }));
}

#[test]
fn recover_by_owner_unauthorized() {
    // The owner is not the designated recovery authority.
    let a = attested(1);
    let mut v = active_vault(&a);
    assert_eq!(v.close_vault(&a), Ok(()));
    assert_eq!(v.recover_vault(&a), Err(Fault::Unauthorized));
    assert_eq!(v.state(), RecordState::Closed);
}

#[test]
fn recover_needs_attestation() {
    let a = attested(1);
    let mut v = active_vault(&a);
    assert_eq!(v.close_vault(&a), Ok(()));
    assert_eq!(v.recover_vault(&unattested(RECOVERY.key)), Err(Fault::MissingAuthorization));
    assert_eq!(v.state(), RecordState::Closed);
}

#[test]
fn payload_write_and_read_round_trip() {
    let a = attested(1);
    let mut v = active_vault(&a);
    assert_eq!(v.write_payload(&a, 3, &[8, 9, 10]), Ok(()));
    assert_eq!(v.read_payload(3, 3), Ok(vec![8, 9, 10]));
    assert_eq!(v.read_payload(0, 6), Ok(vec![0, 0, 0, 8, 9, 10]));
}

#[test]
fn payload_write_needs_owner() {
    let a = attested(1);
    let mut v = active_vault(&a);
    assert_eq!(v.write_payload(&attested(2), 0, &[1]), Err(Fault::MissingAuthorization));
    assert_eq!(v.write_payload(&unattested(1), 0, &[1]), Err(Fault::MissingAuthorization));
    assert_eq!(v.read_payload(0, 1), Err(Fault::OutOfRange));
}

#[test]
fn payload_write_over_capacity_refused() {
    let a = attested(1);
    let mut v = active_vault(&a);
    assert_eq!(v.write_payload(&a, 60, &[1, 2, 3, 4, 5]), Err(Fault::CapacityExceeded));
    assert_eq!(v.read_payload(0, 0), Ok(vec![]));
}

#[test]
fn payload_write_after_close_not_active() {
    let a = attested(1);
    let mut v = active_vault(&a);
    assert_eq!(v.close_vault(&a), Ok(()));
    assert_eq!(v.write_payload(&a, 0, &[1]), Err(Fault::NotActive));
}
