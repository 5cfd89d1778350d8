use vault_kernel::fault::Fault;
use vault_kernel::identity::Identity;
use vault_kernel::lifecycle::RecordState;
use vault_kernel::record::Record;

#[test]
fn uninitialized_record_reads_are_refused() {
    // No read of a state-gated field ever yields a default or garbage value.
    let r = Record::new(32);
    assert_eq!(r.state(), RecordState::Uninitialized);
    assert_eq!(r.balance(), Err(Fault::NotInitialized));
    assert_eq!(r.owner(), Err(Fault::NotInitialized));
    assert_eq!(r.read_payload(0, 1), Err(Fault::NotInitialized));
    assert_eq!(r.read_payload(0, 0), Err(Fault::NotInitialized));
}

#[test]
fn fresh_record_shape() {
    let r = Record::new(32);
    assert_eq!(r.payload.capacity(), 32);
    assert_eq!(r.payload.length(), 0);
    assert_eq!(r.owner, Identity { key: 0 });
    assert_eq!(r.balance, 0);
}
