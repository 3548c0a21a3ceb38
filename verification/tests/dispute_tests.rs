use transaction::{Amount, DisputeState};

#[test]
fn test_new_dispute() {
    let dispute = DisputeState::new(Amount::from(100));
    assert_eq!(dispute.amount, Amount::from(100));
    assert!(!dispute.is_resolved);
    assert!(dispute.is_active());
}

#[test]
fn test_resolve_dispute() {
    let mut dispute = DisputeState::new(Amount::from(100));
    dispute.resolve();
    assert!(dispute.is_resolved);
    assert!(!dispute.is_active());
}
