use transaction::{Amount, Transaction, TransactionEngine, TransactionError, TransactionType};

#[test]
fn engine_test_deposit() {
    let mut engine = TransactionEngine::new();
    let tx = Transaction::new(TransactionType::Deposit, 1, 1, Some(Amount::from(100)));
    assert!(engine.process_transaction(tx).is_ok());
    assert_eq!(engine.client_count(), 1);

    let client = engine.get_client(1).unwrap();
    assert_eq!(client.available(), Amount::from(100));
    assert_eq!(client.total(), Amount::from(100));
}

#[test]
fn test_withdrawal_success() {
    let mut engine = TransactionEngine::new();
    engine
        .process_transaction(Transaction::new(TransactionType::Deposit, 1, 1, Some(Amount::from(100))))
        .ok();

    engine
        .process_transaction(Transaction::new(TransactionType::Withdrawal, 1, 2, Some(Amount::from(50))))
        .ok();

    let client = engine.get_client(1).unwrap();
    assert_eq!(client.available(), Amount::from(50));
    assert_eq!(client.total(), Amount::from(50));
}

#[test]
fn test_withdrawal_insufficient_funds() {
    let mut engine = TransactionEngine::new();
    engine
        .process_transaction(Transaction::new(TransactionType::Deposit, 1, 1, Some(Amount::from(100))))
        .ok();

    engine
        .process_transaction(Transaction::new(TransactionType::Withdrawal, 1, 2, Some(Amount::from(150))))
        .ok();

    let client = engine.get_client(1).unwrap();
    assert_eq!(client.available(), Amount::from(100));
    assert_eq!(client.total(), Amount::from(100));
}

#[test]
fn engine_test_dispute_and_resolve() {
    let mut engine = TransactionEngine::new();
    engine
        .process_transaction(Transaction::new(TransactionType::Deposit, 1, 1, Some(Amount::from(100))))
        .ok();

    engine
        .process_transaction(Transaction::new(TransactionType::Dispute, 1, 1, None))
        .ok();

    let client = engine.get_client(1).unwrap();
    assert_eq!(client.available(), Amount::from(0));
    assert_eq!(client.held(), Amount::from(100));
    assert_eq!(client.total(), Amount::from(100));

    engine
        .process_transaction(Transaction::new(TransactionType::Resolve, 1, 1, None))
        .ok();

    let client = engine.get_client(1).unwrap();
    assert_eq!(client.available(), Amount::from(100));
    assert_eq!(client.held(), Amount::zero());
    assert_eq!(client.total(), Amount::from(100));
}

#[test]
fn test_dispute_and_chargeback() {
    let mut engine = TransactionEngine::new();
    engine
        .process_transaction(Transaction::new(TransactionType::Deposit, 1, 1, Some(Amount::from(100))))
        .ok();

    engine
        .process_transaction(Transaction::new(TransactionType::Dispute, 1, 1, None))
        .ok();

    engine
        .process_transaction(Transaction::new(TransactionType::Chargeback, 1, 1, None))
        .ok();

    let client = engine.get_client(1).unwrap();
    assert_eq!(client.available(), Amount::zero());
    assert_eq!(client.held(), Amount::zero());
    assert_eq!(client.total(), Amount::zero());
    assert!(client.is_locked());
}

#[test]
fn test_nonexistent_transaction_dispute() {
    let mut engine = TransactionEngine::new();
    let tx = Transaction::new(TransactionType::Dispute, 1, 999, None);
    assert!(engine.process_transaction(tx).is_err());
}

#[test]
fn test_client_id_mismatch_in_dispute() {
    let mut engine = TransactionEngine::new();
    // Client 1 makes a deposit
    engine
        .process_transaction(Transaction::new(TransactionType::Deposit, 1, 1, Some(Amount::from(100))))
        .ok();

    // Client 2 tries to dispute client 1's transaction - should fail
    let result = engine.process_transaction(Transaction::new(TransactionType::Dispute, 2, 1, None));
    assert!(result.is_err());
}

#[test]
fn test_locked_account_blocks_operations() {
    let mut engine = TransactionEngine::new();
    // Setup: deposit, dispute, chargeback to lock account
    engine
        .process_transaction(Transaction::new(TransactionType::Deposit, 1, 1, Some(Amount::from(100))))
        .ok();

    engine
        .process_transaction(Transaction::new(TransactionType::Dispute, 1, 1, None))
        .ok();

    engine
        .process_transaction(Transaction::new(TransactionType::Chargeback, 1, 1, None))
        .ok();

    let client = engine.get_client(1).unwrap();
    assert!(client.is_locked());

    // Try to deposit into locked account - should be processed but deposit will fail internally
    engine
        .process_transaction(Transaction::new(TransactionType::Deposit, 1, 2, Some(Amount::from(50))))
        .ok();

    // Account should still be at zero
    let client = engine.get_client(1).unwrap();
    assert_eq!(client.total(), Amount::zero());
}

#[test]
fn test_error_variants_of_processing() {
    let mut engine = TransactionEngine::new();
    assert!(matches!(
        engine.process_transaction(Transaction::new(TransactionType::Deposit, 1, 1, None)),
        Err(TransactionError::InvalidDecimalPrecision(_))
    ));
    assert!(matches!(
        engine.process_transaction(Transaction::new(TransactionType::Withdrawal, 1, 1, None)),
        Err(TransactionError::InvalidDecimalPrecision(_))
    ));
    assert!(matches!(
        engine.process_transaction(Transaction::new(TransactionType::Resolve, 1, 1, None)),
        Err(TransactionError::TransactionNotDisputed(1))
    ));
    assert!(matches!(
        engine.process_transaction(Transaction::new(TransactionType::Chargeback, 1, 1, None)),
        Err(TransactionError::TransactionNotDisputed(1))
    ));
    assert!(matches!(
        engine.process_transaction(Transaction::new(TransactionType::Dispute, 1, 7, None)),
        Err(TransactionError::TransactionNotFound(7))
    ));
    engine
        .process_transaction(Transaction::new(TransactionType::Deposit, 1, 1, Some(Amount::from(10))))
        .unwrap();
    match engine.process_transaction(Transaction::new(TransactionType::Dispute, 2, 1, None)) {
        Err(TransactionError::InvalidTransactionType(m)) => {
            assert_eq!(m, "Client ID mismatch: transaction 1 belongs to client 1, not client 2")
        }
        other => panic!("unexpected {:?}", other),
    }
    assert!(matches!(
        engine.process_transaction(Transaction::new(TransactionType::Deposit, 1, 2, Some(Amount::from(-5)))),
        Err(TransactionError::ClientError(_))
    ));
    // A withdrawal of a negative amount is stored but changes nothing; its
    // dispute is rejected, so a resolve finds no dispute.
    assert!(engine
        .process_transaction(Transaction::new(TransactionType::Withdrawal, 1, 3, Some(Amount::from(-5))))
        .is_ok());
    assert!(engine.process_transaction(Transaction::new(TransactionType::Dispute, 1, 3, None)).is_ok());
    assert_eq!(engine.get_client(1).unwrap().held(), Amount::zero());
    assert!(matches!(
        engine.process_transaction(Transaction::new(TransactionType::Resolve, 1, 3, None)),
        Err(TransactionError::TransactionNotDisputed(3))
    ));
    assert_eq!(engine.transaction_count(), 2);
    assert_eq!(engine.dispute_count(), 0);
}

#[test]
fn test_uncovered_dispute_is_rejected() {
    let mut engine = TransactionEngine::new();
    engine
        .process_transaction(Transaction::new(TransactionType::Deposit, 1, 1, Some(Amount::from(100))))
        .unwrap();
    engine
        .process_transaction(Transaction::new(TransactionType::Withdrawal, 1, 2, Some(Amount::from(30))))
        .unwrap();
    assert!(engine.process_transaction(Transaction::new(TransactionType::Dispute, 1, 1, None)).is_ok());
    let client = engine.get_client(1).unwrap();
    assert_eq!(client.available(), Amount::from(70));
    assert_eq!(client.held(), Amount::zero());
    assert_eq!(client.total(), Amount::from(70));
    assert_eq!(engine.dispute_count(), 0);
    // Once the funds cover it, the same transaction can be disputed.
    engine
        .process_transaction(Transaction::new(TransactionType::Deposit, 1, 3, Some(Amount::from(30))))
        .unwrap();
    assert!(engine.process_transaction(Transaction::new(TransactionType::Dispute, 1, 1, None)).is_ok());
    assert_eq!(engine.get_client(1).unwrap().held(), Amount::from(100));
    assert_eq!(engine.dispute_count(), 1);
}

#[test]
fn test_counts_and_lookup() {
    let mut engine = TransactionEngine::default();
    assert_eq!(engine.client_count(), 0);
    assert!(engine.get_client(1).is_none());
    engine
        .process_transaction(Transaction::new(TransactionType::Deposit, 1, 1, Some(Amount::from(100))))
        .unwrap();
    engine
        .process_transaction(Transaction::new(TransactionType::Deposit, 2, 2, Some(Amount::from(100))))
        .unwrap();
    engine
        .process_transaction(Transaction::new(TransactionType::Dispute, 1, 1, None))
        .unwrap();
    engine
        .process_transaction(Transaction::new(TransactionType::Dispute, 2, 2, None))
        .unwrap();
    assert_eq!(engine.dispute_count(), 2);
    engine
        .process_transaction(Transaction::new(TransactionType::Resolve, 1, 1, None))
        .unwrap();
    assert_eq!(engine.dispute_count(), 1);
    assert_eq!(engine.client_count(), 2);
    assert_eq!(engine.transaction_count(), 2);
    assert_eq!(engine.get_clients().len(), 2);
    // A repeated dispute and an ended dispute's resolve are ignored.
    assert!(engine.process_transaction(Transaction::new(TransactionType::Dispute, 2, 2, None)).is_ok());
    assert!(engine.process_transaction(Transaction::new(TransactionType::Resolve, 1, 1, None)).is_ok());
    assert_eq!(engine.get_client(1).unwrap().available(), Amount::from(100));
    assert_eq!(engine.get_client(2).unwrap().held(), Amount::from(100));
}

#[test]
fn test_overflow_is_detected_before_processing() {
    let mut engine = TransactionEngine::new();
    let max = Amount::from_i128_with_scale(79_228_162_514_264_337_593_543_950_335, 0);
    assert_eq!(
        engine.try_process_transaction(Transaction::new(TransactionType::Deposit, 1, 1, Some(max))).map(|r| r.is_ok()),
        Some(true)
    );
    let tx = Transaction::new(TransactionType::Deposit, 1, 2, Some(Amount::from(1)));
    assert!(!engine.can_process(&tx));
    assert!(engine.try_process_transaction(tx).is_none());
    assert_eq!(engine.get_client(1).unwrap().total(), max);
    assert_eq!(engine.transaction_count(), 1);
}
