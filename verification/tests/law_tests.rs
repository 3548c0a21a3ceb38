use transaction::{Amount, ClientAccount, Transaction, TransactionEngine, TransactionType};

fn deposit(client: u16, tx: u32, amount: Amount) -> Transaction {
    Transaction::new(TransactionType::Deposit, client, tx, Some(amount))
}

fn withdrawal(client: u16, tx: u32, amount: Amount) -> Transaction {
    Transaction::new(TransactionType::Withdrawal, client, tx, Some(amount))
}

fn dispute_op(tx_type: TransactionType, client: u16, tx: u32) -> Transaction {
    Transaction::new(tx_type, client, tx, None)
}

#[test]
fn test_law_operations_keep_balance_and_nonnegative() {
    let mut account = ClientAccount::new();
    account.deposit(Amount::new(10050, 2)).unwrap();
    assert!(account.validate());
    assert!(account.withdraw(Amount::new(2525, 2)).unwrap());
    assert!(account.validate());
    account.hold_funds(Amount::new(5, 1)).unwrap();
    assert!(account.validate());
    account.release_held(Amount::new(25, 2)).unwrap();
    assert!(account.validate());
    account.chargeback(Amount::new(25, 2)).unwrap();
    assert!(account.validate());
    assert_eq!(account.available(), Amount::new(7500, 2));
    assert_eq!(account.held(), Amount::zero());
    assert_eq!(account.total(), Amount::new(7500, 2));
    assert!(!account.available().is_negative());
    assert!(!account.held().is_negative());
    assert!(!account.total().is_negative());
}

#[test]
fn test_law_release_undoes_hold() {
    let mut account = ClientAccount::new();
    account.deposit(Amount::new(1234, 2)).unwrap();
    let before = account;
    account.hold_funds(Amount::new(5, 3)).unwrap();
    account.release_held(Amount::new(5, 3)).unwrap();
    assert_eq!(account.available(), before.available());
    assert_eq!(account.held(), before.held());
    assert_eq!(account.total(), before.total());
    assert_eq!(account.is_locked(), before.is_locked());
}

#[test]
fn test_law_withdrawal_undoes_deposit() {
    let mut account = ClientAccount::new();
    account.deposit(Amount::from(40)).unwrap();
    let before = account;
    account.deposit(Amount::new(333, 1)).unwrap();
    assert!(account.withdraw(Amount::new(333, 1)).unwrap());
    assert_eq!(account.available(), before.available());
    assert_eq!(account.total(), before.total());
}

#[test]
fn test_law_chargeback_after_hold() {
    let mut account = ClientAccount::new();
    account.deposit(Amount::from(40)).unwrap();
    account.hold_funds(Amount::from(15)).unwrap();
    account.chargeback(Amount::from(15)).unwrap();
    assert_eq!(account.available(), Amount::from(25));
    assert_eq!(account.held(), Amount::zero());
    assert_eq!(account.total(), Amount::from(25));
    assert!(account.is_locked());
}

#[test]
fn test_law_engine_locks_and_isolation() {
    let mut engine = TransactionEngine::new();
    engine.process_transaction(deposit(1, 1, Amount::from(100))).unwrap();
    engine.process_transaction(deposit(2, 2, Amount::from(50))).unwrap();
    engine.process_transaction(dispute_op(TransactionType::Dispute, 1, 1)).unwrap();
    engine.process_transaction(dispute_op(TransactionType::Chargeback, 1, 1)).unwrap();
    assert!(engine.get_client(1).unwrap().is_locked());
    // Client 2 was untouched by client 1's dispute and chargeback.
    assert_eq!(engine.get_client(2).unwrap().available(), Amount::from(50));
    assert!(!engine.get_client(2).unwrap().is_locked());
    // Deposits and withdrawals leave the locked account as it is, and it stays locked.
    assert!(engine.process_transaction(deposit(1, 3, Amount::from(10))).is_err());
    assert!(engine.process_transaction(withdrawal(1, 4, Amount::from(10))).is_ok());
    let client = engine.get_client(1).unwrap();
    assert_eq!(client.total(), Amount::zero());
    assert!(client.is_locked());
}

#[test]
fn test_law_disputes_persist_and_repeat_is_ignored() {
    let mut engine = TransactionEngine::new();
    engine.process_transaction(deposit(1, 1, Amount::from(100))).unwrap();
    engine.process_transaction(dispute_op(TransactionType::Dispute, 1, 1)).unwrap();
    assert_eq!(engine.dispute_count(), 1);
    engine.process_transaction(dispute_op(TransactionType::Dispute, 1, 1)).unwrap();
    assert_eq!(engine.get_client(1).unwrap().held(), Amount::from(100));
    engine.process_transaction(dispute_op(TransactionType::Resolve, 1, 1)).unwrap();
    assert_eq!(engine.dispute_count(), 0);
    // The ended dispute is neither reopened nor resolved again.
    engine.process_transaction(dispute_op(TransactionType::Dispute, 1, 1)).unwrap();
    engine.process_transaction(dispute_op(TransactionType::Chargeback, 1, 1)).unwrap();
    let client = engine.get_client(1).unwrap();
    assert_eq!(client.available(), Amount::from(100));
    assert_eq!(client.held(), Amount::zero());
    assert!(!client.is_locked());
    assert_eq!(engine.dispute_count(), 0);
}

#[test]
fn test_law_refusals_change_nothing() {
    let mut engine = TransactionEngine::new();
    engine.process_transaction(deposit(1, 1, Amount::from(100))).unwrap();
    assert!(engine.process_transaction(dispute_op(TransactionType::Dispute, 2, 1)).is_err());
    assert!(engine.process_transaction(dispute_op(TransactionType::Resolve, 1, 1)).is_err());
    assert!(engine.process_transaction(deposit(3, 2, Amount::from(-1))).is_err());
    assert_eq!(engine.client_count(), 2); // the refused deposit opened client 3's account
    assert_eq!(engine.get_client(3).unwrap().total(), Amount::zero());
    assert_eq!(engine.transaction_count(), 1);
    assert_eq!(engine.dispute_count(), 0);
    assert_eq!(engine.get_client(1).unwrap().available(), Amount::from(100));
}

#[test]
fn test_law_resolve_undoes_dispute() {
    let mut engine = TransactionEngine::new();
    engine.process_transaction(deposit(4, 10, Amount::new(2575, 2))).unwrap();
    engine.process_transaction(deposit(4, 11, Amount::new(5, 1))).unwrap();
    engine.process_transaction(dispute_op(TransactionType::Dispute, 4, 10)).unwrap();
    engine.process_transaction(dispute_op(TransactionType::Resolve, 4, 10)).unwrap();
    let client = engine.get_client(4).unwrap();
    assert_eq!(client.available(), Amount::new(2625, 2));
    assert_eq!(client.held(), Amount::zero());
    assert_eq!(client.total(), Amount::new(2625, 2));
}

#[test]
fn test_law_chargeback_after_dispute() {
    let mut engine = TransactionEngine::new();
    engine.process_transaction(deposit(4, 10, Amount::new(2575, 2))).unwrap();
    engine.process_transaction(deposit(4, 11, Amount::new(5, 1))).unwrap();
    engine.process_transaction(dispute_op(TransactionType::Dispute, 4, 10)).unwrap();
    engine.process_transaction(dispute_op(TransactionType::Chargeback, 4, 10)).unwrap();
    let client = engine.get_client(4).unwrap();
    assert_eq!(client.available(), Amount::new(5, 1));
    assert_eq!(client.held(), Amount::zero());
    assert_eq!(client.total(), Amount::new(5, 1));
    assert!(client.is_locked());
}

#[test]
fn test_law_exact_steps_keep_accounts_sound() {
    let mut engine = TransactionEngine::new();
    let steps = [
        deposit(1, 1, Amount::new(10050, 2)),
        deposit(2, 2, Amount::from(20)),
        withdrawal(1, 3, Amount::new(2525, 2)),
        withdrawal(2, 4, Amount::from(500)),
        dispute_op(TransactionType::Dispute, 1, 1),
        dispute_op(TransactionType::Dispute, 2, 2),
        dispute_op(TransactionType::Resolve, 2, 2),
        dispute_op(TransactionType::Dispute, 1, 3),
        dispute_op(TransactionType::Chargeback, 1, 3),
    ];
    for tx in steps {
        let before = engine.client_count();
        let _ = engine.process_transaction(tx);
        assert!(engine.client_count() >= before);
        for (_, account) in engine.get_clients() {
            assert!(account.validate());
            assert!(!account.available().is_negative());
            assert!(!account.held().is_negative());
            assert!(!account.total().is_negative());
        }
    }
    let client1 = engine.get_client(1).unwrap();
    // The dispute of deposit 1 was rejected (75.25 available cannot cover
    // 100.50); the dispute and chargeback of withdrawal 3 went through.
    assert_eq!(client1.available(), Amount::from(50));
    assert_eq!(client1.held(), Amount::zero());
    assert_eq!(client1.total(), Amount::from(50));
    assert!(client1.is_locked());
    assert_eq!(engine.dispute_count(), 0);
}
