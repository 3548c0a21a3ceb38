use std::str::FromStr;
use transaction::{Amount, Transaction, TransactionType};

#[test]
fn test_transaction_type_parsing() {
    assert_eq!(
        TransactionType::from_str("deposit").unwrap(),
        TransactionType::Deposit
    );
    // Case-insensitive parsing
    assert_eq!(
        TransactionType::from_str("DEPOSIT").unwrap(),
        TransactionType::Deposit
    );
    // Whitespace needs to be trimmed by caller
    assert_eq!(
        TransactionType::from_str("deposit".trim()).unwrap(),
        TransactionType::Deposit
    );
    assert_eq!(
        TransactionType::from_str("withdrawal").unwrap(),
        TransactionType::Withdrawal
    );
    assert_eq!(
        TransactionType::from_str("dispute").unwrap(),
        TransactionType::Dispute
    );
    assert_eq!(
        TransactionType::from_str("resolve").unwrap(),
        TransactionType::Resolve
    );
    assert_eq!(
        TransactionType::from_str("chargeback").unwrap(),
        TransactionType::Chargeback
    );
    // Invalid input
    assert!(TransactionType::from_str("invalid").is_err());

    // Test that whitespace trimming works when caller trims
    assert_eq!(
        TransactionType::from_str("  deposit  ".trim()).unwrap(),
        TransactionType::Deposit
    );
}

#[test]
fn test_transaction_type_display() {
    assert_eq!(TransactionType::Deposit.to_string(), "deposit");
    assert_eq!(TransactionType::Withdrawal.to_string(), "withdrawal");
    assert_eq!(TransactionType::Dispute.to_string(), "dispute");
    assert_eq!(TransactionType::Resolve.to_string(), "resolve");
    assert_eq!(TransactionType::Chargeback.to_string(), "chargeback");
}

#[test]
fn test_transaction_type_iterator() {
    let all_types: Vec<TransactionType> = TransactionType::iter().into_iter().collect();
    assert_eq!(all_types.len(), 5);
    assert_eq!(all_types[0], TransactionType::Deposit);
    assert_eq!(all_types[1], TransactionType::Withdrawal);
    assert_eq!(all_types[2], TransactionType::Dispute);
    assert_eq!(all_types[3], TransactionType::Resolve);
    assert_eq!(all_types[4], TransactionType::Chargeback);
}

#[test]
fn test_transaction_type_count() {
    assert_eq!(TransactionType::COUNT, 5);
}

#[test]
fn test_transaction_classification() {
    let deposit = Transaction::new(TransactionType::Deposit, 1, 1, Some(Amount::from(100)));
    assert!(deposit.is_money_moving());
    assert!(!deposit.is_dispute_operation());

    let dispute = Transaction::new(TransactionType::Dispute, 1, 1, None);
    assert!(!dispute.is_money_moving());
    assert!(dispute.is_dispute_operation());
}

#[test]
fn test_transaction_type_parsing_mixed_case_and_rejections() {
    assert_eq!(TransactionType::parse("ChargeBack"), Some(TransactionType::Chargeback));
    assert_eq!(TransactionType::parse("wItHdRaWaL"), Some(TransactionType::Withdrawal));
    assert_eq!(TransactionType::parse(" deposit"), None);
    assert_eq!(TransactionType::parse("deposits"), None);
    assert_eq!(TransactionType::parse(""), None);
    for t in TransactionType::iter() {
        assert_eq!(TransactionType::parse(&t.to_string()), Some(t));
    }
}
