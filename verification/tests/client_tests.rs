use transaction::{Amount, ClientAccount};

#[test]
fn test_new_account() {
    let account = ClientAccount::new();
    assert_eq!(account.available(), Amount::zero());
    assert_eq!(account.held(), Amount::zero());
    assert_eq!(account.total(), Amount::zero());
    assert!(!account.is_locked());
}

#[test]
fn client_test_deposit() {
    let mut account = ClientAccount::new();
    assert!(account.deposit(Amount::from(100)).is_ok());
    assert_eq!(account.available(), Amount::from(100));
    assert_eq!(account.total(), Amount::from(100));
    assert!(account.validate());
}

#[test]
fn test_withdraw_success() {
    let mut account = ClientAccount::new();
    account.deposit(Amount::from(100)).ok();
    let result = account.withdraw(Amount::from(50));
    assert!(result.is_ok());
    assert_eq!(result.unwrap(), true);
    assert_eq!(account.available(), Amount::from(50));
    assert_eq!(account.total(), Amount::from(50));
    assert!(account.validate());
}

#[test]
fn test_withdraw_insufficient_funds() {
    let mut account = ClientAccount::new();
    account.deposit(Amount::from(100)).ok();
    let result = account.withdraw(Amount::from(150));
    assert!(result.is_ok());
    assert_eq!(result.unwrap(), false);
    assert_eq!(account.available(), Amount::from(100));
    assert_eq!(account.total(), Amount::from(100));
}

#[test]
fn test_hold_and_release() {
    let mut account = ClientAccount::new();
    account.deposit(Amount::from(100)).ok();
    assert!(account.hold_funds(Amount::from(30)).is_ok());
    assert_eq!(account.available(), Amount::from(70));
    assert_eq!(account.held(), Amount::from(30));
    assert_eq!(account.total(), Amount::from(100));
    assert!(account.validate());

    assert!(account.release_held(Amount::from(30)).is_ok());
    assert_eq!(account.available(), Amount::from(100));
    assert_eq!(account.held(), Amount::zero());
    assert_eq!(account.total(), Amount::from(100));
    assert!(account.validate());
}

#[test]
fn test_chargeback() {
    let mut account = ClientAccount::new();
    account.deposit(Amount::from(100)).ok();
    account.hold_funds(Amount::from(30)).ok();
    assert!(account.chargeback(Amount::from(30)).is_ok());
    assert_eq!(account.available(), Amount::from(70));
    assert_eq!(account.held(), Amount::zero());
    assert_eq!(account.total(), Amount::from(70));
    assert!(account.is_locked());
    assert!(account.validate());
}

#[test]
fn test_locked_account_prevents_deposit() {
    let mut account = ClientAccount::new();
    account.deposit(Amount::from(100)).ok();
    account.hold_funds(Amount::from(100)).ok();
    account.chargeback(Amount::from(100)).ok();

    // Account is now locked, deposits should fail
    let result = account.deposit(Amount::from(50));
    assert!(result.is_err());
    assert_eq!(account.total(), Amount::zero());
}

#[test]
fn test_locked_account_prevents_withdrawal() {
    let mut account = ClientAccount::new();
    account.deposit(Amount::from(100)).ok();
    account.hold_funds(Amount::from(50)).ok();
    account.chargeback(Amount::from(50)).ok();

    // Account is now locked, withdrawals should fail
    let result = account.withdraw(Amount::from(10));
    assert!(result.is_err());
    assert_eq!(account.available(), Amount::from(50));
}

#[test]
fn test_negative_amount_rejection() {
    let mut account = ClientAccount::new();

    assert!(account.deposit(Amount::from(-100)).is_err());
    assert!(account.withdraw(Amount::from(-50)).is_err());
    assert!(account.hold_funds(Amount::from(-30)).is_err());
    assert!(account.release_held(Amount::from(-20)).is_err());
    assert!(account.chargeback(Amount::from(-10)).is_err());
}

#[test]
fn test_insufficient_held_funds() {
    let mut account = ClientAccount::new();
    account.deposit(Amount::from(100)).ok();
    account.hold_funds(Amount::from(30)).ok();

    // Try to release more than held
    assert!(account.release_held(Amount::from(50)).is_err());

    // Try to chargeback more than held
    assert!(account.chargeback(Amount::from(50)).is_err());
}
