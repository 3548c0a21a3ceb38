//! Client account state and the operations that change it.

use vstd::prelude::*;
use crate::amount::{Amount, DecimalParts, decimal_checked_sum, decimal_checked_difference, sum_of, difference_of, pow10, max_nat};

verus! {

/// Errors of the operations on a client account.
#[derive(Debug)]
pub enum ClientError {
    /// The account is locked.
    AccountLocked,
    /// The funds to take from are smaller than the amount requested.
    InsufficientFunds { available: Amount, requested: Amount },
    /// The amount is not acceptable (it is negative).
    InvalidAmount(String),
}

/// The state of a client account, by the parts of its three balances.
pub struct AccountView {
    pub available: DecimalParts,
    pub held: DecimalParts,
    pub total: DecimalParts,
    pub locked: bool,
}

impl AccountView {
    /// A fresh account: all balances zero, not locked.
    pub open spec fn fresh() -> AccountView {
        AccountView {
            available: DecimalParts { mantissa: 0, scale: 0 },
            held: DecimalParts { mantissa: 0, scale: 0 },
            total: DecimalParts { mantissa: 0, scale: 0 },
            locked: false,
        }
    }

    /// The total is exactly the available plus the held funds.
    pub open spec fn balanced(self) -> bool {
        self.available.value() + self.held.value() == self.total.value()
    }

    /// No balance is negative.
    pub open spec fn nonnegative(self) -> bool {
        &&& self.available.value() >= 0
        &&& self.held.value() >= 0
        &&& self.total.value() >= 0
    }

    /// `amount` was added to the available and total funds.
    pub open spec fn deposited(self, amount: DecimalParts) -> AccountView {
        AccountView {
            available: sum_of(self.available, amount),
            total: sum_of(self.total, amount),
            ..self
        }
    }

    /// `amount` was taken from the available and total funds.
    pub open spec fn withdrawn(self, amount: DecimalParts) -> AccountView {
        AccountView {
            available: difference_of(self.available, amount),
            total: difference_of(self.total, amount),
            ..self
        }
    }

    /// `amount` was moved from the available to the held funds.
    pub open spec fn holding(self, amount: DecimalParts) -> AccountView {
        AccountView {
            available: difference_of(self.available, amount),
            held: sum_of(self.held, amount),
            ..self
        }
    }

    /// `amount` was moved from the held back to the available funds.
    pub open spec fn released(self, amount: DecimalParts) -> AccountView {
        AccountView {
            available: sum_of(self.available, amount),
            held: difference_of(self.held, amount),
            ..self
        }
    }

    /// `amount` was removed from the held and total funds, and the account locked.
    pub open spec fn charged_back(self, amount: DecimalParts) -> AccountView {
        AccountView {
            held: difference_of(self.held, amount),
            total: difference_of(self.total, amount),
            locked: true,
            ..self
        }
    }

    /// A deposit of `amount` needs no rounding.
    pub open spec fn deposit_is_exact(self, amount: DecimalParts) -> bool {
        self.available.sum_is_exact(amount) && self.total.sum_is_exact(amount)
    }

    /// A withdrawal of `amount` needs no rounding.
    pub open spec fn withdrawal_is_exact(self, amount: DecimalParts) -> bool {
        self.available.difference_is_exact(amount) && self.total.difference_is_exact(amount)
    }

    /// Holding `amount` needs no rounding.
    pub open spec fn hold_is_exact(self, amount: DecimalParts) -> bool {
        self.available.difference_is_exact(amount) && self.held.sum_is_exact(amount)
    }

    /// Releasing `amount` needs no rounding.
    pub open spec fn release_is_exact(self, amount: DecimalParts) -> bool {
        self.held.difference_is_exact(amount) && self.available.sum_is_exact(amount)
    }

    /// Charging back `amount` needs no rounding.
    pub open spec fn chargeback_is_exact(self, amount: DecimalParts) -> bool {
        self.held.difference_is_exact(amount) && self.total.difference_is_exact(amount)
    }

    /// By value, `post` is `self` with `amount` added to the available and
    /// total funds, at scales no larger than those of the operands.
    pub open spec fn values_after_deposit(self, amount: DecimalParts, post: AccountView) -> bool {
        &&& post.available.value() == self.available.value() + amount.value()
        &&& post.held == self.held
        &&& post.total.value() == self.total.value() + amount.value()
        &&& post.locked == self.locked
        &&& post.available.scale <= max_nat(self.available.scale, amount.scale)
        &&& post.total.scale <= max_nat(self.total.scale, amount.scale)
    }

    /// By value, `post` is `self` with `amount` taken from the available and
    /// total funds, at scales no larger than those of the operands.
    pub open spec fn values_after_withdrawal(self, amount: DecimalParts, post: AccountView) -> bool {
        &&& post.available.value() == self.available.value() - amount.value()
        &&& post.held == self.held
        &&& post.total.value() == self.total.value() - amount.value()
        &&& post.locked == self.locked
        &&& post.available.scale <= max_nat(self.available.scale, amount.scale)
        &&& post.total.scale <= max_nat(self.total.scale, amount.scale)
    }

    /// By value, `post` is `self` with `amount` moved from the available to
    /// the held funds, at scales no larger than those of the operands.
    pub open spec fn values_after_hold(self, amount: DecimalParts, post: AccountView) -> bool {
        &&& post.available.value() == self.available.value() - amount.value()
        &&& post.held.value() == self.held.value() + amount.value()
        &&& post.total == self.total
        &&& post.locked == self.locked
        &&& post.available.scale <= max_nat(self.available.scale, amount.scale)
        &&& post.held.scale <= max_nat(self.held.scale, amount.scale)
    }

    /// By value, `post` is `self` with `amount` moved from the held to the
    /// available funds, at scales no larger than those of the operands.
    pub open spec fn values_after_release(self, amount: DecimalParts, post: AccountView) -> bool {
        &&& post.available.value() == self.available.value() + amount.value()
        &&& post.held.value() == self.held.value() - amount.value()
        &&& post.total == self.total
        &&& post.locked == self.locked
        &&& post.available.scale <= max_nat(self.available.scale, amount.scale)
        &&& post.held.scale <= max_nat(self.held.scale, amount.scale)
    }

    /// By value, `post` is `self` with `amount` removed from the held and
    /// total funds, at scales no larger than those of the operands, and locked.
    pub open spec fn values_after_chargeback(self, amount: DecimalParts, post: AccountView) -> bool {
        &&& post.available == self.available
        &&& post.held.value() == self.held.value() - amount.value()
        &&& post.total.value() == self.total.value() - amount.value()
        &&& post.locked
        &&& post.held.scale <= max_nat(self.held.scale, amount.scale)
        &&& post.total.scale <= max_nat(self.total.scale, amount.scale)
    }

    /// A deposit of `amount` would not overflow.
    pub open spec fn can_deposit(self, amount: DecimalParts) -> bool {
        !self.locked && amount.value() >= 0 ==> {
            &&& decimal_checked_sum(self.available, amount) is Some
            &&& decimal_checked_sum(self.total, amount) is Some
        }
    }

    /// A withdrawal of `amount` would not overflow.
    pub open spec fn can_withdraw(self, amount: DecimalParts) -> bool {
        !self.locked && 0 <= amount.value() <= self.available.value() ==> {
            &&& decimal_checked_difference(self.available, amount) is Some
            &&& decimal_checked_difference(self.total, amount) is Some
        }
    }

    /// Holding `amount` would not overflow.
    pub open spec fn can_hold(self, amount: DecimalParts) -> bool {
        0 <= amount.value() <= self.available.value() ==> {
            &&& decimal_checked_difference(self.available, amount) is Some
            &&& decimal_checked_sum(self.held, amount) is Some
        }
    }

    /// Releasing `amount` would not overflow.
    pub open spec fn can_release(self, amount: DecimalParts) -> bool {
        0 <= amount.value() <= self.held.value() ==> {
            &&& decimal_checked_difference(self.held, amount) is Some
            &&& decimal_checked_sum(self.available, amount) is Some
        }
    }

    /// Charging back `amount` would not overflow.
    pub open spec fn can_charge_back(self, amount: DecimalParts) -> bool {
        0 <= amount.value() <= self.held.value() ==> {
            &&& decimal_checked_difference(self.held, amount) is Some
            &&& decimal_checked_difference(self.total, amount) is Some
        }
    }
}

/// A client's account: available, held and total funds, and a lock.
#[derive(Clone, Copy, Debug)]
pub struct ClientAccount {
    available: Amount,
    held: Amount,
    total: Amount,
    locked: bool,
}

impl View for ClientAccount {
    type V = AccountView;

    closed spec fn view(&self) -> AccountView {
        AccountView {
            available: self.available@,
            held: self.held@,
            total: self.total@,
            locked: self.locked,
        }
    }
}


impl ClientAccount {
    /// A new account with zero balances, not locked.
    pub fn new() -> (r: ClientAccount)
        ensures
            r@ == AccountView::fresh(),
    {
        ClientAccount {
            available: Amount::zero(),
            held: Amount::zero(),
            total: Amount::zero(),
            locked: false,
        }
    }

    /// The available funds.
    pub fn available(&self) -> (r: Amount)
        ensures
            r@ == self@.available,
    {
        self.available
    }

    /// The held funds.
    pub fn held(&self) -> (r: Amount)
        ensures
            r@ == self@.held,
    {
        self.held
    }

    /// The total funds.
    pub fn total(&self) -> (r: Amount)
        ensures
            r@ == self@.total,
    {
        self.total
    }

    /// Whether the account is locked.
    pub fn is_locked(&self) -> (r: bool)
        ensures
            r == self@.locked,
    {
        self.locked
    }

    /// Whether a deposit of `amount` stays clear of decimal overflow.
    pub fn can_deposit(&self, amount: &Amount) -> (r: bool)
        ensures
            r == self@.can_deposit(amount@),
    {
        if self.locked || amount.is_negative() {
            return true;
        }
        self.available.checked_add(amount).is_some() && self.total.checked_add(amount).is_some()
    }

    /// Whether a withdrawal of `amount` stays clear of decimal overflow.
    pub fn can_withdraw(&self, amount: &Amount) -> (r: bool)
        ensures
            r == self@.can_withdraw(amount@),
    {
        if self.locked || amount.is_negative() || self.available.less_than(amount) {
            return true;
        }
        self.available.checked_sub(amount).is_some() && self.total.checked_sub(amount).is_some()
    }

    /// Whether holding `amount` stays clear of decimal overflow.
    pub fn can_hold(&self, amount: &Amount) -> (r: bool)
        ensures
            r == self@.can_hold(amount@),
    {
        if amount.is_negative() || self.available.less_than(amount) {
            return true;
        }
        self.available.checked_sub(amount).is_some() && self.held.checked_add(amount).is_some()
    }

    /// Whether releasing `amount` stays clear of decimal overflow.
    pub fn can_release(&self, amount: &Amount) -> (r: bool)
        ensures
            r == self@.can_release(amount@),
    {
        if amount.is_negative() || self.held.less_than(amount) {
            return true;
        }
        self.held.checked_sub(amount).is_some() && self.available.checked_add(amount).is_some()
    }

    /// Whether charging back `amount` stays clear of decimal overflow.
    pub fn can_charge_back(&self, amount: &Amount) -> (r: bool)
        ensures
            r == self@.can_charge_back(amount@),
    {
        if amount.is_negative() || self.held.less_than(amount) {
            return true;
        }
        self.held.checked_sub(amount).is_some() && self.total.checked_sub(amount).is_some()
    }

    /// Deposits `amount`: it is added to the available and the total funds.
    /// A locked account refuses it, and so does a negative amount.
    pub fn deposit(&mut self, amount: Amount) -> (r: Result<(), ClientError>)
        requires
            old(self)@.can_deposit(amount@),
        ensures
            old(self)@.locked ==> r matches Err(ClientError::AccountLocked),
            !old(self)@.locked && amount@.value() < 0 ==> (r matches Err(ClientError::InvalidAmount(m))
                && m@ == "Cannot deposit negative amount"@),
            r is Err ==> final(self)@ == old(self)@,
            r is Ok <==> !old(self)@.locked && amount@.value() >= 0,
            r is Ok ==> final(self)@ == old(self)@.deposited(amount@),
            r is Ok && old(self)@.deposit_is_exact(amount@) ==> old(self)@.values_after_deposit(amount@, final(self)@),
    {
        if self.locked {
            return Err(ClientError::AccountLocked);
        }
        if amount.is_negative() {
            return Err(ClientError::InvalidAmount(String::from_str("Cannot deposit negative amount")));
        }
        let available = self.available.checked_add(&amount).unwrap();
        let total = self.total.checked_add(&amount).unwrap();
        self.available = available;
        self.total = total;
        Ok(())
    }

    /// Withdraws `amount` when the available funds cover it (`Ok(true)`);
    /// otherwise leaves the account as it is (`Ok(false)`). A locked account
    /// refuses it, and so does a negative amount.
    pub fn withdraw(&mut self, amount: Amount) -> (r: Result<bool, ClientError>)
        requires
            old(self)@.can_withdraw(amount@),
        ensures
            old(self)@.locked ==> r matches Err(ClientError::AccountLocked),
            !old(self)@.locked && amount@.value() < 0 ==> (r matches Err(ClientError::InvalidAmount(m))
                && m@ == "Cannot withdraw negative amount"@),
            r is Ok <==> !old(self)@.locked && amount@.value() >= 0,
            r == Ok::<bool, ClientError>(true) <==> !old(self)@.locked && 0 <= amount@.value() <= old(self)@.available.value(),
            r == Ok::<bool, ClientError>(true) ==> final(self)@ == old(self)@.withdrawn(amount@),
            r != Ok::<bool, ClientError>(true) ==> final(self)@ == old(self)@,
            r == Ok::<bool, ClientError>(true) && old(self)@.withdrawal_is_exact(amount@) ==>
                old(self)@.values_after_withdrawal(amount@, final(self)@),
    {
        if self.locked {
            return Err(ClientError::AccountLocked);
        }
        if amount.is_negative() {
            return Err(ClientError::InvalidAmount(String::from_str("Cannot withdraw negative amount")));
        }
        if !self.available.less_than(&amount) {
            let available = self.available.checked_sub(&amount).unwrap();
            let total = self.total.checked_sub(&amount).unwrap();
            self.available = available;
            self.total = total;
            Ok(true)
        } else {
            Ok(false)
        }
    }

    /// Holds `amount` for a dispute: it moves from the available to the held
    /// funds. Refused for a negative amount, and where the available funds do
    /// not cover it.
    pub fn hold_funds(&mut self, amount: Amount) -> (r: Result<(), ClientError>)
        requires
            old(self)@.can_hold(amount@),
        ensures
            amount@.value() < 0 ==> (r matches Err(ClientError::InvalidAmount(m))
                && m@ == "Cannot hold negative amount"@),
            0 <= amount@.value() && old(self)@.available.value() < amount@.value() ==>
                (r matches Err(ClientError::InsufficientFunds { available, requested })
                && available@ == old(self)@.available && requested@ == amount@),
            r is Ok <==> 0 <= amount@.value() <= old(self)@.available.value(),
            r is Err ==> final(self)@ == old(self)@,
            r is Ok ==> final(self)@ == old(self)@.holding(amount@),
            r is Ok && old(self)@.hold_is_exact(amount@) ==> old(self)@.values_after_hold(amount@, final(self)@),
    {
        if amount.is_negative() {
            return Err(ClientError::InvalidAmount(String::from_str("Cannot hold negative amount")));
        }
        if self.available.less_than(&amount) {
            return Err(ClientError::InsufficientFunds { available: self.available, requested: amount });
        }
        let available = self.available.checked_sub(&amount).unwrap();
        let held = self.held.checked_add(&amount).unwrap();
        self.available = available;
        self.held = held;
        Ok(())
    }

    /// Releases `amount` at the end of a dispute: it moves from the held back
    /// to the available funds. Refused for a negative amount, and where the
    /// held funds do not cover it.
    pub fn release_held(&mut self, amount: Amount) -> (r: Result<(), ClientError>)
        requires
            old(self)@.can_release(amount@),
        ensures
            amount@.value() < 0 ==> (r matches Err(ClientError::InvalidAmount(m))
                && m@ == "Cannot release negative amount"@),
            0 <= amount@.value() && old(self)@.held.value() < amount@.value() ==>
                (r matches Err(ClientError::InsufficientFunds { available, requested })
                && available@ == old(self)@.held && requested@ == amount@),
            r is Ok <==> 0 <= amount@.value() <= old(self)@.held.value(),
            r is Err ==> final(self)@ == old(self)@,
            r is Ok ==> final(self)@ == old(self)@.released(amount@),
            r is Ok && old(self)@.release_is_exact(amount@) ==> old(self)@.values_after_release(amount@, final(self)@),
    {
        if amount.is_negative() {
            return Err(ClientError::InvalidAmount(String::from_str("Cannot release negative amount")));
        }
        if self.held.less_than(&amount) {
            return Err(ClientError::InsufficientFunds { available: self.held, requested: amount });
        }
        let held = self.held.checked_sub(&amount).unwrap();
        let available = self.available.checked_add(&amount).unwrap();
        self.held = held;
        self.available = available;
        Ok(())
    }

    /// Charges back `amount`: it leaves the held and the total funds, and the
    /// account is locked. Refused for a negative amount, and where the held
    /// funds do not cover it.
    pub fn chargeback(&mut self, amount: Amount) -> (r: Result<(), ClientError>)
        requires
            old(self)@.can_charge_back(amount@),
        ensures
            amount@.value() < 0 ==> (r matches Err(ClientError::InvalidAmount(m))
                && m@ == "Cannot chargeback negative amount"@),
            0 <= amount@.value() && old(self)@.held.value() < amount@.value() ==>
                (r matches Err(ClientError::InsufficientFunds { available, requested })
                && available@ == old(self)@.held && requested@ == amount@),
            r is Ok <==> 0 <= amount@.value() <= old(self)@.held.value(),
            r is Err ==> final(self)@ == old(self)@,
            r is Ok ==> final(self)@ == old(self)@.charged_back(amount@),
            r is Ok && old(self)@.chargeback_is_exact(amount@) ==> old(self)@.values_after_chargeback(amount@, final(self)@),
    {
        if amount.is_negative() {
            return Err(ClientError::InvalidAmount(String::from_str("Cannot chargeback negative amount")));
        }
        if self.held.less_than(&amount) {
            return Err(ClientError::InsufficientFunds { available: self.held, requested: amount });
        }
        let held = self.held.checked_sub(&amount).unwrap();
        let total = self.total.checked_sub(&amount).unwrap();
        self.held = held;
        self.total = total;
        self.locked = true;
        Ok(())
    }

    /// Checks that the total matches the available plus the held funds to
    /// within `0.00001`.
    pub fn validate(&self) -> (r: bool)
        requires
            decimal_checked_sum(self@.available, self@.held) is Some,
            decimal_checked_difference(sum_of(self@.available, self@.held), self@.total) is Some,
        ensures
            ({
                let d = difference_of(sum_of(self@.available, self@.held), self@.total).value();
                r == (-pow10(23) < d < pow10(23))
            }),
            self@.balanced() && self@.available.sum_is_exact(self@.held)
                && sum_of(self@.available, self@.held).difference_is_exact(self@.total) ==> r,
    {
        let sum = self.available.checked_add(&self.held).unwrap();
        let difference = sum.checked_sub(&self.total).unwrap();
        let tolerance = Amount::new(1, 5);
        proof {
            reveal_with_fuel(pow10, 24);
            assert(pow10(23) == 100000000000000000000000int);
        }
        difference.abs().less_than(&tolerance)
    }

    /// Locks the account.
    pub fn lock(&mut self)
        ensures
            final(self)@ == (AccountView { locked: true, ..old(self)@ }),
    {
        self.locked = true;
    }
}

impl Default for ClientAccount {
    /// A new account with zero balances, not locked.
    fn default() -> (r: ClientAccount)
        ensures
            r@ == AccountView::fresh(),
    {
        ClientAccount::new()
    }
}

} // verus!
