//! The transaction engine: client accounts, the stored money-moving
//! transactions that disputes refer to, and the disputes themselves.

use vstd::prelude::*;
use std::collections::HashMap;
use vstd::std_specs::iter::IteratorSpec;
use crate::amount::{decimal_digits, digit_char, Amount, DecimalParts};
use crate::client::{AccountView, ClientAccount, ClientError};
use crate::dispute::{DisputeState, DisputeView};
use crate::error::TransactionError;
use crate::transaction::{Transaction, TransactionType};

verus! {

broadcast use vstd::std_specs::hash::group_hash_axioms;

/// A stored money-moving transaction, by the parts of its amount.
pub struct StoredView {
    pub client: u16,
    pub amount: DecimalParts,
    pub tx_type: TransactionType,
}

/// The state of the engine.
pub struct EngineView {
    /// Client accounts by client identifier.
    pub clients: Map<u16, AccountView>,
    /// Deposits and withdrawals by transaction identifier.
    pub transactions: Map<u32, StoredView>,
    /// Disputes by the identifier of the disputed transaction.
    pub disputes: Map<u32, DisputeView>,
}

/// The message of a dispute operation whose client is not the one of the
/// transaction it names.
pub open spec fn client_mismatch_text(tx: u32, owner: u16, client: u16) -> Seq<char> {
    "Client ID mismatch: transaction "@ + decimal_digits(tx as nat) + " belongs to client "@
        + decimal_digits(owner as nat) + ", not client "@ + decimal_digits(client as nat)
}

impl EngineView {
    /// No clients, no transactions, no disputes.
    pub open spec fn empty() -> EngineView {
        EngineView { clients: Map::empty(), transactions: Map::empty(), disputes: Map::empty() }
    }

    /// Every stored transaction is a deposit or a withdrawal of a known
    /// client, and every dispute refers to a stored transaction.
    pub open spec fn wf(self) -> bool {
        &&& forall|t: u32| #[trigger] self.transactions.contains_key(t) ==> {
            &&& self.clients.contains_key(self.transactions[t].client)
            &&& (self.transactions[t].tx_type == TransactionType::Deposit
                || self.transactions[t].tx_type == TransactionType::Withdrawal)
        }
        &&& forall|t: u32| #[trigger] self.disputes.contains_key(t) ==> self.transactions.contains_key(t)
    }

    /// The account of client `c`, or a fresh one where `c` has none yet.
    pub open spec fn account(self, c: u16) -> AccountView {
        if self.clients.contains_key(c) {
            self.clients[c]
        } else {
            AccountView::fresh()
        }
    }

    /// The state with the account of `c` set to `a`.
    pub open spec fn with_account(self, c: u16, a: AccountView) -> EngineView {
        EngineView { clients: self.clients.insert(c, a), ..self }
    }

    /// The identifiers of the disputes that have not ended.
    pub open spec fn active_disputes(self) -> Set<u32> {
        self.disputes.dom().filter(|t: u32| !self.disputes[t].is_resolved)
    }

    /// Processing `tx` stays clear of decimal overflow (where the account
    /// operation it leads to would overflow, the operation panics).
    pub open spec fn can_process(self, tx: Transaction) -> bool {
        match tx.tx_type {
            TransactionType::Deposit => tx.amount matches Some(a) ==> self.account(tx.client).can_deposit(a@),
            TransactionType::Withdrawal => tx.amount matches Some(a) ==> self.account(tx.client).can_withdraw(a@),
            TransactionType::Dispute => {
                let st = self.transactions[tx.tx];
                self.transactions.contains_key(tx.tx) && st.client == tx.client
                    && !self.disputes.contains_key(tx.tx) && self.clients.contains_key(st.client)
                    ==> self.clients[st.client].can_hold(st.amount)
            },
            TransactionType::Resolve => {
                let st = self.transactions[tx.tx];
                let d = self.disputes[tx.tx];
                self.disputes.contains_key(tx.tx) && !d.is_resolved && self.transactions.contains_key(tx.tx)
                    && st.client == tx.client && self.clients.contains_key(st.client)
                    ==> self.clients[st.client].can_release(d.amount)
            },
            TransactionType::Chargeback => {
                let st = self.transactions[tx.tx];
                let d = self.disputes[tx.tx];
                self.disputes.contains_key(tx.tx) && !d.is_resolved && self.transactions.contains_key(tx.tx)
                    && st.client == tx.client && self.clients.contains_key(st.client)
                    ==> self.clients[st.client].can_charge_back(d.amount)
            },
        }
    }

    /// What a deposit `tx` leads to: the client's account is created where
    /// it is missing; a locked account or a negative amount is refused; else
    /// the amount is credited and the transaction stored.
    pub open spec fn deposit_outcome(self, tx: Transaction, post: EngineView, r: Result<(), TransactionError>) -> bool {
        match tx.amount {
            None => {
                &&& post == self
                &&& r matches Err(TransactionError::InvalidDecimalPrecision(m))
                &&& m@ == "Deposit must have an amount"@
            },
            Some(a) => {
                let acct = self.account(tx.client);
                if acct.locked {
                    &&& post == self.with_account(tx.client, acct)
                    &&& r matches Err(TransactionError::ClientError(ClientError::AccountLocked))
                } else if a@.value() < 0 {
                    &&& post == self.with_account(tx.client, acct)
                    &&& r matches Err(TransactionError::ClientError(ClientError::InvalidAmount(m)))
                    &&& m@ == "Cannot deposit negative amount"@
                } else {
                    &&& r is Ok
                    &&& post == (EngineView {
                        clients: self.clients.insert(tx.client, acct.deposited(a@)),
                        transactions: self.transactions.insert(
                            tx.tx,
                            StoredView { client: tx.client, amount: a@, tx_type: TransactionType::Deposit },
                        ),
                        disputes: self.disputes,
                    })
                    &&& acct.deposit_is_exact(a@) ==> acct.values_after_deposit(a@, post.clients[tx.client])
                }
            },
        }
    }

    /// What a withdrawal `tx` leads to: the client's account is created
    /// where it is missing; the amount is debited where the account is not
    /// locked, the amount is not negative and the available funds cover it;
    /// the transaction is stored in every case.
    pub open spec fn withdrawal_outcome(self, tx: Transaction, post: EngineView, r: Result<(), TransactionError>) -> bool {
        match tx.amount {
            None => {
                &&& post == self
                &&& r matches Err(TransactionError::InvalidDecimalPrecision(m))
                &&& m@ == "Withdrawal must have an amount"@
            },
            Some(a) => {
                let acct = self.account(tx.client);
                let debited = !acct.locked && 0 <= a@.value() <= acct.available.value();
                &&& r is Ok
                &&& post == (EngineView {
                    clients: self.clients.insert(tx.client, if debited { acct.withdrawn(a@) } else { acct }),
                    transactions: self.transactions.insert(
                        tx.tx,
                        StoredView { client: tx.client, amount: a@, tx_type: TransactionType::Withdrawal },
                    ),
                    disputes: self.disputes,
                })
                &&& debited && acct.withdrawal_is_exact(a@) ==> acct.values_after_withdrawal(a@, post.clients[tx.client])
            },
        }
    }

    /// What a dispute `tx` leads to: refused where the transaction is not
    /// stored or belongs to another client; ignored where it is already
    /// disputed, and rejected (without a change) where its amount is negative
    /// or the available funds do not cover it; else the amount is held and
    /// the dispute recorded.
    pub open spec fn dispute_outcome(self, tx: Transaction, post: EngineView, r: Result<(), TransactionError>) -> bool {
        if !self.transactions.contains_key(tx.tx) {
            post == self && r == Err::<(), TransactionError>(TransactionError::TransactionNotFound(tx.tx))
        } else {
            let st = self.transactions[tx.tx];
            if st.client != tx.client {
                &&& post == self
                &&& r matches Err(TransactionError::InvalidTransactionType(m))
                &&& m@ == client_mismatch_text(tx.tx, st.client, tx.client)
            } else if self.disputes.contains_key(tx.tx) {
                post == self && r is Ok
            } else if !(0 <= st.amount.value() <= self.clients[st.client].available.value()) {
                post == self && r is Ok
            } else {
                let acct = self.clients[st.client];
                &&& r is Ok
                &&& post == (EngineView {
                    clients: self.clients.insert(st.client, acct.holding(st.amount)),
                    transactions: self.transactions,
                    disputes: self.disputes.insert(tx.tx, DisputeView { amount: st.amount, is_resolved: false }),
                })
                &&& acct.hold_is_exact(st.amount) ==> acct.values_after_hold(st.amount, post.clients[st.client])
            }
        }
    }

    /// What a resolve `tx` leads to: refused where the transaction is not
    /// disputed, is not stored, or belongs to another client; ignored where
    /// the dispute has ended; refused where the release is (negative amount,
    /// held funds short); else the held amount is released and the dispute
    /// ends.
    pub open spec fn resolve_outcome(self, tx: Transaction, post: EngineView, r: Result<(), TransactionError>) -> bool {
        if !self.disputes.contains_key(tx.tx) {
            post == self && r == Err::<(), TransactionError>(TransactionError::TransactionNotDisputed(tx.tx))
        } else if self.disputes[tx.tx].is_resolved {
            post == self && r is Ok
        } else if !self.transactions.contains_key(tx.tx) {
            post == self && r == Err::<(), TransactionError>(TransactionError::TransactionNotFound(tx.tx))
        } else {
            let st = self.transactions[tx.tx];
            let amount = self.disputes[tx.tx].amount;
            let acct = self.clients[st.client];
            if st.client != tx.client {
                &&& post == self
                &&& r matches Err(TransactionError::InvalidTransactionType(m))
                &&& m@ == client_mismatch_text(tx.tx, st.client, tx.client)
            } else if amount.value() < 0 {
                &&& post == self
                &&& r matches Err(TransactionError::ClientError(ClientError::InvalidAmount(m)))
                &&& m@ == "Cannot release negative amount"@
            } else if acct.held.value() < amount.value() {
                &&& post == self
                &&& r matches Err(TransactionError::ClientError(ClientError::InsufficientFunds { available, requested }))
                &&& available@ == acct.held
                &&& requested@ == amount
            } else {
                &&& r is Ok
                &&& post == (EngineView {
                    clients: self.clients.insert(st.client, acct.released(amount)),
                    transactions: self.transactions,
                    disputes: self.disputes.insert(tx.tx, DisputeView { amount, is_resolved: true }),
                })
                &&& acct.release_is_exact(amount) ==> acct.values_after_release(amount, post.clients[st.client])
            }
        }
    }

    /// What a chargeback `tx` leads to: as a resolve, but the held amount
    /// leaves the account, whose total drops, and the account is locked.
    pub open spec fn chargeback_outcome(self, tx: Transaction, post: EngineView, r: Result<(), TransactionError>) -> bool {
        if !self.disputes.contains_key(tx.tx) {
            post == self && r == Err::<(), TransactionError>(TransactionError::TransactionNotDisputed(tx.tx))
        } else if self.disputes[tx.tx].is_resolved {
            post == self && r is Ok
        } else if !self.transactions.contains_key(tx.tx) {
            post == self && r == Err::<(), TransactionError>(TransactionError::TransactionNotFound(tx.tx))
        } else {
            let st = self.transactions[tx.tx];
            let amount = self.disputes[tx.tx].amount;
            let acct = self.clients[st.client];
            if st.client != tx.client {
                &&& post == self
                &&& r matches Err(TransactionError::InvalidTransactionType(m))
                &&& m@ == client_mismatch_text(tx.tx, st.client, tx.client)
            } else if amount.value() < 0 {
                &&& post == self
                &&& r matches Err(TransactionError::ClientError(ClientError::InvalidAmount(m)))
                &&& m@ == "Cannot chargeback negative amount"@
            } else if acct.held.value() < amount.value() {
                &&& post == self
                &&& r matches Err(TransactionError::ClientError(ClientError::InsufficientFunds { available, requested }))
                &&& available@ == acct.held
                &&& requested@ == amount
            } else {
                &&& r is Ok
                &&& post == (EngineView {
                    clients: self.clients.insert(st.client, acct.charged_back(amount)),
                    transactions: self.transactions,
                    disputes: self.disputes.insert(tx.tx, DisputeView { amount, is_resolved: true }),
                })
                &&& acct.chargeback_is_exact(amount) ==> acct.values_after_chargeback(amount, post.clients[st.client])
            }
        }
    }

    /// What processing `tx` leads to, by its type.
    pub open spec fn outcome(self, tx: Transaction, post: EngineView, r: Result<(), TransactionError>) -> bool {
        match tx.tx_type {
            TransactionType::Deposit => self.deposit_outcome(tx, post, r),
            TransactionType::Withdrawal => self.withdrawal_outcome(tx, post, r),
            TransactionType::Dispute => self.dispute_outcome(tx, post, r),
            TransactionType::Resolve => self.resolve_outcome(tx, post, r),
            TransactionType::Chargeback => self.chargeback_outcome(tx, post, r),
        }
    }
}

/// A stored money-moving transaction, kept for dispute lookups.
#[derive(Clone, Copy, Debug)]
struct StoredTransaction {
    client: u16,
    amount: Amount,
    tx_type: TransactionType,
}

impl View for StoredTransaction {
    type V = StoredView;

    closed spec fn view(&self) -> StoredView {
        StoredView { client: self.client, amount: self.amount@, tx_type: self.tx_type }
    }
}

/// The transaction processing engine.
#[derive(Debug)]
pub struct TransactionEngine {
    /// All client accounts (client id to account state).
    clients: HashMap<u16, ClientAccount>,
    /// All money-moving transactions, for dispute lookups (tx id to transaction).
    transactions: HashMap<u32, StoredTransaction>,
    /// Dispute states (tx id to dispute state).
    disputes: HashMap<u32, DisputeState>,
}

impl View for TransactionEngine {
    type V = EngineView;

    closed spec fn view(&self) -> EngineView {
        EngineView {
            clients: self.clients@.map_values(|a: ClientAccount| a@),
            transactions: self.transactions@.map_values(|t: StoredTransaction| t@),
            disputes: self.disputes@.map_values(|d: DisputeState| d@),
        }
    }
}


/// The text of the decimal digit `d`.
fn digit_text(d: u32) -> (r: &'static str)
    requires
        d < 10,
    ensures
        r@ == seq![digit_char(d as int)],
{
    match d {
        0 => {
            proof {
                reveal_strlit("0");
            }
            "0"
        },
        1 => {
            proof {
                reveal_strlit("1");
            }
            "1"
        },
        2 => {
            proof {
                reveal_strlit("2");
            }
            "2"
        },
        3 => {
            proof {
                reveal_strlit("3");
            }
            "3"
        },
        4 => {
            proof {
                reveal_strlit("4");
            }
            "4"
        },
        5 => {
            proof {
                reveal_strlit("5");
            }
            "5"
        },
        6 => {
            proof {
                reveal_strlit("6");
            }
            "6"
        },
        7 => {
            proof {
                reveal_strlit("7");
            }
            "7"
        },
        8 => {
            proof {
                reveal_strlit("8");
            }
            "8"
        },
        _ => {
            proof {
                reveal_strlit("9");
            }
            "9"
        },
    }
}

/// Appends the decimal digits of `n` to `s`.
fn append_digits(s: &mut String, n: u32)
    ensures
        final(s)@ == old(s)@ + decimal_digits(n as nat),
    decreases n,
{
    if n >= 10 {
        append_digits(s, n / 10);
    }
    s.append(digit_text(n % 10));
    proof {
        if n >= 10 {
            assert(old(s)@ + decimal_digits((n / 10) as nat) + seq![digit_char((n % 10) as int)]
                =~= old(s)@ + decimal_digits(n as nat));
        }
    }
}

/// The message of a dispute operation whose client is not the one of the
/// transaction it names.
fn client_mismatch_message(tx: u32, owner: u16, client: u16) -> (r: String)
    ensures
        r@ == client_mismatch_text(tx, owner, client),
{
    let mut s = String::from_str("Client ID mismatch: transaction ");
    append_digits(&mut s, tx);
    s.append(" belongs to client ");
    append_digits(&mut s, owner as u32);
    s.append(", not client ");
    append_digits(&mut s, client as u32);
    s
}

impl TransactionEngine {
    /// A new engine with no clients, transactions or disputes.
    pub fn new() -> (r: TransactionEngine)
        ensures
            r@ == EngineView::empty(),
            r@.wf(),
    {
        let r = TransactionEngine { clients: HashMap::new(), transactions: HashMap::new(), disputes: HashMap::new() };
        assert(r@.clients =~= Map::empty());
        assert(r@.transactions =~= Map::empty());
        assert(r@.disputes =~= Map::empty());
        r
    }

    /// The account of `client`, or a fresh one where it has none yet.
    fn account_or_new(&self, client: u16) -> (r: ClientAccount)
        ensures
            r@ == self@.account(client),
    {
        match self.clients.get(&client) {
            Some(a) => *a,
            None => ClientAccount::new(),
        }
    }

    /// Sets the account of `client`.
    fn set_account(&mut self, client: u16, account: ClientAccount)
        ensures
            final(self)@ == old(self)@.with_account(client, account@),
    {
        self.clients.insert(client, account);
        assert(self@.clients =~= old(self)@.clients.insert(client, account@));
    }

    /// Handles a deposit.
    fn handle_deposit(&mut self, transaction: Transaction) -> (r: Result<(), TransactionError>)
        requires
            old(self)@.wf(),
            transaction.tx_type == TransactionType::Deposit,
            old(self)@.can_process(transaction),
        ensures
            final(self)@.wf(),
            old(self)@.deposit_outcome(transaction, final(self)@, r),
    {
        let amount = match transaction.amount {
            Some(a) => a,
            None => {
                return Err(TransactionError::InvalidDecimalPrecision(String::from_str("Deposit must have an amount")));
            },
        };
        let mut account = self.account_or_new(transaction.client);
        let result = account.deposit(amount);
        self.set_account(transaction.client, account);
        if let Err(e) = result {
            return Err(TransactionError::ClientError(e));
        }
        let stored = StoredTransaction { client: transaction.client, amount, tx_type: TransactionType::Deposit };
        let ghost mid = self@;
        self.transactions.insert(transaction.tx, stored);
        assert(self@.transactions =~= mid.transactions.insert(transaction.tx, stored@));
        Ok(())
    }

    /// Handles a withdrawal. Insufficient funds, a locked account or a
    /// negative amount leave the account as it is; the transaction is stored
    /// in any case.
    fn handle_withdrawal(&mut self, transaction: Transaction) -> (r: Result<(), TransactionError>)
        requires
            old(self)@.wf(),
            transaction.tx_type == TransactionType::Withdrawal,
            old(self)@.can_process(transaction),
        ensures
            final(self)@.wf(),
            old(self)@.withdrawal_outcome(transaction, final(self)@, r),
    {
        let amount = match transaction.amount {
            Some(a) => a,
            None => {
                return Err(TransactionError::InvalidDecimalPrecision(String::from_str("Withdrawal must have an amount")));
            },
        };
        let mut account = self.account_or_new(transaction.client);
        let _ = account.withdraw(amount);
        self.set_account(transaction.client, account);
        let stored = StoredTransaction { client: transaction.client, amount, tx_type: TransactionType::Withdrawal };
        let ghost mid = self@;
        self.transactions.insert(transaction.tx, stored);
        assert(self@.transactions =~= mid.transactions.insert(transaction.tx, stored@));
        Ok(())
    }

    /// Handles a dispute.
    fn handle_dispute(&mut self, transaction: Transaction) -> (r: Result<(), TransactionError>)
        requires
            old(self)@.wf(),
            transaction.tx_type == TransactionType::Dispute,
            old(self)@.can_process(transaction),
        ensures
            final(self)@.wf(),
            old(self)@.dispute_outcome(transaction, final(self)@, r),
            old(self)@.transactions.contains_key(transaction.tx)
                && old(self)@.transactions[transaction.tx].client == transaction.client
                && old(self)@.disputes.contains_key(transaction.tx) ==> final(self)@ == old(self)@ && r is Ok,
    {
        let stored = match self.transactions.get(&transaction.tx) {
            Some(s) => *s,
            None => return Err(TransactionError::TransactionNotFound(transaction.tx)),
        };
        if stored.client != transaction.client {
            return Err(TransactionError::InvalidTransactionType(
                client_mismatch_message(transaction.tx, stored.client, transaction.client),
            ));
        }
        match stored.tx_type {
            TransactionType::Deposit | TransactionType::Withdrawal => {},
            _ => {
                return Err(TransactionError::InvalidTransactionType(
                    String::from_str("Only deposits and withdrawals can be disputed"),
                ));
            },
        }
        if self.disputes.contains_key(&transaction.tx) {
            return Ok(());
        }
        let mut account = match self.clients.get(&stored.client) {
            Some(a) => *a,
            None => return Err(TransactionError::ClientNotFound(stored.client)),
        };
        if account.hold_funds(stored.amount).is_err() {
            return Ok(());
        }
        self.set_account(stored.client, account);
        let dispute = DisputeState::new(stored.amount);
        let ghost mid = self@;
        self.disputes.insert(transaction.tx, dispute);
        assert(self@.disputes =~= mid.disputes.insert(transaction.tx, dispute@));
        Ok(())
    }

    /// Handles a resolve.
    fn handle_resolve(&mut self, transaction: Transaction) -> (r: Result<(), TransactionError>)
        requires
            old(self)@.wf(),
            transaction.tx_type == TransactionType::Resolve,
            old(self)@.can_process(transaction),
        ensures
            final(self)@.wf(),
            old(self)@.resolve_outcome(transaction, final(self)@, r),
    {
        let mut dispute = match self.disputes.get(&transaction.tx) {
            Some(d) => *d,
            None => return Err(TransactionError::TransactionNotDisputed(transaction.tx)),
        };
        if !dispute.is_active() {
            return Ok(());
        }
        let amount = dispute.amount;
        let stored = match self.transactions.get(&transaction.tx) {
            Some(s) => *s,
            None => return Err(TransactionError::TransactionNotFound(transaction.tx)),
        };
        if stored.client != transaction.client {
            return Err(TransactionError::InvalidTransactionType(
                client_mismatch_message(transaction.tx, stored.client, transaction.client),
            ));
        }
        let mut account = match self.clients.get(&stored.client) {
            Some(a) => *a,
            None => return Err(TransactionError::ClientNotFound(stored.client)),
        };
        if let Err(e) = account.release_held(amount) {
            return Err(TransactionError::ClientError(e));
        }
        self.set_account(stored.client, account);
        dispute.resolve();
        let ghost mid = self@;
        self.disputes.insert(transaction.tx, dispute);
        assert(self@.disputes =~= mid.disputes.insert(transaction.tx, dispute@));
        Ok(())
    }

    /// Handles a chargeback.
    fn handle_chargeback(&mut self, transaction: Transaction) -> (r: Result<(), TransactionError>)
        requires
            old(self)@.wf(),
            transaction.tx_type == TransactionType::Chargeback,
            old(self)@.can_process(transaction),
        ensures
            final(self)@.wf(),
            old(self)@.chargeback_outcome(transaction, final(self)@, r),
    {
        let mut dispute = match self.disputes.get(&transaction.tx) {
            Some(d) => *d,
            None => return Err(TransactionError::TransactionNotDisputed(transaction.tx)),
        };
        if !dispute.is_active() {
            return Ok(());
        }
        let amount = dispute.amount;
        let stored = match self.transactions.get(&transaction.tx) {
            Some(s) => *s,
            None => return Err(TransactionError::TransactionNotFound(transaction.tx)),
        };
        if stored.client != transaction.client {
            return Err(TransactionError::InvalidTransactionType(
                client_mismatch_message(transaction.tx, stored.client, transaction.client),
            ));
        }
        let mut account = match self.clients.get(&stored.client) {
            Some(a) => *a,
            None => return Err(TransactionError::ClientNotFound(stored.client)),
        };
        if let Err(e) = account.chargeback(amount) {
            return Err(TransactionError::ClientError(e));
        }
        self.set_account(stored.client, account);
        dispute.resolve();
        let ghost mid = self@;
        self.disputes.insert(transaction.tx, dispute);
        assert(self@.disputes =~= mid.disputes.insert(transaction.tx, dispute@));
        Ok(())
    }

    /// Processes a single transaction.
    pub fn process_transaction(&mut self, transaction: Transaction) -> (r: Result<(), TransactionError>)
        requires
            old(self)@.wf(),
            old(self)@.can_process(transaction),
        ensures
            final(self)@.wf(),
            old(self)@.outcome(transaction, final(self)@, r),
    {
        match transaction.tx_type {
            TransactionType::Deposit => self.handle_deposit(transaction),
            TransactionType::Withdrawal => self.handle_withdrawal(transaction),
            TransactionType::Dispute => self.handle_dispute(transaction),
            TransactionType::Resolve => self.handle_resolve(transaction),
            TransactionType::Chargeback => self.handle_chargeback(transaction),
        }
    }
}


impl TransactionEngine {
    /// Whether processing `transaction` stays clear of decimal overflow.
    pub fn can_process(&self, transaction: &Transaction) -> (r: bool)
        ensures
            r == self@.can_process(*transaction),
    {
        match transaction.tx_type {
            TransactionType::Deposit => match transaction.amount {
                Some(a) => self.account_or_new(transaction.client).can_deposit(&a),
                None => true,
            },
            TransactionType::Withdrawal => match transaction.amount {
                Some(a) => self.account_or_new(transaction.client).can_withdraw(&a),
                None => true,
            },
            TransactionType::Dispute => {
                let stored = match self.transactions.get(&transaction.tx) {
                    Some(s) => *s,
                    None => return true,
                };
                if stored.client != transaction.client || self.disputes.contains_key(&transaction.tx) {
                    return true;
                }
                match self.clients.get(&stored.client) {
                    Some(a) => a.can_hold(&stored.amount),
                    None => true,
                }
            },
            TransactionType::Resolve | TransactionType::Chargeback => {
                let dispute = match self.disputes.get(&transaction.tx) {
                    Some(d) => *d,
                    None => return true,
                };
                if dispute.is_resolved {
                    return true;
                }
                let stored = match self.transactions.get(&transaction.tx) {
                    Some(s) => *s,
                    None => return true,
                };
                if stored.client != transaction.client {
                    return true;
                }
                match self.clients.get(&stored.client) {
                    Some(a) => match transaction.tx_type {
                        TransactionType::Resolve => a.can_release(&dispute.amount),
                        _ => a.can_charge_back(&dispute.amount),
                    },
                    None => true,
                }
            },
        }
    }

    /// Processes `transaction` where that stays clear of decimal overflow
    /// (`Some` of what `process_transaction` returns); otherwise leaves the
    /// engine as it is and returns `None`.
    pub fn try_process_transaction(&mut self, transaction: Transaction) -> (r: Option<Result<(), TransactionError>>)
        requires
            old(self)@.wf(),
        ensures
            final(self)@.wf(),
            old(self)@.can_process(transaction) ==> (r matches Some(res) && old(self)@.outcome(transaction, final(self)@, res)),
            !old(self)@.can_process(transaction) ==> r is None && final(self)@ == old(self)@,
    {
        if self.can_process(&transaction) {
            Some(self.process_transaction(transaction))
        } else {
            None
        }
    }

    /// All clients and their accounts.
    pub fn get_clients(&self) -> (r: &HashMap<u16, ClientAccount>)
        ensures
            r@.map_values(|a: ClientAccount| a@) == self@.clients,
    {
        &self.clients
    }

    /// The account of client `client_id`, if it has one.
    pub fn get_client(&self, client_id: u16) -> (r: Option<&ClientAccount>)
        ensures
            match r {
                Some(a) => self@.clients.contains_key(client_id) && a@ == self@.clients[client_id],
                None => !self@.clients.contains_key(client_id),
            },
    {
        self.clients.get(&client_id)
    }

    /// The number of clients.
    pub fn client_count(&self) -> (r: usize)
        ensures
            r == self@.clients.len(),
    {
        assert(self@.clients.dom() =~= self.clients@.dom());
        self.clients.len()
    }

    /// The number of stored transactions.
    pub fn transaction_count(&self) -> (r: usize)
        ensures
            r == self@.transactions.len(),
    {
        assert(self@.transactions.dom() =~= self.transactions@.dom());
        self.transactions.len()
    }
}

/// Counting the keys of `s` that satisfy `p`, one more element at a time.
proof fn lemma_count_step(s: Seq<u32>, i: int, p: spec_fn(u32) -> bool)
    requires
        s.no_duplicates(),
        0 <= i < s.len(),
    ensures
        s.take(i + 1).to_set().filter(p).len() == s.take(i).to_set().filter(p).len() + if p(s[i]) { 1int } else { 0int },
{
    let before = s.take(i);
    assert(s.take(i + 1) =~= before.push(s[i]));
    before.lemma_push_to_set_commute(s[i]);
    vstd::seq_lib::seq_to_set_is_finite(before);
    assert(!before.to_set().contains(s[i])) by {
        if before.contains(s[i]) {
            let j = choose|j: int| 0 <= j < before.len() && before[j] == s[i];
            assert(s[j] == s[i]);
        }
    }
    let f = before.to_set().filter(p);
    if p(s[i]) {
        assert(before.to_set().insert(s[i]).filter(p) =~= f.insert(s[i]));
    } else {
        assert(before.to_set().insert(s[i]).filter(p) =~= f);
    }
}

impl TransactionEngine {
    /// The number of disputes that have not ended.
    pub fn dispute_count(&self) -> (r: usize)
        ensures
            r == self@.active_disputes().len(),
    {
        let n = self.disputes.len();
        let ghost p = |t: u32| !self.disputes@[t].is_resolved;
        let mut count: usize = 0;
        let keys = self.disputes.keys();
        let ghost all = IteratorSpec::remaining(&keys).unref();
        assert(all.take(0).to_set().filter(p) =~= Set::empty());
        for k in it: keys
            invariant
                it.seq().unref() == all,
                all.to_set() == self.disputes@.dom(),
                all.no_duplicates(),
                all.len() == n,
                forall|t: u32| #[trigger] p(t) == !self.disputes@[t].is_resolved,
                count <= it.index(),
                count == all.take(it.index() as int).to_set().filter(p).len(),
        {
            proof {
                lemma_count_step(all, it.index() as int, p);
                assert(*k == all[it.index() as int]);
            }
            let d = self.disputes.get(k).unwrap();
            if !d.is_resolved {
                count = count + 1;
            }
        }
        proof {
            assert(all.take(all.len() as int) =~= all);
            assert(self@.active_disputes() =~= self.disputes@.dom().filter(p));
        }
        count
    }
}

impl Default for TransactionEngine {
    /// A new engine with no clients, transactions or disputes.
    fn default() -> (r: TransactionEngine)
        ensures
            r@ == EngineView::empty(),
    {
        TransactionEngine::new()
    }
}

} // verus!
