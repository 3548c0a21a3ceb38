//! Laws of the library: properties of its operations taken together.

use vstd::prelude::*;
use crate::amount::{difference_of, fixed4_text, sum_of, DecimalParts};
use crate::output::{reports, OutputRow};
use crate::client::{AccountView, ClientError};
use crate::engine::{EngineView, StoredView};
use crate::error::TransactionError;
use crate::row::{is_white_space, trimmed};
use crate::transaction::{ascii_lower, eq_ignore_ascii_case, lemma_type_names_unambiguous, Transaction, TransactionType};

verus! {

/// The three balances of `a` and `b` have the same values, and the lock
/// is the same.
pub open spec fn same_funds(a: AccountView, b: AccountView) -> bool {
    &&& a.available.value() == b.available.value()
    &&& a.held.value() == b.held.value()
    &&& a.total.value() == b.total.value()
    &&& a.locked == b.locked
}

/// Every account operation whose arithmetic is exact keeps the total equal
/// to the available plus the held funds.
pub proof fn law_exact_operations_keep_balance(a: AccountView, x: DecimalParts, b: AccountView)
    requires
        a.balanced(),
    ensures
        a.values_after_deposit(x, b) ==> b.balanced(),
        a.values_after_withdrawal(x, b) ==> b.balanced(),
        a.values_after_hold(x, b) ==> b.balanced(),
        a.values_after_release(x, b) ==> b.balanced(),
        a.values_after_chargeback(x, b) ==> b.balanced(),
{
}

/// Balances never go negative: a balanced account without negative
/// balances keeps none after any operation that the account accepts
/// (a non-negative amount, covered by the funds it is taken from).
pub proof fn law_operations_keep_funds_nonnegative(a: AccountView, x: DecimalParts, b: AccountView)
    requires
        a.balanced(),
        a.nonnegative(),
        x.value() >= 0,
    ensures
        a.values_after_deposit(x, b) ==> b.nonnegative(),
        x.value() <= a.available.value() && a.values_after_withdrawal(x, b) ==> b.nonnegative(),
        x.value() <= a.available.value() && a.values_after_hold(x, b) ==> b.nonnegative(),
        x.value() <= a.held.value() && a.values_after_release(x, b) ==> b.nonnegative(),
        x.value() <= a.held.value() && a.values_after_chargeback(x, b) ==> b.nonnegative(),
{
}

/// Releasing what was held gives back the funds as they were before the hold.
pub proof fn law_release_undoes_hold(a0: AccountView, x: DecimalParts, a1: AccountView, a2: AccountView)
    requires
        a0.values_after_hold(x, a1),
        a1.values_after_release(x, a2),
    ensures
        same_funds(a0, a2),
{
}

/// Withdrawing what was deposited gives back the funds as they were before
/// the deposit.
pub proof fn law_withdrawal_undoes_deposit(a0: AccountView, x: DecimalParts, a1: AccountView, a2: AccountView)
    requires
        a0.values_after_deposit(x, a1),
        a1.values_after_withdrawal(x, a2),
    ensures
        same_funds(a0, a2),
{
}

/// A chargeback of what was held takes it out of the total: the available
/// funds are as before the hold, the total drops by the amount, nothing
/// stays held of it, and the account is locked.
pub proof fn law_chargeback_after_hold(a0: AccountView, x: DecimalParts, a1: AccountView, a2: AccountView)
    requires
        a0.values_after_hold(x, a1),
        a1.values_after_chargeback(x, a2),
    ensures
        a2.available.value() == a0.available.value() - x.value(),
        a2.held.value() == a0.held.value(),
        a2.total.value() == a0.total.value() - x.value(),
        a2.locked,
{
}

/// A type's name parses back to that type, and to no other.
pub proof fn law_type_name_round_trip(t: TransactionType, u: TransactionType)
    ensures
        eq_ignore_ascii_case(t.name(), t.name()),
        eq_ignore_ascii_case(t.name(), u.name()) ==> u == t,
{
    if eq_ignore_ascii_case(t.name(), u.name()) {
        lemma_type_names_unambiguous(t.name(), t, u);
    }
}

/// Every account is balanced and has no negative balance.
pub open spec fn accounts_sound(s: EngineView) -> bool {
    forall|c: u16| #[trigger] s.clients.contains_key(c) ==> s.clients[c].balanced() && s.clients[c].nonnegative()
}

/// The account arithmetic that processing `tx` can lead to needs no rounding.
pub open spec fn step_is_exact(s: EngineView, tx: Transaction) -> bool {
    let st = s.transactions[tx.tx];
    let d = s.disputes[tx.tx];
    match tx.tx_type {
        TransactionType::Deposit => tx.amount matches Some(a) ==> s.account(tx.client).deposit_is_exact(a@),
        TransactionType::Withdrawal => tx.amount matches Some(a) ==> s.account(tx.client).withdrawal_is_exact(a@),
        TransactionType::Dispute => s.transactions.contains_key(tx.tx) ==> s.clients[st.client].hold_is_exact(st.amount),
        TransactionType::Resolve => s.disputes.contains_key(tx.tx) && s.transactions.contains_key(tx.tx)
            ==> s.clients[st.client].release_is_exact(d.amount),
        TransactionType::Chargeback => s.disputes.contains_key(tx.tx) && s.transactions.contains_key(tx.tx)
            ==> s.clients[st.client].chargeback_is_exact(d.amount),
    }
}

/// Processing keeps every account balanced and free of negative balances
/// where its arithmetic is exact; no account disappears; an account appears
/// only for the client of a deposit or withdrawal that has an amount; and a
/// locked account stays locked.
pub proof fn law_exact_steps_keep_accounts_sound(pre: EngineView, tx: Transaction, post: EngineView, r: Result<(), TransactionError>)
    requires
        pre.wf(),
        pre.outcome(tx, post, r),
        accounts_sound(pre),
        step_is_exact(pre, tx),
    ensures
        accounts_sound(post),
        forall|c: u16| pre.clients.contains_key(c) ==> #[trigger] post.clients.contains_key(c),
        forall|c: u16| #[trigger] post.clients.contains_key(c) && !pre.clients.contains_key(c) ==> {
            &&& c == tx.client
            &&& tx.tx_type == TransactionType::Deposit || tx.tx_type == TransactionType::Withdrawal
            &&& tx.amount is Some
        },
        forall|c: u16| pre.clients.contains_key(c) && pre.clients[c].locked ==> #[trigger] post.clients[c].locked,
{
    let fresh = AccountView::fresh();
    assert(fresh.balanced() && fresh.nonnegative());
    assert forall|c: u16| #[trigger] post.clients.contains_key(c) implies post.clients[c].balanced()
        && post.clients[c].nonnegative() by {
        if pre.clients.contains_key(c) && post.clients[c] == pre.clients[c] {
        } else {
            let a0 = if pre.clients.contains_key(c) { pre.clients[c] } else { fresh };
            match tx.tx_type {
                TransactionType::Deposit => {
                    let x = tx.amount->Some_0@;
                    law_exact_operations_keep_balance(a0, x, post.clients[c]);
                    if x.value() >= 0 {
                        law_operations_keep_funds_nonnegative(a0, x, post.clients[c]);
                    }
                },
                TransactionType::Withdrawal => {
                    let x = tx.amount->Some_0@;
                    law_exact_operations_keep_balance(a0, x, post.clients[c]);
                    if x.value() >= 0 {
                        law_operations_keep_funds_nonnegative(a0, x, post.clients[c]);
                    }
                },
                TransactionType::Dispute => {
                    let x = pre.transactions[tx.tx].amount;
                    law_exact_operations_keep_balance(a0, x, post.clients[c]);
                    if x.value() >= 0 {
                        law_operations_keep_funds_nonnegative(a0, x, post.clients[c]);
                    }
                },
                _ => {
                    let x = pre.disputes[tx.tx].amount;
                    law_exact_operations_keep_balance(a0, x, post.clients[c]);
                    if x.value() >= 0 {
                        law_operations_keep_funds_nonnegative(a0, x, post.clients[c]);
                    }
                },
            }
        }
    }
}

/// A locked account stays locked, whatever is processed.
pub proof fn law_locked_stays_locked(pre: EngineView, tx: Transaction, post: EngineView, r: Result<(), TransactionError>, c: u16)
    requires
        pre.wf(),
        pre.outcome(tx, post, r),
        pre.clients.contains_key(c),
        pre.clients[c].locked,
    ensures
        post.clients.contains_key(c),
        post.clients[c].locked,
{
}

/// Processing a transaction touches no other client's account than the one
/// it names.
pub proof fn law_other_clients_untouched(pre: EngineView, tx: Transaction, post: EngineView, r: Result<(), TransactionError>, c: u16)
    requires
        pre.wf(),
        pre.outcome(tx, post, r),
        c != tx.client,
    ensures
        post.clients.contains_key(c) == pre.clients.contains_key(c),
        pre.clients.contains_key(c) ==> post.clients[c] == pre.clients[c],
{
}

/// Deposits and withdrawals leave a locked account's funds as they are.
pub proof fn law_locked_account_keeps_funds(pre: EngineView, tx: Transaction, post: EngineView, r: Result<(), TransactionError>)
    requires
        pre.wf(),
        pre.outcome(tx, post, r),
        tx.tx_type == TransactionType::Deposit || tx.tx_type == TransactionType::Withdrawal,
        pre.clients.contains_key(tx.client),
        pre.clients[tx.client].locked,
    ensures
        post.clients[tx.client] == pre.clients[tx.client],
{
}

/// Disputes are never forgotten: a disputed transaction stays disputed,
/// for the same amount, and an ended dispute stays ended.
pub proof fn law_disputes_persist(pre: EngineView, tx: Transaction, post: EngineView, r: Result<(), TransactionError>, t: u32)
    requires
        pre.wf(),
        pre.outcome(tx, post, r),
        pre.disputes.contains_key(t),
    ensures
        post.disputes.contains_key(t),
        post.disputes[t].amount == pre.disputes[t].amount,
        pre.disputes[t].is_resolved ==> post.disputes[t].is_resolved,
{
}

/// A refused dispute, resolve or chargeback changes nothing; a refused
/// deposit or withdrawal changes nothing but the opening of the client's
/// account.
pub proof fn law_refusals_change_nothing(pre: EngineView, tx: Transaction, post: EngineView, r: Result<(), TransactionError>)
    requires
        pre.wf(),
        pre.outcome(tx, post, r),
        r is Err,
    ensures
        post.transactions == pre.transactions,
        post.disputes == pre.disputes,
        post.clients == pre.clients || post.clients == pre.clients.insert(tx.client, pre.account(tx.client)),
        tx.tx_type != TransactionType::Deposit && tx.tx_type != TransactionType::Withdrawal ==> post == pre,
{
}

/// A transaction is disputed at most once, and a dispute ends at most once:
/// repeating a dispute, or a resolve or chargeback of an ended dispute, is
/// accepted and changes nothing.
pub proof fn law_repeated_dispute_operations_ignored(pre: EngineView, tx: Transaction, post: EngineView, r: Result<(), TransactionError>)
    requires
        pre.wf(),
        pre.outcome(tx, post, r),
        pre.disputes.contains_key(tx.tx),
        tx.tx_type == TransactionType::Dispute ==> pre.transactions[tx.tx].client == tx.client,
        tx.tx_type == TransactionType::Resolve || tx.tx_type == TransactionType::Chargeback ==> pre.disputes[tx.tx].is_resolved,
        tx.tx_type != TransactionType::Deposit && tx.tx_type != TransactionType::Withdrawal,
    ensures
        post == pre,
        r is Ok,
{
}

/// Resolving a fresh dispute gives the client back the funds it had
/// before the dispute, where the disputed amount was held and the
/// arithmetic is exact.
pub proof fn law_resolve_undoes_dispute(
    s0: EngineView,
    dispute: Transaction,
    s1: EngineView,
    r1: Result<(), TransactionError>,
    resolve: Transaction,
    s2: EngineView,
    r2: Result<(), TransactionError>,
)
    requires
        s0.wf(),
        dispute.tx_type == TransactionType::Dispute,
        resolve.tx_type == TransactionType::Resolve,
        resolve.tx == dispute.tx,
        resolve.client == dispute.client,
        s0.outcome(dispute, s1, r1),
        s1.outcome(resolve, s2, r2),
        r1 is Ok,
        r2 is Ok,
        !s0.disputes.contains_key(dispute.tx),
        ({
            let amount = s0.transactions[dispute.tx].amount;
            let a0 = s0.clients[dispute.client];
            &&& 0 <= amount.value() <= a0.available.value()
            &&& a0.hold_is_exact(amount)
            &&& s1.clients[dispute.client].release_is_exact(amount)
        }),
    ensures
        same_funds(s2.clients[dispute.client], s0.clients[dispute.client]),
{
    let amount = s0.transactions[dispute.tx].amount;
    law_release_undoes_hold(s0.clients[dispute.client], amount, s1.clients[dispute.client], s2.clients[dispute.client]);
}

/// Charging back a fresh dispute locks the client's account and takes the
/// disputed amount out of its total, where the amount was held and the
/// arithmetic is exact.
pub proof fn law_chargeback_after_dispute(
    s0: EngineView,
    dispute: Transaction,
    s1: EngineView,
    r1: Result<(), TransactionError>,
    chargeback: Transaction,
    s2: EngineView,
    r2: Result<(), TransactionError>,
)
    requires
        s0.wf(),
        dispute.tx_type == TransactionType::Dispute,
        chargeback.tx_type == TransactionType::Chargeback,
        chargeback.tx == dispute.tx,
        chargeback.client == dispute.client,
        s0.outcome(dispute, s1, r1),
        s1.outcome(chargeback, s2, r2),
        r1 is Ok,
        r2 is Ok,
        !s0.disputes.contains_key(dispute.tx),
        ({
            let amount = s0.transactions[dispute.tx].amount;
            let a0 = s0.clients[dispute.client];
            &&& 0 <= amount.value() <= a0.available.value()
            &&& a0.hold_is_exact(amount)
            &&& s1.clients[dispute.client].chargeback_is_exact(amount)
        }),
    ensures
        ({
            let amount = s0.transactions[dispute.tx].amount;
            let a0 = s0.clients[dispute.client];
            let a2 = s2.clients[dispute.client];
            &&& a2.locked
            &&& a2.available.value() == a0.available.value() - amount.value()
            &&& a2.held.value() == a0.held.value()
            &&& a2.total.value() == a0.total.value() - amount.value()
            &&& s2.disputes[dispute.tx].is_resolved
        }),
{
    let amount = s0.transactions[dispute.tx].amount;
    law_chargeback_after_hold(s0.clients[dispute.client], amount, s1.clients[dispute.client], s2.clients[dispute.client]);
}

/// `s` with its ASCII lowercase letters written in uppercase.
pub open spec fn ascii_uppercased(s: Seq<char>) -> Seq<char> {
    Seq::new(s.len(), |i: int| if 'a' <= s[i] <= 'z' { (s[i] as int - 32) as char } else { s[i] })
}

/// ASCII case folding is the standard one, and a type's name written in
/// uppercase parses to that type: a result that meets the contract of
/// `TransactionType::parse` on that text is that type.
pub proof fn law_uppercase_names_parse(t: TransactionType, r: Option<TransactionType>)
    requires
        r matches Some(u) ==> eq_ignore_ascii_case(ascii_uppercased(t.name()), u.name()),
        r is None ==> forall|u: TransactionType| !eq_ignore_ascii_case(ascii_uppercased(t.name()), #[trigger] u.name()),
    ensures
        forall|c: char| 'A' <= c <= 'Z' ==> #[trigger] ascii_lower(c) == c as int + 32,
        forall|c: char| 'a' <= c <= 'z' ==> #[trigger] ascii_lower(c) == c as int,
        r == Some(t),
{
    let n = t.name();
    let s = ascii_uppercased(n);
    assert(forall|i: int| 0 <= i < n.len() ==> 'a' <= #[trigger] n[i] <= 'z') by {
        match t {
            TransactionType::Deposit => {},
            TransactionType::Withdrawal => {},
            TransactionType::Dispute => {},
            TransactionType::Resolve => {},
            TransactionType::Chargeback => {},
        }
    }
    assert forall|i: int| 0 <= i < s.len() implies #[trigger] ascii_lower(s[i]) == ascii_lower(n[i]) by {
        assert('a' <= n[i] <= 'z');
    }
    assert(eq_ignore_ascii_case(s, n));
    if let Some(u) = r {
        lemma_type_names_unambiguous(s, t, u);
    }
}

/// A deposit of a non-negative amount into an account that is not locked is
/// accepted, whatever the account holds: the amount is added to the
/// available and the total funds (exactly, where no rounding is needed),
/// the held funds stay, and the deposit is stored for disputes.
pub proof fn law_deposit_credits_unlocked_account(pre: EngineView, tx: Transaction, post: EngineView, r: Result<(), TransactionError>)
    requires
        pre.wf(),
        pre.outcome(tx, post, r),
        tx.tx_type == TransactionType::Deposit,
        tx.amount is Some,
        tx.amount->Some_0@.value() >= 0,
        !pre.account(tx.client).locked,
    ensures
        ({
            let a = tx.amount->Some_0@;
            let before = pre.account(tx.client);
            let after = post.clients[tx.client];
            &&& r is Ok
            &&& post.clients.contains_key(tx.client)
            &&& after.available == sum_of(before.available, a)
            &&& after.total == sum_of(before.total, a)
            &&& after.held == before.held
            &&& !after.locked
            &&& before.deposit_is_exact(a) ==> after.available.value() == before.available.value() + a.value()
                && after.total.value() == before.total.value() + a.value()
            &&& post.transactions[tx.tx] == (StoredView { client: tx.client, amount: a, tx_type: TransactionType::Deposit })
            &&& post.disputes == pre.disputes
        }),
{
}

/// A withdrawal from an account that is not locked, of a non-negative
/// amount that the available funds cover, is debited, whatever the account
/// holds: the amount leaves the available and the total funds (exactly,
/// where no rounding is needed), and the withdrawal is stored for disputes.
pub proof fn law_withdrawal_debits_covered_amount(pre: EngineView, tx: Transaction, post: EngineView, r: Result<(), TransactionError>)
    requires
        pre.wf(),
        pre.outcome(tx, post, r),
        tx.tx_type == TransactionType::Withdrawal,
        tx.amount is Some,
        !pre.account(tx.client).locked,
        0 <= tx.amount->Some_0@.value() <= pre.account(tx.client).available.value(),
    ensures
        ({
            let a = tx.amount->Some_0@;
            let before = pre.account(tx.client);
            let after = post.clients[tx.client];
            &&& r is Ok
            &&& post.clients.contains_key(tx.client)
            &&& after.available == difference_of(before.available, a)
            &&& after.total == difference_of(before.total, a)
            &&& after.held == before.held
            &&& !after.locked
            &&& before.withdrawal_is_exact(a) ==> after.available.value() == before.available.value() - a.value()
                && after.total.value() == before.total.value() - a.value()
            &&& post.transactions[tx.tx] == (StoredView { client: tx.client, amount: a, tx_type: TransactionType::Withdrawal })
            &&& post.disputes == pre.disputes
        }),
{
}

/// A dispute, by its client, of a stored transaction (of any identifier)
/// that is not yet disputed and whose non-negative amount the available
/// funds cover, is accepted: the amount moves from the available to the
/// held funds and an open dispute of that amount is recorded.
pub proof fn law_dispute_holds_covered_amount(pre: EngineView, tx: Transaction, post: EngineView, r: Result<(), TransactionError>)
    requires
        pre.wf(),
        pre.outcome(tx, post, r),
        tx.tx_type == TransactionType::Dispute,
        pre.transactions.contains_key(tx.tx),
        pre.transactions[tx.tx].client == tx.client,
        !pre.disputes.contains_key(tx.tx),
        0 <= pre.transactions[tx.tx].amount.value() <= pre.clients[tx.client].available.value(),
    ensures
        ({
            let x = pre.transactions[tx.tx].amount;
            let before = pre.clients[tx.client];
            let after = post.clients[tx.client];
            &&& r is Ok
            &&& post.clients.contains_key(tx.client)
            &&& after.available == difference_of(before.available, x)
            &&& after.held == sum_of(before.held, x)
            &&& after.total == before.total
            &&& after.locked == before.locked
            &&& before.hold_is_exact(x) ==> after.available.value() == before.available.value() - x.value()
                && after.held.value() == before.held.value() + x.value()
            &&& post.disputes.contains_key(tx.tx)
            &&& post.disputes[tx.tx].amount == x
            &&& !post.disputes[tx.tx].is_resolved
            &&& post.transactions == pre.transactions
        }),
{
}

/// A resolve, by its client, of an open dispute (of a deposit or a
/// withdrawal) whose non-negative amount the held funds cover, is accepted:
/// the amount moves from the held back to the available funds and the
/// dispute ends.
pub proof fn law_resolve_releases_held_amount(pre: EngineView, tx: Transaction, post: EngineView, r: Result<(), TransactionError>)
    requires
        pre.wf(),
        pre.outcome(tx, post, r),
        tx.tx_type == TransactionType::Resolve,
        pre.disputes.contains_key(tx.tx),
        !pre.disputes[tx.tx].is_resolved,
        pre.transactions[tx.tx].client == tx.client,
        0 <= pre.disputes[tx.tx].amount.value() <= pre.clients[tx.client].held.value(),
    ensures
        ({
            let x = pre.disputes[tx.tx].amount;
            let before = pre.clients[tx.client];
            let after = post.clients[tx.client];
            &&& r is Ok
            &&& post.clients.contains_key(tx.client)
            &&& after.available == sum_of(before.available, x)
            &&& after.held == difference_of(before.held, x)
            &&& after.total == before.total
            &&& after.locked == before.locked
            &&& before.release_is_exact(x) ==> after.available.value() == before.available.value() + x.value()
                && after.held.value() == before.held.value() - x.value()
            &&& post.disputes.contains_key(tx.tx)
            &&& post.disputes[tx.tx].amount == x
            &&& post.disputes[tx.tx].is_resolved
            &&& post.transactions == pre.transactions
        }),
{
}

/// A chargeback, by its client, of an open dispute whose non-negative
/// amount the held funds cover, is accepted: the amount leaves the held and
/// the total funds, the account is locked and the dispute ends.
pub proof fn law_chargeback_removes_held_amount(pre: EngineView, tx: Transaction, post: EngineView, r: Result<(), TransactionError>)
    requires
        pre.wf(),
        pre.outcome(tx, post, r),
        tx.tx_type == TransactionType::Chargeback,
        pre.disputes.contains_key(tx.tx),
        !pre.disputes[tx.tx].is_resolved,
        pre.transactions[tx.tx].client == tx.client,
        0 <= pre.disputes[tx.tx].amount.value() <= pre.clients[tx.client].held.value(),
    ensures
        ({
            let x = pre.disputes[tx.tx].amount;
            let before = pre.clients[tx.client];
            let after = post.clients[tx.client];
            &&& r is Ok
            &&& post.clients.contains_key(tx.client)
            &&& after.available == before.available
            &&& after.held == difference_of(before.held, x)
            &&& after.total == difference_of(before.total, x)
            &&& after.locked
            &&& before.chargeback_is_exact(x) ==> after.held.value() == before.held.value() - x.value()
                && after.total.value() == before.total.value() - x.value()
            &&& post.disputes.contains_key(tx.tx)
            &&& post.disputes[tx.tx].amount == x
            &&& post.disputes[tx.tx].is_resolved
            &&& post.transactions == pre.transactions
        }),
{
}

/// What each account operation does to the balances it touches, and what
/// it leaves alone.
pub proof fn law_account_transitions(a: AccountView, x: DecimalParts)
    ensures
        a.deposited(x).available == sum_of(a.available, x) && a.deposited(x).total == sum_of(a.total, x)
            && a.deposited(x).held == a.held && a.deposited(x).locked == a.locked,
        a.withdrawn(x).available == difference_of(a.available, x) && a.withdrawn(x).total == difference_of(a.total, x)
            && a.withdrawn(x).held == a.held && a.withdrawn(x).locked == a.locked,
        a.holding(x).available == difference_of(a.available, x) && a.holding(x).held == sum_of(a.held, x)
            && a.holding(x).total == a.total && a.holding(x).locked == a.locked,
        a.released(x).available == sum_of(a.available, x) && a.released(x).held == difference_of(a.held, x)
            && a.released(x).total == a.total && a.released(x).locked == a.locked,
        a.charged_back(x).available == a.available && a.charged_back(x).held == difference_of(a.held, x)
            && a.charged_back(x).total == difference_of(a.total, x) && a.charged_back(x).locked,
{
}

/// A deposit is refused where it has no amount (nothing changes), where
/// the account is locked, or where the amount is negative (the balances
/// stay as they are, and the deposit is not stored).
pub proof fn law_deposit_refusals(pre: EngineView, tx: Transaction, post: EngineView, r: Result<(), TransactionError>)
    requires
        pre.wf(),
        pre.outcome(tx, post, r),
        tx.tx_type == TransactionType::Deposit,
    ensures
        tx.amount is None ==> post == pre && r matches Err(TransactionError::InvalidDecimalPrecision(_)),
        tx.amount is Some && pre.account(tx.client).locked ==>
            r matches Err(TransactionError::ClientError(ClientError::AccountLocked)),
        tx.amount is Some && !pre.account(tx.client).locked && tx.amount->Some_0@.value() < 0 ==>
            r matches Err(TransactionError::ClientError(ClientError::InvalidAmount(_))),
        r is Err ==> post.transactions == pre.transactions && post.disputes == pre.disputes
            && (post.clients.contains_key(tx.client) ==> post.clients[tx.client] == pre.account(tx.client)),
{
}

/// A withdrawal that is not debited (locked account, negative amount, or
/// more than the available funds) is still accepted and stored, and leaves
/// the balances as they are.
pub proof fn law_withdrawal_not_debited(pre: EngineView, tx: Transaction, post: EngineView, r: Result<(), TransactionError>)
    requires
        pre.wf(),
        pre.outcome(tx, post, r),
        tx.tx_type == TransactionType::Withdrawal,
        tx.amount is Some,
        ({
            let a = tx.amount->Some_0@;
            let acct = pre.account(tx.client);
            acct.locked || a.value() < 0 || a.value() > acct.available.value()
        }),
    ensures
        r is Ok,
        post.clients[tx.client] == pre.account(tx.client),
        post.transactions.contains_key(tx.tx),
        post.transactions[tx.tx].client == tx.client,
        post.transactions[tx.tx].amount == tx.amount->Some_0@,
        post.disputes == pre.disputes,
{
}

/// A dispute is refused where the transaction is not stored or belongs to
/// another client, and ignored where it is already disputed or where its
/// amount is negative or more than the available funds; none of these
/// changes anything.
pub proof fn law_dispute_refusals(pre: EngineView, tx: Transaction, post: EngineView, r: Result<(), TransactionError>)
    requires
        pre.wf(),
        pre.outcome(tx, post, r),
        tx.tx_type == TransactionType::Dispute,
    ensures
        !pre.transactions.contains_key(tx.tx) ==> post == pre
            && r == Err::<(), TransactionError>(TransactionError::TransactionNotFound(tx.tx)),
        pre.transactions.contains_key(tx.tx) && pre.transactions[tx.tx].client != tx.client ==> post == pre
            && r matches Err(TransactionError::InvalidTransactionType(_)),
        pre.transactions.contains_key(tx.tx) && pre.transactions[tx.tx].client == tx.client && ({
            let x = pre.transactions[tx.tx].amount;
            pre.disputes.contains_key(tx.tx) || x.value() < 0 || x.value() > pre.clients[tx.client].available.value()
        }) ==> post == pre && r is Ok,
{
}

/// A resolve or chargeback is refused where the transaction is not under
/// dispute, or belongs to another client, or where the held funds do not
/// cover the disputed amount (or it is negative); it is ignored where the
/// dispute has ended. None of these changes anything.
pub proof fn law_dispute_ending_refusals(pre: EngineView, tx: Transaction, post: EngineView, r: Result<(), TransactionError>)
    requires
        pre.wf(),
        pre.outcome(tx, post, r),
        tx.tx_type == TransactionType::Resolve || tx.tx_type == TransactionType::Chargeback,
    ensures
        !pre.disputes.contains_key(tx.tx) ==> post == pre
            && r == Err::<(), TransactionError>(TransactionError::TransactionNotDisputed(tx.tx)),
        pre.disputes.contains_key(tx.tx) && pre.disputes[tx.tx].is_resolved ==> post == pre && r is Ok,
        pre.disputes.contains_key(tx.tx) && !pre.disputes[tx.tx].is_resolved
            && pre.transactions[tx.tx].client != tx.client ==> post == pre
            && r matches Err(TransactionError::InvalidTransactionType(_)),
        pre.disputes.contains_key(tx.tx) && !pre.disputes[tx.tx].is_resolved
            && pre.transactions[tx.tx].client == tx.client && pre.disputes[tx.tx].amount.value() < 0 ==> post == pre
            && r matches Err(TransactionError::ClientError(ClientError::InvalidAmount(_))),
        pre.disputes.contains_key(tx.tx) && !pre.disputes[tx.tx].is_resolved
            && pre.transactions[tx.tx].client == tx.client && pre.disputes[tx.tx].amount.value() >= 0
            && pre.disputes[tx.tx].amount.value() > pre.clients[tx.client].held.value() ==> post == pre
            && r matches Err(TransactionError::ClientError(ClientError::InsufficientFunds { .. })),
{
}

/// A client's account, before its first transaction, has zero balances
/// and is not locked.
pub proof fn law_new_accounts_are_empty(s: EngineView, c: u16)
    requires
        !s.clients.contains_key(c),
    ensures
        s.account(c).available.value() == 0,
        s.account(c).held.value() == 0,
        s.account(c).total.value() == 0,
        !s.account(c).locked,
{
}

/// Where `trimmed(s)` lies in `s`: everything before and after it is white
/// space, and it neither starts nor ends with white space.
proof fn lemma_trim_bounds(s: Seq<char>) -> (r: (int, int))
    ensures
        0 <= r.0 <= r.1 <= s.len(),
        trimmed(s) == s.subrange(r.0, r.1),
        forall|k: int| 0 <= k < r.0 ==> is_white_space(#[trigger] s[k]),
        forall|k: int| r.1 <= k < s.len() ==> is_white_space(#[trigger] s[k]),
        r.0 < r.1 ==> !is_white_space(s[r.0]) && !is_white_space(s[r.1 - 1]),
    decreases s.len(),
{
    if s.len() > 0 && is_white_space(s[0]) {
        let t = s.drop_first();
        assert(trimmed(s) == trimmed(t));
        let (i, j) = lemma_trim_bounds(t);
        assert(t.subrange(i, j) =~= s.subrange(i + 1, j + 1));
        assert forall|k: int| 0 <= k < i + 1 implies is_white_space(#[trigger] s[k]) by {
            if k > 0 {
                assert(s[k] == t[k - 1]);
            }
        }
        assert forall|k: int| j + 1 <= k < s.len() implies is_white_space(#[trigger] s[k]) by {
            assert(s[k] == t[k - 1]);
        }
        if i < j {
            assert(s[i + 1] == t[i] && s[j] == t[j - 1]);
        }
        (i + 1, j + 1)
    } else if s.len() > 0 && is_white_space(s.last()) {
        let t = s.drop_last();
        assert(trimmed(s) == trimmed(t));
        let (i, j) = lemma_trim_bounds(t);
        assert(t.subrange(i, j) =~= s.subrange(i, j));
        assert forall|k: int| 0 <= k < i implies is_white_space(#[trigger] s[k]) by {
            assert(s[k] == t[k]);
        }
        assert forall|k: int| j <= k < s.len() implies is_white_space(#[trigger] s[k]) by {
            if k < s.len() - 1 {
                assert(s[k] == t[k]);
            }
        }
        if i < j {
            assert(s[i] == t[i] && s[j - 1] == t[j - 1]);
        }
        (i, j)
    } else {
        assert(trimmed(s) == s);
        assert(s.subrange(0, s.len() as int) =~= s);
        (0, s.len() as int)
    }
}

/// Trimming removes white space at both ends and nothing else: the result
/// is a stretch of the text, everything before and after it is white space,
/// and it neither starts nor ends with white space.
pub proof fn law_trim_removes_surrounding_white_space(s: Seq<char>)
    ensures
        exists|i: int, j: int| {
            &&& 0 <= i <= j <= s.len()
            &&& trimmed(s) == #[trigger] s.subrange(i, j)
            &&& forall|k: int| 0 <= k < i ==> is_white_space(#[trigger] s[k])
            &&& forall|k: int| j <= k < s.len() ==> is_white_space(#[trigger] s[k])
        },
        trimmed(s).len() > 0 ==> !is_white_space(trimmed(s)[0]) && !is_white_space(trimmed(s).last()),
{
    let (i, j) = lemma_trim_bounds(s);
    assert(s.subrange(i, j) == trimmed(s));
}

/// A report row shows the client, its three balances to four decimal
/// places, and its lock.
pub proof fn law_report_row_contents(row: OutputRow, c: u16, a: AccountView)
    requires
        reports(row, c, a),
    ensures
        row.client == c,
        row.available@ == fixed4_text(a.available),
        row.held@ == fixed4_text(a.held),
        row.total@ == fixed4_text(a.total),
        row.locked == a.locked,
{
}

/// The active disputes are exactly the recorded disputes that have not ended.
pub proof fn law_active_disputes(s: EngineView, t: u32)
    ensures
        s.active_disputes().contains(t) <==> s.disputes.contains_key(t) && !s.disputes[t].is_resolved,
{
}

} // verus!
