//! Input rows: turning a row of the transaction input into a transaction,
//! and processing it.

use vstd::prelude::*;
use crate::amount::Amount;
use crate::engine::TransactionEngine;
use crate::error::TransactionError;
use crate::transaction::{eq_ignore_ascii_case, lemma_type_names_unambiguous, Transaction, TransactionType};

verus! {

/// Whether `c` is white space in the sense of Unicode's `White_Space`
/// property (as `char::is_whitespace`).
pub open spec fn is_white_space(c: char) -> bool {
    ||| '\t' <= c <= '\r'
    ||| c == ' '
    ||| c == '\u{85}'
    ||| c == '\u{A0}'
    ||| c == '\u{1680}'
    ||| '\u{2000}' <= c <= '\u{200A}'
    ||| c == '\u{2028}'
    ||| c == '\u{2029}'
    ||| c == '\u{202F}'
    ||| c == '\u{205F}'
    ||| c == '\u{3000}'
}

/// `s` without its leading and trailing white space.
pub open spec fn trimmed(s: Seq<char>) -> Seq<char>
    decreases s.len(),
{
    if s.len() > 0 && is_white_space(s[0]) {
        trimmed(s.drop_first())
    } else if s.len() > 0 && is_white_space(s.last()) {
        trimmed(s.drop_last())
    } else {
        s
    }
}

/// Whether `c` is white space.
fn white_space(c: char) -> (r: bool)
    ensures
        r == is_white_space(c),
{
    ('\t' <= c && c <= '\r') || c == ' ' || c == '\u{85}' || c == '\u{A0}' || c == '\u{1680}'
        || ('\u{2000}' <= c && c <= '\u{200A}') || c == '\u{2028}' || c == '\u{2029}'
        || c == '\u{202F}' || c == '\u{205F}' || c == '\u{3000}'
}

/// `s` without its leading and trailing white space.
pub fn trim(s: &str) -> (r: &str)
    ensures
        r@ == trimmed(s@),
{
    let n = s.unicode_len();
    let mut i: usize = 0;
    assert(s@.subrange(0, n as int) =~= s@);
    while i < n && white_space(s.get_char(i))
        invariant
            n == s@.len(),
            i <= n,
            trimmed(s@) == trimmed(s@.subrange(i as int, n as int)),
        decreases n - i,
    {
        assert(s@.subrange(i as int, n as int).drop_first() =~= s@.subrange(i + 1, n as int));
        i = i + 1;
    }
    let mut j: usize = n;
    while j > i && white_space(s.get_char(j - 1))
        invariant
            n == s@.len(),
            i <= j <= n,
            i < n ==> !is_white_space(s@[i as int]),
            trimmed(s@) == trimmed(s@.subrange(i as int, j as int)),
        decreases j - i,
    {
        assert(s@.subrange(i as int, j as int).drop_last() =~= s@.subrange(i as int, j - 1));
        j = j - 1;
    }
    s.substring_char(i, j)
}

/// A row of the transaction input, its fields as read.
#[derive(Debug)]
pub struct InputRow {
    /// The transaction type's name.
    pub tx_type: String,
    /// The client.
    pub client: u16,
    /// The transaction.
    pub tx: u32,
    /// The amount, where the row has one.
    pub amount: Option<Amount>,
}

/// Why a row is not a transaction.
#[derive(Debug)]
pub enum InputError {
    /// The type field, as read, names no transaction type.
    InvalidTransactionType(String),
    /// A deposit or withdrawal without an amount.
    MissingAmount { tx_type: TransactionType, tx: u32 },
}

/// The type named by `s` (surrounding white space and ASCII case aside).
pub open spec fn names_type(s: Seq<char>, t: TransactionType) -> bool {
    eq_ignore_ascii_case(trimmed(s), t.name())
}

/// Whether transactions of type `t` move money and need an amount.
pub open spec fn moves_money(t: TransactionType) -> bool {
    t == TransactionType::Deposit || t == TransactionType::Withdrawal
}

/// The transaction of type `t` that a row with these fields describes.
pub open spec fn row_transaction(t: TransactionType, client: u16, tx: u32, amount: Option<Amount>) -> Transaction {
    Transaction { tx_type: t, client, tx, amount: if moves_money(t) { amount } else { None } }
}

impl Transaction {
    /// The transaction that `row` describes. Its type is named by the type
    /// field (surrounding white space and ASCII case aside); deposits and
    /// withdrawals take the row's amount and need one; the other types carry
    /// none, whatever the row holds.
    pub fn try_from_row(row: InputRow) -> (r: Result<Transaction, InputError>)
        ensures
            (r matches Err(InputError::InvalidTransactionType(_)))
                <==> forall|t: TransactionType| !names_type(row.tx_type@, t),
            r matches Err(InputError::InvalidTransactionType(s)) ==> s@ == row.tx_type@,
            r matches Ok(tx) ==> {
                &&& names_type(row.tx_type@, tx.tx_type)
                &&& tx == row_transaction(tx.tx_type, row.client, row.tx, row.amount)
                &&& moves_money(tx.tx_type) ==> row.amount is Some
            },
            r matches Err(InputError::MissingAmount { tx_type, tx }) ==> {
                &&& names_type(row.tx_type@, tx_type)
                &&& moves_money(tx_type)
                &&& row.amount is None
                &&& tx == row.tx
            },
    {
        let parsed = TransactionType::parse(trim(row.tx_type.as_str()));
        let tx_type = match parsed {
            Some(t) => t,
            None => return Err(InputError::InvalidTransactionType(row.tx_type)),
        };
        assert(names_type(row.tx_type@, tx_type));
        let amount = match tx_type {
            TransactionType::Deposit | TransactionType::Withdrawal => {
                if row.amount.is_none() {
                    return Err(InputError::MissingAmount { tx_type, tx: row.tx });
                }
                row.amount
            },
            TransactionType::Dispute | TransactionType::Resolve | TransactionType::Chargeback => None,
        };
        Ok(Transaction::new(tx_type, row.client, row.tx, amount))
    }
}

/// Why a row was not applied.
#[derive(Debug)]
pub enum RowError {
    /// The row is not a transaction.
    Input(InputError),
    /// The engine refused the transaction.
    Transaction(TransactionError),
    /// Applying the transaction would overflow a balance.
    Overflow,
}

/// Applies the rows of the transaction input to an engine.
pub struct CsvReader;

impl CsvReader {
    /// Applies one input row to `engine`: turns it into a transaction and
    /// processes it. A row that is no transaction leaves the engine as it
    /// is; so does one whose processing would overflow a balance.
    pub fn process_row(engine: &mut TransactionEngine, row: InputRow) -> (r: Result<(), RowError>)
        requires
            old(engine)@.wf(),
        ensures
            final(engine)@.wf(),
            r matches Err(RowError::Input(_)) ==> final(engine)@ == old(engine)@,
            r matches Err(RowError::Overflow) ==> final(engine)@ == old(engine)@,
            (r matches Err(RowError::Input(InputError::InvalidTransactionType(_))))
                <==> forall|t: TransactionType| !names_type(row.tx_type@, t),
            forall|t: TransactionType| #[trigger] names_type(row.tx_type@, t) ==> ({
                let tx = row_transaction(t, row.client, row.tx, row.amount);
                let missing = moves_money(t) && row.amount is None;
                &&& missing ==> (r matches Err(RowError::Input(InputError::MissingAmount { .. })))
                &&& !missing && !old(engine)@.can_process(tx) ==> (r matches Err(RowError::Overflow))
                &&& !missing && old(engine)@.can_process(tx) ==> (r is Ok || r matches Err(RowError::Transaction(_)))
                &&& r is Ok ==> old(engine)@.outcome(tx, final(engine)@, Ok(()))
                &&& (r matches Err(RowError::Transaction(e)) ==> old(engine)@.outcome(tx, final(engine)@, Err(e)))
            }),
    {
        let ghost raw = row.tx_type@;
        let ghost row_amount = row.amount;
        let transaction = match Transaction::try_from_row(row) {
            Ok(t) => t,
            Err(e) => {
                proof {
                    assert forall|t: TransactionType, u: TransactionType|
                        names_type(raw, t) && names_type(raw, u) implies t == u by {
                        lemma_type_names_unambiguous(trimmed(raw), t, u);
                    }
                }
                return Err(RowError::Input(e));
            },
        };
        proof {
            assert forall|t: TransactionType| names_type(raw, t) implies t == transaction.tx_type by {
                lemma_type_names_unambiguous(trimmed(raw), t, transaction.tx_type);
            }
        }
        let ghost pre = engine@;
        let result = engine.try_process_transaction(transaction);
        proof {
            let t = transaction.tx_type;
            assert(transaction == row_transaction(t, transaction.client, transaction.tx, row_amount));
            if result is Some {
                assert(pre.outcome(transaction, engine@, result->Some_0));
            }
        }
        match result {
            Some(Ok(())) => Ok(()),
            Some(Err(e)) => Err(RowError::Transaction(e)),
            None => Err(RowError::Overflow),
        }
    }
}

} // verus!
