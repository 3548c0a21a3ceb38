//! Transactions and their types.

use vstd::prelude::*;
use crate::amount::Amount;

verus! {

/// The type of a transaction.
#[derive(Clone, Copy, Debug, PartialEq, Eq, Structural)]
pub enum TransactionType {
    /// Credit to a client account.
    Deposit,
    /// Debit from a client account.
    Withdrawal,
    /// A client disputes a transaction.
    Dispute,
    /// Resolution of a disputed transaction.
    Resolve,
    /// Final reversal of a disputed transaction.
    Chargeback,
}

/// The ASCII lowercase of a character's code; other characters keep theirs.
pub open spec fn ascii_lower(c: char) -> int {
    if 65 <= c as int <= 90 {
        c as int + 32
    } else {
        c as int
    }
}

/// The two texts are equal once ASCII letters are lowercased.
pub open spec fn eq_ignore_ascii_case(a: Seq<char>, b: Seq<char>) -> bool {
    &&& a.len() == b.len()
    &&& forall|i: int| 0 <= i < a.len() ==> #[trigger] ascii_lower(a[i]) == ascii_lower(b[i])
}

/// No text names two transaction types, ASCII case aside.
pub proof fn lemma_type_names_unambiguous(s: Seq<char>, a: TransactionType, b: TransactionType)
    requires
        eq_ignore_ascii_case(s, a.name()),
        eq_ignore_ascii_case(s, b.name()),
    ensures
        a == b,
{
    assert(ascii_lower(s[0]) == ascii_lower(a.name()[0]));
    assert(ascii_lower(s[0]) == ascii_lower(b.name()[0]));
    assert(ascii_lower(s[1]) == ascii_lower(a.name()[1]));
    assert(ascii_lower(s[1]) == ascii_lower(b.name()[1]));
}

/// Error of parsing a transaction type: no type has that name.
#[derive(Debug, PartialEq, Eq)]
pub struct ParseTransactionTypeError;

impl TransactionType {
    /// The number of transaction types.
    pub const COUNT: usize = 5;

    /// The lowercase name of the type.
    pub open spec fn name(self) -> Seq<char> {
        match self {
            TransactionType::Deposit => seq!['d', 'e', 'p', 'o', 's', 'i', 't'],
            TransactionType::Withdrawal => seq!['w', 'i', 't', 'h', 'd', 'r', 'a', 'w', 'a', 'l'],
            TransactionType::Dispute => seq!['d', 'i', 's', 'p', 'u', 't', 'e'],
            TransactionType::Resolve => seq!['r', 'e', 's', 'o', 'l', 'v', 'e'],
            TransactionType::Chargeback => seq!['c', 'h', 'a', 'r', 'g', 'e', 'b', 'a', 'c', 'k'],
        }
    }

    /// All types, in declaration order.
    pub open spec fn all() -> Seq<TransactionType> {
        seq![
            TransactionType::Deposit,
            TransactionType::Withdrawal,
            TransactionType::Dispute,
            TransactionType::Resolve,
            TransactionType::Chargeback,
        ]
    }
}


/// The ASCII lowercase of a character's code.
fn lower_code(c: char) -> (r: u32)
    ensures
        r == ascii_lower(c),
{
    let code = c as u32;
    if 65 <= code && code <= 90 {
        code + 32
    } else {
        code
    }
}

/// Whether `s` equals `name` once ASCII letters are lowercased.
fn equals_ignoring_ascii_case(s: &str, name: &str) -> (r: bool)
    ensures
        r == eq_ignore_ascii_case(s@, name@),
{
    let n = s.unicode_len();
    if n != name.unicode_len() {
        return false;
    }
    let mut i: usize = 0;
    while i < n
        invariant
            n == s@.len(),
            n == name@.len(),
            i <= n,
            forall|j: int| 0 <= j < i ==> #[trigger] ascii_lower(s@[j]) == ascii_lower(name@[j]),
        decreases n - i,
    {
        if lower_code(s.get_char(i)) != lower_code(name.get_char(i)) {
            return false;
        }
        i = i + 1;
    }
    true
}

impl TransactionType {
    /// The type whose name `s` is, ignoring ASCII case; `None` where no
    /// type has that name. Surrounding whitespace is not removed.
    pub fn parse(s: &str) -> (r: Option<TransactionType>)
        ensures
            match r {
                Some(t) => eq_ignore_ascii_case(s@, t.name()),
                None => forall|t: TransactionType| !eq_ignore_ascii_case(s@, #[trigger] t.name()),
            },
    {
        proof {
            reveal_strlit("deposit");
            reveal_strlit("withdrawal");
            reveal_strlit("dispute");
            reveal_strlit("resolve");
            reveal_strlit("chargeback");
            assert("deposit"@ =~= TransactionType::Deposit.name());
            assert("withdrawal"@ =~= TransactionType::Withdrawal.name());
            assert("dispute"@ =~= TransactionType::Dispute.name());
            assert("resolve"@ =~= TransactionType::Resolve.name());
            assert("chargeback"@ =~= TransactionType::Chargeback.name());
        }
        if equals_ignoring_ascii_case(s, "deposit") {
            Some(TransactionType::Deposit)
        } else if equals_ignoring_ascii_case(s, "withdrawal") {
            Some(TransactionType::Withdrawal)
        } else if equals_ignoring_ascii_case(s, "dispute") {
            Some(TransactionType::Dispute)
        } else if equals_ignoring_ascii_case(s, "resolve") {
            Some(TransactionType::Resolve)
        } else if equals_ignoring_ascii_case(s, "chargeback") {
            Some(TransactionType::Chargeback)
        } else {
            proof {
                assert forall|t: TransactionType| !eq_ignore_ascii_case(s@, #[trigger] t.name()) by {
                    match t {
                        TransactionType::Deposit => {},
                        TransactionType::Withdrawal => {},
                        TransactionType::Dispute => {},
                        TransactionType::Resolve => {},
                        TransactionType::Chargeback => {},
                    }
                }
            }
            None
        }
    }

    /// The lowercase name of the type.
    pub fn to_string(&self) -> (r: String)
        ensures
            r@ == self.name(),
    {
        match self {
            TransactionType::Deposit => {
                let r = String::from_str("deposit");
                proof {
                    reveal_strlit("deposit");
                    assert(r@ =~= self.name());
                }
                r
            },
            TransactionType::Withdrawal => {
                let r = String::from_str("withdrawal");
                proof {
                    reveal_strlit("withdrawal");
                    assert(r@ =~= self.name());
                }
                r
            },
            TransactionType::Dispute => {
                let r = String::from_str("dispute");
                proof {
                    reveal_strlit("dispute");
                    assert(r@ =~= self.name());
                }
                r
            },
            TransactionType::Resolve => {
                let r = String::from_str("resolve");
                proof {
                    reveal_strlit("resolve");
                    assert(r@ =~= self.name());
                }
                r
            },
            TransactionType::Chargeback => {
                let r = String::from_str("chargeback");
                proof {
                    reveal_strlit("chargeback");
                    assert(r@ =~= self.name());
                }
                r
            },
        }
    }

    /// All types, in declaration order.
    pub fn iter() -> (r: Vec<TransactionType>)
        ensures
            r@ == TransactionType::all(),
            r@.len() == TransactionType::COUNT,
    {
        let r = vec![
            TransactionType::Deposit,
            TransactionType::Withdrawal,
            TransactionType::Dispute,
            TransactionType::Resolve,
            TransactionType::Chargeback,
        ];
        assert(r@ =~= TransactionType::all());
        r
    }
}

impl core::str::FromStr for TransactionType {
    type Err = ParseTransactionTypeError;

    /// Parses a type by its name, ignoring ASCII case (see `TransactionType::parse`).
    fn from_str(s: &str) -> (r: Result<TransactionType, ParseTransactionTypeError>)
        ensures
            match r {
                Ok(t) => eq_ignore_ascii_case(s@, t.name()),
                Err(_) => forall|t: TransactionType| !eq_ignore_ascii_case(s@, #[trigger] t.name()),
            },
    {
        match TransactionType::parse(s) {
            Some(t) => Ok(t),
            None => Err(ParseTransactionTypeError),
        }
    }
}

/// A transaction as it comes in.
#[derive(Clone, Copy, Debug)]
pub struct Transaction {
    /// The type of the transaction.
    pub tx_type: TransactionType,
    /// The client it concerns.
    pub client: u16,
    /// The transaction's identifier; a dispute, resolve or chargeback names
    /// the transaction it refers to.
    pub tx: u32,
    /// The amount, for deposits and withdrawals.
    pub amount: Option<Amount>,
}

impl Transaction {
    /// A transaction with the given parts.
    pub fn new(tx_type: TransactionType, client: u16, tx: u32, amount: Option<Amount>) -> (r: Transaction)
        ensures
            r.tx_type == tx_type,
            r.client == client,
            r.tx == tx,
            r.amount == amount,
    {
        Transaction { tx_type, client, tx, amount }
    }

    /// Whether the transaction moves money (a deposit or a withdrawal).
    pub fn is_money_moving(&self) -> (r: bool)
        ensures
            r == (self.tx_type == TransactionType::Deposit || self.tx_type == TransactionType::Withdrawal),
    {
        match self.tx_type {
            TransactionType::Deposit | TransactionType::Withdrawal => true,
            _ => false,
        }
    }

    /// Whether the transaction is a dispute operation (a dispute, a resolve
    /// or a chargeback).
    pub fn is_dispute_operation(&self) -> (r: bool)
        ensures
            r == (self.tx_type == TransactionType::Dispute || self.tx_type == TransactionType::Resolve
                || self.tx_type == TransactionType::Chargeback),
    {
        match self.tx_type {
            TransactionType::Dispute | TransactionType::Resolve | TransactionType::Chargeback => true,
            _ => false,
        }
    }
}

} // verus!
