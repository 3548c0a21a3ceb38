//! Errors of transaction processing.

use vstd::prelude::*;
use crate::amount::Amount;
use crate::client::ClientError;
use vstd::std_specs::convert::FromSpecImpl;

verus! {

/// Errors that can occur during transaction processing.
#[derive(Debug)]
pub enum TransactionError {
    /// Insufficient funds for a withdrawal.
    InsufficientFunds { available: Amount, requested: Amount },
    /// The referenced transaction is not known.
    TransactionNotFound(u32),
    /// The referenced transaction is not under dispute.
    TransactionNotDisputed(u32),
    /// The client is not known.
    ClientNotFound(u16),
    /// The transaction is not acceptable for its type or its client.
    InvalidTransactionType(String),
    /// The transaction lacks an amount it must have.
    InvalidDecimalPrecision(String),
    /// The input could not be read as CSV.
    CsvError(String),
    /// The input could not be read.
    IoError(String),
    /// A client account refused the operation.
    ClientError(ClientError),
}

impl From<ClientError> for TransactionError {
    /// Wraps an account error.
    fn from(e: ClientError) -> (r: TransactionError) {
        TransactionError::ClientError(e)
    }
}

impl FromSpecImpl<ClientError> for TransactionError {
    open spec fn obeys_from_spec() -> bool {
        true
    }

    open spec fn from_spec(e: ClientError) -> TransactionError {
        TransactionError::ClientError(e)
    }
}

} // verus!
