//! Transaction engine library.
//!
//! Processes deposits, withdrawals, disputes, resolutions and chargebacks
//! against client accounts. Monetary amounts are decimal numbers whose
//! arithmetic is carried out by `rust_decimal`; the library holds them as
//! their plain parts (mantissa and scale) and states every operation over
//! their exact mathematical value.

pub mod amount;
pub mod client;
pub mod dispute;
pub mod engine;
pub mod error;
pub mod laws;
pub mod output;
pub mod row;
pub mod transaction;

pub use amount::{Amount, DecimalParts};
pub use client::{AccountView, ClientAccount, ClientError};
pub use dispute::{DisputeState, DisputeView};
pub use engine::{EngineView, StoredView, TransactionEngine};
pub use error::TransactionError;
pub use output::{CsvWriter, OutputRow};
pub use row::{CsvReader, InputError, InputRow, RowError};
pub use transaction::{ParseTransactionTypeError, Transaction, TransactionType};
