# transaction

A verified transaction engine. It processes deposits, withdrawals,
disputes, resolutions and chargebacks against client accounts, and reports
the resulting accounts.

- `src/` is the library, verified with Verus:
  - `amount.rs`: decimal amounts held as mantissa and scale; arithmetic,
    comparison and formatting are calls into `rust_decimal`, stated over the
    exact value of each amount.
  - `client.rs`: a client's account and its operations (deposit, withdraw,
    hold, release, chargeback, lock).
  - `dispute.rs`, `transaction.rs`: disputes, transactions, transaction types.
  - `engine.rs`: the engine state and the outcome of processing each kind of
    transaction, as relations over the engine's abstract state.
  - `row.rs`, `output.rs`: turning input rows into transactions, and the
    account report.
  - `laws.rs`: properties of the operations taken together.
- `app/` is the command-line program: it reads the CSV file, hands the rows
  to the library, and writes the report to stdout.
- `tests/` runs the library on concrete inputs.

Usage: `transaction transactions.csv > accounts.csv`.
