//! The account report: one row per client, in client order, with the
//! balances written to four decimal places.

use vstd::prelude::*;
use crate::amount::{fixed4_text, format_fixed4};
use crate::client::{AccountView, ClientAccount};
use crate::engine::TransactionEngine;

verus! {

broadcast use vstd::std_specs::hash::group_hash_axioms;

/// A row of the account report.
#[derive(Debug)]
pub struct OutputRow {
    /// The client.
    pub client: u16,
    /// The available funds, to four decimal places.
    pub available: String,
    /// The held funds, to four decimal places.
    pub held: String,
    /// The total funds, to four decimal places.
    pub total: String,
    /// Whether the account is locked.
    pub locked: bool,
}

/// `row` reports account `a` of client `c`.
pub open spec fn reports(row: OutputRow, c: u16, a: AccountView) -> bool {
    &&& row.client == c
    &&& row.available@ == fixed4_text(a.available)
    &&& row.held@ == fixed4_text(a.held)
    &&& row.total@ == fixed4_text(a.total)
    &&& row.locked == a.locked
}

/// Builds the account report of an engine.
pub struct CsvWriter;

impl CsvWriter {
    /// The report row of `account`, the account of `client`.
    fn output_row(client: u16, account: &ClientAccount) -> (r: OutputRow)
        ensures
            reports(r, client, account@),
    {
        OutputRow {
            client,
            available: format_fixed4(account.available()),
            held: format_fixed4(account.held()),
            total: format_fixed4(account.total()),
            locked: account.is_locked(),
        }
    }

    /// The account report: one row for each client, in increasing client
    /// order, each reporting that client's account.
    pub fn output_rows(engine: &TransactionEngine) -> (r: Vec<OutputRow>)
        ensures
            forall|i: int, j: int| 0 <= i < j < r@.len() ==> r@[i].client < r@[j].client,
            forall|i: int| 0 <= i < r@.len() ==> {
                &&& engine@.clients.contains_key(#[trigger] r@[i].client)
                &&& reports(r@[i], r@[i].client, engine@.clients[r@[i].client])
            },
            forall|c: u16| engine@.clients.contains_key(c) ==> exists|i: int| 0 <= i < r@.len() && #[trigger] r@[i].client == c,
    {
        let mut rows: Vec<OutputRow> = Vec::new();
        let mut id: u32 = 0;
        while id <= 65535
            invariant
                id <= 65536,
                forall|i: int, j: int| 0 <= i < j < rows@.len() ==> rows@[i].client < rows@[j].client,
                forall|i: int| 0 <= i < rows@.len() ==> (#[trigger] rows@[i].client) < id,
                forall|i: int| 0 <= i < rows@.len() ==> {
                    &&& engine@.clients.contains_key(#[trigger] rows@[i].client)
                    &&& reports(rows@[i], rows@[i].client, engine@.clients[rows@[i].client])
                },
                forall|c: u16| c < id && engine@.clients.contains_key(c) ==> exists|i: int| 0 <= i < rows@.len() && #[trigger] rows@[i].client == c,
            decreases 65536 - id,
        {
            let client = id as u16;
            if let Some(account) = engine.get_client(client) {
                let row = CsvWriter::output_row(client, account);
                let ghost before = rows@;
                rows.push(row);
                proof {
                    assert(rows@[before.len() as int].client == client);
                    assert forall|c: u16| c < id + 1 && engine@.clients.contains_key(c) implies exists|i: int|
                        0 <= i < rows@.len() && #[trigger] rows@[i].client == c by {
                        if c < id {
                            let i = choose|i: int| 0 <= i < before.len() && #[trigger] before[i].client == c;
                            assert(rows@[i] == before[i]);
                        } else {
                            assert(rows@[before.len() as int].client == c);
                        }
                    }
                }
            }
            id = id + 1;
        }
        rows
    }
}

} // verus!
