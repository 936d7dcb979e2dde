//! What the sample store is asked to do: the readings to insert and the
//! statements that rewrite a compacted history.

use vstd::prelude::*;
use vstd::string::StringExecFns;
use crate::clock::unix_now;
use crate::compaction::Sample;
use crate::text::{decimal, decimal_digits, i64_to_string, u64_to_string};

verus! {

/// One reading on its way to the store.
#[derive(Clone, Copy, Debug, PartialEq, Eq, Structural)]
pub struct Reading {
    pub timestamp: i64,
    pub value: u8,
}

/// The reading `value`, taken at `timestamp`.
pub fn reading_at(value: u8, timestamp: i64) -> (r: Reading)
    ensures
        r == (Reading { timestamp, value }),
{
    Reading { timestamp, value }
}

/// The reading `value`, taken now. The timestamp is whatever the clock
/// says.
pub fn reading_now(value: u8) -> (r: Reading)
    ensures
        r.value == value,
{
    reading_at(value, unix_now())
}

/// The statement that gives the row `row.id` of `table` the timestamp,
/// value and duration of `row`, ending in a line break.
pub open spec fn update_statement_text(table: Seq<char>, row: Sample) -> Seq<char> {
    "UPDATE "@ + table + " SET timestamp = "@ + decimal(row.timestamp as int) + ", "@ + table
        + " = "@ + decimal(row.value as int) + ", duration = "@ + decimal(row.duration as int)
        + " WHERE id = "@ + decimal(row.id as int) + ";\n"@
}

/// The statements for the first `k` rows of `rows`, one after the other.
pub open spec fn update_batch_upto(table: Seq<char>, rows: Seq<Sample>, k: int) -> Seq<char>
    decreases k,
{
    if k <= 0 {
        Seq::empty()
    } else {
        update_batch_upto(table, rows, k - 1) + update_statement_text(table, rows[k - 1])
    }
}

/// The statements for all of `rows`, one after the other.
pub open spec fn update_batch_text(table: Seq<char>, rows: Seq<Sample>) -> Seq<char> {
    update_batch_upto(table, rows, rows.len() as int)
}

/// The statement that deletes the tombstoned rows of `table`.
pub open spec fn delete_statement_text(table: Seq<char>) -> Seq<char> {
    "DELETE FROM "@ + table + " WHERE duration = -1;"@
}

/// The line that tells the operator how many rows a compaction removed.
pub open spec fn summary_text(deleted: nat) -> Seq<char> {
    "Reduced entries by "@ + decimal_digits(deleted)
}

/// Writes the statement that rewrites one row of `table`.
pub fn update_statement(table: &str, row: &Sample) -> (r: String)
    ensures
        r@ == update_statement_text(table@, *row),
{
    let value: i64 = row.value as i64;
    String::from_str("UPDATE ").concat(table).concat(" SET timestamp = ").concat(
        i64_to_string(row.timestamp).as_str(),
    ).concat(", ").concat(table).concat(" = ").concat(i64_to_string(value).as_str()).concat(
        ", duration = ",
    ).concat(i64_to_string(row.duration).as_str()).concat(" WHERE id = ").concat(
        i64_to_string(row.id).as_str(),
    ).concat(";\n")
}

/// Writes the statements that rewrite all of `rows` in `table`, in order.
pub fn update_batch(table: &str, rows: &Vec<Sample>) -> (r: String)
    ensures
        r@ == update_batch_text(table@, rows@),
{
    let mut batch = String::new();
    let mut i: usize = 0;
    while i < rows.len()
        invariant
            i <= rows.len(),
            batch@ == update_batch_upto(table@, rows@, i as int),
        decreases rows.len() - i,
    {
        let statement = update_statement(table, &rows[i]);
        batch = batch.concat(statement.as_str());
        i = i + 1;
    }
    batch
}

/// Writes the statement that deletes the tombstoned rows of `table`.
pub fn delete_statement(table: &str) -> (r: String)
    ensures
        r@ == delete_statement_text(table@),
{
    String::from_str("DELETE FROM ").concat(table).concat(" WHERE duration = -1;")
}

/// Writes the line that tells the operator how many rows a compaction
/// removed.
pub fn compaction_summary(deleted: usize) -> (r: String)
    ensures
        r@ == summary_text(deleted as nat),
{
    String::from_str("Reduced entries by ").concat(u64_to_string(deleted as u64).as_str())
}

} // verus!
