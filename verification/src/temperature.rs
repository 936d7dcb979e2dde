//! Temperature: readings of one octet, compacted on equal values taken one
//! second apart.

use vstd::prelude::*;
use vstd::string::StringExecFns;
use crate::command::{
    count_word, measurement_command, measurement_command_of, parsed_u8, LastQuery,
    MeasurementCommand,
};
use crate::compaction::{compacted, rle_encode_with, tombstone_count, MergePolicy, Sample};
use crate::measured::{
    is_last_report, last_report, plan_compaction, recorded_line, recorded_text, CompactionJob,
};
use crate::stat::Stat;
use crate::store::{delete_statement_text, update_batch_text};

verus! {

/// The temperature metric.
pub struct Temperature;

impl Stat for Temperature {
    open spec fn tables_text() -> Seq<char> {
        "CREATE TABLE IF NOT EXISTS temperature (
            id          INTEGER PRIMARY KEY,
            timestamp   INTEGER UNIQUE NOT NULL,
            temperature   INTEGER NOT NULL,
            duration    INTEGER DEFAULT (0) NOT NULL
        );"@
    }

    open spec fn help_text() -> Seq<char> {
        "\ttemperature <last <count:i64> | temperature:u8>\n"@
    }

    fn tables() -> (r: &'static str) {
        "CREATE TABLE IF NOT EXISTS temperature (
            id          INTEGER PRIMARY KEY,
            timestamp   INTEGER UNIQUE NOT NULL,
            temperature   INTEGER NOT NULL,
            duration    INTEGER DEFAULT (0) NOT NULL
        );"
    }

    fn help() -> (r: String) {
        String::from_str("\ttemperature <last <count:i64> | temperature:u8>\n")
    }
}

impl Temperature {
    /// Name of the table and of its value column.
    pub fn table() -> (r: &'static str)
        ensures
            r@ == "temperature"@,
    {
        "temperature"
    }

    /// Reads the command that follows `temp` on the command line.
    pub fn command(args: &Vec<String>) -> (r: MeasurementCommand)
        ensures
            r@ == measurement_command_of(
                args@,
                if args@.len() > 0 {
                    parsed_u8(args@[0]@)
                } else {
                    Err(Seq::empty())
                },
                count_word(args@, 1),
            ),
    {
        measurement_command(args)
    }

    /// Writes the line that confirms a recorded temperature.
    pub fn recorded(value: u8) -> (r: String)
        ensures
            r@ == recorded_text("temperature"@, value),
    {
        recorded_line("temperature", value)
    }

    /// Writes what `last` shows for `rows`.
    pub fn last(query: &LastQuery, rows: &Vec<Sample>) -> (r: String)
        ensures
            exists|recorded: Seq<Seq<char>>| is_last_report(r@, query.notice@, rows@, recorded),
    {
        last_report(query, rows)
    }

    /// Compacts the temperature history, newest row first, and writes the
    /// statements that bring the store up to date.
    pub fn compress(history: Vec<Sample>) -> (job: CompactionJob)
        requires
            history.len() <= i64::MAX,
        ensures
            job.update_batch@ == update_batch_text(
                "temperature"@,
                compacted(MergePolicy::ValueAndAdjacency, history@),
            ),
            job.delete_statement@ == delete_statement_text("temperature"@),
            job.deleted_count == tombstone_count(compacted(MergePolicy::ValueAndAdjacency, history@)),
    {
        plan_compaction("temperature", MergePolicy::ValueAndAdjacency, history)
    }
}

/// Compacts a temperature history: neighbours with equal values form a run
/// where the first was taken one second after the second. Rows that are not
/// to be kept come back with a duration of -1.
pub fn rle_encode(raw: Vec<Sample>) -> (out: Vec<Sample>)
    requires
        raw.len() <= i64::MAX,
    ensures
        out@ == compacted(MergePolicy::ValueAndAdjacency, raw@),
{
    rle_encode_with(MergePolicy::ValueAndAdjacency, raw)
}

} // verus!
