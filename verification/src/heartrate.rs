//! Heart rate: readings of one octet, compacted on equal values.

use vstd::prelude::*;
use vstd::string::StringExecFns;
use crate::command::{
    count_word, measurement_command, measurement_command_of, parsed_u8, LastQuery,
    MeasurementCommand,
};
use crate::compaction::{compacted, rle_encode_with, tombstone_count, MergePolicy, Sample};
use crate::measured::{
    is_last_report, last_report, plan_compaction, recorded_line, recorded_text, CompactionJob,
};
use crate::stat::Stat;
use crate::store::{delete_statement_text, update_batch_text};

verus! {

/// The heart-rate metric.
pub struct Heartrate;

impl Stat for Heartrate {
    open spec fn tables_text() -> Seq<char> {
        "CREATE TABLE IF NOT EXISTS heartrate (
            id          INTEGER PRIMARY KEY,
            timestamp   INTEGER UNIQUE NOT NULL,
            heartrate   INTEGER NOT NULL,
            duration    INTEGER DEFAULT (0) NOT NULL
        );"@
    }

    open spec fn help_text() -> Seq<char> {
        "\theartrate <last <count:i64> | heartrate:u8>\n"@
    }

    fn tables() -> (r: &'static str) {
        "CREATE TABLE IF NOT EXISTS heartrate (
            id          INTEGER PRIMARY KEY,
            timestamp   INTEGER UNIQUE NOT NULL,
            heartrate   INTEGER NOT NULL,
            duration    INTEGER DEFAULT (0) NOT NULL
        );"
    }

    fn help() -> (r: String) {
        String::from_str("\theartrate <last <count:i64> | heartrate:u8>\n")
    }
}

impl Heartrate {
    /// Name of the table and of its value column.
    pub fn table() -> (r: &'static str)
        ensures
            r@ == "heartrate"@,
    {
        "heartrate"
    }

    /// Reads the command that follows `heartrate` on the command line.
    pub fn command(args: &Vec<String>) -> (r: MeasurementCommand)
        ensures
            r@ == measurement_command_of(
                args@,
                if args@.len() > 0 {
                    parsed_u8(args@[0]@)
                } else {
                    Err(Seq::empty())
                },
                count_word(args@, 1),
            ),
    {
        measurement_command(args)
    }

    /// Writes the line that confirms a recorded heart rate.
    pub fn recorded(value: u8) -> (r: String)
        ensures
            r@ == recorded_text("heartrate"@, value),
    {
        recorded_line("heartrate", value)
    }

    /// Writes what `last` shows for `rows`.
    pub fn last(query: &LastQuery, rows: &Vec<Sample>) -> (r: String)
        ensures
            exists|recorded: Seq<Seq<char>>| is_last_report(r@, query.notice@, rows@, recorded),
    {
        last_report(query, rows)
    }

    /// Compacts the heart-rate history, newest row first, and writes the
    /// statements that bring the store up to date.
    pub fn compress(history: Vec<Sample>) -> (job: CompactionJob)
        requires
            history.len() <= i64::MAX,
        ensures
            job.update_batch@ == update_batch_text(
                "heartrate"@,
                compacted(MergePolicy::ValueOnly, history@),
            ),
            job.delete_statement@ == delete_statement_text("heartrate"@),
            job.deleted_count == tombstone_count(compacted(MergePolicy::ValueOnly, history@)),
    {
        plan_compaction("heartrate", MergePolicy::ValueOnly, history)
    }
}

/// Compacts a heart-rate history: neighbours with equal values form a run,
/// whatever their timestamps. Rows that are not to be kept come back with a
/// duration of -1.
pub fn rle_encode(raw: Vec<Sample>) -> (out: Vec<Sample>)
    requires
        raw.len() <= i64::MAX,
    ensures
        out@ == compacted(MergePolicy::ValueOnly, raw@),
{
    rle_encode_with(MergePolicy::ValueOnly, raw)
}

} // verus!
