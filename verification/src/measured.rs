//! What the measured metrics, heart rate and temperature, have in common:
//! the lines shown to the operator and the work of a compaction.

use vstd::prelude::*;
use vstd::string::StringExecFns;
use crate::clock::in_calendar_range;
use crate::command::LastQuery;
use crate::compaction::{compact, compacted, tombstone_count, MergePolicy, Sample};
use crate::store::{
    delete_statement, delete_statement_text, update_batch, update_batch_text,
};
use crate::text::{decimal, i64_to_string};
use crate::utils::{format_timestamp, timestamp_text};

verus! {

/// The line that confirms a recorded reading.
pub open spec fn recorded_text(name: Seq<char>, value: u8) -> Seq<char> {
    "Recorded "@ + name + ": "@ + decimal(value as int) + "bpm"@
}

/// The line that shows one row of a history; `recorded` is the text of its
/// timestamp.
pub open spec fn row_text(row: Sample, recorded: Seq<char>) -> Seq<char> {
    decimal(row.value as int) + "bpm ("@ + decimal(row.duration as int) + "s), recorded "@
        + recorded + "\n"@
}

/// The lines that show the first `k` rows of a history.
pub open spec fn rows_text_upto(rows: Seq<Sample>, recorded: Seq<Seq<char>>, k: int) -> Seq<char>
    decreases k,
{
    if k <= 0 {
        Seq::empty()
    } else {
        rows_text_upto(rows, recorded, k - 1) + row_text(rows[k - 1], recorded[k - 1])
    }
}

/// What `last` shows: the notice about the count, then one line for each
/// row.
pub open spec fn report_text(notice: Seq<char>, rows: Seq<Sample>, recorded: Seq<Seq<char>>) -> Seq<
    char,
> {
    notice + rows_text_upto(rows, recorded, rows.len() as int)
}

/// Whether `text` may stand for `timestamp`: any text where the calendar
/// can place the timestamp, else the note that it is invalid.
pub open spec fn shows_timestamp(text: Seq<char>, timestamp: i64) -> bool {
    !in_calendar_range(timestamp as int) ==> text == timestamp_text(None, timestamp as int)
}

/// Whether `text` is what `last` shows for `rows`, with `recorded` as the
/// texts of their timestamps.
pub open spec fn is_last_report(
    text: Seq<char>,
    notice: Seq<char>,
    rows: Seq<Sample>,
    recorded: Seq<Seq<char>>,
) -> bool {
    &&& recorded.len() == rows.len()
    &&& forall|i: int|
        0 <= i < rows.len() ==> shows_timestamp(#[trigger] recorded[i], rows[i].timestamp)
    &&& text == report_text(notice, rows, recorded)
}

/// Writes the line that confirms a recorded reading of the metric `name`.
pub fn recorded_line(name: &str, value: u8) -> (r: String)
    ensures
        r@ == recorded_text(name@, value),
{
    let value: i64 = value as i64;
    String::from_str("Recorded ").concat(name).concat(": ").concat(
        i64_to_string(value).as_str(),
    ).concat("bpm")
}

/// Writes the line that shows one row; `recorded` is the text of its
/// timestamp.
pub fn row_line(row: &Sample, recorded: &str) -> (r: String)
    ensures
        r@ == row_text(*row, recorded@),
{
    let value: i64 = row.value as i64;
    i64_to_string(value).concat("bpm (").concat(i64_to_string(row.duration).as_str()).concat(
        "s), recorded ",
    ).concat(recorded).concat("\n")
}

/// Writes what `last` shows for `rows`, using the local date and time of
/// each row. Of these texts only that of a timestamp outside the calendar
/// is fixed.
pub fn last_report(query: &LastQuery, rows: &Vec<Sample>) -> (r: String)
    ensures
        exists|recorded: Seq<Seq<char>>| is_last_report(r@, query.notice@, rows@, recorded),
{
    let mut report = query.notice.clone();
    let ghost mut recorded: Seq<Seq<char>> = Seq::empty();
    let mut i: usize = 0;
    while i < rows.len()
        invariant
            i <= rows.len(),
            recorded.len() == i,
            forall|j: int| 0 <= j < i ==> shows_timestamp(#[trigger] recorded[j], rows@[j].timestamp),
            report@ == query.notice@ + rows_text_upto(rows@, recorded, i as int),
        decreases rows.len() - i,
    {
        let when = format_timestamp(rows[i].timestamp);
        let line = row_line(&rows[i], when.as_str());
        proof {
            let before = recorded;
            recorded = recorded.push(when@);
            lemma_rows_text_prefix(rows@, before, recorded, i as int);
            assert(query.notice@ + rows_text_upto(rows@, recorded, i as int) + line@
                =~= query.notice@ + (rows_text_upto(rows@, recorded, i as int) + line@));
        }
        report = report.concat(line.as_str());
        i = i + 1;
    }
    assert(is_last_report(report@, query.notice@, rows@, recorded));
    report
}

/// The lines of the first `k` rows depend on the first `k` timestamp texts
/// only.
pub proof fn lemma_rows_text_prefix(
    rows: Seq<Sample>,
    a: Seq<Seq<char>>,
    b: Seq<Seq<char>>,
    k: int,
)
    requires
        0 <= k <= a.len(),
        k <= b.len(),
        forall|i: int| 0 <= i < k ==> a[i] == b[i],
    ensures
        rows_text_upto(rows, a, k) == rows_text_upto(rows, b, k),
    decreases k,
{
    if k > 0 {
        lemma_rows_text_prefix(rows, a, b, k - 1);
    }
}

/// What the store is to do for one compaction, and what will come of it.
#[derive(Debug)]
pub struct CompactionJob {
    /// The statements that rewrite every row of the history.
    pub update_batch: String,
    /// The statement that deletes the tombstoned rows afterwards.
    pub delete_statement: String,
    /// Number of rows that the deletion removes.
    pub deleted_count: usize,
}

/// Compacts the history of `table` under `policy` and writes the statements
/// that bring the store up to date: one update for every row, as compaction
/// leaves it, then the deletion of the tombstoned rows.
pub fn plan_compaction(table: &str, policy: MergePolicy, history: Vec<Sample>) -> (job:
    CompactionJob)
    requires
        history.len() <= i64::MAX,
    ensures
        job.update_batch@ == update_batch_text(table@, compacted(policy, history@)),
        job.delete_statement@ == delete_statement_text(table@),
        job.deleted_count == tombstone_count(compacted(policy, history@)),
{
    let plan = compact(policy, history);
    CompactionJob {
        update_batch: update_batch(table, &plan.rewritten),
        delete_statement: delete_statement(table),
        deleted_count: plan.deleted_count,
    }
}

} // verus!
