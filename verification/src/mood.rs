//! Mood: one word for how the day felt.

use vstd::prelude::*;
use vstd::string::StringExecFns;
use crate::command::{count_word, text_command, text_command_of, TextCommand};
use crate::stat::Stat;

verus! {

/// The mood metric.
pub struct Mood;

impl Stat for Mood {
    open spec fn tables_text() -> Seq<char> {
        "CREATE TABLE IF NOT EXISTS mood (
            id          INTEGER PRIMARY KEY,
            timestamp   INTEGER UNIQUE NOT NULL,
            mood        TEXT NOT NULL
        );"@
    }

    open spec fn help_text() -> Seq<char> {
        "\tmood <last <count:i64> | mood:str>\n"@
    }

    fn tables() -> (r: &'static str) {
        "CREATE TABLE IF NOT EXISTS mood (
            id          INTEGER PRIMARY KEY,
            timestamp   INTEGER UNIQUE NOT NULL,
            mood        TEXT NOT NULL
        );"
    }

    fn help() -> (r: String) {
        String::from_str("\tmood <last <count:i64> | mood:str>\n")
    }
}

/// The line that confirms a recorded mood.
pub open spec fn recorded_text(mood: Seq<char>) -> Seq<char> {
    "Recorded mood: "@ + mood
}

/// The line that shows one row of the history; `recorded` is the text of
/// its timestamp.
pub open spec fn row_text(mood: Seq<char>, recorded: Seq<char>) -> Seq<char> {
    mood + ", recorded "@ + recorded + "\n"@
}

impl Mood {
    /// Reads the command that follows `mood` on the command line.
    pub fn command(args: &Vec<String>) -> (r: TextCommand)
        ensures
            r@ == text_command_of(args@, count_word(args@, 1)),
    {
        text_command(args)
    }

    /// Writes the line that confirms a recorded mood.
    pub fn recorded(mood: &str) -> (r: String)
        ensures
            r@ == recorded_text(mood@),
    {
        String::from_str("Recorded mood: ").concat(mood)
    }

    /// Writes the line that shows one row; `recorded` is the text of its
    /// timestamp.
    pub fn row_line(mood: &str, recorded: &str) -> (r: String)
        ensures
            r@ == row_text(mood@, recorded@),
    {
        String::from_str(mood).concat(", recorded ").concat(recorded).concat("\n")
    }
}

} // verus!
