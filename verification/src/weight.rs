//! Weight: the word that the operator enters is handed on as written; it is
//! read as a number where it is stored.

use vstd::prelude::*;
use vstd::string::StringExecFns;
use crate::command::{count_word, text_command, text_command_of, TextCommand};
use crate::stat::Stat;

verus! {

/// The weight metric.
pub struct Weight;

impl Stat for Weight {
    open spec fn tables_text() -> Seq<char> {
        "CREATE TABLE IF NOT EXISTS weight (
            id          INTEGER PRIMARY KEY,
            timestamp   INTEGER UNIQUE NOT NULL,
            weight      REAL NOT NULL
        );"@
    }

    open spec fn help_text() -> Seq<char> {
        "\tweight <last <count:i64> | weight:f64>\n"@
    }

    fn tables() -> (r: &'static str) {
        "CREATE TABLE IF NOT EXISTS weight (
            id          INTEGER PRIMARY KEY,
            timestamp   INTEGER UNIQUE NOT NULL,
            weight      REAL NOT NULL
        );"
    }

    fn help() -> (r: String) {
        String::from_str("\tweight <last <count:i64> | weight:f64>\n")
    }
}

impl Weight {
    /// Reads the command that follows `weight` on the command line.
    pub fn command(args: &Vec<String>) -> (r: TextCommand)
        ensures
            r@ == text_command_of(args@, count_word(args@, 1)),
    {
        text_command(args)
    }
}

} // verus!
