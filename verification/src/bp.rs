//! Blood pressure: pairs of systolic and diastolic readings.

use vstd::prelude::*;
use vstd::string::StringExecFns;
use crate::command::{
    count_word, parsed_i64, pressure_command, pressure_command_of, PressureCommand,
};
use crate::stat::Stat;
use crate::text::{decimal, i64_to_string};

verus! {

/// The blood-pressure metric.
pub struct BP;

/// One persisted pair of readings.
#[derive(Clone, Copy, Debug, PartialEq, Eq, Structural)]
pub struct PressureSample {
    pub id: i64,
    pub timestamp: i64,
    pub sys: i16,
    pub dia: i16,
}

impl Stat for BP {
    open spec fn tables_text() -> Seq<char> {
        "CREATE TABLE IF NOT EXISTS bp (
            id          INTEGER PRIMARY KEY,
            timestamp   INTEGER UNIQUE NOT NULL,
            sys         INTEGER NOT NULL,
            dia         INTEGER NOT NULL
        );"@
    }

    open spec fn help_text() -> Seq<char> {
        "\tbp <last <count:i64>> | <<sys:i16> <dia:i16>>\n"@
    }

    fn tables() -> (r: &'static str) {
        "CREATE TABLE IF NOT EXISTS bp (
            id          INTEGER PRIMARY KEY,
            timestamp   INTEGER UNIQUE NOT NULL,
            sys         INTEGER NOT NULL,
            dia         INTEGER NOT NULL
        );"
    }

    fn help() -> (r: String) {
        String::from_str("\tbp <last <count:i64>> | <<sys:i16> <dia:i16>>\n")
    }
}

/// The line that confirms a recorded pair of readings.
pub open spec fn recorded_text(sys: i64, dia: i64) -> Seq<char> {
    "Recorded bp: "@ + decimal(sys as int) + "mmHg systolic, "@ + decimal(dia as int)
        + "mmHg diastolic"@
}

/// The line that shows one row of the history; `recorded` is the text of
/// its timestamp.
pub open spec fn row_text(row: PressureSample, recorded: Seq<char>) -> Seq<char> {
    decimal(row.sys as int) + "mmHg systolic, "@ + decimal(row.dia as int)
        + "mmHg diastolic, recorded "@ + recorded + "\n"@
}

impl BP {
    /// Reads the command that follows `bp` on the command line.
    pub fn command(args: &Vec<String>) -> (r: PressureCommand)
        ensures
            r@ == pressure_command_of(
                args@,
                if args@.len() > 0 {
                    parsed_i64(args@[0]@)
                } else {
                    Err(Seq::empty())
                },
                count_word(args@, 1),
            ),
    {
        pressure_command(args)
    }

    /// Writes the line that confirms a recorded pair of readings.
    pub fn recorded(sys: i64, dia: i64) -> (r: String)
        ensures
            r@ == recorded_text(sys, dia),
    {
        String::from_str("Recorded bp: ").concat(i64_to_string(sys).as_str()).concat(
            "mmHg systolic, ",
        ).concat(i64_to_string(dia).as_str()).concat("mmHg diastolic")
    }

    /// Writes the line that shows one row; `recorded` is the text of its
    /// timestamp.
    pub fn row_line(row: &PressureSample, recorded: &str) -> (r: String)
        ensures
            r@ == row_text(*row, recorded@),
    {
        let sys: i64 = row.sys as i64;
        let dia: i64 = row.dia as i64;
        i64_to_string(sys).concat("mmHg systolic, ").concat(i64_to_string(dia).as_str()).concat(
            "mmHg diastolic, recorded ",
        ).concat(recorded).concat("\n")
    }
}

} // verus!
