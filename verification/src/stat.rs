//! What every metric offers: the table it is stored in and its line of help.

use vstd::prelude::*;
use vstd::string::StringExecFns;
use crate::bp::BP;
use crate::heartrate::Heartrate;
use crate::mood::Mood;
use crate::temperature::Temperature;
use crate::weight::Weight;

verus! {

/// A metric that the logger records.
pub trait Stat {
    /// The statement that creates the metric's table.
    spec fn tables_text() -> Seq<char>;

    /// The metric's line of the help text.
    spec fn help_text() -> Seq<char>;

    /// The statement that creates the metric's table where it is missing.
    fn tables() -> (r: &'static str)
        ensures
            r@ == Self::tables_text(),
    ;

    /// The metric's line of the help text.
    fn help() -> (r: String)
        ensures
            r@ == Self::help_text(),
    ;
}

/// The help text: a heading, the line of every metric, and the commands
/// that belong to no metric.
pub open spec fn full_help_text() -> Seq<char> {
    "List of commands:\n"@ + Weight::help_text() + BP::help_text() + Mood::help_text()
        + Heartrate::help_text() + Temperature::help_text()
        + "\trecord_hrp - Connects to BLE HRP compatible device and collects heartrate data\n"@
        + "\tingest_markdown_weight <file_path:str>\n"@
        + "\tbackup <backup_path:str> - default: ./biomon.sqlite.bak\n"@
        + "\testore <backup_path:str> - default: ./biomon.sqlite.bak\n"@
        + "\tupgrade_tables <file_path:str>\n"@ + "\tq -> exit"@
}

/// Writes the help text.
pub fn help() -> (r: String)
    ensures
        r@ == full_help_text(),
{
    String::from_str("List of commands:\n").concat(Weight::help().as_str()).concat(
        BP::help().as_str(),
    ).concat(Mood::help().as_str()).concat(Heartrate::help().as_str()).concat(
        Temperature::help().as_str(),
    ).concat(
        "\trecord_hrp - Connects to BLE HRP compatible device and collects heartrate data\n",
    ).concat("\tingest_markdown_weight <file_path:str>\n").concat(
        "\tbackup <backup_path:str> - default: ./biomon.sqlite.bak\n",
    ).concat("\testore <backup_path:str> - default: ./biomon.sqlite.bak\n").concat(
        "\tupgrade_tables <file_path:str>\n",
    ).concat("\tq -> exit")
}

} // verus!
