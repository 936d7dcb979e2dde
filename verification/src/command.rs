//! The words of a command line, turned into what the operator asked for.
//!
//! Every metric takes `last` with an optional count; the measured metrics
//! also take `compress` and a reading. Numbers are read by the standard
//! library; what follows from its answer is decided here.

use vstd::prelude::*;
use vstd::string::StringExecFns;

verus! {

/// Number of entries that `last` shows where no usable count is given.
pub const DEFAULT_TAKE: i64 = 3;

/// What `str::parse::<i64>` makes of a text: the number, or the text of its
/// error.
pub uninterp spec fn parsed_i64(text: Seq<char>) -> Result<i64, Seq<char>>;

/// What `str::parse::<u8>` makes of a text: the number, or the text of its
/// error.
pub uninterp spec fn parsed_u8(text: Seq<char>) -> Result<u8, Seq<char>>;

/// The outcome of reading a number, with the error as plain text.
pub open spec fn outcome_view<T>(outcome: Result<T, String>) -> Result<T, Seq<char>> {
    match outcome {
        Ok(n) => Ok(n),
        Err(e) => Err(e@),
    }
}

/// Calls `str::parse::<i64>` of the standard library and turns its error
/// into text. The result is what that function makes of the text, which
/// depends on the text alone.
#[verifier::external_body]
pub(crate) fn parse_i64(text: &str) -> (r: Result<i64, String>)
    ensures
        outcome_view(r) == parsed_i64(text@),
{
    match text.parse::<i64>() {
        Ok(n) => Ok(n),
        Err(e) => Err(e.to_string()),
    }
}

/// Calls `str::parse::<u8>` of the standard library and turns its error
/// into text. The result is what that function makes of the text, which
/// depends on the text alone.
#[verifier::external_body]
pub(crate) fn parse_u8(text: &str) -> (r: Result<u8, String>)
    ensures
        outcome_view(r) == parsed_u8(text@),
{
    match text.parse::<u8>() {
        Ok(n) => Ok(n),
        Err(e) => Err(e.to_string()),
    }
}

/// Whether two texts are the same.
pub fn same_text(a: &str, b: &str) -> (r: bool)
    ensures
        r == (a@ == b@),
{
    String::from_str(a) == String::from_str(b)
}

/// How many entries `last` is to show, and what to tell the operator about
/// the count.
#[derive(Debug, PartialEq, Eq)]
pub struct LastQuery {
    pub take: i64,
    pub notice: String,
}

/// A `LastQuery` as plain values.
pub struct LastQueryView {
    pub take: i64,
    pub notice: Seq<char>,
}

impl View for LastQuery {
    type V = LastQueryView;

    open spec fn view(&self) -> LastQueryView {
        LastQueryView { take: self.take, notice: self.notice@ }
    }
}

/// The query that follows from the count as it was read: the count itself
/// where one was given and is a number, else the default with a notice.
pub open spec fn last_query_of(count: Option<Result<i64, Seq<char>>>) -> LastQueryView {
    match count {
        Some(Ok(take)) => LastQueryView { take, notice: Seq::empty() },
        Some(Err(_)) => LastQueryView {
            take: DEFAULT_TAKE,
            notice: "Failed to parse query parameter\nUsing default query parameter 3\n"@,
        },
        None => LastQueryView {
            take: DEFAULT_TAKE,
            notice: "Using default query parameter 3\n"@,
        },
    }
}

/// The count as the standard library reads it from the word at `at`, if
/// there is such a word.
pub open spec fn count_word(args: Seq<String>, at: int) -> Option<Result<i64, Seq<char>>> {
    if 0 <= at < args.len() {
        Some(parsed_i64(args[at]@))
    } else {
        None
    }
}

/// Builds the query from the count as it was read.
pub fn last_query_from(count: Option<Result<i64, String>>) -> (r: LastQuery)
    ensures
        r@ == last_query_of(
            match count {
                Some(outcome) => Some(outcome_view(outcome)),
                None => None,
            },
        ),
{
    match count {
        Some(Ok(take)) => {
            LastQuery { take, notice: String::new() }
        },
        Some(Err(_)) => LastQuery {
            take: DEFAULT_TAKE,
            notice: String::from_str(
                "Failed to parse query parameter\nUsing default query parameter 3\n",
            ),
        },
        None => LastQuery {
            take: DEFAULT_TAKE,
            notice: String::from_str("Using default query parameter 3\n"),
        },
    }
}

/// Reads the query of `last` from the word at `at`.
pub fn last_query(args: &Vec<String>, at: usize) -> (r: LastQuery)
    ensures
        r@ == last_query_of(count_word(args@, at as int)),
{
    if at < args.len() {
        last_query_from(Some(parse_i64(args[at].as_str())))
    } else {
        last_query_from(None)
    }
}

/// What the operator asked of a measured metric.
#[derive(Debug, PartialEq, Eq)]
pub enum MeasurementCommand {
    /// No word followed the metric's name.
    NoParameters,
    /// Show the latest entries.
    Last(LastQuery),
    /// Compact the history.
    Compress,
    /// Record this reading.
    Record(u8),
    /// The word is neither a command nor a reading; the text says why.
    Rejected(String),
}

/// A `MeasurementCommand` as plain values.
pub enum MeasurementCommandView {
    NoParameters,
    Last(LastQueryView),
    Compress,
    Record(u8),
    Rejected(Seq<char>),
}

impl View for MeasurementCommand {
    type V = MeasurementCommandView;

    open spec fn view(&self) -> MeasurementCommandView {
        match self {
            MeasurementCommand::NoParameters => MeasurementCommandView::NoParameters,
            MeasurementCommand::Last(query) => MeasurementCommandView::Last(query@),
            MeasurementCommand::Compress => MeasurementCommandView::Compress,
            MeasurementCommand::Record(value) => MeasurementCommandView::Record(*value),
            MeasurementCommand::Rejected(why) => MeasurementCommandView::Rejected(why@),
        }
    }
}

/// The command that the words after a measured metric's name stand for,
/// given how the standard library reads the first word as a reading and the
/// second as a count.
pub open spec fn measurement_command_of(
    args: Seq<String>,
    reading: Result<u8, Seq<char>>,
    count: Option<Result<i64, Seq<char>>>,
) -> MeasurementCommandView {
    if args.len() == 0 {
        MeasurementCommandView::NoParameters
    } else if args[0]@ == "last"@ {
        MeasurementCommandView::Last(last_query_of(count))
    } else if args[0]@ == "compress"@ {
        MeasurementCommandView::Compress
    } else {
        match reading {
            Ok(value) => MeasurementCommandView::Record(value),
            Err(e) => MeasurementCommandView::Rejected("Failed to parse parameter: "@ + e),
        }
    }
}

/// Builds the command from a word that is neither `last` nor `compress`, as
/// the standard library read it.
pub fn reading_command(reading: Result<u8, String>) -> (r: MeasurementCommand)
    ensures
        r@ == match outcome_view(reading) {
            Ok(value) => MeasurementCommandView::Record(value),
            Err(e) => MeasurementCommandView::Rejected("Failed to parse parameter: "@ + e),
        },
{
    match reading {
        Ok(value) => MeasurementCommand::Record(value),
        Err(e) => MeasurementCommand::Rejected(
            String::from_str("Failed to parse parameter: ").concat(e.as_str()),
        ),
    }
}

/// Reads the command that follows a measured metric's name.
pub fn measurement_command(args: &Vec<String>) -> (r: MeasurementCommand)
    ensures
        r@ == measurement_command_of(
            args@,
            if args@.len() > 0 {
                parsed_u8(args@[0]@)
            } else {
                Err(Seq::empty())
            },
            count_word(args@, 1),
        ),
{
    if args.len() == 0 {
        return MeasurementCommand::NoParameters;
    }
    let word = args[0].as_str();
    if same_text(word, "last") {
        MeasurementCommand::Last(last_query(args, 1))
    } else if same_text(word, "compress") {
        MeasurementCommand::Compress
    } else {
        reading_command(parse_u8(word))
    }
}

/// What the operator asked of a metric whose reading is taken as written.
#[derive(Debug, PartialEq, Eq)]
pub enum TextCommand {
    /// No word followed the metric's name.
    NoParameters,
    /// Show the latest entries.
    Last(LastQuery),
    /// Record this word.
    Record(String),
}

/// A `TextCommand` as plain values.
pub enum TextCommandView {
    NoParameters,
    Last(LastQueryView),
    Record(Seq<char>),
}

impl View for TextCommand {
    type V = TextCommandView;

    open spec fn view(&self) -> TextCommandView {
        match self {
            TextCommand::NoParameters => TextCommandView::NoParameters,
            TextCommand::Last(query) => TextCommandView::Last(query@),
            TextCommand::Record(word) => TextCommandView::Record(word@),
        }
    }
}

/// The command that the words after the metric's name stand for, given how
/// the standard library reads the second word as a count.
pub open spec fn text_command_of(
    args: Seq<String>,
    count: Option<Result<i64, Seq<char>>>,
) -> TextCommandView {
    if args.len() == 0 {
        TextCommandView::NoParameters
    } else if args[0]@ == "last"@ {
        TextCommandView::Last(last_query_of(count))
    } else {
        TextCommandView::Record(args[0]@)
    }
}

/// Reads the command that follows the name of a metric whose reading is
/// taken as written.
pub fn text_command(args: &Vec<String>) -> (r: TextCommand)
    ensures
        r@ == text_command_of(args@, count_word(args@, 1)),
{
    if args.len() == 0 {
        return TextCommand::NoParameters;
    }
    if same_text(args[0].as_str(), "last") {
        TextCommand::Last(last_query(args, 1))
    } else {
        TextCommand::Record(args[0].clone())
    }
}

/// What the operator asked of the blood-pressure metric.
#[derive(Debug, PartialEq, Eq)]
pub enum PressureCommand {
    /// No word followed the metric's name.
    NoParameters,
    /// Show the latest entries.
    Last(LastQuery),
    /// Record this pair of readings.
    Record { sys: i64, dia: i64 },
    /// The words are neither a command nor a pair of readings; the text
    /// says why.
    Rejected(String),
}

/// A `PressureCommand` as plain values.
pub enum PressureCommandView {
    NoParameters,
    Last(LastQueryView),
    Record { sys: i64, dia: i64 },
    Rejected(Seq<char>),
}

impl View for PressureCommand {
    type V = PressureCommandView;

    open spec fn view(&self) -> PressureCommandView {
        match self {
            PressureCommand::NoParameters => PressureCommandView::NoParameters,
            PressureCommand::Last(query) => PressureCommandView::Last(query@),
            PressureCommand::Record { sys, dia } => PressureCommandView::Record {
                sys: *sys,
                dia: *dia,
            },
            PressureCommand::Rejected(why) => PressureCommandView::Rejected(why@),
        }
    }
}

/// The pair of readings, or the reason why there is none, given how the
/// standard library reads the first word and, where there is one, the
/// second. The second word is looked at only where the first is a number.
pub open spec fn pressure_readings_of(
    first: Result<i64, Seq<char>>,
    second: Option<Result<i64, Seq<char>>>,
) -> PressureCommandView {
    match first {
        Err(e) => PressureCommandView::Rejected("Failed to parse parameter: <sys:i16>\n"@ + e),
        Ok(sys) => match second {
            None => PressureCommandView::Rejected("Missing parameter: dia"@),
            Some(Err(e)) => PressureCommandView::Rejected(
                "Failed to parse parameter: <dia:i16>\n"@ + e,
            ),
            Some(Ok(dia)) => PressureCommandView::Record { sys, dia },
        },
    }
}

/// The command that the words after `bp` stand for, given how the standard
/// library reads the first and the second word as numbers.
pub open spec fn pressure_command_of(
    args: Seq<String>,
    first: Result<i64, Seq<char>>,
    second: Option<Result<i64, Seq<char>>>,
) -> PressureCommandView {
    if args.len() == 0 {
        PressureCommandView::NoParameters
    } else if args[0]@ == "last"@ {
        PressureCommandView::Last(last_query_of(second))
    } else {
        pressure_readings_of(first, second)
    }
}

/// Builds the command from two words that are to be readings, as the
/// standard library read them.
pub fn pressure_readings(first: Result<i64, String>, second: Option<Result<i64, String>>) -> (r:
    PressureCommand)
    ensures
        r@ == pressure_readings_of(
            outcome_view(first),
            match second {
                Some(outcome) => Some(outcome_view(outcome)),
                None => None,
            },
        ),
{
    match first {
        Err(e) => PressureCommand::Rejected(
            String::from_str("Failed to parse parameter: <sys:i16>\n").concat(e.as_str()),
        ),
        Ok(sys) => match second {
            None => PressureCommand::Rejected(String::from_str("Missing parameter: dia")),
            Some(Err(e)) => PressureCommand::Rejected(
                String::from_str("Failed to parse parameter: <dia:i16>\n").concat(e.as_str()),
            ),
            Some(Ok(dia)) => PressureCommand::Record { sys, dia },
        },
    }
}

/// Reads the command that follows `bp` on the command line.
pub fn pressure_command(args: &Vec<String>) -> (r: PressureCommand)
    ensures
        r@ == pressure_command_of(
            args@,
            if args@.len() > 0 {
                parsed_i64(args@[0]@)
            } else {
                Err(Seq::empty())
            },
            count_word(args@, 1),
        ),
{
    if args.len() == 0 {
        return PressureCommand::NoParameters;
    }
    let word = args[0].as_str();
    if same_text(word, "last") {
        return PressureCommand::Last(last_query(args, 1));
    }
    let second = if args.len() > 1 {
        Some(parse_i64(args[1].as_str()))
    } else {
        None
    };
    pressure_readings(parse_i64(word), second)
}

} // verus!
