//! Weight notes: lines such as `- 2023-12-03: 105.4kg`, each a day and the
//! weight taken on it.
//!
//! Every `- ` in a line is set aside first. What stands before the first
//! colon is the day: year, month and day of the month, set apart by dashes.
//! What stands between the first colon and the next is the weight; white
//! space around it and every `kg` in it are set aside.

use vstd::prelude::*;
use crate::chars::{
    chars_of, decimal_of, field_end, find_field_end, parse_decimal, remove_pair, string_of,
    trim_bounds, trim_end, trim_start, without_pair,
};
use crate::clock::{morning_of, morning_timestamp};

verus! {

/// Largest year that a note may name.
pub const MAX_YEAR: u64 = 0x7fff_ffff;

/// Largest number that may stand for a month or a day; whether the calendar
/// has such a day is decided later.
pub const MAX_FIELD: u64 = 0xffff_ffff;

/// One line of weight notes, as read.
#[derive(Debug, PartialEq, Eq)]
pub struct WeightNote {
    pub year: i32,
    pub month: u32,
    pub day: u32,
    pub weight: String,
}

/// A `WeightNote` as plain values.
pub struct WeightNoteView {
    pub year: i32,
    pub month: u32,
    pub day: u32,
    pub weight: Seq<char>,
}

impl View for WeightNote {
    type V = WeightNoteView;

    open spec fn view(&self) -> WeightNoteView {
        WeightNoteView { year: self.year, month: self.month, day: self.day, weight: self.weight@ }
    }
}

/// One weight on its way to the store; measurements count as taken at nine
/// o'clock, universal time.
#[derive(Debug, PartialEq, Eq)]
pub struct WeightRecord {
    pub timestamp: i64,
    pub weight: String,
}

/// The note that a line stands for once every `- ` is set aside, if it
/// stands for one.
pub open spec fn note_of_clean(clean: Seq<char>) -> Option<WeightNoteView> {
    let date_end = field_end(clean, ':', 0);
    let date = clean.take(date_end);
    let year_end = field_end(date, '-', 0);
    let month_end = field_end(date, '-', year_end + 1);
    let day_end = field_end(date, '-', month_end + 1);
    let weight_end = field_end(clean, ':', date_end + 1);
    let weight_from = trim_start(clean, date_end + 1, weight_end);
    let weight_to = trim_end(clean, weight_from, weight_end);
    if year_end < date_end && month_end < date_end && date_end < clean.len() {
        match (
            decimal_of(clean.subrange(0, year_end), MAX_YEAR as int),
            decimal_of(clean.subrange(year_end + 1, month_end), MAX_FIELD as int),
            decimal_of(clean.subrange(month_end + 1, day_end), MAX_FIELD as int),
        ) {
            (Some(year), Some(month), Some(day)) => Some(
                WeightNoteView {
                    year: year as i32,
                    month: month as u32,
                    day: day as u32,
                    weight: without_pair(clean.subrange(weight_from, weight_to), 'k', 'g'),
                },
            ),
            _ => None,
        }
    } else {
        None
    }
}

/// The note that a line stands for, if it stands for one.
pub open spec fn note_of(line: Seq<char>) -> Option<WeightNoteView> {
    note_of_clean(without_pair(line, '-', ' '))
}

/// Reads one line of weight notes. A line without a day of three numbers,
/// or without a weight, is no note.
pub fn parse_note(line: &str) -> (r: Option<WeightNote>)
    ensures
        match r {
            Some(note) => note_of(line@) == Some(note@),
            None => note_of(line@) is None,
        },
{
    let raw = chars_of(line);
    assert(raw@.subrange(0, raw@.len() as int) =~= raw@);
    let clean = remove_pair(&raw, 0, raw.len(), '-', ' ');
    let n = clean.len();
    assert(clean@.take(n as int) =~= clean@);
    let date_end = find_field_end(&clean, n, ':', 0);
    let ghost date = clean@.take(date_end as int);
    let year_end = find_field_end(&clean, date_end, '-', 0);
    if year_end >= date_end {
        return None;
    }
    let month_end = find_field_end(&clean, date_end, '-', year_end + 1);
    if month_end >= date_end {
        return None;
    }
    let day_end = find_field_end(&clean, date_end, '-', month_end + 1);
    if date_end >= n {
        return None;
    }
    let year = parse_decimal(&clean, 0, year_end, MAX_YEAR);
    let month = parse_decimal(&clean, year_end + 1, month_end, MAX_FIELD);
    let day = parse_decimal(&clean, month_end + 1, day_end, MAX_FIELD);
    let weight_end = find_field_end(&clean, n, ':', date_end + 1);
    let (weight_from, weight_to) = trim_bounds(&clean, date_end + 1, weight_end);
    match (year, month, day) {
        (Some(year), Some(month), Some(day)) => {
            let weight = remove_pair(&clean, weight_from, weight_to, 'k', 'g');
            assert(weight@.subrange(0, weight@.len() as int) =~= weight@);
            Some(
                WeightNote {
                    year: year as i32,
                    month: month as u32,
                    day: day as u32,
                    weight: string_of(&weight, 0, weight.len()),
                },
            )
        },
        _ => None,
    }
}

/// The record that a note becomes: its weight, stamped with nine o'clock on
/// its day, if the calendar has that day.
pub open spec fn record_of(note: WeightNoteView, morning: Option<int>) -> Option<(int, Seq<char>)> {
    match morning {
        Some(timestamp) => Some((timestamp, note.weight)),
        None => None,
    }
}

/// Stamps a note with the time of its day, if there is one.
pub fn stamp_note(note: WeightNote, morning: Option<i64>) -> (r: Option<WeightRecord>)
    ensures
        match r {
            Some(record) => morning == Some(record.timestamp) && record.weight@ == note.weight@,
            None => morning is None,
        },
{
    match morning {
        Some(timestamp) => Some(WeightRecord { timestamp, weight: note.weight }),
        None => None,
    }
}

/// Reads one line of weight notes and stamps it with nine o'clock on its
/// day. A line that is no note, or that names a day that the calendar does
/// not have, yields nothing.
pub fn ingest_line(line: &str) -> (r: Option<WeightRecord>)
    ensures
        match note_of(line@) {
            Some(note) => match r {
                Some(record) => record_of(
                    note,
                    morning_of(note.year as int, note.month as int, note.day as int),
                ) == Some((record.timestamp as int, record.weight@)),
                None => morning_of(note.year as int, note.month as int, note.day as int) is None,
            },
            None => r is None,
        },
{
    match parse_note(line) {
        Some(note) => {
            let morning = morning_timestamp(note.year, note.month, note.day);
            stamp_note(note, morning)
        },
        None => None,
    }
}

} // verus!
