use biomon::chars::{
    chars_of, decimal_digit, find_field_end, parse_decimal, remove_pair, string_of, trim_bounds,
};
use biomon::ingest::{ingest_line, parse_note, stamp_note, WeightNote, WeightRecord};

fn chars(text: &str) -> Vec<char> {
    text.chars().collect()
}

fn by_the_standard_library(line: &str) -> Option<WeightNote> {
    let line = line.replace("- ", "");
    let mut parts = line.split(':');
    let date = parts.next()?;
    let mut date_parts = date.split('-');
    let year = date_parts.next().and_then(|year| year.parse::<i32>().ok())?;
    let month = date_parts.next().and_then(|month| month.parse::<u32>().ok())?;
    let day = date_parts.next().and_then(|day| day.parse::<u32>().ok())?;
    let weight = parts.next()?.trim().replace("kg", "");
    Some(WeightNote { year, month, day, weight })
}

#[test]
fn note_is_read_from_a_list_line() {
    assert_eq!(
        parse_note("- 2023-12-03: 105.4kg"),
        Some(WeightNote { year: 2023, month: 12, day: 3, weight: String::from("105.4") })
    );
    assert_eq!(
        parse_note("2024-01-31:98kg"),
        Some(WeightNote { year: 2024, month: 1, day: 31, weight: String::from("98") })
    );
}

#[test]
fn note_is_stamped_with_nine_o_clock() {
    assert_eq!(
        ingest_line("- 2023-12-03: 105.4kg"),
        Some(WeightRecord { timestamp: 1701594000, weight: String::from("105.4") })
    );
    assert_eq!(
        ingest_line("1970-01-01: 70"),
        Some(WeightRecord { timestamp: 32400, weight: String::from("70") })
    );
    assert_eq!(
        ingest_line("2024-02-29: 70kg"),
        Some(WeightRecord { timestamp: 1709197200, weight: String::from("70") })
    );
}

#[test]
fn day_that_the_calendar_lacks_yields_nothing() {
    assert!(parse_note("2023-02-30: 70kg").is_some());
    assert_eq!(ingest_line("2023-02-30: 70kg"), None);
    assert_eq!(ingest_line("2023-13-01: 70kg"), None);
    assert_eq!(ingest_line("2023-00-10: 70kg"), None);
    assert_eq!(ingest_line("2023-01-00: 70kg"), None);
    assert_eq!(ingest_line("2023-02-29: 70kg"), None);
    assert_eq!(ingest_line("2147483647-01-01: 70kg"), None);
    assert_eq!(ingest_line("2023-4294967295-01: 70kg"), None);
}

#[test]
fn line_that_is_no_note_yields_nothing() {
    for line in [
        "",
        "# Weight",
        "- 2023-12-03",
        "- 2023-12: 105.4kg",
        "- 2023: 105.4kg",
        "- twenty-12-03: 105.4kg",
        "- 2023-12-3rd: 105.4kg",
        "- 2023-12-03 : 105.4kg",
        "- 2023--03: 105.4kg",
        "-2023-12-03: 105.4kg",
        "- 2147483648-12-03: 105.4kg",
        "- 2023-4294967296-03: 105.4kg",
        "- 2023-12-+: 1kg",
    ] {
        assert_eq!(parse_note(line), None, "{:?}", line);
        assert_eq!(ingest_line(line), None, "{:?}", line);
    }
}

#[test]
fn weight_is_taken_as_written_between_the_colons() {
    assert_eq!(parse_note("2023-1-2:").unwrap().weight, "");
    assert_eq!(parse_note("2023-1-2:   ").unwrap().weight, "");
    assert_eq!(parse_note("2023-1-2: kg").unwrap().weight, "");
    assert_eq!(parse_note("2023-1-2:\t 70 kg \u{a0}").unwrap().weight, "70 ");
    assert_eq!(parse_note("2023-1-2: 70kg: after lunch").unwrap().weight, "70");
    assert_eq!(parse_note("2023-1-2: kkgg7kg0").unwrap().weight, "kg70");
    assert_eq!(parse_note("2023-1-2: about - 70kg").unwrap().weight, "about 70");
    assert_eq!(parse_note("+2023-+1-+2-junk: 7").unwrap(), WeightNote {
        year: 2023,
        month: 1,
        day: 2,
        weight: String::from("7"),
    });
}

#[test]
fn notes_agree_with_the_standard_library() {
    let pieces = [
        "", "- ", "-", " ", ":", "2023", "12", "03", "+", "kg", "k", "g", "70.5", "\u{2003}", "x",
        "4294967296", "0",
    ];
    for a in pieces {
        for b in pieces {
            for c in pieces {
                for d in ["-1-2: 70kg", ": 5", "-7-", "", "-3-4:\u{a0}kkgg "] {
                    let line = format!("{}{}{}{}", a, b, c, d);
                    assert_eq!(parse_note(&line), by_the_standard_library(&line), "{:?}", line);
                }
            }
        }
    }
}

#[test]
fn stamp_keeps_the_weight() {
    let note = || WeightNote { year: 1, month: 2, day: 3, weight: String::from("w") };
    assert_eq!(stamp_note(note(), Some(9)), Some(WeightRecord { timestamp: 9, weight: String::from("w") }));
    assert_eq!(stamp_note(note(), None), None);
}

#[test]
fn characters_and_texts_convert_both_ways() {
    assert_eq!(chars_of("a\u{e9}\u{1f600}z"), vec!['a', '\u{e9}', '\u{1f600}', 'z']);
    assert_eq!(chars_of(""), Vec::<char>::new());
    let all = chars("h\u{e9}llo");
    assert_eq!(string_of(&all, 0, 5), "h\u{e9}llo");
    assert_eq!(string_of(&all, 1, 3), "\u{e9}l");
    assert_eq!(string_of(&all, 2, 2), "");
}

#[test]
fn pairs_are_removed_from_left_to_right() {
    let text = chars("- a- b-- c -");
    assert_eq!(remove_pair(&text, 0, text.len(), '-', ' '), chars("ab-c -"));
    let text = chars("kkgg");
    assert_eq!(remove_pair(&text, 0, 4, 'k', 'g'), chars("kg"));
    assert_eq!(remove_pair(&text, 1, 3, 'k', 'g'), chars(""));
    assert_eq!(remove_pair(&text, 0, 2, 'k', 'g'), chars("kk"));
    let text = chars("aaa");
    assert_eq!(remove_pair(&text, 0, 3, 'a', 'a'), chars("a"));
}

#[test]
fn fields_end_at_the_mark_or_at_the_end() {
    let text = chars("ab:cd:e");
    assert_eq!(find_field_end(&text, 7, ':', 0), 2);
    assert_eq!(find_field_end(&text, 7, ':', 3), 5);
    assert_eq!(find_field_end(&text, 7, ':', 6), 7);
    assert_eq!(find_field_end(&text, 4, ':', 3), 4);
    assert_eq!(find_field_end(&text, 7, ':', 2), 2);
}

#[test]
fn decimal_numbers_are_read_up_to_their_limit() {
    let text = chars("+4294967295x007");
    assert_eq!(parse_decimal(&text, 0, 11, 4294967295), Some(4294967295));
    assert_eq!(parse_decimal(&text, 1, 11, 4294967295), Some(4294967295));
    assert_eq!(parse_decimal(&text, 0, 11, 4294967294), None);
    assert_eq!(parse_decimal(&text, 0, 11, 2147483647), None);
    assert_eq!(parse_decimal(&text, 0, 12, 4294967295), None);
    assert_eq!(parse_decimal(&text, 12, 15, 10), Some(7));
    assert_eq!(parse_decimal(&text, 0, 1, 10), None);
    assert_eq!(parse_decimal(&text, 3, 3, 10), None);
    assert_eq!(parse_decimal(&chars("99999999999999999999999999"), 0, 26, 4294967295), None);
    assert_eq!(parse_decimal(&chars("\u{661}"), 0, 1, 10), None);
    assert_eq!(decimal_digit('0'), Some(0));
    assert_eq!(decimal_digit('9'), Some(9));
    assert_eq!(decimal_digit('/'), None);
    assert_eq!(decimal_digit(':'), None);
}

#[test]
fn white_space_is_set_aside_at_both_ends() {
    let text = chars("x \t70 kg\u{a0}\n:");
    assert_eq!(trim_bounds(&text, 1, 10), (3, 8));
    assert_eq!(trim_bounds(&text, 0, 11), (0, 11));
    assert_eq!(trim_bounds(&text, 1, 3), (3, 3));
    assert_eq!(trim_bounds(&text, 8, 10), (10, 10));
    let text = chars("  a  ");
    let (from, to) = trim_bounds(&text, 0, 5);
    assert_eq!(string_of(&text, from, to), "  a  ".trim());
}
