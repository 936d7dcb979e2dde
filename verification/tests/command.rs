use biomon::bp::{PressureSample, BP};
use biomon::command::{
    last_query, last_query_from, measurement_command, pressure_readings, reading_command,
    same_text, LastQuery, MeasurementCommand, PressureCommand, TextCommand, DEFAULT_TAKE,
};
use biomon::heartrate::Heartrate;
use biomon::mood::Mood;
use biomon::stat::{help, Stat};
use biomon::temperature::Temperature;
use biomon::weight::Weight;

fn words(line: &str) -> Vec<String> {
    line.split_whitespace().map(String::from).collect()
}

fn default_query() -> LastQuery {
    LastQuery { take: 3, notice: String::from("Using default query parameter 3\n") }
}

fn fallback_query() -> LastQuery {
    LastQuery {
        take: 3,
        notice: String::from("Failed to parse query parameter\nUsing default query parameter 3\n"),
    }
}

#[test]
fn default_count_is_three() {
    assert_eq!(DEFAULT_TAKE, 3);
}

#[test]
fn texts_are_compared_whole() {
    assert!(same_text("last", "last"));
    assert!(!same_text("last", "las"));
    assert!(!same_text("last", "Last"));
    assert!(same_text("", ""));
}

#[test]
fn last_without_count_takes_the_default() {
    assert_eq!(last_query(&words("last"), 1), default_query());
    assert_eq!(last_query_from(None), default_query());
}

#[test]
fn last_with_count_takes_it() {
    assert_eq!(last_query(&words("last 12"), 1), LastQuery { take: 12, notice: String::new() });
    assert_eq!(last_query(&words("last -4"), 1), LastQuery { take: -4, notice: String::new() });
    assert_eq!(
        last_query_from(Some(Ok(i64::MAX))),
        LastQuery { take: i64::MAX, notice: String::new() }
    );
}

#[test]
fn last_with_unreadable_count_falls_back() {
    assert_eq!(last_query(&words("last many"), 1), fallback_query());
    assert_eq!(last_query(&words("last 1.5"), 1), fallback_query());
    assert_eq!(last_query(&words("last 9223372036854775808"), 1), fallback_query());
    assert_eq!(last_query_from(Some(Err(String::from("whatever")))), fallback_query());
}

#[test]
fn measured_metric_without_words() {
    assert_eq!(Heartrate::command(&Vec::new()), MeasurementCommand::NoParameters);
    assert_eq!(Temperature::command(&Vec::new()), MeasurementCommand::NoParameters);
}

#[test]
fn measured_metric_commands() {
    assert_eq!(Heartrate::command(&words("last")), MeasurementCommand::Last(default_query()));
    assert_eq!(
        Heartrate::command(&words("last 5")),
        MeasurementCommand::Last(LastQuery { take: 5, notice: String::new() })
    );
    assert_eq!(Heartrate::command(&words("last x")), MeasurementCommand::Last(fallback_query()));
    assert_eq!(Heartrate::command(&words("compress")), MeasurementCommand::Compress);
    assert_eq!(Temperature::command(&words("compress now")), MeasurementCommand::Compress);
    assert_eq!(measurement_command(&words("72")), MeasurementCommand::Record(72));
    assert_eq!(Temperature::command(&words("0")), MeasurementCommand::Record(0));
    assert_eq!(Heartrate::command(&words("255 again")), MeasurementCommand::Record(255));
}

#[test]
fn measured_metric_rejects_what_is_no_reading() {
    assert_eq!(
        Heartrate::command(&words("256")),
        MeasurementCommand::Rejected(String::from(
            "Failed to parse parameter: number too large to fit in target type"
        ))
    );
    assert_eq!(
        Heartrate::command(&words("fast")),
        MeasurementCommand::Rejected(String::from(
            "Failed to parse parameter: invalid digit found in string"
        ))
    );
    assert_eq!(
        Temperature::command(&words("-1")),
        MeasurementCommand::Rejected(String::from(
            "Failed to parse parameter: invalid digit found in string"
        ))
    );
    assert_eq!(
        reading_command(Err(String::from("why"))),
        MeasurementCommand::Rejected(String::from("Failed to parse parameter: why"))
    );
    assert_eq!(reading_command(Ok(9)), MeasurementCommand::Record(9));
}

#[test]
fn blood_pressure_commands() {
    assert_eq!(BP::command(&Vec::new()), PressureCommand::NoParameters);
    assert_eq!(BP::command(&words("last")), PressureCommand::Last(default_query()));
    assert_eq!(
        BP::command(&words("last 2")),
        PressureCommand::Last(LastQuery { take: 2, notice: String::new() })
    );
    assert_eq!(BP::command(&words("120 80")), PressureCommand::Record { sys: 120, dia: 80 });
    assert_eq!(
        BP::command(&words("120")),
        PressureCommand::Rejected(String::from("Missing parameter: dia"))
    );
    assert_eq!(
        BP::command(&words("high 80")),
        PressureCommand::Rejected(String::from(
            "Failed to parse parameter: <sys:i16>\ninvalid digit found in string"
        ))
    );
    assert_eq!(
        BP::command(&words("120 low")),
        PressureCommand::Rejected(String::from(
            "Failed to parse parameter: <dia:i16>\ninvalid digit found in string"
        ))
    );
    assert_eq!(
        BP::command(&words("high")),
        PressureCommand::Rejected(String::from(
            "Failed to parse parameter: <sys:i16>\ninvalid digit found in string"
        ))
    );
    assert_eq!(
        pressure_readings(Ok(1), Some(Err(String::from("e")))),
        PressureCommand::Rejected(String::from("Failed to parse parameter: <dia:i16>\ne"))
    );
}

#[test]
fn blood_pressure_lines() {
    assert_eq!(BP::recorded(120, 80), "Recorded bp: 120mmHg systolic, 80mmHg diastolic");
    let row = PressureSample { id: 1, timestamp: 2, sys: 118, dia: -3 };
    assert_eq!(BP::row_line(&row, "then"), "118mmHg systolic, -3mmHg diastolic, recorded then\n");
}

#[test]
fn mood_and_weight_commands() {
    assert_eq!(Mood::command(&Vec::new()), TextCommand::NoParameters);
    assert_eq!(Mood::command(&words("last 1")), TextCommand::Last(LastQuery { take: 1, notice: String::new() }));
    assert_eq!(Mood::command(&words("calm today")), TextCommand::Record(String::from("calm")));
    assert_eq!(Weight::command(&words("105.4")), TextCommand::Record(String::from("105.4")));
    assert_eq!(Weight::command(&words("last")), TextCommand::Last(default_query()));
    assert_eq!(Weight::command(&Vec::new()), TextCommand::NoParameters);
    assert_eq!(Mood::recorded("calm"), "Recorded mood: calm");
    assert_eq!(Mood::row_line("calm", "then"), "calm, recorded then\n");
}

#[test]
fn every_metric_has_its_table() {
    assert!(Weight::tables().starts_with("CREATE TABLE IF NOT EXISTS weight ("));
    assert!(BP::tables().starts_with("CREATE TABLE IF NOT EXISTS bp ("));
    assert!(Mood::tables().starts_with("CREATE TABLE IF NOT EXISTS mood ("));
    assert!(Heartrate::tables().starts_with("CREATE TABLE IF NOT EXISTS heartrate ("));
    assert!(Temperature::tables().starts_with("CREATE TABLE IF NOT EXISTS temperature ("));
    assert!(Heartrate::tables().contains("duration    INTEGER DEFAULT (0) NOT NULL"));
    assert!(Temperature::tables().contains("timestamp   INTEGER UNIQUE NOT NULL"));
    assert_eq!(Heartrate::table(), "heartrate");
    assert_eq!(Temperature::table(), "temperature");
}

#[test]
fn help_lists_every_command() {
    assert_eq!(Heartrate::help(), "\theartrate <last <count:i64> | heartrate:u8>\n");
    assert_eq!(
        help(),
        "List of commands:\n\
         \tweight <last <count:i64> | weight:f64>\n\
         \tbp <last <count:i64>> | <<sys:i16> <dia:i16>>\n\
         \tmood <last <count:i64> | mood:str>\n\
         \theartrate <last <count:i64> | heartrate:u8>\n\
         \ttemperature <last <count:i64> | temperature:u8>\n\
         \trecord_hrp - Connects to BLE HRP compatible device and collects heartrate data\n\
         \tingest_markdown_weight <file_path:str>\n\
         \tbackup <backup_path:str> - default: ./biomon.sqlite.bak\n\
         \testore <backup_path:str> - default: ./biomon.sqlite.bak\n\
         \tupgrade_tables <file_path:str>\n\
         \tq -> exit"
    );
}
