use std::path::PathBuf;

use netzero::collect::CollectionTask;
use netzero::config::{Config, General, Source as ConfiguredSource};
use netzero::date::CalendarDate;
use netzero::protocol::{decode_line, Error, Message, Purpose};
use netzero::source::Source;
use netzero::terminal::Payload;
use netzero::text::split_at_commas;

fn date(y: i32, m: u8, d: u8) -> CalendarDate {
    CalendarDate::from_ymd(y, m, d).expect("valid date")
}

fn configured(name: &str, short: &str, long: &str) -> ConfiguredSource {
    ConfiguredSource {
        name: name.to_string(),
        description: format!("{} readings", name),
        short: short.to_string(),
        long: long.to_string(),
        command: format!("/usr/bin/{}", long),
        args: vec!["--quiet".to_string(), "-v".to_string()],
        rest: vec![("token".to_string(), "SECRET-REDACTED".to_string())],
    }
}

fn config() -> Config {
    Config::new(
        General { database: PathBuf::from("/tmp/data.sqlite3") },
        vec![configured("Power", "p", "power"), configured("Gas", "g", "gas"), configured("Gas2", "g", "gas2")],
    )
}

fn pairs(env: Vec<(String, String)>) -> Vec<(String, String)> {
    env
}

#[test]
fn environment_carries_purpose_and_dates() {
    let env = Source::environment(Purpose::Collect, Some(date(2020, 1, 5)), Some(date(2020, 2, 29)));
    assert_eq!(
        pairs(env),
        vec![
            ("PURPOSE".to_string(), "collect".to_string()),
            ("START_DATE".to_string(), "2020-01-05".to_string()),
            ("END_DATE".to_string(), "2020-02-29".to_string()),
        ]
    );
}

#[test]
fn environment_omits_missing_dates() {
    assert_eq!(
        Source::environment(Purpose::Export, None, None),
        vec![("PURPOSE".to_string(), "export".to_string())]
    );
    assert_eq!(
        Source::environment(Purpose::Collect, None, Some(date(1999, 12, 31))),
        vec![
            ("PURPOSE".to_string(), "collect".to_string()),
            ("END_DATE".to_string(), "1999-12-31".to_string()),
        ]
    );
}

#[test]
fn dates_format_like_the_year_month_day_pattern() {
    assert_eq!(date(5, 3, 9).format(), "0005-03-09");
    assert_eq!(date(-5, 12, 1).format(), "-005-12-01");
    assert_eq!(date(-1234, 1, 1).format(), "-1234-01-01");
    assert_eq!(date(12345, 6, 30).format(), "+12345-06-30");
    assert_eq!(date(0, 1, 1).format(), "0000-01-01");
}

#[test]
fn only_real_days_are_dates() {
    assert!(CalendarDate::from_ymd(2019, 2, 29).is_none());
    assert!(CalendarDate::from_ymd(2020, 2, 29).is_some());
    assert!(CalendarDate::from_ymd(1900, 2, 29).is_none());
    assert!(CalendarDate::from_ymd(2000, 2, 29).is_some());
    assert!(CalendarDate::from_ymd(2021, 4, 31).is_none());
    assert!(CalendarDate::from_ymd(2021, 13, 1).is_none());
    assert!(CalendarDate::from_ymd(2021, 0, 1).is_none());
    assert!(CalendarDate::from_ymd(2021, 1, 0).is_none());
    assert!(CalendarDate::from_ymd(100_001, 1, 1).is_none());
    assert!(CalendarDate::from_ymd(-100_000, 1, 1).is_some());
    let d = date(2021, 7, 14);
    assert_eq!((d.year(), d.month(), d.day()), (2021, 7, 14));
}

#[test]
fn output_items_become_reports() {
    let src = Source::from_config(&configured("Power", "p", "power"));
    let (e, more) = src.report(decode_line(r#"{"type":"SetMax","value":4}"#));
    assert_eq!(e.source, "Power");
    assert!(more);
    assert!(matches!(e.payload, Payload::Line(Ok(Message::Progress { .. }))));
    let (e, more) = src.report(decode_line("oops"));
    assert!(more);
    assert!(matches!(e.payload, Payload::Line(Err(Error::DeserializationError(..)))));
    let (e, more) = src.report(decode_line(r#"{"type":"Done"}"#));
    assert!(more);
    assert!(matches!(e.payload, Payload::Line(Ok(Message::Done))));
    let (e, more) = src.report(Err(Error::IoError("broken pipe".to_string())));
    assert!(!more);
    assert!(matches!(e.payload, Payload::Line(Err(Error::IoError(_)))));
    assert!(matches!(src.report_end(Some(false)).payload, Payload::Closed { exit_success: Some(false) }));
    assert!(matches!(src.report_spawn_failure("missing".to_string()).payload, Payload::SpawnFailed(_)));
}

#[test]
fn sources_are_found_by_short_or_long_name() {
    let c = config();
    let s = c.get_source("power").ok().expect("found");
    assert_eq!(s.get_name(), "Power");
    assert_eq!(s.command(), "/usr/bin/power");
    assert_eq!(s.args(), &vec!["--quiet".to_string(), "-v".to_string()]);
    assert_eq!(c.get_source("p").ok().expect("found").get_name(), "Power");
    assert_eq!(c.get_source("g").ok().expect("found").get_name(), "Gas");
    assert_eq!(c.get_source("gas2").ok().expect("found").get_name(), "Gas2");
    match c.get_source("water") {
        Err(m) => assert_eq!(m, "Source water not found"),
        Ok(_) => panic!("water is not configured"),
    }
}

#[test]
fn all_sources_keep_the_configured_order() {
    let c = config();
    let names: Vec<String> = c.all_sources().iter().map(|s| s.get_name()).collect();
    assert_eq!(names, vec!["Power", "Gas", "Gas2"]);
    assert_eq!(c.raw_sources().len(), 3);
    assert_eq!(c.general().database, PathBuf::from("/tmp/data.sqlite3"));
}

#[test]
fn sources_list_themselves() {
    assert_eq!(configured("Power", "p", "power").listing(), "Power: p / power - Power readings");
}

#[test]
fn a_collection_task_holds_its_request() {
    let t = CollectionTask::new(date(2020, 1, 1), date(2020, 1, 31), config(), Purpose::Collect);
    t.start();
}

#[test]
fn a_list_of_names_selects_sources_in_its_order() {
    let c = config();
    let chosen = c.select_sources("gas,p").ok().expect("all found");
    let names: Vec<String> = chosen.iter().map(|s| s.get_name()).collect();
    assert_eq!(names, vec!["Gas", "Power"]);
    match c.select_sources("power,water,coal") {
        Err(m) => assert_eq!(m, "Source water not found"),
        Ok(_) => panic!("water is not configured"),
    }
    match c.select_sources("power,") {
        Err(m) => assert_eq!(m, "Source  not found"),
        Ok(_) => panic!("the empty name is not configured"),
    }
}

#[test]
fn names_split_at_every_comma() {
    assert_eq!(split_at_commas("a,bc,,d"), vec!["a", "bc", "", "d"]);
    assert_eq!(split_at_commas(""), vec![""]);
    assert_eq!(split_at_commas(","), vec!["", ""]);
    assert_eq!(split_at_commas("solar"), vec!["solar"]);
}
