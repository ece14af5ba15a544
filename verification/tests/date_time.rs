use chrono::format::ParseErrorKind;
use xunit_report::date_time::{
    from_native_reading, parse, parse_after_strict, parse_from_native, Instant,
    DATE_TIME_FORMAT_PYTEST,
};
use xunit_report::errors::XunitError;

fn kind_of(outcome: Result<Instant, XunitError>) -> ParseErrorKind {
    match outcome {
        Err(XunitError::InvalidDate(diagnostic)) => diagnostic.kind(),
        other => panic!("expected an invalid date, got {:?}", other),
    }
}

#[test]
fn parse_pytest_timestamp() {
    let ts = "2020-09-07T16:03:44.192592";
    parse(&ts).unwrap();
}

#[test]
fn test_parse_native() {
    let ts = "2020-09-07T16:03:44.192592";
    parse_from_native(&ts).unwrap();
}

#[test]
fn pytest_timestamp_is_taken_as_utc() {
    let at = parse("2020-09-07T16:03:44.192592").unwrap();
    assert_eq!(at, Instant { secs: 1599494624, nanos: 192592000 });
    assert_eq!(parse_from_native("2020-09-07T16:03:44.192592").unwrap(), at);
}

#[test]
fn rfc3339_and_pytest_forms_of_one_instant_agree() {
    let strict = parse("2020-09-07T16:03:44.192592Z").unwrap();
    let naive = parse("2020-09-07T16:03:44.192592").unwrap();
    assert_eq!(strict, naive);
    assert_eq!(strict, Instant { secs: 1599494624, nanos: 192592000 });
}

#[test]
fn rfc3339_offset_is_taken_to_utc() {
    let at = parse("1996-12-19T16:39:57-08:00").unwrap();
    assert_eq!(at, Instant { secs: 851042397, nanos: 0 });
    let same = parse("1996-12-20T00:39:57Z").unwrap();
    assert_eq!(at, same);
}

#[test]
fn rfc3339_keeps_the_fraction_as_written() {
    let at = parse("2020-08-28T16:45:10.5+00:00").unwrap();
    assert_eq!(at, Instant { secs: 1598633110, nanos: 500000000 });
}

#[test]
fn instant_before_the_epoch_is_negative() {
    let at = parse("1969-12-31T23:59:59.000001").unwrap();
    assert_eq!(at, Instant { secs: -1, nanos: 1000 });
}

#[test]
fn pytest_timestamp_may_lack_the_fraction() {
    let at = parse_from_native("2020-08-28T16:45:10").unwrap();
    assert_eq!(at, Instant { secs: 1598633110, nanos: 0 });
}

#[test]
fn leap_second_keeps_the_fraction_below_two_seconds() {
    let at = parse("2015-06-30T23:59:60Z").unwrap();
    assert_eq!(at, Instant { secs: 1435708799, nanos: 1000000000 });
    assert!(at.nanos < 2000000000);
}

#[test]
fn native_format_does_not_take_an_offset() {
    let outcome = parse_from_native("2020-09-07T16:03:44.192592Z");
    assert_eq!(kind_of(outcome), ParseErrorKind::TooLong);
}

#[test]
fn not_a_date_is_an_invalid_date() {
    let outcome = parse("not-a-date");
    assert!(matches!(outcome, Err(XunitError::InvalidDate(_))));
    assert_eq!(kind_of(outcome), ParseErrorKind::Invalid);
}

#[test]
fn empty_timestamp_fails_on_the_format() {
    assert_eq!(kind_of(parse("")), ParseErrorKind::TooShort);
    assert_eq!(kind_of(parse_from_native("")), ParseErrorKind::TooShort);
}

#[test]
fn month_thirteen_fails_on_the_range() {
    assert_eq!(kind_of(parse("2020-13-07T16:03:44.192592")), ParseErrorKind::OutOfRange);
}

#[test]
fn failure_reported_is_that_of_the_native_format() {
    // RFC 3339 takes the space and misses the offset; the native format
    // stops at the space, and that is what is reported.
    let input = "2020-09-07 16:03:44";
    let strict = chrono::DateTime::parse_from_rfc3339(input).unwrap_err();
    let naive = chrono::NaiveDateTime::parse_from_str(input, DATE_TIME_FORMAT_PYTEST).unwrap_err();
    assert_ne!(strict.kind(), naive.kind());
    assert_eq!(parse(input), Err(XunitError::InvalidDate(naive)));
}

#[test]
fn strict_reading_wins_where_it_succeeded() {
    let at = Instant { secs: 7, nanos: 9 };
    assert_eq!(parse_after_strict(Ok(at), "2020-09-07T16:03:44.192592"), Ok(at));
    assert_eq!(parse_after_strict(Ok(at), "not-a-date"), Ok(at));
}

#[test]
fn native_format_decides_where_the_strict_reading_failed() {
    let strict = chrono::DateTime::parse_from_rfc3339("2020-09-07T16:03:44.192592").unwrap_err();
    assert_eq!(
        parse_after_strict(Err(strict), "2020-09-07T16:03:44.192592"),
        Ok(Instant { secs: 1599494624, nanos: 192592000 })
    );
    let naive = chrono::NaiveDateTime::parse_from_str("", DATE_TIME_FORMAT_PYTEST).unwrap_err();
    assert_ne!(strict.kind(), ParseErrorKind::Invalid);
    assert_eq!(naive.kind(), ParseErrorKind::TooShort);
    assert_eq!(parse_after_strict(Err(strict), ""), Err(XunitError::InvalidDate(naive)));
}

#[test]
fn native_reading_passes_an_instant_on() {
    let at = Instant { secs: 7, nanos: 9 };
    assert_eq!(from_native_reading(Ok(at)), Ok(at));
}

#[test]
fn native_reading_wraps_the_diagnostic() {
    let diagnostic = chrono::NaiveDateTime::parse_from_str("", DATE_TIME_FORMAT_PYTEST).unwrap_err();
    assert_eq!(from_native_reading(Err(diagnostic)), Err(XunitError::InvalidDate(diagnostic)));
    assert_eq!(XunitError::from(diagnostic), XunitError::InvalidDate(diagnostic));
}

#[test]
fn pytest_format_is_date_time_and_six_digits() {
    assert_eq!(DATE_TIME_FORMAT_PYTEST, "%FT%T%.6f");
}

#[test]
fn each_failure_names_its_class() {
    let diagnostic = chrono::NaiveDateTime::parse_from_str("", DATE_TIME_FORMAT_PYTEST).unwrap_err();
    assert_eq!(XunitError::Xml("no root".to_string()).message(), "xml parsing error");
    assert_eq!(XunitError::InvalidDate(diagnostic).message(), "Could not parse date");
    assert_eq!(XunitError::Unknown.message(), "unknown xUnit error");
}
