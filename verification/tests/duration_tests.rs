use bench_autocommit::duration::parse_duration;
use bench_autocommit::error::MyError;

#[test]
fn parses_seconds() {
    assert_eq!(parse_duration("30s"), Ok(30_000));
}

#[test]
fn parses_milliseconds() {
    assert_eq!(parse_duration("100ms"), Ok(100));
    assert_eq!(parse_duration("0ms"), Ok(0));
}

#[test]
fn parses_minutes() {
    assert_eq!(parse_duration("2m"), Ok(120_000));
}

#[test]
fn trims_whitespace_and_ignores_case() {
    assert_eq!(parse_duration("  15S \n"), Ok(15_000));
    assert_eq!(parse_duration("\t250MS"), Ok(250));
    assert_eq!(parse_duration(" 1M"), Ok(60_000));
}

#[test]
fn rejects_unknown_units() {
    assert_eq!(parse_duration("30x"), Err(MyError::InvalidDurationUnit));
    assert_eq!(parse_duration(""), Err(MyError::InvalidDurationUnit));
    assert_eq!(parse_duration("30"), Err(MyError::InvalidDurationUnit));
}

#[test]
fn rejects_bad_numbers() {
    assert_eq!(parse_duration("s"), Err(MyError::InvalidDurationNumber));
    assert_eq!(parse_duration("12a4s"), Err(MyError::InvalidDurationNumber));
    assert_eq!(parse_duration("-5s"), Err(MyError::InvalidDurationNumber));
    // More than 64 bits of number.
    assert_eq!(
        parse_duration("99999999999999999999999s"),
        Err(MyError::InvalidDurationNumber)
    );
}

#[test]
fn rejects_durations_that_overflow_milliseconds() {
    // The number itself fits in 64 bits; scaled to milliseconds it does not.
    assert_eq!(
        parse_duration("18446744073709551615m"),
        Err(MyError::DurationOverflow)
    );
    assert_eq!(
        parse_duration("18446744073709551615s"),
        Err(MyError::DurationOverflow)
    );
    assert_eq!(parse_duration("18446744073709551615ms"), Ok(u64::MAX));
}
