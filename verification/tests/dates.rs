use elastic_pool::date::{Date, DateBrw, DateFormat, UtcDateTime};
use elastic_pool::formats::{BasicDate, BasicDateTime, DefaultDateFormat};

fn utc(year: i32, month: u32, day: u32, hour: u32, minute: u32, second: u32, milli: u32) -> UtcDateTime {
    UtcDateTime { year, month, day, hour, minute, second, milli }
}

#[test]
fn can_build_date_from_chrono() {
    // The same instant the original reads from "13/05/2015 00:00:00".
    let date: Date<DefaultDateFormat> = Date::new(utc(2015, 5, 13, 0, 0, 0, 0));

    assert_eq!(
        (2015, 5, 13, 0, 0, 0),
        (date.year(), date.month(), date.day(), date.hour(), date.minute(), date.second())
    );
}

#[test]
fn can_build_date_from_prim() {
    let date: Date<DefaultDateFormat> = Date::build(2015, 5, 13, 0, 0, 0, 0);

    assert_eq!(
        (2015, 5, 13, 0, 0, 0),
        (date.year(), date.month(), date.day(), date.hour(), date.minute(), date.second())
    );
}

#[test]
fn serialise_elastic_date() {
    let date = Date::<BasicDateTime>::new(utc(2015, 5, 13, 0, 0, 0, 0));

    assert_eq!("20150513T000000.000Z", date.format());
}

#[test]
fn deserialise_elastic_date() {
    let date: Date<BasicDateTime> = Date::parse("20150513T000000.000Z").expect("a well-formed date");

    assert_eq!((2015, 5, 13), (date.year(), date.month(), date.day()));
}

#[test]
fn serialise_elastic_date_brw() {
    let value = utc(2015, 5, 13, 0, 0, 0, 0);
    let date = DateBrw::<BasicDateTime>::new(&value);

    assert_eq!("20150513T000000.000Z", date.format());
}

#[test]
fn basic_date_uses_day_only_format() {
    let date = Date::<BasicDate>::new(utc(2015, 5, 13, 0, 0, 0, 0));
    assert_eq!("20150513", date.format());
}

#[test]
fn basic_date_parses_to_midnight() {
    let date: Date<BasicDate> = Date::parse("20150513").expect("a well-formed day");
    assert_eq!(
        (2015, 5, 13, 0, 0, 0),
        (date.year(), date.month(), date.day(), date.hour(), date.minute(), date.second())
    );
}

#[test]
fn format_names() {
    assert_eq!("basic_date_time", <BasicDateTime as DateFormat>::name());
    assert_eq!("basic_date", <BasicDate as DateFormat>::name());
}

#[test]
fn can_change_format_by_remap() {
    let date: Date<BasicDateTime> = Date::build(2015, 5, 13, 14, 55, 43, 778);
    let other: Date<BasicDate> = date.remap();
    assert_eq!("20150513", other.format());
    assert_eq!((2015, 5, 13, 14, 55, 43), (
        other.year(), other.month(), other.day(), other.hour(), other.minute(), other.second(),
    ));
}

#[test]
fn format_pads_every_field() {
    let date = Date::<BasicDateTime>::build(73, 1, 2, 3, 4, 5, 6);
    assert_eq!("00730102T030405.006Z", date.format());
}

#[test]
fn round_trip_through_text() {
    let date = Date::<BasicDateTime>::build(2016, 2, 29, 23, 59, 59, 999);
    let text = date.format();
    assert_eq!("20160229T235959.999Z", text);
    let back: Date<BasicDateTime> = Date::parse(&text).expect("its own output parses");
    assert_eq!(
        (2016, 2, 29, 23, 59, 59, 999),
        (back.year(), back.month(), back.day(), back.hour(), back.minute(), back.second(), back.millisecond())
    );
}

#[test]
fn parse_rejects_malformed_text() {
    assert!(Date::<BasicDateTime>::parse("").is_err());
    assert!(Date::<BasicDateTime>::parse("20150513").is_err());
    assert!(Date::<BasicDateTime>::parse("20150513 000000.000Z").is_err());
    assert!(Date::<BasicDateTime>::parse("20150513T0000o0.000Z").is_err());
    assert!(Date::<BasicDateTime>::parse("20150513T000000.000X").is_err());
    assert!(Date::<BasicDate>::parse("2015051").is_err());
    assert!(Date::<BasicDate>::parse("2015051x").is_err());
}

#[test]
fn parse_rejects_impossible_dates() {
    // Month out of range.
    assert!(Date::<BasicDateTime>::parse("20151313T000000.000Z").is_err());
    // No leap day in 2015, but one in 2016.
    assert!(Date::<BasicDateTime>::parse("20150229T000000.000Z").is_err());
    assert!(Date::<BasicDateTime>::parse("20160229T000000.000Z").is_ok());
    // 1900 was no leap year, 2000 was.
    assert!(Date::<BasicDate>::parse("19000229").is_err());
    assert!(Date::<BasicDate>::parse("20000229").is_ok());
    // Hour out of range.
    assert!(Date::<BasicDateTime>::parse("20150513T240000.000Z").is_err());
}

#[test]
fn now_is_a_valid_civil_time() {
    let date: Date<DefaultDateFormat> = Date::now();
    assert!(0 <= date.year() && date.year() <= 9999);
    assert!(1 <= date.month() && date.month() <= 12);
    assert!(1 <= date.day() && date.day() <= 31);
    assert!(date.hour() < 24 && date.minute() < 60 && date.second() < 60);
    assert!(date.millisecond() < 1000);
    // Its format parses back.
    assert!(Date::<DefaultDateFormat>::parse(&date.format()).is_ok());
}
