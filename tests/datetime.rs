use tracing_logs::datetime::{Date, DateTime, Time};
use tracing_logs::time::{Day, Hour, Minute, Month, Second, TryFromTimeError, Year};

#[test]
fn test() {
    println!("Utc: {:?}", DateTime::utc_now());

    println!("Time: {:?}", Time::local_now());
    println!("Date: {:?}", Date::local_now());

    println!("{:?}", "2024-10-19".parse::<Date>().unwrap());
    println!("{:?}", "16:45:35".parse::<Time>().unwrap());
}

#[test]
fn date_from_parts() {
    let d = Date::from_ymd(Year(2024), Month(2), Day(29)).unwrap();
    assert_eq!(d.to_ymd(), (Year(2024), Month(2), Day(29)));
    assert!(Date::from_ymd(Year(2000), Month(2), Day(29)).is_ok());
    assert_eq!(Date::from_ymd(Year(1900), Month(2), Day(29)), Err(TryFromTimeError::OutOfBounds));
    assert_eq!(Date::from_ymd(Year(2023), Month(2), Day(29)), Err(TryFromTimeError::OutOfBounds));
    assert_eq!(Date::from_ymd(Year(2023), Month(4), Day(31)), Err(TryFromTimeError::OutOfBounds));
    assert_eq!(Date::from_ymd(Year(2023), Month(13), Day(1)), Err(TryFromTimeError::OutOfBounds));
    assert_eq!(Date::from_ymd(Year(2023), Month(1), Day(0)), Err(TryFromTimeError::OutOfBounds));
    assert!(Date::from_ymd(Year(262142), Month(12), Day(31)).is_ok());
    assert!(Date::from_ymd(Year(262143), Month(1), Day(1)).is_err());
    assert!(Date::from_ymd(Year(-262143), Month(1), Day(1)).is_ok());
    assert!(Date::from_ymd(Year(-262144), Month(12), Day(31)).is_err());
}

#[test]
fn date_parse() {
    let d: Date = "2024-10-19".parse().unwrap();
    assert_eq!((d.year(), d.month(), d.day()), (Year(2024), Month(10), Day(19)));
    assert_eq!("2024-13-01".parse::<Date>(), Err(TryFromTimeError::OutOfBounds));
    assert_eq!(Date::parse("not a date"), Err(TryFromTimeError::OutOfBounds));
}

#[test]
fn time_from_parts_and_parse() {
    let t = Time::from_hms(Hour(23), Minute(59), Second(59)).unwrap();
    assert_eq!(t.to_hmsn(), (Hour(23), Minute(59), Second(59), 0));
    assert!(Time::from_hms(Hour(24), Minute(0), Second(0)).is_err());
    assert!(Time::from_hms(Hour(0), Minute(60), Second(0)).is_err());
    assert!(Time::from_hms(Hour(0), Minute(0), Second(60)).is_err());
    let p: Time = "16:45:35".parse().unwrap();
    assert_eq!((p.hour(), p.minute(), p.second(), p.nanosecond()), (Hour(16), Minute(45), Second(35), 0));
    let f = Time::parse("16:45:35.5").unwrap();
    assert_eq!(f.nanosecond(), 500_000_000);
    assert!(Time::parse("25:00:00").is_err());
}

#[test]
fn date_time_building_and_parse() {
    let dt = DateTime::from_ymd_hms(Year(2024), Month(10), Day(19), Hour(16), Minute(45), Second(35)).unwrap();
    assert_eq!(dt.date, Date::from_ymd(Year(2024), Month(10), Day(19)).unwrap());
    assert_eq!(dt.time, Time::from_hms(Hour(16), Minute(45), Second(35)).unwrap());
    assert!(DateTime::from_ymd_hms(Year(2023), Month(2), Day(29), Hour(0), Minute(0), Second(0)).is_err());
    assert!(DateTime::from_ymd_hms(Year(2023), Month(2), Day(28), Hour(24), Minute(0), Second(0)).is_err());
    let joined = DateTime::from((dt.date, dt.time));
    assert_eq!(joined, dt);
    assert_eq!(DateTime::from_parts(dt.date, dt.time), dt);
    let parsed: DateTime = "2024-10-19T18:45:35+02:00".parse().unwrap();
    assert_eq!(parsed, dt);
    assert!(DateTime::parse("2024-10-19").is_err());
}

#[test]
fn now_values_are_valid() {
    let d = Date::utc_now();
    let (y, m, day) = d.to_ymd();
    assert!(Date::from_ymd(y, m, day).is_ok());
    let t = Time::utc_now();
    assert!(t.hour().0 < 24);
    let n = DateTime::utc_now();
    assert!(n.date.month().is_valid());
}

#[test]
fn time_with_nanoseconds() {
    let t = Time::from_hms_nano(Hour(10), Minute(0), Second(59), 1_500_000_000).unwrap();
    assert_eq!(t.nanosecond(), 1_500_000_000);
    assert!(Time::from_hms_nano(Hour(10), Minute(0), Second(58), 1_500_000_000).is_err());
    assert!(Time::from_hms_nano(Hour(10), Minute(0), Second(59), 2_000_000_000).is_err());
    assert_eq!(Time::from_hms_nano(Hour(1), Minute(2), Second(3), 0), Time::from_hms(Hour(1), Minute(2), Second(3)));
}

#[test]
fn date_and_time_text_forms() {
    assert_eq!(Date::parse("2024-10-19").unwrap().to_text(), "2024-10-19");
    assert_eq!(Date::from_ymd(Year(33), Month(1), Day(2)).unwrap().to_text(), "0033-01-02");
    assert_eq!(Date::from_ymd(Year(-5), Month(3), Day(4)).unwrap().to_text(), "-0005-03-04");
    assert_eq!(Date::from_ymd(Year(12345), Month(6), Day(7)).unwrap().to_text(), "+12345-06-07");
    assert_eq!(Time::parse("16:45:35").unwrap().to_text(), "16:45:35");
    assert_eq!(Time::from_hms_nano(Hour(1), Minute(2), Second(3), 250_000_000).unwrap().to_text(), "01:02:03.250");
    assert_eq!(Time::from_hms_nano(Hour(1), Minute(2), Second(3), 1_500).unwrap().to_text(), "01:02:03.000001500");
    assert_eq!(Time::from_hms_nano(Hour(1), Minute(2), Second(3), 7_000).unwrap().to_text(), "01:02:03.000007");
    assert_eq!(Time::from_hms_nano(Hour(23), Minute(59), Second(59), 1_000_000_000).unwrap().to_text(), "23:59:60");
    let dt = DateTime::from_ymd_hms(Year(2024), Month(10), Day(19), Hour(16), Minute(45), Second(35)).unwrap();
    assert_eq!(dt.to_text(), "2024-10-19 16:45:35 UTC");
}

#[test]
fn text_forms_match_chrono_display() {
    for (y, m, d) in [(2024, 10, 19), (7, 1, 1), (-1, 12, 31), (10000, 2, 29), (-262143, 1, 1)] {
        let ours = Date::from_ymd(Year(y), Month(m), Day(d)).unwrap().to_text();
        assert_eq!(ours, chrono::NaiveDate::from_ymd_opt(y, m, d).unwrap().to_string());
    }
    for (h, m, s, n) in [(0, 0, 0, 0), (9, 5, 7, 120_000_000), (23, 59, 59, 1_999_999_999), (12, 0, 1, 42)] {
        let ours = Time::from_hms_nano(Hour(h), Minute(m), Second(s), n).unwrap().to_text();
        assert_eq!(ours, chrono::NaiveTime::from_hms_nano_opt(h, m, s, n).unwrap().to_string());
    }
    let ours = DateTime::from_ymd_hms(Year(1999), Month(12), Day(31), Hour(23), Minute(0), Second(9)).unwrap().to_text();
    let theirs = chrono::NaiveDate::from_ymd_opt(1999, 12, 31).unwrap().and_hms_opt(23, 0, 9).unwrap().and_utc().to_string();
    assert_eq!(ours, theirs);
}
