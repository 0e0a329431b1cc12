use posterbot_constructor::dates::{format_date, format_date_time};

#[test]
fn dates_are_written_day_first_in_utc() {
    assert_eq!(format_date_time(0), "01.01.1970 00:00");
    assert_eq!(format_date_time(1_700_000_000), "14.11.2023 22:13");
    assert_eq!(format_date(1_700_000_000), Some("14.11.2023".to_string()));
    assert_eq!(format_date(-86_400), Some("31.12.1969".to_string()));
}

#[test]
fn unrepresentable_times_give_nothing() {
    assert_eq!(format_date_time(i64::MAX), "");
    assert_eq!(format_date(i64::MIN), None);
}
