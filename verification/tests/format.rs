use datetime_page::clock::current_clock;
use datetime_page::clock::format_date;
use datetime_page::clock::format_time;
use datetime_page::clock::Clock;

#[test]
fn format_contract_fixed_clock() {
    let c = Clock::from_fields(2024, 1, 15, 9, 30, 0).unwrap();
    assert_eq!(format_date(&c), "2024-01-15");
    assert_eq!(format_time(&c), "09:30:00");
}

#[test]
fn format_zero_pads_every_field() {
    let c = Clock::from_fields(987, 3, 5, 7, 4, 9).unwrap();
    assert_eq!(format_date(&c), "0987-03-05");
    assert_eq!(format_time(&c), "07:04:09");
}

#[test]
fn format_widest_fields() {
    let c = Clock::from_fields(9999, 12, 31, 23, 59, 59).unwrap();
    assert_eq!(format_date(&c), "9999-12-31");
    assert_eq!(format_time(&c), "23:59:59");
}

#[test]
fn from_fields_accepts_exactly_the_valid_ranges() {
    assert!(Clock::from_fields(0, 1, 1, 0, 0, 0).is_some());
    assert!(Clock::from_fields(9999, 12, 31, 23, 59, 59).is_some());
    assert!(Clock::from_fields(-1, 1, 1, 0, 0, 0).is_none());
    assert!(Clock::from_fields(10000, 1, 1, 0, 0, 0).is_none());
    assert!(Clock::from_fields(2024, 0, 1, 0, 0, 0).is_none());
    assert!(Clock::from_fields(2024, 13, 1, 0, 0, 0).is_none());
    assert!(Clock::from_fields(2024, 1, 0, 0, 0, 0).is_none());
    assert!(Clock::from_fields(2024, 1, 32, 0, 0, 0).is_none());
    assert!(Clock::from_fields(2024, 1, 1, 24, 0, 0).is_none());
    assert!(Clock::from_fields(2024, 1, 1, 0, 60, 0).is_none());
    assert!(Clock::from_fields(2024, 1, 1, 0, 0, 60).is_none());
}

#[test]
fn from_fields_keeps_the_fields() {
    let c = Clock::from_fields(2024, 1, 15, 9, 30, 0).unwrap();
    assert_eq!(c.year, 2024);
    assert_eq!(c.month, 1);
    assert_eq!(c.day, 15);
    assert_eq!(c.hour, 9);
    assert_eq!(c.minute, 30);
    assert_eq!(c.second, 0);
}

#[test]
fn current_clock_reads_a_valid_instant() {
    let c = current_clock().expect("the machine clock is within the printable range");
    assert!(c.year <= 9999);
    assert!((1..=12).contains(&c.month));
    assert!((1..=31).contains(&c.day));
    assert!(c.hour <= 23);
    assert!(c.minute <= 59);
    assert!(c.second <= 59);
    assert_eq!(format_date(&c).len(), 10);
    assert_eq!(format_time(&c).len(), 8);
}
