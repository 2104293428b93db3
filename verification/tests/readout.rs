use lowrez_survival::readout::{
    decimal, get_minutes_from_millis, get_seconds_from_millis, percentage,
};

#[test]
fn clock_shows_minutes_and_seconds_in_two_digits() {
    assert_eq!(get_minutes_from_millis(0), "00");
    assert_eq!(get_seconds_from_millis(0), "00");
    assert_eq!(get_minutes_from_millis(125_000), "02");
    assert_eq!(get_seconds_from_millis(125_000), "05");
    assert_eq!(get_minutes_from_millis(599_999), "09");
    assert_eq!(get_seconds_from_millis(599_999), "59");
    assert_eq!(get_minutes_from_millis(600_000), "10");
    assert_eq!(get_seconds_from_millis(600_000), "00");
    assert_eq!(get_minutes_from_millis(240_000), "04");
}

#[test]
fn clock_shows_long_runs_in_as_many_digits_as_they_take() {
    assert_eq!(get_minutes_from_millis(6_000_000), "100");
    assert_eq!(get_minutes_from_millis(u128::MAX), (u128::MAX / 60_000).to_string());
    assert_eq!(get_seconds_from_millis(u128::MAX), format!("{:02}", u128::MAX / 1000 % 60));
}

#[test]
fn numbers_are_written_in_decimal() {
    assert_eq!(decimal(0), "0");
    assert_eq!(decimal(7), "7");
    assert_eq!(decimal(10), "10");
    assert_eq!(decimal(1234567890), "1234567890");
    assert_eq!(decimal(u128::MAX), u128::MAX.to_string());
}

#[test]
fn bars_show_the_share_of_the_whole() {
    assert_eq!(percentage(50_000, 100_000), 50_000);
    assert_eq!(percentage(100_000, 100_000), 100_000);
    assert_eq!(percentage(0, 100_000), 0);
    assert_eq!(percentage(1, 3), 33_333);
    assert_eq!(percentage(5, 0), 100_000);
    assert_eq!(percentage(-1, 3), -33_333);
}
