use secadora::seconds_to_hour_format;
use secadora::text::{hundredths_to_string, tenths_to_string, u64_to_string};

#[test]
fn seconds_to_hours_works() {
    assert_eq!("0h0m30s", seconds_to_hour_format(30));
    assert_eq!("0h1m30s", seconds_to_hour_format(90));
    assert_eq!("1h6m40s", seconds_to_hour_format(4000));
}

#[test]
fn decimal_rendering_works() {
    assert_eq!("0", u64_to_string(0));
    assert_eq!("7", u64_to_string(7));
    assert_eq!("1234567890", u64_to_string(1234567890));
    assert_eq!("18446744073709551615", u64_to_string(u64::MAX));
}

#[test]
fn hundredths_rendering_works() {
    assert_eq!("0.00", hundredths_to_string(0));
    assert_eq!("0.05", hundredths_to_string(5));
    assert_eq!("1.00", hundredths_to_string(100));
    assert_eq!("1.21", hundredths_to_string(121));
    assert_eq!("10.00", hundredths_to_string(1000));
}

#[test]
fn tenths_rendering_works() {
    assert_eq!("0.0", tenths_to_string(0));
    assert_eq!("1100.0", tenths_to_string(11000));
    assert_eq!("2.5", tenths_to_string(25));
}

#[test]
fn hour_format_covers_edges() {
    assert_eq!("0h0m0s", seconds_to_hour_format(0));
    assert_eq!("1h0m0s", seconds_to_hour_format(3600));
    assert_eq!("25h59m59s", seconds_to_hour_format(25 * 3600 + 59 * 60 + 59));
}
