use weather_cli::decimal::parse_reading;
use weather_cli::units::{hpa_to_mmhg, inhg_to_mmhg, kph_to_mps};

#[test]
fn kph_ten_is_about_2_778_mps() {
    assert_eq!(kph_to_mps(10_000_000), 2_777_777);
}

#[test]
fn kph_36_is_10_mps() {
    assert_eq!(kph_to_mps(36_000_000), 10_000_000);
}

#[test]
fn hpa_1013_to_mmhg() {
    assert_eq!(hpa_to_mmhg(1_013_000_000), 759_814_629);
}

#[test]
fn inhg_29_92_is_about_760_mmhg() {
    assert_eq!(inhg_to_mmhg(29_920_000), 759_968_000);
}

#[test]
fn negative_conversion_rounds_down() {
    assert_eq!(kph_to_mps(-1), -1);
}

#[test]
fn parse_whole_and_fraction() {
    assert_eq!(parse_reading("12.5"), Some(12_500_000));
    assert_eq!(parse_reading("-3.25"), Some(-3_250_000));
    assert_eq!(parse_reading("0"), Some(0));
    assert_eq!(parse_reading("1013"), Some(1_013_000_000));
}

#[test]
fn parse_drops_digits_past_six_places() {
    assert_eq!(parse_reading("0.12345678"), Some(123_456));
}

#[test]
fn parse_rejects_non_decimals() {
    assert_eq!(parse_reading(""), None);
    assert_eq!(parse_reading("-"), None);
    assert_eq!(parse_reading("1."), None);
    assert_eq!(parse_reading(".5"), None);
    assert_eq!(parse_reading("1e5"), None);
    assert_eq!(parse_reading("abc"), None);
    assert_eq!(parse_reading("1.2.3"), None);
}

#[test]
fn parse_limits_size() {
    assert_eq!(parse_reading("100000000000"), Some(100_000_000_000_000_000));
    assert_eq!(parse_reading("100000000000.000001"), None);
    assert_eq!(parse_reading("99999999999999999999999"), None);
}
