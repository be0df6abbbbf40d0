use chrono::TimeDelta;
use nexus_extensibility::data_model::str_eq;
use nexus_extensibility::data_model::u64_to_decimal;
use nexus_extensibility::data_model::DataModelExtensions;
use nexus_extensibility::data_model::SamplePeriod;

fn unit_string_of(nanoseconds: i64) -> String {
    let duration = TimeDelta::nanoseconds(nanoseconds);
    let sample_period = SamplePeriod::try_new(duration).unwrap();
    DataModelExtensions::to_unit_string(&sample_period)
}

#[test]
fn can_create_unit_strings() {
    let cases: [(i64, &str); 15] = [
        (100, "100_ns"),
        (200, "200_ns"),
        (1_500, "1500_ns"),
        (1_000, "1_us"),
        (10_000, "10_us"),
        (100_000, "100_us"),
        (1_500_000, "1500_us"),
        (1_000_000, "1_ms"),
        (10_000_000, "10_ms"),
        (100_000_000, "100_ms"),
        (1_500_000_000, "1500_ms"),
        (1_000_000_000, "1_s"),
        (15_000_000_000, "15_s"),
        (60_000_000_000, "1_min"),
        (900_000_000_000, "15_min"),
    ];
    for (nanoseconds, expected) in cases {
        assert_eq!(expected, unit_string_of(nanoseconds));
    }
}

#[test]
fn can_create_unit_strings_for_large_units() {
    assert_eq!("1_h", unit_string_of(3_600_000_000_000));
    assert_eq!("36_h", unit_string_of(129_600_000_000_000));
    assert_eq!("1_d", unit_string_of(86_400_000_000_000));
    assert_eq!("7_d", unit_string_of(604_800_000_000_000));
    assert_eq!("25_h", unit_string_of(90_000_000_000_000));
}

#[test]
fn unit_string_uses_the_largest_evenly_dividing_unit() {
    // one nanosecond more than a second cannot be reduced at all
    assert_eq!("1000000001_ns", unit_string_of(1_000_000_001));
    // sixty-one seconds reduce to seconds, not minutes
    assert_eq!("61_s", unit_string_of(61_000_000_000));
}

#[test]
fn can_render_decimal_numbers() {
    assert_eq!("0", u64_to_decimal(0));
    assert_eq!("7", u64_to_decimal(7));
    assert_eq!("1234567890", u64_to_decimal(1_234_567_890));
    assert_eq!("18446744073709551615", u64_to_decimal(u64::MAX));
}

#[test]
fn can_compare_strings_exactly() {
    assert!(str_eq("", ""));
    assert!(str_eq("abc", "abc"));
    assert!(!str_eq("abc", "abd"));
    assert!(!str_eq("abc", "abcd"));
    assert!(str_eq("d\u{00e9}j\u{00e0}", "d\u{00e9}j\u{00e0}"));
    assert!(!str_eq("d\u{00e9}j\u{00e0}", "deja"));
}

#[test]
fn unit_string_is_deterministic() {
    let first = unit_string_of(1_500_000_000);
    let second = unit_string_of(1_500_000_000);
    assert_eq!(first, second);
}

#[test]
fn unit_string_round_trips_through_nanoseconds() {
    // parse "<value>_<unit>" back into value * unit and compare
    let cases: [i64; 6] = [100, 1_500, 1_000_000, 1_500_000_000, 60_000_000_000, 90_000_000_000_000];
    for nanoseconds in cases {
        let rendered = unit_string_of(nanoseconds);
        let (value_part, unit_part) = rendered.split_once('_').unwrap();
        let value: i64 = value_part.parse().unwrap();
        let unit_nanoseconds: i64 = match unit_part {
            "ns" => 1,
            "us" => 1_000,
            "ms" => 1_000_000,
            "s" => 1_000_000_000,
            "min" => 60_000_000_000,
            "h" => 3_600_000_000_000,
            "d" => 86_400_000_000_000,
            other => panic!("unexpected unit {other}"),
        };
        assert_eq!(nanoseconds, value * unit_nanoseconds);
    }
}
