use mineintent_backend::config::{
    checked_increment, next_reconnect_random, schedule_retry, validate_run_config, ConfigError,
    RunConfig,
};
use mineintent_backend::number::{floor_block_coordinate, Double, Single, Vec3Value};
use mineintent_backend::text::{
    ascii_lowered, chars_of, contains_run, is_before, is_blank, numbered, push_decimal,
    push_signed_decimal,
};
use mineintent_backend::time::{retry_at_with_delay, UtcInstant, MAX_SECONDS, MIN_SECONDS};

fn double(value: f64) -> Double {
    Double { bits: value.to_bits() }
}

fn single(value: f32) -> Single {
    Single { bits: value.to_bits() }
}

const NOW: UtcInstant = UtcInstant { seconds: 1_785_542_400, nanos: 250_000_000 };
const LAST: UtcInstant = UtcInstant { seconds: MAX_SECONDS, nanos: 999_999_999 };

#[test]
fn a_retry_is_due_after_exactly_its_delay() {
    assert_eq!(
        retry_at_with_delay(NOW, 1_750),
        UtcInstant { seconds: 1_785_542_402, nanos: 0 }
    );
    assert_eq!(retry_at_with_delay(NOW, 0), NOW);
    let schedule = schedule_retry(NOW, 500);
    assert_eq!(schedule.delay_ms, 500);
    assert_eq!(schedule.retry_at, UtcInstant { seconds: 1_785_542_400, nanos: 750_000_000 });
}

#[test]
fn a_retry_beyond_the_range_is_due_at_the_last_instant() {
    assert_eq!(retry_at_with_delay(NOW, u64::MAX), LAST);
    assert_eq!(retry_at_with_delay(LAST, 1), LAST);
    assert_eq!(
        retry_at_with_delay(UtcInstant { seconds: MAX_SECONDS, nanos: 0 }, 999),
        UtcInstant { seconds: MAX_SECONDS, nanos: 999_000_000 }
    );
}

#[test]
fn a_longer_delay_is_not_due_earlier() {
    let short = retry_at_with_delay(NOW, 10);
    let long = retry_at_with_delay(NOW, 11);
    assert!((short.seconds, short.nanos) < (long.seconds, long.nanos));
}

#[test]
fn instants_are_written_and_read() {
    assert_eq!(NOW.to_rfc3339(), "2026-08-01T00:00:00.250+00:00");
    assert_eq!(UtcInstant { seconds: 0, nanos: 0 }.to_rfc3339(), "1970-01-01T00:00:00+00:00");
    assert_eq!(UtcInstant::parse("2026-08-01T00:00:00.250+00:00"), Some(NOW));
    assert_eq!(
        UtcInstant::parse("1970-01-01T01:00:00+01:00"),
        Some(UtcInstant { seconds: 0, nanos: 0 })
    );
    assert_eq!(UtcInstant::parse("yesterday"), None);
    assert_eq!(UtcInstant::parse(""), None);
}

#[test]
fn instants_come_from_milliseconds() {
    assert_eq!(UtcInstant::from_millis(1_785_542_400_250), Some(NOW));
    assert_eq!(
        UtcInstant::from_millis(-1),
        Some(UtcInstant { seconds: -1, nanos: 999_000_000 })
    );
    assert_eq!(UtcInstant::from_millis(i64::MAX), None);
    assert_eq!(
        UtcInstant::from_millis(MIN_SECONDS * 1000),
        Some(UtcInstant { seconds: MIN_SECONDS, nanos: 0 })
    );
    assert_eq!(UtcInstant::from_millis(MIN_SECONDS * 1000 - 1), None);
    assert!(LAST.is_valid());
    assert!(!UtcInstant { seconds: 0, nanos: 1_000_000_000 }.is_valid());
    assert!(!UtcInstant { seconds: MAX_SECONDS + 1, nanos: 0 }.is_valid());
}

#[test]
fn block_coordinates_are_floors() {
    assert_eq!(floor_block_coordinate(double(1.75)), Some(1));
    assert_eq!(floor_block_coordinate(double(-0.25)), Some(-1));
    assert_eq!(floor_block_coordinate(double(-2.0)), Some(-2));
    assert_eq!(floor_block_coordinate(double(-0.0)), Some(0));
    assert_eq!(floor_block_coordinate(double(2_147_483_647.5)), Some(i32::MAX));
    assert_eq!(floor_block_coordinate(double(2_147_483_648.0)), None);
    assert_eq!(floor_block_coordinate(double(-2_147_483_648.0)), Some(i32::MIN));
    assert_eq!(floor_block_coordinate(double(-2_147_483_648.5)), None);
    assert_eq!(floor_block_coordinate(double(f64::NAN)), None);
    assert_eq!(floor_block_coordinate(double(f64::NEG_INFINITY)), None);
    for whole in [-70_000.0_f64, -17.3, -16.0, -0.1, 0.9, 15.999, 16.0, 123_456.7] {
        assert_eq!(floor_block_coordinate(double(whole)), Some(whole.floor() as i32));
    }
}

#[test]
fn finite_numbers_are_told_apart() {
    assert!(double(f64::MAX).is_finite());
    assert!(!double(f64::INFINITY).is_finite());
    assert!(!double(f64::NAN).is_finite());
    assert!(single(f32::MIN).is_finite());
    assert!(!single(f32::NAN).is_finite());
    assert!(!double(1e300).is_finite_as_single());
    assert!(double(1e38).is_finite_as_single());
    for wide in [3.4028235677973366e38, 3.4028235677973362e38, f64::from(f32::MAX), 1.0] {
        assert_eq!(double(wide).is_finite_as_single(), (wide as f32).is_finite());
    }
    let vector = Vec3Value { x: double(0.0), y: double(1.0), z: double(-1.0) };
    assert!(vector.is_finite());
    assert!(!Vec3Value { y: double(f64::NAN), ..vector }.is_finite());
}

#[test]
fn ranges_of_numbers_are_told_apart() {
    assert!(double(0.0).is_not_below_zero());
    assert!(double(-0.0).is_not_below_zero());
    assert!(!double(-1e-300).is_not_below_zero());
    assert!(double(1.0).is_finite_at_least_one());
    assert!(!double(0.999).is_finite_at_least_one());
    assert!(!double(f64::INFINITY).is_finite_at_least_one());
    assert!(double(0.0).is_unit_interval());
    assert!(double(1.0).is_unit_interval());
    assert!(!double(1.0000001).is_unit_interval());
    assert!(!double(-0.1).is_unit_interval());
    assert!(single(90.0).is_within_ninety());
    assert!(single(-90.0).is_within_ninety());
    assert!(!single(90.00001).is_within_ninety());
    assert!(!single(f32::NAN).is_within_ninety());
}

#[test]
fn numbers_are_written_in_decimal() {
    let mut out = "n=".to_owned();
    push_decimal(&mut out, 1_050);
    assert_eq!(out, "n=1050");
    push_signed_decimal(&mut out, -7);
    assert_eq!(out, "n=1050-7");
    push_signed_decimal(&mut out, i64::MIN);
    assert_eq!(out, "n=1050-7-9223372036854775808");
    assert_eq!(numbered("event-", 0), "event-0");
    assert_eq!(numbered("event-", u64::MAX), "event-18446744073709551615");
}

#[test]
fn texts_are_searched_and_ordered() {
    let haystack = ascii_lowered("Server CLOSED now");
    assert!(contains_run(&haystack, "closed"));
    assert!(!contains_run(&haystack, "CLOSED"));
    assert!(contains_run(&chars_of("abc"), ""));
    assert!(!contains_run(&chars_of("ab"), "abc"));
    assert!(is_blank(" \t\u{3000}"));
    assert!(is_blank(""));
    assert!(!is_blank(" x "));
    assert!(is_before("10", "9"));
    assert!(is_before("ab", "abc"));
    assert!(!is_before("abc", "abc"));
    assert!(!is_before("b", "abc"));
}

#[test]
fn the_default_configuration_is_valid() {
    assert_eq!(validate_run_config(&RunConfig::default()), Ok(()));
}

#[test]
fn each_fault_of_a_configuration_is_told() {
    let fault = |change: &dyn Fn(&mut RunConfig)| {
        let mut config = RunConfig::default();
        change(&mut config);
        validate_run_config(&config).expect_err("refused")
    };
    assert_eq!(fault(&|config| config.host = "  ".to_owned()), ConfigError::HostEmpty);
    assert_eq!(fault(&|config| config.port = 0), ConfigError::PortZero);
    assert_eq!(fault(&|config| config.username = "".to_owned()), ConfigError::Username);
    assert_eq!(fault(&|config| config.username = "a b".to_owned()), ConfigError::Username);
    assert_eq!(
        fault(&|config| config.username = "abcdefghijklmnopq".to_owned()),
        ConfigError::Username
    );
    assert_eq!(fault(&|config| config.world_id = "".to_owned()), ConfigError::WorldIdEmpty);
    assert_eq!(fault(&|config| config.timeouts.stop_ms = 0), ConfigError::TimeoutZero);
    assert_eq!(
        fault(&|config| config.reconnect.multiplier = double(0.5)),
        ConfigError::Multiplier
    );
    assert_eq!(
        fault(&|config| config.reconnect.jitter_ratio = double(1.5)),
        ConfigError::JitterRatio
    );
    assert_eq!(ConfigError::PortZero.text(), "服务器 port 不能为 0");
}

#[test]
fn the_first_fault_is_the_one_told() {
    let mut config = RunConfig::default();
    config.port = 0;
    config.world_id = "".to_owned();
    assert_eq!(validate_run_config(&config), Err(ConfigError::PortZero));
}

#[test]
fn jitter_steps_a_fixed_generator() {
    let mut seed: u64 = 1;
    assert_eq!(next_reconnect_random(&mut seed), 6_364_136_223_846_793_006 / 2048);
    assert_eq!(seed, 6_364_136_223_846_793_006);
    let mut zero: u64 = 0;
    assert_eq!(next_reconnect_random(&mut zero), 0);
    assert_eq!(zero, 1);
    let mut big: u64 = u64::MAX;
    next_reconnect_random(&mut big);
    assert_eq!(big, u64::MAX.wrapping_mul(6_364_136_223_846_793_005).wrapping_add(1));
}

#[test]
fn a_counter_stops_at_the_largest_number() {
    let mut counter: u64 = 4;
    assert_eq!(checked_increment(&mut counter), Some(5));
    counter = u64::MAX;
    assert_eq!(checked_increment(&mut counter), None);
    assert_eq!(counter, u64::MAX);
}

fn rounded(value: f64) -> f64 {
    f64::from_bits(double(value).round_to_single().bits)
}

#[test]
fn rounding_to_single_precision_takes_the_nearest_single() {
    let mut numbers = vec![
        0.0,
        0.1,
        1.0 / 3.0,
        90.0,
        123.456,
        179.999_999_999,
        1.375,
        1e30,
        1e-30,
        f64::from(f32::MAX),
        f64::from(f32::MIN_POSITIVE),
        f64::from(f32::MIN_POSITIVE) * 0.999_999_99,
        f64::from(f32::from_bits(1)),
        f64::from(f32::from_bits(1)) * 0.5,
        f64::from(f32::from_bits(1)) * 0.500_000_1,
        f64::from(f32::from_bits(1)) * 1.5,
        f64::from(f32::from_bits(1)) * 2.5,
        f64::from(f32::from_bits(0x007f_ffff)) * 0.75,
        f64::MIN_POSITIVE,
        f64::from_bits(1),
    ];
    let mut bits: u64 = 0x9e37_79b9_7f4a_7c15;
    for _ in 0..20_000 {
        bits = bits.wrapping_mul(6_364_136_223_846_793_005).wrapping_add(1_442_695_040_888_963_407);
        let exponent = 1023 - 160 + (bits >> 56) % 287;
        numbers.push(f64::from_bits((exponent << 52) | (bits & 0x000f_ffff_ffff_ffff)));
        numbers.push(f64::from_bits((exponent << 52) | ((bits & 0x000f_ffff_e000_0000) | 0x1000_0000)));
    }
    for number in numbers {
        for signed in [number, -number] {
            if !double(signed).is_finite_as_single() {
                continue;
            }
            let expected = f64::from(signed as f32);
            assert_eq!(rounded(signed).to_bits(), expected.to_bits(), "{signed:e}");
        }
    }
}

#[test]
fn halfway_cases_round_to_the_even_single() {
    let step = 2.0_f64.powi(-23);
    assert_eq!(rounded(1.0 + step / 2.0), 1.0);
    assert_eq!(rounded(1.0 + step * 1.5), 1.0 + step * 2.0);
    assert_eq!(rounded(1.0 + step / 2.0 + step / 1024.0), 1.0 + step);
    assert_eq!(rounded(2.0 - step / 4.0), 2.0);
}

#[test]
fn numbers_outside_the_range_of_singles_are_not_rounded() {
    for number in [f64::MAX, -1e39, f64::INFINITY, f64::NEG_INFINITY] {
        assert_eq!(rounded(number), number);
    }
    assert!(rounded(f64::NAN).is_nan());
}
