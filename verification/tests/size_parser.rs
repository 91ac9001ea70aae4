use docker_core::size::{is_digit_char, parse_size};

#[test]
fn megabytes_are_binary() {
    assert_eq!(parse_size("10MB"), 10 * 1024 * 1024);
}

#[test]
fn fractional_gigabytes() {
    assert_eq!(parse_size("1.5GB"), 1_610_612_736);
    assert_eq!(parse_size("1.5GB"), (1.5f64 * 1024.0 * 1024.0 * 1024.0).round() as u64);
}

#[test]
fn empty_input_is_zero() {
    assert_eq!(parse_size(""), 0);
}

#[test]
fn zero_bytes() {
    assert_eq!(parse_size("0B"), 0);
}

#[test]
fn unit_case_does_not_matter() {
    assert_eq!(parse_size("10mb"), 10 * 1024 * 1024);
    assert_eq!(parse_size("10Mb"), 10 * 1024 * 1024);
    assert_eq!(parse_size("10mB"), 10 * 1024 * 1024);
    assert_eq!(parse_size("3k"), 3 * 1024);
    assert_eq!(parse_size("3K"), 3 * 1024);
    assert_eq!(parse_size("2g"), 2 * 1024 * 1024 * 1024);
    assert_eq!(parse_size("7b"), 7);
}

#[test]
fn every_unit_has_its_power() {
    assert_eq!(parse_size("1B"), 1);
    assert_eq!(parse_size("1K"), 1024);
    assert_eq!(parse_size("1KB"), 1024);
    assert_eq!(parse_size("1M"), 1024 * 1024);
    assert_eq!(parse_size("1MB"), 1024 * 1024);
    assert_eq!(parse_size("1G"), 1024 * 1024 * 1024);
    assert_eq!(parse_size("1GB"), 1024 * 1024 * 1024);
    assert_eq!(parse_size("1T"), 1024u64 * 1024 * 1024 * 1024);
    assert_eq!(parse_size("1TB"), 1024u64 * 1024 * 1024 * 1024);
}

#[test]
fn units_are_not_decimal() {
    assert_ne!(parse_size("1KB"), 1000);
    assert_ne!(parse_size("1MB"), 1_000_000);
}

#[test]
fn missing_or_unknown_unit_means_bytes() {
    assert_eq!(parse_size("42"), 42);
    assert_eq!(parse_size("42XB"), 42);
    assert_eq!(parse_size("42KiB"), 42);
    assert_eq!(parse_size("42 bytes"), 42);
}

#[test]
fn white_space_is_dropped() {
    assert_eq!(parse_size("  10 MB  "), 10 * 1024 * 1024);
    assert_eq!(parse_size("1\t0\nK B"), 10 * 1024);
    assert_eq!(parse_size("\u{3000}5\u{a0}K"), 5 * 1024);
}

#[test]
fn fractions_are_rounded_to_the_nearest_byte() {
    assert_eq!(parse_size("1.7B"), 2);
    assert_eq!(parse_size("1.4B"), 1);
    assert_eq!(parse_size("0.1KB"), 102);
    assert_eq!(parse_size("0.6KB"), 614);
    assert_eq!(parse_size("2.75"), 3);
    assert_eq!(parse_size(".5K"), 512);
    assert_eq!(parse_size("5.K"), 5 * 1024);
    assert_eq!(parse_size("1.999999999999999999999999999999B"), 2);
    assert_eq!(parse_size("0.0009765625M"), 1024);
    assert_eq!(parse_size("0.00097656249999999999999999M"), 1024);
    assert_eq!(parse_size("0.0009760M"), 1023);
}

#[test]
fn a_half_is_rounded_up() {
    assert_eq!(parse_size("0.5B"), 1);
    assert_eq!(parse_size("1.5"), 2);
    assert_eq!(parse_size("2.5B"), 3);
    assert_eq!(parse_size("0.49999999999999999999B"), 0);
    assert_eq!(parse_size("0.50000000000000000000B"), 1);
    assert_eq!(parse_size("0.00048828125K"), 1);
}

#[test]
fn not_a_number_is_zero() {
    assert_eq!(parse_size("MB"), 0);
    assert_eq!(parse_size("."), 0);
    assert_eq!(parse_size(".MB"), 0);
    assert_eq!(parse_size("1.2.3MB"), 0);
    assert_eq!(parse_size("1..2"), 0);
    assert_eq!(parse_size("   "), 0);
}

#[test]
fn a_leading_sign_is_read_with_the_number() {
    assert_eq!(parse_size("+5MB"), 5 * 1024 * 1024);
    assert_eq!(parse_size("+5MB"), 5_242_880);
    assert_eq!(parse_size(" + 1.5 GB "), 1_610_612_736);
    assert_eq!(parse_size("+10"), 10);
    assert_eq!(parse_size("+0B"), 0);
    assert_eq!(parse_size("+"), 0);
    assert_eq!(parse_size("+MB"), 0);
}

#[test]
fn a_size_below_zero_is_zero() {
    assert_eq!(parse_size("-10MB"), 0);
    assert_eq!(parse_size("-1"), 0);
    assert_eq!(parse_size("-0.4B"), 0);
    assert_eq!(parse_size("-0"), 0);
    assert_eq!(parse_size("-"), 0);
}

#[test]
fn a_sign_elsewhere_belongs_to_the_unit() {
    assert_eq!(parse_size("5+MB"), 5);
    assert_eq!(parse_size("5-K"), 5);
    assert_eq!(parse_size("++5MB"), 5);
    assert_eq!(parse_size("+-5K"), 5);
    assert_eq!(parse_size("5M+"), 5);
}

#[test]
fn digits_after_the_unit_still_count() {
    assert_eq!(parse_size("1e5"), 15);
    assert_eq!(parse_size("1K5"), 15 * 1024);
}

#[test]
fn too_large_is_the_largest_value() {
    assert_eq!(parse_size("18446744073709551615"), u64::MAX);
    assert_eq!(parse_size("18446744073709551616"), u64::MAX);
    assert_eq!(parse_size("99999999999999999999999999TB"), u64::MAX);
    assert_eq!(parse_size("16777216TB"), u64::MAX);
    assert_eq!(parse_size("16777215TB"), 16_777_215u64 << 40);
    assert_eq!(parse_size("18446744073709551615.9"), u64::MAX);
}

#[test]
fn leading_zeros_are_harmless() {
    assert_eq!(parse_size("000000000000000000000000000010MB"), 10 * 1024 * 1024);
}

#[test]
fn digits_are_the_ascii_ones() {
    assert!(is_digit_char('0'));
    assert!(is_digit_char('9'));
    assert!(!is_digit_char('a'));
    assert!(!is_digit_char('\u{0663}'));
    assert_eq!(parse_size("\u{0663}"), 0);
}

#[test]
fn agrees_with_floating_point_on_short_numbers() {
    let units = ["", "B", "K", "KB", "M", "MB", "G", "GB", "T", "TB"];
    let powers = [0, 0, 1, 1, 2, 2, 3, 3, 4, 4];
    for whole in 0u64..40 {
        for tenths in 0u64..10 {
            for u in 0..units.len() {
                let text = format!("{}.{}{}", whole, tenths, units[u]);
                let number: f64 = format!("{}.{}", whole, tenths).parse().unwrap();
                let expected = (number * 1024f64.powi(powers[u])).round() as u64;
                assert_eq!(parse_size(&text), expected, "{}", text);
            }
        }
    }
}
