use autonomous_trading_system::chance::{bring_below, draw_below, draw_within, join_draws};
use autonomous_trading_system::clock::{current_time, elapsed_micros, Timestamp};
use autonomous_trading_system::ids::{
    fresh_agent_id, fresh_record_id, uuid_string, BROADCAST, RANDOM_VERSION_VARIANT,
    VERSION_VARIANT_MASK,
};
use autonomous_trading_system::money::{Money, MAX_MANTISSA, MAX_SCALE};
use autonomous_trading_system::text::{
    append_decimal, append_decimal_padded, append_fixed_point, append_signed_fixed_point,
    contains, copy_strings, decimal_string, fixed_point_string, hundredth, identifier_of, join,
    pair, percent_one_place_string, percent_two_places_string, power_of_ten, replace_spaces,
    same_text, signed_two_places_string, single, starts_with, strings, triple,
};

fn money(mantissa: i128, scale: u32) -> Money {
    Money { mantissa, scale }
}

#[test]
fn money_validity_follows_the_decimal_format() {
    assert!(money(0, 0).is_valid());
    assert!(money(MAX_MANTISSA, MAX_SCALE).is_valid());
    assert!(money(-MAX_MANTISSA, 0).is_valid());
    assert!(!money(MAX_MANTISSA + 1, 0).is_valid());
    assert!(!money(-MAX_MANTISSA - 1, 0).is_valid());
    assert!(!money(1, MAX_SCALE + 1).is_valid());
    assert_eq!(Money::default(), money(0, 0));
    assert_eq!(Money::zero(), money(0, 0));
    assert_eq!(Money::from_units(-7), money(-7, 0));
}

#[test]
fn money_comparison_ignores_the_scale() {
    assert!(money(150, 2).is_less_than(&money(2, 0)));
    assert!(!money(2, 0).is_less_than(&money(150, 2)));
    assert!(!money(200, 2).is_less_than(&money(2, 0)));
    assert!(!money(2, 0).is_less_than(&money(200, 2)));
    assert!(money(-1, 0).is_less_than(&money(0, 5)));
    assert!(money(-200, 2).is_less_than(&money(-150, 2)));
    assert!(money(1, 28).is_less_than(&money(1, 27)));
    assert!(!money(5, 0).is_less_than(&money(5, 0)));
    assert!(money(MAX_MANTISSA, 28).is_less_than(&money(MAX_MANTISSA, 0)));
}

#[test]
fn money_signs() {
    assert!(money(-1, 3).is_sign_negative());
    assert!(!money(0, 3).is_sign_negative());
    assert!(money(1, 3).is_sign_positive());
    assert!(!money(0, 0).is_sign_positive());
    assert_eq!(money(-15, 1).negated(), money(15, 1));
    assert_eq!(money(15, 1).negated(), money(-15, 1));
    assert_eq!(money(-15, 1).abs(), money(15, 1));
    assert_eq!(money(15, 1).abs(), money(15, 1));
}

#[test]
fn money_subtraction_is_decimal_subtraction() {
    let difference = money(500, 2).checked_sub(&money(15, 1)).unwrap();
    assert!(!difference.is_less_than(&money(35, 1)) && !money(35, 1).is_less_than(&difference));
    assert_eq!(difference, money(350, 2));
    assert_eq!(money(10, 0).checked_sub(&money(3, 0)).unwrap(), money(7, 0));
    assert_eq!(money(3, 0).checked_sub(&money(10, 0)).unwrap(), money(-7, 0));
    assert!(money(MAX_MANTISSA, 0).checked_sub(&money(-MAX_MANTISSA, 0)).is_none());
}

#[test]
fn money_multiplication_is_decimal_multiplication() {
    assert_eq!(money(100, 0).checked_mul(&money(5, 2)).unwrap(), money(500, 2));
    assert_eq!(money(75_000, 4).checked_mul(&money(1, 3)).unwrap(), money(75_000, 7));
    assert_eq!(money(-3, 0).checked_mul(&money(4, 0)).unwrap(), money(-12, 0));
    assert!(money(MAX_MANTISSA, 0).checked_mul(&money(MAX_MANTISSA, 0)).is_none());
}

#[test]
fn money_division_is_decimal_division() {
    let quotient = money(1, 0).checked_div(&money(4, 0)).unwrap();
    assert_eq!(quotient, money(25, 2));
    let third = money(1, 0).checked_div(&money(3, 0)).unwrap();
    assert!(money(3333, 4).is_less_than(&third));
    assert!(third.is_less_than(&money(3334, 4)));
    assert!(money(1, 0).checked_div(&money(0, 0)).is_none());
    assert!(money(1, 0).checked_div(&money(0, 5)).is_none());
}

#[test]
fn money_text_puts_the_point_at_the_scale() {
    assert_eq!(money(1234, 2).to_text(), "12.34");
    assert_eq!(money(-1234, 2).to_text(), "-12.34");
    assert_eq!(money(5, 0).to_text(), "5");
    assert_eq!(money(0, 0).to_text(), "0");
    assert_eq!(money(5, 3).to_text(), "0.005");
    assert_eq!(money(500, 2).to_text(), "5.00");
    assert_eq!(money(0, 2).to_text(), "0.00");
    assert_eq!(money(-5, 1).to_text(), "-0.5");
}

#[test]
fn money_as_capped_share() {
    assert_eq!(money(0, 0).to_capped_basis_points(), 0);
    assert_eq!(money(-5, 1).to_capped_basis_points(), 0);
    assert_eq!(money(5, 1).to_capped_basis_points(), 5_000);
    assert_eq!(money(1, 0).to_capped_basis_points(), 10_000);
    assert_eq!(money(37, 0).to_capped_basis_points(), 10_000);
    assert_eq!(money(12345, 5).to_capped_basis_points(), 1_234);
    assert_eq!(money(99999, 5).to_capped_basis_points(), 9_999);
    assert_eq!(money(1, 28).to_capped_basis_points(), 0);
}

#[test]
fn powers_of_ten() {
    assert_eq!(power_of_ten(0), 1);
    assert_eq!(power_of_ten(1), 10);
    assert_eq!(power_of_ten(9), 1_000_000_000);
    assert_eq!(power_of_ten(28), 10_000_000_000_000_000_000_000_000_000);
    assert_eq!(power_of_ten(38), 100_000_000_000_000_000_000_000_000_000_000_000_000);
}

#[test]
fn uuid_text_is_hyphenated_lower_case() {
    assert_eq!(uuid_string(0), "00000000-0000-0000-0000-000000000000");
    assert_eq!(
        uuid_string(0x0123_4567_89ab_cdef_fedc_ba98_7654_3210),
        "01234567-89ab-cdef-fedc-ba9876543210"
    );
    assert_eq!(uuid_string(u128::MAX), "ffffffff-ffff-ffff-ffff-ffffffffffff");
}

#[test]
fn fresh_identifiers_are_random_uuids() {
    let first = fresh_agent_id();
    let second = fresh_agent_id();
    assert_ne!(first, BROADCAST);
    assert_ne!(first, second);
    assert_eq!(first & VERSION_VARIANT_MASK, RANDOM_VERSION_VARIANT);
    let text = fresh_record_id();
    assert_eq!(text.len(), 36);
    let parsed = uuid::Uuid::parse_str(&text).unwrap();
    assert_eq!(parsed.get_version_num(), 4);
    assert_eq!(uuid_string(parsed.as_u128()), text);
}

#[test]
fn clock_readings_do_not_go_back_far() {
    let first = current_time();
    let second = current_time();
    assert!(first.secs > 1_600_000_000);
    assert!(first.nanos < 1_000_000_000);
    assert!(!second.is_before(&first) || elapsed_micros(second, first) < 1_000_000);
    assert_eq!(Timestamp::epoch(), Timestamp { secs: 0, nanos: 0 });
}

#[test]
fn timestamps_compare_by_seconds_then_nanoseconds() {
    let early = Timestamp { secs: 5, nanos: 900 };
    let late = Timestamp { secs: 6, nanos: 100 };
    assert!(early.is_before(&late));
    assert!(!late.is_before(&early));
    assert!(!early.is_before(&early));
    assert!(Timestamp { secs: 5, nanos: 100 }.is_before(&early));
}

#[test]
fn elapsed_micros_between_readings() {
    let start = Timestamp { secs: 10, nanos: 500_000_000 };
    let end = Timestamp { secs: 12, nanos: 250_000_000 };
    assert_eq!(elapsed_micros(start, end), 1_750_000);
    assert_eq!(elapsed_micros(end, start), 0);
    assert_eq!(elapsed_micros(start, start), 0);
    let far = Timestamp { secs: i64::MAX, nanos: 0 };
    let back = Timestamp { secs: i64::MIN, nanos: 0 };
    assert_eq!(elapsed_micros(back, far), u64::MAX);
    assert_eq!(elapsed_micros(far, back), 0);
}

#[test]
fn random_draws_stay_below_their_bound() {
    for _ in 0..200 {
        assert!(draw_below(7) < 7);
        assert_eq!(draw_below(1), 0);
        assert_eq!(draw_below(0), 0);
        assert!(draw_within(1_000_000_000_000) < 1_000_000_000_000);
        assert_eq!(draw_within(0), 0);
    }
    let draws: Vec<u32> = (0..64).map(|_| draw_below(1_000_000)).collect();
    assert!(draws.iter().any(|draw| *draw != draws[0]));
}

#[test]
fn draws_are_joined_and_brought_below_the_bound() {
    assert_eq!(bring_below(17, 5), 2);
    assert_eq!(bring_below(4, 5), 4);
    assert_eq!(bring_below(5, 5), 0);
    assert_eq!(bring_below(17, 0), 0);
    assert_eq!(bring_below(u64::MAX, u64::MAX), 0);
    assert_eq!(bring_below(u64::MAX, 1 << 32), u32::MAX as u64);
    assert_eq!(join_draws(0, 0), 0);
    assert_eq!(join_draws(0, 7), 7);
    assert_eq!(join_draws(1, 0), 4_294_967_296);
    assert_eq!(join_draws(2, 3), 8_589_934_595);
    assert_eq!(join_draws(u32::MAX, u32::MAX), u64::MAX);
}

#[test]
fn text_search() {
    assert!(contains("http://localhost:11111", "localhost"));
    assert!(contains("http://127.0.0.1:11111", "127.0.0.1"));
    assert!(!contains("https://openapi.moomoo.com", "localhost"));
    assert!(contains("abc", ""));
    assert!(contains("", ""));
    assert!(!contains("", "a"));
    assert!(contains("abc", "abc"));
    assert!(contains("xabc", "abc"));
    assert!(!contains("ab", "abc"));
    assert!(contains("端末 localhost", "localhost"));
    assert!(starts_with("demo_key", "demo_"));
    assert!(!starts_with("a_demo_key", "demo_"));
    assert!(!starts_with("dem", "demo_"));
    assert!(starts_with("anything", ""));
    assert!(same_text("true", "true"));
    assert!(!same_text("true", "tru"));
    assert!(!same_text("true", "trUe"));
    assert!(same_text("", ""));
}

#[test]
fn numbers_in_decimal() {
    assert_eq!(decimal_string(0), "0");
    assert_eq!(decimal_string(7), "7");
    assert_eq!(decimal_string(10), "10");
    assert_eq!(decimal_string(1_234_567_890), "1234567890");
    assert_eq!(decimal_string(u64::MAX), "18446744073709551615");
    let mut text = String::from("n=");
    append_decimal(&mut text, 42);
    assert_eq!(text, "n=42");
    let mut padded = String::new();
    append_decimal_padded(&mut padded, 7, 3);
    assert_eq!(padded, "007");
    let mut wide = String::new();
    append_decimal_padded(&mut wide, 12345, 2);
    assert_eq!(wide, "12345");
}

#[test]
fn fixed_point_numbers() {
    let mut text = String::new();
    append_fixed_point(&mut text, 1234, 2);
    assert_eq!(text, "12.34");
    let mut small = String::new();
    append_fixed_point(&mut small, 5, 2);
    assert_eq!(small, "0.05");
    let mut four = String::new();
    append_fixed_point(&mut four, 10_001, 4);
    assert_eq!(four, "1.0001");
    let mut negative = String::new();
    append_signed_fixed_point(&mut negative, -1050, 2);
    assert_eq!(negative, "-10.50");
    let mut lowest = String::new();
    append_signed_fixed_point(&mut lowest, i64::MIN, 1);
    assert_eq!(lowest, "-922337203685477580.8");
    assert_eq!(percent_one_place_string(7_550), "75.5");
    assert_eq!(percent_one_place_string(7_555), "75.6");
    assert_eq!(percent_one_place_string(7_554), "75.5");
    assert_eq!(percent_one_place_string(0), "0.0");
    assert_eq!(percent_one_place_string(u32::MAX), "42949673.0");
    assert_eq!(percent_two_places_string(7_550), "75.50");
    assert_eq!(percent_two_places_string(5), "0.05");
    assert_eq!(signed_two_places_string(-5), "-0.05");
    assert_eq!(signed_two_places_string(250), "2.50");
    assert_eq!(fixed_point_string(1, 19), "0.0000000000000000001");
    assert_eq!(fixed_point_string(u64::MAX, 19), "1.8446744073709551615");
    assert_eq!(fixed_point_string(12_345, 3), "12.345");
    assert_eq!(hundredth(149), 1);
    assert_eq!(hundredth(150), 2);
    assert_eq!(hundredth(0), 0);
    assert_eq!(hundredth(u64::MAX), u64::MAX / 100);
    assert_eq!(hundredth(u64::MAX - 65), u64::MAX / 100);
}

#[test]
fn joining_and_naming() {
    assert_eq!(join(&["a", "", "bc"]), "abc");
    assert_eq!(join(&[]), "");
    assert_eq!(replace_spaces("a b  c"), "a_b__c");
    assert_eq!(replace_spaces(""), "");
    assert_eq!(identifier_of("Risk Check"), "risk_check");
    assert_eq!(identifier_of("VaR 95"), "var_95");
    assert_eq!(identifier_of("ÄB c"), "äb_c");
    assert_eq!(strings(&["a", "b", "c"]), vec!["a", "b", "c"]);
    assert!(strings(&[]).is_empty());
    assert_eq!(single("x".to_string()), vec!["x"]);
    assert_eq!(pair("x", "y"), vec!["x", "y"]);
    assert_eq!(triple("x", "y", "z"), vec!["x", "y", "z"]);
    let list = vec!["p".to_string(), "q".to_string()];
    assert_eq!(copy_strings(&list), list);
}
