use rticonnector::engine::{c_index, c_timeout, count};
use rticonnector::options::{flag, padded, MAX_OPTIONS};
use rticonnector::text::{c_text, segment};
use rticonnector::RTIOptions;

#[test]
fn options_hold_their_flags_as_c_integers() {
    let options = RTIOptions::new(true, false);
    assert_eq!(options.enable_on_data_event, 1);
    assert_eq!(options.one_based_sequence_indexing, 0);
    let options = RTIOptions::new(false, true);
    assert_eq!(options.enable_on_data_event, 0);
    assert_eq!(options.one_based_sequence_indexing, 1);
}

#[test]
fn default_options_set_both_flags() {
    let options = RTIOptions::default();
    assert_eq!(options, RTIOptions::new(true, true));
    assert_eq!(options.enable_on_data_event, 1);
    assert_eq!(options.one_based_sequence_indexing, 1);
}

#[test]
fn flags_are_one_and_zero() {
    assert_eq!(flag(true), 1);
    assert_eq!(flag(false), 0);
}

#[test]
fn engine_takes_up_to_128_option_records() {
    assert_eq!(MAX_OPTIONS, 128);
}

#[test]
fn text_without_zero_crosses() {
    assert!(c_text(""));
    assert!(c_text("MySquareReader"));
    assert!(c_text("gr\u{fc}n \u{1f600}"));
}

#[test]
fn text_with_zero_does_not_cross() {
    assert!(!c_text("\0"));
    assert!(!c_text("\0front"));
    assert!(!c_text("mid\0dle"));
    assert!(!c_text("back\0"));
    assert!(!c_text("\u{e9}t\u{e9}\0"));
}

#[test]
fn segment_is_what_stands_behind_the_last_separator() {
    assert_eq!(segment("shapes::ShapeType"), "ShapeType");
    assert_eq!(segment("a::b::c"), "c");
    assert_eq!(segment("ShapeType"), "ShapeType");
    assert_eq!(segment("a:b"), "a:b");
    assert_eq!(segment("a:::b"), "b");
    assert_eq!(segment("a::::b"), "b");
    assert_eq!(segment("::"), "");
    assert_eq!(segment(":"), ":");
    assert_eq!(segment("a::b:"), "b:");
}

#[test]
fn timeout_counts_milliseconds() {
    assert_eq!(c_timeout(0), 0);
    assert_eq!(c_timeout(1), 1);
    assert_eq!(c_timeout(2_147_483_647), i32::MAX);
}

#[test]
fn timeout_beyond_a_c_integer_is_the_longest_wait() {
    assert_eq!(c_timeout(2_147_483_648), i32::MAX);
    assert_eq!(c_timeout(4_294_967_296 + 5), i32::MAX);
    assert_eq!(c_timeout(u128::MAX), i32::MAX);
}

#[test]
fn index_is_one_that_a_c_integer_holds() {
    assert_eq!(c_index(0), Some(0));
    assert_eq!(c_index(7), Some(7));
    assert_eq!(c_index(2_147_483_647), Some(i32::MAX));
    assert_eq!(c_index(2_147_483_648), None);
    assert_eq!(c_index(usize::MAX), None);
}

#[test]
fn engine_is_handed_a_full_array_of_option_records() {
    let none = padded(&[]);
    assert_eq!(none.len(), 128);
    assert!(none.iter().all(|record| *record == RTIOptions::default()));
    let given = [RTIOptions::new(false, false), RTIOptions::new(true, false)];
    let some = padded(&given);
    assert_eq!(some.len(), 128);
    assert_eq!(&some[..2], &given);
    assert!(some[2..].iter().all(|record| *record == RTIOptions::default()));
    let full = vec![RTIOptions::new(false, true); 128];
    assert_eq!(padded(&full), full);
    let more = vec![RTIOptions::new(false, true); 130];
    assert_eq!(padded(&more), full);
}

#[test]
fn count_is_the_whole_number_of_the_double() {
    assert_eq!(count(0.0f64.to_bits()), Some(0));
    assert_eq!(count((-0.0f64).to_bits()), Some(0));
    assert_eq!(count(1.0f64.to_bits()), Some(1));
    assert_eq!(count(2.0f64.to_bits()), Some(2));
    assert_eq!(count(3.0f64.to_bits()), Some(3));
    assert_eq!(count(128.0f64.to_bits()), Some(128));
    assert_eq!(count(1e6f64.to_bits()), Some(1_000_000));
    assert_eq!(count(4_294_967_296.0f64.to_bits()), Some(4_294_967_296));
    assert_eq!(count(9_007_199_254_740_992.0f64.to_bits()), Some(9_007_199_254_740_992));
    assert_eq!(count(9_007_199_254_740_994.0f64.to_bits()), Some(9_007_199_254_740_994));
    assert_eq!(count(9_223_372_036_854_775_808.0f64.to_bits()), Some(9_223_372_036_854_775_808));
    assert_eq!(count(18_446_744_073_709_549_568.0f64.to_bits()), Some(18_446_744_073_709_549_568));
    for whole in 0..2000usize {
        assert_eq!(count((whole as f64).to_bits()), Some(whole));
    }
}

#[test]
fn double_that_is_no_whole_number_is_no_count() {
    assert_eq!(count(0.5f64.to_bits()), None);
    assert_eq!(count(1.5f64.to_bits()), None);
    assert_eq!(count(2.000_000_1f64.to_bits()), None);
    assert_eq!(count(4_503_599_627_370_495.5f64.to_bits()), None);
    assert_eq!(count(f64::MIN_POSITIVE.to_bits()), None);
    assert_eq!(count(5e-324f64.to_bits()), None);
    assert_eq!(count(f64::EPSILON.to_bits()), None);
}

#[test]
fn double_that_is_negative_or_beyond_is_no_count() {
    assert_eq!(count((-1.0f64).to_bits()), None);
    assert_eq!(count((-2_000.0f64).to_bits()), None);
    assert_eq!(count(f64::NAN.to_bits()), None);
    assert_eq!(count(f64::INFINITY.to_bits()), None);
    assert_eq!(count(f64::NEG_INFINITY.to_bits()), None);
    assert_eq!(count(18_446_744_073_709_551_616.0f64.to_bits()), None);
    assert_eq!(count(f64::MAX.to_bits()), None);
}
