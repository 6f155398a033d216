use json_scan::harness::checksum;
use json_scan::harness::run_trials;
use json_scan::scanner::scan;
use json_scan::scanner::Counts;

#[test]
fn zero_trials_yield_zero_totals() {
    let totals = run_trials(b"1,2,3", 0);
    assert_eq!(
        totals,
        Counts { token_count: 0, number_count: 0, number_sum: 0, string_byte_count: 0 }
    );
}

#[test]
fn one_trial_equals_one_scan() {
    let input = br#"{"a":[1,-2,"x"],"b":3}"#;
    let totals = run_trials(input, 1);
    assert_eq!(totals, scan(input));
}

#[test]
fn trials_sum_is_single_scan_times_count() {
    let input = b"1,2,3";
    let one = scan(input);
    let totals = run_trials(input, 5);
    assert_eq!(totals.token_count, 5 * one.token_count);
    assert_eq!(totals.number_count, 5 * one.number_count);
    assert_eq!(totals.number_sum, 5 * one.number_sum);
    assert_eq!(totals.string_byte_count, 5 * one.string_byte_count);
}

#[test]
fn checksum_weights_the_four_totals() {
    let totals = Counts { token_count: 2, number_count: 3, number_sum: 6, string_byte_count: 0 };
    assert_eq!(checksum(&totals), 2_003_000_006);
}

#[test]
fn checksum_of_zero_totals_is_zero() {
    let totals = Counts { token_count: 0, number_count: 0, number_sum: 0, string_byte_count: 0 };
    assert_eq!(checksum(&totals), 0);
}

#[test]
fn fixed_document_checksum() {
    let data = r#"{"users":[{"id":1,"name":"alice","score":12},{"id":2,"name":"bob","score":7},{"id":3,"name":"carol","score":42}],"active":true,"count":3,"misc":{"neg":-7,"escape":"a\n\"b\"","unicode":"\u0041","zip":90210},"tags":["a","b","c"]}"#;
    let one = scan(data.as_bytes());
    assert_eq!(checksum(&one), 49_009_090_371);
    let totals = run_trials(data.as_bytes(), 20_000);
    assert_eq!(checksum(&totals), 980_181_807_420_000);
}
