use spl_staking::rewards::{calculate_rewards, SECONDS_IN_YEAR};

#[test]
fn one_year_at_ten_percent_pays_ten_percent() {
    assert_eq!(SECONDS_IN_YEAR, 31_536_000);
    assert_eq!(calculate_rewards(1_000_000, 10, 31_536_000), 100_000);
}

#[test]
fn half_a_year_pays_half() {
    assert_eq!(calculate_rewards(1_000_000, 10, 15_768_000), 50_000);
}

#[test]
fn zero_duration_pays_nothing() {
    assert_eq!(calculate_rewards(1_000_000, 10, 0), 0);
}

#[test]
fn negative_duration_pays_nothing() {
    assert_eq!(calculate_rewards(1_000_000, 10, -5), 0);
}

#[test]
fn zero_principal_pays_nothing() {
    assert_eq!(calculate_rewards(0, 10, 31_536_000), 0);
}

#[test]
fn zero_rate_pays_nothing() {
    assert_eq!(calculate_rewards(1_000_000, 0, 31_536_000), 0);
}

#[test]
fn reward_truncates_downwards() {
    // 3 tokens at 33% for a year accrue 0.99 of a token: floored to 0.
    assert_eq!(calculate_rewards(3, 33, 31_536_000), 0);
    // One more token pushes the product over a whole token.
    assert_eq!(calculate_rewards(4, 33, 31_536_000), 1);
}

#[test]
fn reward_grows_with_time() {
    let early = calculate_rewards(1_000_000, 10, 1_000_000);
    let late = calculate_rewards(1_000_000, 10, 2_000_000);
    assert!(early <= late);
}

#[test]
fn large_principal_needs_wide_intermediates() {
    // 2^63 tokens at 1% for one second: the 128-bit product is far beyond
    // 64 bits, yet the reward itself is small.
    let principal: u64 = 1 << 63;
    let expected: u64 =
        ((principal as u128) / 31_536_000u128 / 100u128) as u64;
    assert_eq!(calculate_rewards(principal, 1, 1), expected);
}
