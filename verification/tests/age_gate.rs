use openaltid::age_gate::{age_gate, AgeDecision, MAX_THRESHOLD_DAYS, SECONDS_PER_DAY};
use openaltid::error::ConfigError;

const DAY: i64 = SECONDS_PER_DAY as i64;

#[test]
fn account_of_exactly_the_threshold_is_let_in() {
    let now = 1_700_000_000;
    assert_eq!(age_gate(now - 30 * DAY, now, 30), Ok(AgeDecision::AutoApprove));
}

#[test]
fn account_one_day_younger_is_challenged() {
    let now = 1_700_000_000;
    assert_eq!(age_gate(now - 29 * DAY, now, 30), Ok(AgeDecision::NeedsVerification));
}

#[test]
fn account_one_day_older_is_let_in() {
    let now = 1_700_000_000;
    assert_eq!(age_gate(now - 31 * DAY, now, 30), Ok(AgeDecision::AutoApprove));
}

#[test]
fn account_one_second_short_is_challenged() {
    let now = 1_700_000_000;
    assert_eq!(age_gate(now - 30 * DAY + 1, now, 30), Ok(AgeDecision::NeedsVerification));
}

#[test]
fn threshold_of_zero_days_lets_every_past_account_in() {
    assert_eq!(age_gate(100, 100, 0), Ok(AgeDecision::AutoApprove));
    assert_eq!(age_gate(101, 100, 0), Ok(AgeDecision::NeedsVerification));
}

#[test]
fn five_day_old_account_is_challenged_at_thirty_days() {
    let now = 1_650_000_000;
    assert_eq!(age_gate(now - 5 * DAY, now, 30), Ok(AgeDecision::NeedsVerification));
}

#[test]
fn forty_day_old_account_is_let_in_at_thirty_days() {
    let now = 1_650_000_000;
    assert_eq!(age_gate(now - 40 * DAY, now, 30), Ok(AgeDecision::AutoApprove));
}

#[test]
fn threshold_beyond_any_count_of_days_is_a_config_error() {
    assert_eq!(age_gate(0, 0, MAX_THRESHOLD_DAYS + 1), Err(ConfigError::AgeThreshold));
    assert_eq!(age_gate(0, 0, u64::MAX), Err(ConfigError::AgeThreshold));
}

#[test]
fn largest_threshold_is_decided_without_overflow() {
    assert_eq!(
        age_gate(i64::MIN, i64::MAX, MAX_THRESHOLD_DAYS),
        Ok(AgeDecision::NeedsVerification)
    );
    assert_eq!(age_gate(i64::MIN, i64::MAX, 1), Ok(AgeDecision::AutoApprove));
    assert_eq!(age_gate(i64::MAX, i64::MIN, 0), Ok(AgeDecision::NeedsVerification));
}

#[test]
fn config_error_has_words_for_the_user() {
    assert_eq!(
        ConfigError::AgeThreshold.message(),
        "This server's database is not properly configured, failed to convert age."
    );
}
