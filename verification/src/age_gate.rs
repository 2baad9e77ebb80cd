//! The age gate: an account that is old enough needs no challenge.

use vstd::prelude::*;
use crate::error::ConfigError;

verus! {

/// The two ways out of the age check.
#[derive(Clone, Copy, Debug, PartialEq, Eq, Structural)]
pub enum AgeDecision {
    /// The account is at least as old as the community asks: it is let in
    /// without a challenge.
    AutoApprove,
    /// The account is younger: it has to pass verification.
    NeedsVerification,
}

/// The length of a day, in seconds.
pub const SECONDS_PER_DAY: u64 = 86400;

/// The longest threshold that is still a count of days.
pub const MAX_THRESHOLD_DAYS: u64 = 0x7fff_ffff_ffff_ffff;

/// The age of an account at `now`, in seconds. Both are Unix times.
pub open spec fn account_age(created_at: int, now: int) -> int {
    now - created_at
}

/// Whether an account created at `created_at` is at least `threshold_days`
/// days old at `now`. An account that is exactly that old is old enough.
pub open spec fn old_enough(created_at: int, now: int, threshold_days: int) -> bool {
    account_age(created_at, now) >= threshold_days * 86400
}

/// What the age check decides.
pub open spec fn age_decision(created_at: i64, now: i64, threshold_days: u64) -> Result<
    AgeDecision,
    ConfigError,
> {
    if threshold_days > MAX_THRESHOLD_DAYS {
        Err(ConfigError::AgeThreshold)
    } else if old_enough(created_at as int, now as int, threshold_days as int) {
        Ok(AgeDecision::AutoApprove)
    } else {
        Ok(AgeDecision::NeedsVerification)
    }
}

/// Decides whether the account created at `created_at` must be challenged
/// at `now`, in a community that lets accounts of `threshold_days` days and
/// more pass. Both times are Unix times in seconds.
///
/// This only decides: whoever asks grants the role or opens a ticket.
pub fn age_gate(created_at: i64, now: i64, threshold_days: u64) -> (decision: Result<
    AgeDecision,
    ConfigError,
>)
    ensures
        decision == age_decision(created_at, now, threshold_days),
{
    if threshold_days > MAX_THRESHOLD_DAYS {
        return Err(ConfigError::AgeThreshold);
    }
    let age: i128 = now as i128 - created_at as i128;
    let needed: i128 = threshold_days as i128 * 86400;
    if age >= needed {
        Ok(AgeDecision::AutoApprove)
    } else {
        Ok(AgeDecision::NeedsVerification)
    }
}

/// At the boundary: with a threshold of `threshold_days` days, an account
/// that is exactly that many days old is let in, one that is a day younger
/// is not, and one that is a day older is.
pub proof fn lemma_age_gate_boundary(created_at: i64, now: i64, threshold_days: u64)
    requires
        threshold_days <= MAX_THRESHOLD_DAYS,
    ensures
        account_age(created_at as int, now as int) == threshold_days * 86400 ==> age_decision(
            created_at,
            now,
            threshold_days,
        ) == Ok::<AgeDecision, ConfigError>(AgeDecision::AutoApprove),
        account_age(created_at as int, now as int) == (threshold_days - 1) * 86400
            ==> age_decision(created_at, now, threshold_days) == Ok::<AgeDecision, ConfigError>(
            AgeDecision::NeedsVerification,
        ),
        account_age(created_at as int, now as int) == (threshold_days + 1) * 86400
            ==> age_decision(created_at, now, threshold_days) == Ok::<AgeDecision, ConfigError>(
            AgeDecision::AutoApprove,
        ),
{
}

/// Age only opens the way: whoever is let in at
/// some age is let in at every greater one.
pub proof fn lemma_age_gate_monotonic(
    created_at: i64,
    earlier: i64,
    later: i64,
    threshold_days: u64,
)
    requires
        earlier <= later,
        age_decision(created_at, earlier, threshold_days) == Ok::<AgeDecision, ConfigError>(
            AgeDecision::AutoApprove,
        ),
    ensures
        age_decision(created_at, later, threshold_days) == Ok::<AgeDecision, ConfigError>(
            AgeDecision::AutoApprove,
        ),
{
}

} // verus!
