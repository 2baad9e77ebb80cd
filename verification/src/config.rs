//! The settings of a community that verification reads.

use vstd::prelude::*;
use crate::decimal::{decimal_u64, parse_u64};
use crate::error::ConfigError;

verus! {

/// What a community has settled for verification. Administrators change it
/// elsewhere; here it is only read.
#[derive(Clone, Copy, Debug, PartialEq, Eq, Structural)]
pub struct GuildVerificationConfig {
    /// Accounts of this many days and more pass without a challenge.
    pub age_threshold_days: u64,
    /// The role that a verified member is given.
    pub verification_role_id: u64,
    /// The channel that audit entries are posted to.
    pub log_channel_id: u64,
}

/// The record of a community as the settings store keeps it: the two
/// identifiers are text there.
#[derive(Clone, Debug, PartialEq, Eq)]
pub struct StoredSettings {
    pub verification_age: u64,
    pub verification_role_id: String,
    pub verification_logs_channel_id: String,
}

/// A `StoredSettings` as a mathematical value.
pub struct StoredSettingsView {
    pub verification_age: u64,
    pub verification_role_id: Seq<char>,
    pub verification_logs_channel_id: Seq<char>,
}

impl View for StoredSettings {
    type V = StoredSettingsView;

    open spec fn view(&self) -> StoredSettingsView {
        StoredSettingsView {
            verification_age: self.verification_age,
            verification_role_id: self.verification_role_id@,
            verification_logs_channel_id: self.verification_logs_channel_id@,
        }
    }
}

/// The settings that a stored record denotes, `None` standing for a
/// community that has no record. Both identifiers must denote one; the role
/// is looked at first.
pub open spec fn guild_config_of(stored: Option<StoredSettingsView>) -> Result<
    GuildVerificationConfig,
    ConfigError,
> {
    match stored {
        None => Err(ConfigError::Missing),
        Some(record) => match decimal_u64(record.verification_role_id) {
            None => Err(ConfigError::VerificationRole),
            Some(role) => match decimal_u64(record.verification_logs_channel_id) {
                None => Err(ConfigError::LogChannel),
                Some(channel) => Ok(
                    GuildVerificationConfig {
                        age_threshold_days: record.verification_age,
                        verification_role_id: role,
                        log_channel_id: channel,
                    },
                ),
            },
        },
    }
}

/// The record behind `stored`, as a mathematical value.
pub open spec fn stored_view(stored: Option<&StoredSettings>) -> Option<StoredSettingsView> {
    match stored {
        Some(record) => Some(record@),
        None => None,
    }
}

/// Reads the settings of a community from its stored record, or from the
/// lack of one.
pub fn read_guild_config(stored: Option<&StoredSettings>) -> (config: Result<
    GuildVerificationConfig,
    ConfigError,
>)
    ensures
        config == guild_config_of(stored_view(stored)),
{
    let record = match stored {
        Some(record) => record,
        None => {
            return Err(ConfigError::Missing);
        },
    };
    let role = match parse_u64(record.verification_role_id.as_str()) {
        Some(role) => role,
        None => {
            return Err(ConfigError::VerificationRole);
        },
    };
    let channel = match parse_u64(record.verification_logs_channel_id.as_str()) {
        Some(channel) => channel,
        None => {
            return Err(ConfigError::LogChannel);
        },
    };
    Ok(
        GuildVerificationConfig {
            age_threshold_days: record.verification_age,
            verification_role_id: role,
            log_channel_id: channel,
        },
    )
}

} // verus!
