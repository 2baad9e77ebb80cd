use openaltid::config::{read_guild_config, GuildVerificationConfig, StoredSettings};
use openaltid::error::ConfigError;

fn stored(age: u64, role: &str, channel: &str) -> StoredSettings {
    StoredSettings {
        verification_age: age,
        verification_role_id: role.to_string(),
        verification_logs_channel_id: channel.to_string(),
    }
}

fn read(age: u64, role: &str, channel: &str) -> Result<GuildVerificationConfig, ConfigError> {
    read_guild_config(Some(&stored(age, role, channel)))
}

#[test]
fn settings_are_read_from_the_stored_record() {
    assert_eq!(
        read(30, "123", "456"),
        Ok(GuildVerificationConfig {
            age_threshold_days: 30,
            verification_role_id: 123,
            log_channel_id: 456,
        })
    );
}

#[test]
fn community_without_a_record_is_a_config_error() {
    assert_eq!(read_guild_config(None), Err(ConfigError::Missing));
}

#[test]
fn role_that_is_no_identifier_is_a_config_error() {
    assert_eq!(read(30, "", "456"), Err(ConfigError::VerificationRole));
    assert_eq!(read(30, "R123", "456"), Err(ConfigError::VerificationRole));
    assert_eq!(read(30, "R123", "C456"), Err(ConfigError::VerificationRole));
}

#[test]
fn channel_that_is_no_identifier_is_a_config_error() {
    assert_eq!(read(30, "123", "C456"), Err(ConfigError::LogChannel));
    assert_eq!(read(30, "123", "18446744073709551616"), Err(ConfigError::LogChannel));
}

#[test]
fn fresh_record_with_zeros_is_read() {
    assert_eq!(
        read(0, "0", "0"),
        Ok(GuildVerificationConfig {
            age_threshold_days: 0,
            verification_role_id: 0,
            log_channel_id: 0,
        })
    );
}

#[test]
fn every_config_error_has_words() {
    assert_eq!(ConfigError::Missing.message(), "This server has no settings in the database.");
    for e in [ConfigError::AgeThreshold, ConfigError::VerificationRole, ConfigError::LogChannel] {
        assert!(e.message().starts_with("This server's database is not properly configured"));
    }
}
