//! What can go wrong, by kind.

use vstd::prelude::*;

verus! {

/// Settings of a community that cannot be worked with. The command that met
/// them fails, and nothing is done.
#[derive(Clone, Copy, Debug, PartialEq, Eq, Structural)]
pub enum ConfigError {
    /// The community has no settings on record.
    Missing,
    /// The age threshold is beyond any number of days that can be counted.
    AgeThreshold,
    /// The verification role is not written as an identifier.
    VerificationRole,
    /// The log channel is not written as an identifier.
    LogChannel,
}

/// The key-value store did not answer. The operation is given up; the next
/// command or the next pass tries again.
#[derive(Clone, Copy, Debug, PartialEq, Eq, Structural)]
pub struct TransientStoreError;

/// A look-up, a role grant or a message that did not go through. It is
/// worth a line in the log and, where a role could not be granted, an audit
/// entry of its own; it does not keep a marker from being consumed.
#[derive(Clone, Debug, PartialEq, Eq)]
pub struct ExternalActionError {
    /// The failure in the words of whoever was asked.
    pub message: String,
}

impl View for ExternalActionError {
    type V = Seq<char>;

    open spec fn view(&self) -> Seq<char> {
        self.message@
    }
}

/// A completion marker whose key or value does not have the agreed shape.
#[derive(Clone, Copy, Debug, PartialEq, Eq, Structural)]
pub enum MalformedMarkerError {
    /// The key is not `complete:<user>:<guild>`, with or without a suffix.
    Key,
    /// The value lacks a field that its tag requires, or a score is no number.
    Value,
}

/// What a user is told when their community's settings cannot be worked
/// with.
pub open spec fn config_error_text(e: ConfigError) -> Seq<char> {
    match e {
        ConfigError::Missing => "This server has no settings in the database."@,
        ConfigError::AgeThreshold =>
            "This server's database is not properly configured, failed to convert age."@,
        ConfigError::VerificationRole =>
            "This server's database is not properly configured, failed to read the verification role."@,
        ConfigError::LogChannel =>
            "This server's database is not properly configured, failed to read the log channel."@,
    }
}

/// What a user is told when the store did not answer.
pub open spec fn store_error_text() -> Seq<char> {
    "The verification service is unavailable at the moment, please try again later."@
}

/// What a user is told when the log channel of their community cannot be
/// found.
pub open spec fn directory_error_text() -> Seq<char> {
    "Something went wrong during verification, please contact the server staff."@
}

/// What a user is told when they are old enough but the role could not be
/// given to them.
pub open spec fn grant_error_text() -> Seq<char> {
    "You skipped verification, but the role could not be added to you. The server staff will need to add it manually."@
}

/// The words for a user whose community's log channel cannot be found.
pub fn directory_error_message() -> (text: String)
    ensures
        text@ == directory_error_text(),
{
    String::from_str("Something went wrong during verification, please contact the server staff.")
}

/// The words for a user who is old enough but could not be given the role.
pub fn grant_error_message() -> (text: String)
    ensures
        text@ == grant_error_text(),
{
    String::from_str(
        "You skipped verification, but the role could not be added to you. The server staff will need to add it manually.",
    )
}

impl ConfigError {
    /// The words for the user who ran the command.
    pub fn message(&self) -> (text: String)
        ensures
            text@ == config_error_text(*self),
    {
        match self {
            ConfigError::Missing => String::from_str("This server has no settings in the database."),
            ConfigError::AgeThreshold => String::from_str(
                "This server's database is not properly configured, failed to convert age.",
            ),
            ConfigError::VerificationRole => String::from_str(
                "This server's database is not properly configured, failed to read the verification role.",
            ),
            ConfigError::LogChannel => String::from_str(
                "This server's database is not properly configured, failed to read the log channel.",
            ),
        }
    }
}

impl TransientStoreError {
    /// The words for the user who ran the command.
    pub fn message(&self) -> (text: String)
        ensures
            text@ == store_error_text(),
    {
        String::from_str(
            "The verification service is unavailable at the moment, please try again later.",
        )
    }
}

} // verus!
