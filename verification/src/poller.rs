//! The result poller: one pass over the completion markers of the store.
//!
//! A pass takes the keys that a scan of the store gave and works through
//! them in order. For each key it asks for the value, reads the marker and
//! then walks the steps that the outcome calls for:
//!
//! * passed: resolve the community and the member, load the settings,
//!   resolve the log channel, grant the role, post the audit entry, remove
//!   the marker;
//! * failed: resolve the member, load the settings, remove the marker,
//!   resolve the log channel, post the audit entry;
//! * errored: resolve the member, load the settings, resolve the log
//!   channel, remove the marker, post the audit entry.
//!
//! Nothing here talks to the outside. Each step is handed out as a
//! `PollAction`; the caller performs it and hands back a `PollEvent`. A
//! marker that cannot be read ends the pass: the keys after it wait for the
//! next one.
//!
//! The removal of the marker is what keeps a later pass from acting on it
//! again. A passed marker is removed last, so that a role is never lost to
//! a marker that is already gone; the price is that a pass which is cut
//! short after the grant and before the removal leaves the marker behind,
//! and the next pass grants and posts once more.

use vstd::prelude::*;
use crate::audit::{AuditEntry, AuditEntryView};
use crate::config::{
    guild_config_of, read_guild_config, GuildVerificationConfig, StoredSettings,
    StoredSettingsView,
};
use crate::error::{ExternalActionError, MalformedMarkerError};
use crate::marker::{
    marker_of, parse_marker, CompletionMarker, CompletionMarkerView, MarkerError, MarkerOutcome,
    MarkerOutcomeView,
};

verus! {

/// The pause between the end of one pass and the start of the next, in
/// seconds. Passes never overlap.
pub const POLL_INTERVAL_SECS: u64 = 5;

/// How the work on one key ended.
#[derive(Clone, Copy, Debug, PartialEq, Eq, Structural)]
pub enum Disposition {
    /// Every step was taken and the marker is removed. A role grant or an
    /// audit entry that failed on the way does not stand against this.
    Completed,
    /// The marker said "failed" and the member is gone: the marker is
    /// removed, and nothing else was done.
    Discarded,
    /// A step failed and the rest was given up. `claimed` says whether the
    /// marker had been removed by then; if not, the next pass finds it
    /// again.
    Abandoned { claimed: bool },
    /// The key had no value that could be fetched, or its value begins
    /// with no known tag. Nothing was done and nothing removed.
    Skipped,
    /// The key or the value is out of shape. The pass ends here.
    Malformed(MalformedMarkerError),
}

/// The steps before the settings of the community are known.
#[derive(Clone, Copy, Debug, PartialEq, Eq, Structural)]
pub enum EarlyStage {
    ResolvingGuild,
    ResolvingMember,
    LoadingConfig,
    /// Removing the "failed" marker of a member who is gone.
    Discarding,
}

/// The steps that need the settings of the community.
#[derive(Clone, Copy, Debug, PartialEq, Eq, Structural)]
pub enum LateStage {
    ResolvingChannel,
    Granting,
    Posting,
    Deleting,
}

/// What the caller is asked to do next.
#[derive(Clone, Debug, PartialEq, Eq)]
pub enum PollAction {
    /// Get the value that the store holds under `key`.
    FetchValue { key: String },
    /// Look the community up in the directory.
    ResolveGuild { guild_id: u64 },
    /// Look the member up in the directory.
    ResolveMember { guild_id: u64, user_id: u64 },
    /// Load the settings of the community.
    LoadConfig { guild_id: u64 },
    /// Look the log channel up in the directory.
    ResolveChannel { channel_id: u64 },
    /// Give the member the role.
    GrantRole { guild_id: u64, user_id: u64, role_id: u64 },
    /// Post the entry to the channel.
    PostAudit { channel_id: u64, entry: AuditEntry },
    /// Remove `key` from the store.
    DeleteMarker { key: String },
    /// Nothing is left to do for this key. Any event moves on.
    Finish { disposition: Disposition },
    /// The pass is over: `aborted` if a marker out of shape ended it.
    EndPass { aborted: bool },
}

/// A `PollAction` as a mathematical value.
pub enum PollActionView {
    FetchValue { key: Seq<char> },
    ResolveGuild { guild_id: u64 },
    ResolveMember { guild_id: u64, user_id: u64 },
    LoadConfig { guild_id: u64 },
    ResolveChannel { channel_id: u64 },
    GrantRole { guild_id: u64, user_id: u64, role_id: u64 },
    PostAudit { channel_id: u64, entry: AuditEntryView },
    DeleteMarker { key: Seq<char> },
    Finish { disposition: Disposition },
    EndPass { aborted: bool },
}

impl View for PollAction {
    type V = PollActionView;

    open spec fn view(&self) -> PollActionView {
        match *self {
            PollAction::FetchValue { key } => PollActionView::FetchValue { key: key@ },
            PollAction::ResolveGuild { guild_id } => PollActionView::ResolveGuild { guild_id },
            PollAction::ResolveMember { guild_id, user_id } => PollActionView::ResolveMember {
                guild_id,
                user_id,
            },
            PollAction::LoadConfig { guild_id } => PollActionView::LoadConfig { guild_id },
            PollAction::ResolveChannel { channel_id } => PollActionView::ResolveChannel {
                channel_id,
            },
            PollAction::GrantRole { guild_id, user_id, role_id } => PollActionView::GrantRole {
                guild_id,
                user_id,
                role_id,
            },
            PollAction::PostAudit { channel_id, entry } => PollActionView::PostAudit {
                channel_id,
                entry: entry@,
            },
            PollAction::DeleteMarker { key } => PollActionView::DeleteMarker { key: key@ },
            PollAction::Finish { disposition } => PollActionView::Finish { disposition },
            PollAction::EndPass { aborted } => PollActionView::EndPass { aborted },
        }
    }
}

/// What came of the action that was asked for last.
#[derive(Clone, Debug, PartialEq, Eq)]
pub enum PollEvent {
    /// The store holds this value under the key.
    Value(String),
    /// The store holds nothing under the key.
    Absent,
    /// The record of the community in the settings store; `None` where it
    /// has none.
    Settings(Option<StoredSettings>),
    /// The action was carried out.
    Done,
    /// The store did not answer.
    StoreFailed,
    /// The directory, the settings store, the role grant or the log
    /// channel failed.
    ActionFailed(ExternalActionError),
}

/// A `PollEvent` as a mathematical value.
pub enum PollEventView {
    Value(Seq<char>),
    Absent,
    Settings(Option<StoredSettingsView>),
    Done,
    StoreFailed,
    ActionFailed(Seq<char>),
}

impl View for PollEvent {
    type V = PollEventView;

    open spec fn view(&self) -> PollEventView {
        match *self {
            PollEvent::Value(value) => PollEventView::Value(value@),
            PollEvent::Absent => PollEventView::Absent,
            PollEvent::Settings(stored) => PollEventView::Settings(
                match stored {
                    Some(record) => Some(record@),
                    None => None,
                },
            ),
            PollEvent::Done => PollEventView::Done,
            PollEvent::StoreFailed => PollEventView::StoreFailed,
            PollEvent::ActionFailed(error) => PollEventView::ActionFailed(error@),
        }
    }
}

/// How far the work on one key has come.
#[derive(Clone, Debug, PartialEq, Eq)]
pub enum Progress {
    /// The value has been asked for.
    Fetching,
    /// The marker is read; the settings are not loaded yet.
    Known { marker: CompletionMarker, stage: EarlyStage },
    /// The marker is read and the settings are loaded.
    Configured { marker: CompletionMarker, config: GuildVerificationConfig, late_stage: LateStage },
    /// Nothing is left to do.
    Finished { disposition: Disposition },
}

/// A `Progress` as a mathematical value.
pub enum ProgressView {
    Fetching,
    Known { marker: CompletionMarkerView, stage: EarlyStage },
    Configured {
        marker: CompletionMarkerView,
        config: GuildVerificationConfig,
        late_stage: LateStage,
    },
    Finished { disposition: Disposition },
}

impl View for Progress {
    type V = ProgressView;

    open spec fn view(&self) -> ProgressView {
        match *self {
            Progress::Fetching => ProgressView::Fetching,
            Progress::Known { marker, stage } => ProgressView::Known { marker: marker@, stage },
            Progress::Configured { marker, config, late_stage } => ProgressView::Configured {
                marker: marker@,
                config,
                late_stage,
            },
            Progress::Finished { disposition } => ProgressView::Finished { disposition },
        }
    }
}

/// The work on one key of the store.
#[derive(Clone, Debug, PartialEq, Eq)]
pub struct MarkerJob {
    pub key: String,
    pub progress: Progress,
}

/// A `MarkerJob` as a mathematical value.
pub struct MarkerJobView {
    pub key: Seq<char>,
    pub progress: ProgressView,
}

impl View for MarkerJob {
    type V = MarkerJobView;

    open spec fn view(&self) -> MarkerJobView {
        MarkerJobView { key: self.key@, progress: self.progress@ }
    }
}

/// The step that the work on a marker begins with.
pub open spec fn first_stage(outcome: MarkerOutcomeView) -> EarlyStage {
    match outcome {
        MarkerOutcomeView::Passed { .. } => EarlyStage::ResolvingGuild,
        _ => EarlyStage::ResolvingMember,
    }
}

/// The step that follows the loading of the settings.
pub open spec fn stage_after_config(outcome: MarkerOutcomeView) -> LateStage {
    match outcome {
        MarkerOutcomeView::Failed { .. } => LateStage::Deleting,
        _ => LateStage::ResolvingChannel,
    }
}

/// The step that follows the resolving of the log channel.
pub open spec fn stage_after_channel(outcome: MarkerOutcomeView) -> LateStage {
    match outcome {
        MarkerOutcomeView::Passed { .. } => LateStage::Granting,
        MarkerOutcomeView::Failed { .. } => LateStage::Posting,
        MarkerOutcomeView::Errored { .. } => LateStage::Deleting,
    }
}

/// What the log channel is told about a marker. `grant_error` is what the
/// role grant failed with, if it failed.
pub open spec fn audit_for(
    marker: CompletionMarkerView,
    grant_error: Option<Seq<char>>,
) -> AuditEntryView {
    match marker.outcome {
        MarkerOutcomeView::Passed { score, minscore } => match grant_error {
            None => AuditEntryView::VerificationPassed { user_id: marker.user_id, score, minscore },
            Some(error) => AuditEntryView::GrantFailed {
                user_id: marker.user_id,
                score,
                minscore,
                error,
            },
        },
        MarkerOutcomeView::Failed { score, minscore } => AuditEntryView::VerificationFailed {
            user_id: marker.user_id,
            score,
            minscore,
        },
        MarkerOutcomeView::Errored { reason } => AuditEntryView::VerificationErrored {
            user_id: marker.user_id,
            reason,
        },
    }
}

/// The words of a failure; none where the event is no failure.
pub open spec fn failure_text(event: PollEventView) -> Seq<char> {
    match event {
        PollEventView::ActionFailed(message) => message,
        _ => Seq::empty(),
    }
}

/// The work on `key` before anything is known of it.
pub open spec fn job_start(key: Seq<char>) -> MarkerJobView {
    MarkerJobView { key, progress: ProgressView::Fetching }
}

/// The work on `key` ends.
pub open spec fn job_finish(key: Seq<char>, disposition: Disposition) -> (
    MarkerJobView,
    PollActionView,
) {
    (
        MarkerJobView { key, progress: ProgressView::Finished { disposition } },
        PollActionView::Finish { disposition },
    )
}

/// The work on `key` goes on with an early step.
pub open spec fn job_enter_early(
    key: Seq<char>,
    marker: CompletionMarkerView,
    stage: EarlyStage,
) -> (MarkerJobView, PollActionView) {
    (
        MarkerJobView { key, progress: ProgressView::Known { marker, stage } },
        match stage {
            EarlyStage::ResolvingGuild => PollActionView::ResolveGuild {
                guild_id: marker.guild_id,
            },
            EarlyStage::ResolvingMember => PollActionView::ResolveMember {
                guild_id: marker.guild_id,
                user_id: marker.user_id,
            },
            EarlyStage::LoadingConfig => PollActionView::LoadConfig { guild_id: marker.guild_id },
            EarlyStage::Discarding => PollActionView::DeleteMarker { key },
        },
    )
}

/// The work on `key` goes on with a late step.
pub open spec fn job_enter_late(
    key: Seq<char>,
    marker: CompletionMarkerView,
    config: GuildVerificationConfig,
    stage: LateStage,
    grant_error: Option<Seq<char>>,
) -> (MarkerJobView, PollActionView) {
    (
        MarkerJobView {
            key,
            progress: ProgressView::Configured { marker, config, late_stage: stage },
        },
        match stage {
            LateStage::ResolvingChannel => PollActionView::ResolveChannel {
                channel_id: config.log_channel_id,
            },
            LateStage::Granting => PollActionView::GrantRole {
                guild_id: marker.guild_id,
                user_id: marker.user_id,
                role_id: config.verification_role_id,
            },
            LateStage::Posting => PollActionView::PostAudit {
                channel_id: config.log_channel_id,
                entry: audit_for(marker, grant_error),
            },
            LateStage::Deleting => PollActionView::DeleteMarker { key },
        },
    )
}

/// What an early step leads to.
pub open spec fn early_step(
    key: Seq<char>,
    marker: CompletionMarkerView,
    stage: EarlyStage,
    event: PollEventView,
) -> (MarkerJobView, PollActionView) {
    match stage {
        EarlyStage::ResolvingGuild => if event is Done {
            job_enter_early(key, marker, EarlyStage::ResolvingMember)
        } else {
            job_finish(key, Disposition::Abandoned { claimed: false })
        },
        EarlyStage::ResolvingMember => if event is Done {
            job_enter_early(key, marker, EarlyStage::LoadingConfig)
        } else if marker.outcome is Failed {
            job_enter_early(key, marker, EarlyStage::Discarding)
        } else {
            job_finish(key, Disposition::Abandoned { claimed: false })
        },
        EarlyStage::LoadingConfig => match event {
            PollEventView::Settings(stored) => match guild_config_of(stored) {
                Ok(config) => job_enter_late(
                    key,
                    marker,
                    config,
                    stage_after_config(marker.outcome),
                    None,
                ),
                Err(_) => job_finish(key, Disposition::Abandoned { claimed: false }),
            },
            _ => job_finish(key, Disposition::Abandoned { claimed: false }),
        },
        EarlyStage::Discarding => if event is Done {
            job_finish(key, Disposition::Discarded)
        } else {
            job_finish(key, Disposition::Abandoned { claimed: false })
        },
    }
}

/// What a late step leads to.
pub open spec fn late_step(
    key: Seq<char>,
    marker: CompletionMarkerView,
    config: GuildVerificationConfig,
    stage: LateStage,
    event: PollEventView,
) -> (MarkerJobView, PollActionView) {
    match stage {
        LateStage::ResolvingChannel => if event is Done {
            job_enter_late(key, marker, config, stage_after_channel(marker.outcome), None)
        } else {
            job_finish(key, Disposition::Abandoned { claimed: marker.outcome is Failed })
        },
        LateStage::Granting => job_enter_late(
            key,
            marker,
            config,
            LateStage::Posting,
            if event is Done {
                None
            } else {
                Some(failure_text(event))
            },
        ),
        LateStage::Posting => if marker.outcome is Passed {
            job_enter_late(key, marker, config, LateStage::Deleting, None)
        } else {
            job_finish(key, Disposition::Completed)
        },
        LateStage::Deleting => if event is Done {
            match marker.outcome {
                MarkerOutcomeView::Passed { .. } => job_finish(key, Disposition::Completed),
                MarkerOutcomeView::Failed { .. } => job_enter_late(
                    key,
                    marker,
                    config,
                    LateStage::ResolvingChannel,
                    None,
                ),
                MarkerOutcomeView::Errored { .. } => job_enter_late(
                    key,
                    marker,
                    config,
                    LateStage::Posting,
                    None,
                ),
            }
        } else {
            job_finish(key, Disposition::Abandoned { claimed: false })
        },
    }
}

/// One step of the work on a key: where it stands after `event`, and what
/// is asked for next.
///
/// An event that does not answer what was asked for counts as a failure of
/// it, and so does a community without settings or with settings that
/// cannot be read. A role grant that failed still leads to the audit entry,
/// which then tells of the failure; an audit entry that could not be posted
/// holds nothing up. Every other failure ends the work on the key, but for
/// one: where the member of a "failed" marker cannot be resolved, the
/// marker is removed first.
pub open spec fn job_step(job: MarkerJobView, event: PollEventView) -> (
    MarkerJobView,
    PollActionView,
) {
    match job.progress {
        ProgressView::Fetching => match event {
            PollEventView::Value(value) => match marker_of(job.key, value) {
                Ok(marker) => job_enter_early(job.key, marker, first_stage(marker.outcome)),
                Err(MarkerError::UnsupportedTag) => job_finish(job.key, Disposition::Skipped),
                Err(MarkerError::Malformed(e)) => job_finish(job.key, Disposition::Malformed(e)),
            },
            _ => job_finish(job.key, Disposition::Skipped),
        },
        ProgressView::Known { marker, stage } => early_step(job.key, marker, stage, event),
        ProgressView::Configured { marker, config, late_stage } => late_step(
            job.key,
            marker,
            config,
            late_stage,
            event,
        ),
        ProgressView::Finished { disposition } => (job, PollActionView::Finish { disposition }),
    }
}

fn finish(key: String, disposition: Disposition) -> (next: (MarkerJob, PollAction))
    ensures
        (next.0@, next.1@) == job_finish(key@, disposition),
{
    (
        MarkerJob { key, progress: Progress::Finished { disposition } },
        PollAction::Finish { disposition },
    )
}

fn enter_early(key: String, marker: CompletionMarker, stage: EarlyStage) -> (next: (
    MarkerJob,
    PollAction,
))
    ensures
        (next.0@, next.1@) == job_enter_early(key@, marker@, stage),
{
    let action = match stage {
        EarlyStage::ResolvingGuild => PollAction::ResolveGuild { guild_id: marker.guild_id },
        EarlyStage::ResolvingMember => PollAction::ResolveMember {
            guild_id: marker.guild_id,
            user_id: marker.user_id,
        },
        EarlyStage::LoadingConfig => PollAction::LoadConfig { guild_id: marker.guild_id },
        EarlyStage::Discarding => PollAction::DeleteMarker { key: key.clone() },
    };
    (MarkerJob { key, progress: Progress::Known { marker, stage } }, action)
}

/// The audit entry for a marker.
fn audit_entry(marker: &CompletionMarker, grant_error: Option<String>) -> (entry: AuditEntry)
    ensures
        entry@ == audit_for(
            marker@,
            match grant_error {
                Some(error) => Some(error@),
                None => None,
            },
        ),
{
    match &marker.outcome {
        MarkerOutcome::Passed { score, minscore } => match grant_error {
            None => AuditEntry::VerificationPassed {
                user_id: marker.user_id,
                score: *score,
                minscore: *minscore,
            },
            Some(error) => AuditEntry::GrantFailed {
                user_id: marker.user_id,
                score: *score,
                minscore: *minscore,
                error,
            },
        },
        MarkerOutcome::Failed { score, minscore } => AuditEntry::VerificationFailed {
            user_id: marker.user_id,
            score: *score,
            minscore: *minscore,
        },
        MarkerOutcome::Errored { reason } => AuditEntry::VerificationErrored {
            user_id: marker.user_id,
            reason: reason.clone(),
        },
    }
}

fn enter_late(
    key: String,
    marker: CompletionMarker,
    config: GuildVerificationConfig,
    stage: LateStage,
    grant_error: Option<String>,
) -> (next: (MarkerJob, PollAction))
    ensures
        (next.0@, next.1@) == job_enter_late(
            key@,
            marker@,
            config,
            stage,
            match grant_error {
                Some(error) => Some(error@),
                None => None,
            },
        ),
{
    let action = match stage {
        LateStage::ResolvingChannel => PollAction::ResolveChannel {
            channel_id: config.log_channel_id,
        },
        LateStage::Granting => PollAction::GrantRole {
            guild_id: marker.guild_id,
            user_id: marker.user_id,
            role_id: config.verification_role_id,
        },
        LateStage::Posting => PollAction::PostAudit {
            channel_id: config.log_channel_id,
            entry: audit_entry(&marker, grant_error),
        },
        LateStage::Deleting => PollAction::DeleteMarker { key: key.clone() },
    };
    (
        MarkerJob { key, progress: Progress::Configured { marker, config, late_stage: stage } },
        action,
    )
}

fn is_done(event: &PollEvent) -> (done: bool)
    ensures
        done == (event@ is Done),
{
    match event {
        PollEvent::Done => true,
        _ => false,
    }
}

fn advance_early(
    key: String,
    marker: CompletionMarker,
    stage: EarlyStage,
    event: PollEvent,
) -> (next: (MarkerJob, PollAction))
    ensures
        (next.0@, next.1@) == early_step(key@, marker@, stage, event@),
{
    match stage {
        EarlyStage::ResolvingGuild => {
            if is_done(&event) {
                enter_early(key, marker, EarlyStage::ResolvingMember)
            } else {
                finish(key, Disposition::Abandoned { claimed: false })
            }
        },
        EarlyStage::ResolvingMember => {
            if is_done(&event) {
                enter_early(key, marker, EarlyStage::LoadingConfig)
            } else {
                let gone_after_failing = match &marker.outcome {
                    MarkerOutcome::Failed { .. } => true,
                    _ => false,
                };
                if gone_after_failing {
                    enter_early(key, marker, EarlyStage::Discarding)
                } else {
                    finish(key, Disposition::Abandoned { claimed: false })
                }
            }
        },
        EarlyStage::LoadingConfig => match event {
            PollEvent::Settings(stored) => match read_guild_config(stored.as_ref()) {
                Ok(config) => {
                    let stage = match &marker.outcome {
                        MarkerOutcome::Failed { .. } => LateStage::Deleting,
                        _ => LateStage::ResolvingChannel,
                    };
                    enter_late(key, marker, config, stage, None)
                },
                Err(_) => finish(key, Disposition::Abandoned { claimed: false }),
            },
            _ => finish(key, Disposition::Abandoned { claimed: false }),
        },
        EarlyStage::Discarding => {
            if is_done(&event) {
                finish(key, Disposition::Discarded)
            } else {
                finish(key, Disposition::Abandoned { claimed: false })
            }
        },
    }
}

fn advance_late(
    key: String,
    marker: CompletionMarker,
    config: GuildVerificationConfig,
    stage: LateStage,
    event: PollEvent,
) -> (next: (MarkerJob, PollAction))
    ensures
        (next.0@, next.1@) == late_step(key@, marker@, config, stage, event@),
{
    match stage {
        LateStage::ResolvingChannel => {
            if is_done(&event) {
                let stage = match &marker.outcome {
                    MarkerOutcome::Passed { .. } => LateStage::Granting,
                    MarkerOutcome::Failed { .. } => LateStage::Posting,
                    MarkerOutcome::Errored { .. } => LateStage::Deleting,
                };
                enter_late(key, marker, config, stage, None)
            } else {
                let claimed = match &marker.outcome {
                    MarkerOutcome::Failed { .. } => true,
                    _ => false,
                };
                finish(key, Disposition::Abandoned { claimed })
            }
        },
        LateStage::Granting => {
            let grant_error = match event {
                PollEvent::Done => None,
                PollEvent::ActionFailed(error) => Some(error.message),
                _ => Some(String::new()),
            };
            enter_late(key, marker, config, LateStage::Posting, grant_error)
        },
        LateStage::Posting => {
            let passed = match &marker.outcome {
                MarkerOutcome::Passed { .. } => true,
                _ => false,
            };
            if passed {
                enter_late(key, marker, config, LateStage::Deleting, None)
            } else {
                finish(key, Disposition::Completed)
            }
        },
        LateStage::Deleting => {
            if is_done(&event) {
                let stage = match &marker.outcome {
                    MarkerOutcome::Passed { .. } => None,
                    MarkerOutcome::Failed { .. } => Some(LateStage::ResolvingChannel),
                    MarkerOutcome::Errored { .. } => Some(LateStage::Posting),
                };
                match stage {
                    Some(stage) => enter_late(key, marker, config, stage, None),
                    None => finish(key, Disposition::Completed),
                }
            } else {
                finish(key, Disposition::Abandoned { claimed: false })
            }
        },
    }
}

impl MarkerJob {
    /// Begins the work on `key`: its value is asked for.
    pub fn start(key: String) -> (next: (MarkerJob, PollAction))
        ensures
            next.0@ == job_start(key@),
            next.1@ == (PollActionView::FetchValue { key: key@ }),
    {
        let action = PollAction::FetchValue { key: key.clone() };
        (MarkerJob { key, progress: Progress::Fetching }, action)
    }

    /// Takes what came of the last action and says what is to be done
    /// next.
    pub fn advance(self, event: PollEvent) -> (next: (MarkerJob, PollAction))
        ensures
            (next.0@, next.1@) == job_step(self@, event@),
    {
        let MarkerJob { key, progress } = self;
        match progress {
            Progress::Fetching => match event {
                PollEvent::Value(value) => match parse_marker(key.as_str(), value.as_str()) {
                    Ok(marker) => {
                        let stage = match &marker.outcome {
                            MarkerOutcome::Passed { .. } => EarlyStage::ResolvingGuild,
                            _ => EarlyStage::ResolvingMember,
                        };
                        enter_early(key, marker, stage)
                    },
                    Err(MarkerError::UnsupportedTag) => finish(key, Disposition::Skipped),
                    Err(MarkerError::Malformed(e)) => finish(key, Disposition::Malformed(e)),
                },
                _ => finish(key, Disposition::Skipped),
            },
            Progress::Known { marker, stage } => advance_early(key, marker, stage, event),
            Progress::Configured { marker, config, late_stage } => advance_late(
                key,
                marker,
                config,
                late_stage,
                event,
            ),
            Progress::Finished { disposition } => finish(key, disposition),
        }
    }

    /// Whether nothing is left to do for the key.
    pub fn is_finished(&self) -> (finished: bool)
        ensures
            finished == (self@.progress is Finished),
    {
        match &self.progress {
            Progress::Finished { .. } => true,
            _ => false,
        }
    }
}

/// The three things that the work on a marker does to the outside.
#[derive(Clone, Copy, Debug, PartialEq, Eq, Structural)]
pub enum Effect {
    /// A role is granted.
    Grant,
    /// An audit entry is posted.
    Post,
    /// The marker is removed from the store.
    Delete,
}

/// Whether `action` asks for `effect`.
pub open spec fn asks_for(action: PollActionView, effect: Effect) -> bool {
    match effect {
        Effect::Grant => action is GrantRole,
        Effect::Post => action is PostAudit,
        Effect::Delete => action is DeleteMarker,
    }
}

/// How many of `actions` ask for `effect`.
pub open spec fn count_of(actions: Seq<PollActionView>, effect: Effect) -> nat
    decreases actions.len(),
{
    if actions.len() == 0 {
        0
    } else {
        count_of(actions.drop_last(), effect) + if asks_for(actions.last(), effect) {
            1nat
        } else {
            0nat
        }
    }
}

/// The actions that the work on a key hands out, one in answer to each of
/// `events`, from where `job` stands.
pub open spec fn job_run(job: MarkerJobView, events: Seq<PollEventView>) -> Seq<PollActionView>
    decreases events.len(),
{
    if events.len() == 0 {
        Seq::empty()
    } else {
        job_run(job, events.drop_last()).push(
            job_step(job_after(job, events.drop_last()), events.last()).1,
        )
    }
}

/// Where the work on a key stands after `events`, from where `job` stands.
pub open spec fn job_after(job: MarkerJobView, events: Seq<PollEventView>) -> MarkerJobView
    decreases events.len(),
{
    if events.len() == 0 {
        job
    } else {
        job_step(job_after(job, events.drop_last()), events.last()).0
    }
}

/// What the store answers when it is asked for the value under `key`.
pub open spec fn fetch_reply(store: Map<Seq<char>, Seq<char>>, key: Seq<char>) -> PollEventView {
    if store.contains_key(key) {
        PollEventView::Value(store[key])
    } else {
        PollEventView::Absent
    }
}

/// How often the work on a marker may still ask for `effect`, from where
/// it stands: once or never.
pub closed spec fn still_due(progress: ProgressView, effect: Effect) -> nat {
    match progress {
        ProgressView::Fetching => 1,
        ProgressView::Known { marker, stage } => if stage is Discarding {
            0
        } else {
            match effect {
                Effect::Grant => if marker.outcome is Passed {
                    1
                } else {
                    0
                },
                _ => 1,
            }
        },
        ProgressView::Configured { marker, late_stage, .. } => match marker.outcome {
            MarkerOutcomeView::Passed { .. } => match (late_stage, effect) {
                (LateStage::ResolvingChannel, _) => 1,
                (LateStage::Granting, Effect::Grant) => 0,
                (LateStage::Granting, _) => 1,
                (LateStage::Posting, Effect::Delete) => 1,
                (LateStage::Posting, _) => 0,
                (LateStage::Deleting, _) => 0,
            },
            MarkerOutcomeView::Failed { .. } => match (late_stage, effect) {
                (LateStage::Posting, _) => 0,
                (_, Effect::Post) => 1,
                _ => 0,
            },
            MarkerOutcomeView::Errored { .. } => match (late_stage, effect) {
                (LateStage::Posting, _) => 0,
                (_, Effect::Post) => 1,
                (LateStage::ResolvingChannel, Effect::Delete) => 1,
                _ => 0,
            },
        },
        ProgressView::Finished { .. } => 0,
    }
}

/// Each step uses up what it asks for.
proof fn lemma_step_uses_up(job: MarkerJobView, event: PollEventView, effect: Effect)
    ensures
        still_due(job_step(job, event).0.progress, effect) + (if asks_for(
            job_step(job, event).1,
            effect,
        ) {
            1nat
        } else {
            0nat
        }) <= still_due(job.progress, effect),
        still_due(job.progress, effect) <= 1,
{
}

/// From where the work stands after some events, no more is asked for than
/// was still due before them.
proof fn lemma_run_uses_up(job: MarkerJobView, events: Seq<PollEventView>, effect: Effect)
    ensures
        count_of(job_run(job, events), effect) + still_due(job_after(job, events).progress, effect)
            <= still_due(job.progress, effect),
    decreases events.len(),
{
    if events.len() > 0 {
        let before = events.drop_last();
        lemma_run_uses_up(job, before, effect);
        lemma_step_uses_up(job_after(job, before), events.last(), effect);
        let run = job_run(job, events);
        assert(run.drop_last() =~= job_run(job, before));
    }
}

/// Whatever happens, the work on one marker asks at most once for a role
/// grant, at most once for an audit entry, and at most once for the removal
/// of the marker.
pub proof fn lemma_effects_at_most_once(
    job: MarkerJobView,
    events: Seq<PollEventView>,
    effect: Effect,
)
    ensures
        count_of(job_run(job, events), effect) <= 1,
{
    lemma_run_uses_up(job, events, effect);
    lemma_step_uses_up(job, PollEventView::Done, effect);
}

/// A role is granted for a marker that says "passed", and for no other:
/// where the value under a key says anything else, the work on it never
/// asks for a role grant.
pub proof fn lemma_only_passed_markers_grant(
    key: Seq<char>,
    value: Seq<char>,
    later: Seq<PollEventView>,
)
    requires
        !(marker_of(key, value) matches Ok(marker) && marker.outcome is Passed),
    ensures
        count_of(job_run(job_start(key), seq![PollEventView::Value(value)] + later), Effect::Grant)
            == 0,
{
    let first = seq![PollEventView::Value(value)];
    lemma_run_splits(job_start(key), first, later, Effect::Grant);
    lemma_run_uses_up(job_after(job_start(key), first), later, Effect::Grant);
    lemma_single_step(job_start(key), PollEventView::Value(value));
}

/// Once the removal of the marker has been asked for, no role grant is
/// asked for any more.
pub proof fn lemma_no_grant_after_claim(
    job: MarkerJobView,
    before: Seq<PollEventView>,
    event: PollEventView,
    later: Seq<PollEventView>,
)
    requires
        job_step(job_after(job, before), event).1 is DeleteMarker,
    ensures
        count_of(job_run(job_after(job, before.push(event)), later), Effect::Grant) == 0,
{
    let at = job_after(job, before);
    assert(before.push(event).drop_last() =~= before);
    let then = job_after(job, before.push(event));
    assert(then == job_step(at, event).0);
    lemma_claim_is_after_grant(at, event);
    lemma_run_uses_up(then, later, Effect::Grant);
}

/// The step that asks for the removal of the marker leaves no role grant
/// due.
proof fn lemma_claim_is_after_grant(job: MarkerJobView, event: PollEventView)
    requires
        job_step(job, event).1 is DeleteMarker,
    ensures
        still_due(job_step(job, event).0.progress, Effect::Grant) == 0,
{
}

/// A marker that has been removed from the store is not acted on again:
/// when the key comes up once more, the work on it ends at once, and asks
/// for no role grant, no audit entry and no removal.
pub proof fn lemma_claimed_marker_is_left_alone(
    store: Map<Seq<char>, Seq<char>>,
    key: Seq<char>,
    later: Seq<PollEventView>,
    effect: Effect,
)
    ensures
        ({
            let claimed = store.remove(key);
            let again = seq![fetch_reply(claimed, key)] + later;
            &&& job_after(job_start(key), again).progress == (ProgressView::Finished {
                disposition: Disposition::Skipped,
            })
            &&& count_of(job_run(job_start(key), again), effect) == 0
        }),
{
    let claimed = store.remove(key);
    let reply = fetch_reply(claimed, key);
    assert(reply is Absent);
    let first = seq![reply];
    lemma_single_step(job_start(key), reply);
    let skipped = job_after(job_start(key), first);
    lemma_run_splits(job_start(key), first, later, effect);
    lemma_run_uses_up(skipped, later, effect);
    lemma_finished_stays(skipped, later);
}

/// The run over one event is the one step.
proof fn lemma_single_step(job: MarkerJobView, event: PollEventView)
    ensures
        job_after(job, seq![event]) == job_step(job, event).0,
        job_run(job, seq![event]) == seq![job_step(job, event).1],
        forall|effect: Effect|
            count_of(#[trigger] job_run(job, seq![event]), effect) == if asks_for(
                job_step(job, event).1,
                effect,
            ) {
                1nat
            } else {
                0nat
            },
{
    let events = seq![event];
    assert(events.drop_last() =~= Seq::<PollEventView>::empty());
    assert(job_after(job, events.drop_last()) == job);
    assert(job_run(job, events.drop_last()) =~= Seq::<PollActionView>::empty());
    assert(job_run(job, events) =~= seq![job_step(job, event).1]);
    let run = job_run(job, events);
    assert(run.drop_last() =~= Seq::<PollActionView>::empty());
    assert forall|effect: Effect|
        count_of(#[trigger] job_run(job, seq![event]), effect) == if asks_for(
            job_step(job, event).1,
            effect,
        ) {
            1nat
        } else {
            0nat
        } by {
        assert(count_of(run.drop_last(), effect) == 0);
    }
}

/// A run over two stretches of events is the run over the first, and then
/// the run over the second from where the first left off.
proof fn lemma_run_splits(
    job: MarkerJobView,
    first: Seq<PollEventView>,
    second: Seq<PollEventView>,
    effect: Effect,
)
    ensures
        job_after(job, first + second) == job_after(job_after(job, first), second),
        job_run(job, first + second) == job_run(job, first) + job_run(
            job_after(job, first),
            second,
        ),
        count_of(job_run(job, first + second), effect) == count_of(job_run(job, first), effect)
            + count_of(job_run(job_after(job, first), second), effect),
    decreases second.len(),
{
    let middle = job_after(job, first);
    if second.len() == 0 {
        assert(first + second =~= first);
        assert(job_run(middle, second) =~= Seq::<PollActionView>::empty());
        assert(job_run(job, first) + job_run(middle, second) =~= job_run(job, first));
    } else {
        let all = first + second;
        assert(all.drop_last() =~= first + second.drop_last());
        assert(all.last() == second.last());
        lemma_run_splits(job, first, second.drop_last(), effect);
        assert(job_run(job, all) =~= job_run(job, first) + job_run(middle, second));
        let whole = job_run(job, all);
        let tail = job_run(middle, second);
        assert(whole.drop_last() =~= job_run(job, first) + tail.drop_last());
        assert(tail.drop_last() =~= job_run(middle, second.drop_last()));
        assert(whole.last() == tail.last());
    }
}

/// Work that has ended stays ended.
proof fn lemma_finished_stays(job: MarkerJobView, events: Seq<PollEventView>)
    requires
        job.progress is Finished,
    ensures
        job_after(job, events) == job,
    decreases events.len(),
{
    if events.len() > 0 {
        lemma_finished_stays(job, events.drop_last());
    }
}

/// The most steps that the work on a marker may still take, from where it
/// stands.
pub closed spec fn steps_left(progress: ProgressView) -> nat {
    match progress {
        ProgressView::Fetching => 8,
        ProgressView::Known { marker, stage } => match stage {
            EarlyStage::ResolvingGuild => 7,
            EarlyStage::ResolvingMember => 6,
            EarlyStage::LoadingConfig => 5,
            EarlyStage::Discarding => 1,
        },
        ProgressView::Configured { marker, late_stage, .. } => match marker.outcome {
            MarkerOutcomeView::Passed { .. } => match late_stage {
                LateStage::ResolvingChannel => 4,
                LateStage::Granting => 3,
                LateStage::Posting => 2,
                LateStage::Deleting => 1,
            },
            MarkerOutcomeView::Failed { .. } => match late_stage {
                LateStage::Deleting => 3,
                LateStage::ResolvingChannel => 2,
                LateStage::Granting => 2,
                LateStage::Posting => 1,
            },
            MarkerOutcomeView::Errored { .. } => match late_stage {
                LateStage::ResolvingChannel => 3,
                LateStage::Deleting => 2,
                LateStage::Granting => 2,
                LateStage::Posting => 1,
            },
        },
        ProgressView::Finished { .. } => 0,
    }
}

/// Work that has no step left has ended, and work that has begun has at
/// most eight.
pub proof fn lemma_steps_left(progress: ProgressView)
    ensures
        steps_left(progress) <= 8,
        steps_left(progress) == 0 <==> progress is Finished,
{
}

/// Every step brings the work on a marker nearer to its end.
pub proof fn lemma_step_nears_end(job: MarkerJobView, event: PollEventView)
    ensures
        job_step(job, event).0.key == job.key,
        job.progress is Finished ==> job_step(job, event).0 == job,
        !(job.progress is Finished) ==> steps_left(job_step(job, event).0.progress) < steps_left(
            job.progress,
        ),
{
}

/// The work on a marker always ends: whatever comes in, after eight events
/// nothing is left to do.
pub proof fn lemma_job_ends(job: MarkerJobView, events: Seq<PollEventView>)
    ensures
        events.len() >= 8 ==> job_after(job, events).progress is Finished,
{
    lemma_run_nears_end(job, events);
    lemma_steps_left(job.progress);
    lemma_steps_left(job_after(job, events).progress);
}

proof fn lemma_run_nears_end(job: MarkerJobView, events: Seq<PollEventView>)
    ensures
        steps_left(job_after(job, events).progress) + events.len() <= steps_left(job.progress)
            || job_after(job, events).progress is Finished,
    decreases events.len(),
{
    if events.len() > 0 {
        lemma_run_nears_end(job, events.drop_last());
        lemma_step_nears_end(job_after(job, events.drop_last()), events.last());
    }
}

/// A role grant or an audit entry that does not go through does not keep
/// the marker from being consumed. Where the grant for a passed marker
/// fails, the log channel is told of the failure in place of the pass, and
/// whatever comes of that, the removal of the marker is asked for next.
/// Where an audit entry cannot be posted, the work goes on as if it had
/// been.
pub proof fn lemma_failed_actions_do_not_block_consumption(
    job: MarkerJobView,
    failure: PollEventView,
    then: PollEventView,
)
    requires
        !(failure is Done),
        job.progress matches ProgressView::Configured { marker, late_stage, .. }
            && marker.outcome is Passed && (late_stage is Granting || late_stage is Posting),
    ensures
        job.progress->late_stage is Granting ==> ({
            let marker = job.progress->Configured_marker;
            &&& job_step(job, failure).1 == (PollActionView::PostAudit {
                channel_id: job.progress->config.log_channel_id,
                entry: AuditEntryView::GrantFailed {
                    user_id: marker.user_id,
                    score: marker.outcome->Passed_score,
                    minscore: marker.outcome->Passed_minscore,
                    error: failure_text(failure),
                },
            })
            &&& job_step(job_step(job, failure).0, then).1 == (PollActionView::DeleteMarker {
                key: job.key,
            })
        }),
        job.progress->late_stage is Posting ==> job_step(job, failure) == job_step(
            job,
            PollEventView::Done,
        ) && job_step(job, failure).1 == (PollActionView::DeleteMarker { key: job.key }),
{
}

/// Whether the store answered, in the course of `events`, that it has
/// removed the marker: a removal was asked for, and the event after it was
/// `Done`.
pub open spec fn was_claimed(job: MarkerJobView, events: Seq<PollEventView>) -> bool
    decreases events.len(),
{
    if events.len() == 0 {
        false
    } else {
        was_claimed(job, events.drop_last()) || (awaits_removal(
            job_after(job, events.drop_last()).progress,
        ) && events.last() is Done)
    }
}

/// Whether the removal of the marker was asked for last.
pub open spec fn awaits_removal(progress: ProgressView) -> bool {
    match progress {
        ProgressView::Known { stage, .. } => stage is Discarding,
        ProgressView::Configured { late_stage, .. } => late_stage is Deleting,
        _ => false,
    }
}

/// Whether work that ended as `disposition` left the store without the
/// marker.
pub open spec fn tells_claim(disposition: Disposition) -> bool {
    disposition is Completed || disposition is Discarded || disposition
        == (Disposition::Abandoned { claimed: true })
}

/// Where work that began at the beginning may stand, and whether the marker
/// is removed there.
spec fn reached(progress: ProgressView, claimed: bool) -> bool {
    match progress {
        ProgressView::Fetching => !claimed,
        ProgressView::Known { marker, stage } => !claimed && (stage is ResolvingGuild
            ==> marker.outcome is Passed) && (stage is Discarding ==> marker.outcome is Failed),
        ProgressView::Configured { marker, late_stage, .. } => match marker.outcome {
            MarkerOutcomeView::Passed { .. } => !claimed,
            MarkerOutcomeView::Failed { .. } => match late_stage {
                LateStage::Deleting => !claimed,
                LateStage::ResolvingChannel => claimed,
                LateStage::Posting => claimed,
                LateStage::Granting => false,
            },
            MarkerOutcomeView::Errored { .. } => match late_stage {
                LateStage::ResolvingChannel => !claimed,
                LateStage::Deleting => !claimed,
                LateStage::Posting => claimed,
                LateStage::Granting => false,
            },
        },
        ProgressView::Finished { disposition } => claimed == tells_claim(disposition),
    }
}

proof fn lemma_reached(key: Seq<char>, events: Seq<PollEventView>)
    ensures
        reached(
            job_after(job_start(key), events).progress,
            was_claimed(job_start(key), events),
        ),
    decreases events.len(),
{
    if events.len() > 0 {
        lemma_reached(key, events.drop_last());
    }
}

/// How the work on a key ended tells whether the marker is gone: it is
/// gone after `Completed`, after `Discarded` and after `Abandoned` with
/// `claimed`, and it is still there after everything else.
pub proof fn lemma_disposition_tells_claim(key: Seq<char>, events: Seq<PollEventView>)
    requires
        job_after(job_start(key), events).progress is Finished,
    ensures
        was_claimed(job_start(key), events) == tells_claim(
            job_after(job_start(key), events).progress->disposition,
        ),
{
    lemma_reached(key, events);
}

/// The store after the work on `key` has seen `events`: without the marker
/// if its removal was answered with `Done`, and as it was before if not.
pub open spec fn store_after(
    store: Map<Seq<char>, Seq<char>>,
    key: Seq<char>,
    events: Seq<PollEventView>,
) -> Map<Seq<char>, Seq<char>> {
    if was_claimed(job_start(key), events) {
        store.remove(key)
    } else {
        store
    }
}

/// Working on the same marker twice repeats nothing once the marker has
/// been claimed: if the store removed the marker in the course of the first
/// run, and the second run begins on the store as the first left it, then
/// both runs together ask at most once for a role grant, at most once for
/// an audit entry and at most once for the removal. The first run may have
/// been cut short at any point after the removal.
pub proof fn lemma_retry_repeats_nothing(
    store: Map<Seq<char>, Seq<char>>,
    key: Seq<char>,
    first: Seq<PollEventView>,
    second: Seq<PollEventView>,
    effect: Effect,
)
    requires
        was_claimed(job_start(key), first),
        second.len() > 0 ==> second[0] == fetch_reply(store_after(store, key, first), key),
    ensures
        count_of(job_run(job_start(key), first), effect) + count_of(
            job_run(job_start(key), second),
            effect,
        ) <= 1,
{
    lemma_effects_at_most_once(job_start(key), first, effect);
    if second.len() > 0 {
        let later = second.skip(1);
        assert(second =~= seq![fetch_reply(store.remove(key), key)] + later);
        lemma_claimed_marker_is_left_alone(store, key, later, effect);
    } else {
        assert(job_run(job_start(key), second) =~= Seq::<PollActionView>::empty());
    }
}

} // verus!
