//! The verify command: what happens when a member asks to be verified.
//!
//! The age gate comes first. An account that is old enough is given the
//! role at once, and the log channel is told; no ticket is issued. Any
//! other account gets a ticket and the link that goes with it, and the log
//! channel is told of that. Settings that cannot be worked with, and a
//! store that does not answer, end the command with words for the member
//! and nothing done.
//!
//! As in the poller, nothing here talks to the outside: each step is handed
//! out as a `VerifyAction`, and the caller hands back a `VerifyEvent`.

use vstd::prelude::*;
use crate::age_gate::{age_decision, age_gate, AgeDecision};
use crate::audit::{AuditEntry, AuditEntryView};
use crate::config::{
    guild_config_of, read_guild_config, GuildVerificationConfig, StoredSettings,
    StoredSettingsView,
};
use crate::error::{
    config_error_text, directory_error_message, directory_error_text, grant_error_message,
    grant_error_text, store_error_text, ConfigError, ExternalActionError,
};
use crate::issuer::{
    issuer_begin, issuer_step, IssueAction, IssueActionView, IssueEvent, IssuerStage, Ticket,
    TicketIssuer, TicketIssuerView, TicketView,
};
use crate::ticket::{is_ticket_code, ticket_expiry, ticket_expiry_of, TicketCode};

verus! {

/// A member asks to be verified.
#[derive(Clone, Debug, PartialEq, Eq)]
pub struct VerifyRequest {
    pub user_id: u64,
    pub guild_id: u64,
    /// When the account of the member was created, as a Unix time in
    /// seconds.
    pub created_at: i64,
    /// The time of the request, as a Unix time in seconds.
    pub now: i64,
    /// The record of the community in the settings store, if it has one.
    pub settings: Option<StoredSettings>,
}

/// A `VerifyRequest` as a mathematical value.
pub struct VerifyRequestView {
    pub user_id: u64,
    pub guild_id: u64,
    pub created_at: i64,
    pub now: i64,
    pub settings: Option<StoredSettingsView>,
}

impl View for VerifyRequest {
    type V = VerifyRequestView;

    open spec fn view(&self) -> VerifyRequestView {
        VerifyRequestView {
            user_id: self.user_id,
            guild_id: self.guild_id,
            created_at: self.created_at,
            now: self.now,
            settings: match self.settings {
                Some(record) => Some(record@),
                None => None,
            },
        }
    }
}

impl VerifyRequestView {
    /// Who asks, where and when.
    pub open spec fn applicant(self) -> Applicant {
        Applicant { user_id: self.user_id, guild_id: self.guild_id, asked_at: self.now }
    }
}

/// Who asked to be verified, where and when.
#[derive(Clone, Copy, Debug, PartialEq, Eq, Structural)]
pub struct Applicant {
    pub user_id: u64,
    pub guild_id: u64,
    /// The time of the request, as a Unix time in seconds.
    pub asked_at: i64,
}

/// How the command ended.
#[derive(Clone, Copy, Debug, PartialEq, Eq, Structural)]
pub enum VerifyOutcome {
    /// The account was old enough and has the role.
    AutoApproved,
    /// The account was old enough, but the role could not be granted.
    GrantFailed,
    /// A ticket is issued and the member has the link.
    TicketIssued,
    /// The settings of the community cannot be worked with.
    Refused(ConfigError),
    /// The store did not answer; no ticket was issued.
    StoreUnavailable,
    /// The log channel could not be found; the role was not granted.
    Abandoned,
}

/// What the member is told, in a message that only they see.
#[derive(Clone, Debug, PartialEq, Eq)]
pub enum UserReply {
    /// That their account is old enough and that they skipped verification.
    AutoVerified,
    /// That verification has begun, with the link to follow.
    Initiated { link: String },
    /// That the command failed, and why.
    Refused { message: String },
}

/// A `UserReply` as a mathematical value.
pub enum UserReplyView {
    AutoVerified,
    Initiated { link: Seq<char> },
    Refused { message: Seq<char> },
}

impl View for UserReply {
    type V = UserReplyView;

    open spec fn view(&self) -> UserReplyView {
        match *self {
            UserReply::AutoVerified => UserReplyView::AutoVerified,
            UserReply::Initiated { link } => UserReplyView::Initiated { link: link@ },
            UserReply::Refused { message } => UserReplyView::Refused { message: message@ },
        }
    }
}

/// What the caller is asked to do next.
#[derive(Clone, Debug, PartialEq, Eq)]
pub enum VerifyAction {
    /// Look the log channel up in the directory.
    ResolveChannel { channel_id: u64 },
    /// Give the member the role.
    GrantRole { guild_id: u64, user_id: u64, role_id: u64 },
    /// Post the entry to the channel.
    PostAudit { channel_id: u64, entry: AuditEntry },
    /// Answer the member.
    Reply { reply: UserReply },
    /// Ask the store whether it holds anything under `key`.
    Probe { key: String },
    /// Write `value` under `key`, to live for `ttl_secs` seconds.
    Persist { key: String, value: String, ttl_secs: u64 },
    /// Nothing is left to do.
    Finish { outcome: VerifyOutcome },
}

/// A `VerifyAction` as a mathematical value.
pub enum VerifyActionView {
    ResolveChannel { channel_id: u64 },
    GrantRole { guild_id: u64, user_id: u64, role_id: u64 },
    PostAudit { channel_id: u64, entry: AuditEntryView },
    Reply { reply: UserReplyView },
    Probe { key: Seq<char> },
    Persist { key: Seq<char>, value: Seq<char>, ttl_secs: u64 },
    Finish { outcome: VerifyOutcome },
}

impl View for VerifyAction {
    type V = VerifyActionView;

    open spec fn view(&self) -> VerifyActionView {
        match *self {
            VerifyAction::ResolveChannel { channel_id } => VerifyActionView::ResolveChannel {
                channel_id,
            },
            VerifyAction::GrantRole { guild_id, user_id, role_id } => VerifyActionView::GrantRole {
                guild_id,
                user_id,
                role_id,
            },
            VerifyAction::PostAudit { channel_id, entry } => VerifyActionView::PostAudit {
                channel_id,
                entry: entry@,
            },
            VerifyAction::Reply { reply } => VerifyActionView::Reply { reply: reply@ },
            VerifyAction::Probe { key } => VerifyActionView::Probe { key: key@ },
            VerifyAction::Persist { key, value, ttl_secs } => VerifyActionView::Persist {
                key: key@,
                value: value@,
                ttl_secs,
            },
            VerifyAction::Finish { outcome } => VerifyActionView::Finish { outcome },
        }
    }
}

/// What came of the action that was asked for last.
#[derive(Clone, Debug, PartialEq, Eq)]
pub enum VerifyEvent {
    /// The store holds nothing under the key that was probed.
    Vacant,
    /// The store holds something under the key that was probed.
    Occupied,
    /// The action was carried out.
    Done,
    /// The store did not answer.
    StoreFailed,
    /// The directory, the role grant, the log channel or the answer to the
    /// member failed.
    ActionFailed(ExternalActionError),
}

/// A `VerifyEvent` as a mathematical value.
pub enum VerifyEventView {
    Vacant,
    Occupied,
    Done,
    StoreFailed,
    ActionFailed(Seq<char>),
}

impl View for VerifyEvent {
    type V = VerifyEventView;

    open spec fn view(&self) -> VerifyEventView {
        match *self {
            VerifyEvent::Vacant => VerifyEventView::Vacant,
            VerifyEvent::Occupied => VerifyEventView::Occupied,
            VerifyEvent::Done => VerifyEventView::Done,
            VerifyEvent::StoreFailed => VerifyEventView::StoreFailed,
            VerifyEvent::ActionFailed(error) => VerifyEventView::ActionFailed(error@),
        }
    }
}

/// The steps of letting an old account in.
#[derive(Clone, Copy, Debug, PartialEq, Eq, Structural)]
pub enum ApprovalStage {
    ResolvingChannel,
    Granting,
    /// Telling the log channel that the member is verified.
    PostingVerified,
    /// Telling the log channel that the role could not be granted.
    PostingGrantFailure,
    /// Telling the member that they skipped verification.
    Replying,
}

/// The steps of making a ticket known once it is issued.
#[derive(Clone, Copy, Debug, PartialEq, Eq, Structural)]
pub enum AnnounceStage {
    /// Sending the member the link.
    Replying,
    ResolvingChannel,
    /// Telling the log channel that verification has begun.
    Posting,
}

/// How far the command has come.
#[derive(Clone, Debug, PartialEq, Eq)]
pub enum VerifyProgress {
    /// The account is old enough; it is being let in.
    Approving { config: GuildVerificationConfig, stage: ApprovalStage },
    /// A ticket is being issued.
    Issuing { log_channel_id: u64, issuer: TicketIssuer },
    /// The ticket is issued; it is being made known.
    Announcing { log_channel_id: u64, ticket: Ticket, announce: AnnounceStage },
    /// The member is being told that the command failed.
    Refusing { outcome: VerifyOutcome },
    /// Nothing is left to do.
    Finished { outcome: VerifyOutcome },
}

/// A `VerifyProgress` as a mathematical value.
pub enum VerifyProgressView {
    Approving { config: GuildVerificationConfig, stage: ApprovalStage },
    Issuing { log_channel_id: u64, issuer: TicketIssuerView },
    Announcing { log_channel_id: u64, ticket: TicketView, announce: AnnounceStage },
    Refusing { outcome: VerifyOutcome },
    Finished { outcome: VerifyOutcome },
}

impl View for VerifyProgress {
    type V = VerifyProgressView;

    open spec fn view(&self) -> VerifyProgressView {
        match *self {
            VerifyProgress::Approving { config, stage } => VerifyProgressView::Approving {
                config,
                stage,
            },
            VerifyProgress::Issuing { log_channel_id, issuer } => VerifyProgressView::Issuing {
                log_channel_id,
                issuer: issuer@,
            },
            VerifyProgress::Announcing {
                log_channel_id,
                ticket,
                announce,
            } => VerifyProgressView::Announcing { log_channel_id, ticket: ticket@, announce },
            VerifyProgress::Refusing { outcome } => VerifyProgressView::Refusing { outcome },
            VerifyProgress::Finished { outcome } => VerifyProgressView::Finished { outcome },
        }
    }
}

/// One run of the verify command.
#[derive(Clone, Debug, PartialEq, Eq)]
pub struct VerifyFlow {
    pub applicant: Applicant,
    pub progress: VerifyProgress,
}

/// A `VerifyFlow` as a mathematical value.
pub struct VerifyFlowView {
    pub applicant: Applicant,
    pub progress: VerifyProgressView,
}

impl View for VerifyFlow {
    type V = VerifyFlowView;

    open spec fn view(&self) -> VerifyFlowView {
        VerifyFlowView { applicant: self.applicant, progress: self.progress@ }
    }
}

/// The words of a failure; none where the event is no failure.
pub open spec fn failure_text(event: VerifyEventView) -> Seq<char> {
    match event {
        VerifyEventView::ActionFailed(message) => message,
        _ => Seq::empty(),
    }
}

/// What an event says to the issuer, by what the issuer waits for.
pub open spec fn issue_event_of(stage: IssuerStage, event: VerifyEventView) -> IssueEvent {
    match (stage, event) {
        (IssuerStage::Probing, VerifyEventView::Vacant) => IssueEvent::Vacant,
        (IssuerStage::Probing, VerifyEventView::Occupied) => IssueEvent::Occupied,
        (IssuerStage::Persisting, VerifyEventView::Done) => IssueEvent::Stored,
        _ => IssueEvent::StoreFailed,
    }
}

/// The command fails: the member is told `message`.
pub open spec fn flow_refuse(
    applicant: Applicant,
    outcome: VerifyOutcome,
    message: Seq<char>,
) -> (VerifyFlowView, VerifyActionView) {
    (
        VerifyFlowView { applicant, progress: VerifyProgressView::Refusing { outcome } },
        VerifyActionView::Reply { reply: UserReplyView::Refused { message } },
    )
}

/// The command ends.
pub open spec fn flow_finish(applicant: Applicant, outcome: VerifyOutcome) -> (
    VerifyFlowView,
    VerifyActionView,
) {
    (
        VerifyFlowView { applicant, progress: VerifyProgressView::Finished { outcome } },
        VerifyActionView::Finish { outcome },
    )
}

/// The command goes on with a step of letting the account in.
pub open spec fn flow_approve(
    applicant: Applicant,
    config: GuildVerificationConfig,
    stage: ApprovalStage,
    grant_error: Seq<char>,
) -> (VerifyFlowView, VerifyActionView) {
    (
        VerifyFlowView { applicant, progress: VerifyProgressView::Approving { config, stage } },
        match stage {
            ApprovalStage::ResolvingChannel => VerifyActionView::ResolveChannel {
                channel_id: config.log_channel_id,
            },
            ApprovalStage::Granting => VerifyActionView::GrantRole {
                guild_id: applicant.guild_id,
                user_id: applicant.user_id,
                role_id: config.verification_role_id,
            },
            ApprovalStage::PostingVerified => VerifyActionView::PostAudit {
                channel_id: config.log_channel_id,
                entry: AuditEntryView::UserVerified { user_id: applicant.user_id },
            },
            ApprovalStage::PostingGrantFailure => VerifyActionView::PostAudit {
                channel_id: config.log_channel_id,
                entry: AuditEntryView::AutoGrantFailed {
                    user_id: applicant.user_id,
                    error: grant_error,
                },
            },
            ApprovalStage::Replying => VerifyActionView::Reply {
                reply: UserReplyView::AutoVerified,
            },
        },
    )
}

/// The command goes on with a step of making the ticket known.
pub open spec fn flow_announce(
    applicant: Applicant,
    log_channel_id: u64,
    ticket: TicketView,
    announce: AnnounceStage,
) -> (VerifyFlowView, VerifyActionView) {
    (
        VerifyFlowView {
            applicant,
            progress: VerifyProgressView::Announcing { log_channel_id, ticket, announce },
        },
        match announce {
            AnnounceStage::Replying => VerifyActionView::Reply {
                reply: UserReplyView::Initiated { link: ticket.link },
            },
            AnnounceStage::ResolvingChannel => VerifyActionView::ResolveChannel {
                channel_id: log_channel_id,
            },
            AnnounceStage::Posting => VerifyActionView::PostAudit {
                channel_id: log_channel_id,
                entry: AuditEntryView::VerificationStarted {
                    user_id: applicant.user_id,
                    link: ticket.link,
                    expires_at: expiry_at(applicant.asked_at),
                },
            },
        },
    )
}

/// When a ticket written at `now` runs out, as far as a clock can show it.
pub open spec fn expiry_at(now: i64) -> i64 {
    if ticket_expiry_of(now as int) <= i64::MAX {
        ticket_expiry_of(now as int) as i64
    } else {
        i64::MAX
    }
}

/// The command goes on with what the issuer asks for, or with what follows
/// once the issuer is done.
pub open spec fn flow_issue(
    applicant: Applicant,
    log_channel_id: u64,
    issuer: TicketIssuerView,
    action: IssueActionView,
) -> (VerifyFlowView, VerifyActionView) {
    match action {
        IssueActionView::Probe { key } => (
            VerifyFlowView {
                applicant,
                progress: VerifyProgressView::Issuing { log_channel_id, issuer },
            },
            VerifyActionView::Probe { key },
        ),
        IssueActionView::Persist { key, value, ttl_secs } => (
            VerifyFlowView {
                applicant,
                progress: VerifyProgressView::Issuing { log_channel_id, issuer },
            },
            VerifyActionView::Persist { key, value, ttl_secs },
        ),
        IssueActionView::Issued { ticket } => flow_announce(
            applicant,
            log_channel_id,
            ticket,
            AnnounceStage::Replying,
        ),
        IssueActionView::Failed { .. } => flow_refuse(
            applicant,
            VerifyOutcome::StoreUnavailable,
            store_error_text(),
        ),
    }
}

/// What the age gate says to a request: the settings of the community are
/// read first, and settings that cannot be read are an error as much as an
/// age threshold that cannot be counted with.
pub open spec fn request_decision(request: VerifyRequestView) -> Result<
    (GuildVerificationConfig, AgeDecision),
    ConfigError,
> {
    match guild_config_of(request.settings) {
        Err(e) => Err(e),
        Ok(config) => match age_decision(
            request.created_at,
            request.now,
            config.age_threshold_days,
        ) {
            Err(e) => Err(e),
            Ok(decision) => Ok((config, decision)),
        },
    }
}

/// The command begins. `code` is the first code that is tried if a ticket
/// has to be issued.
///
/// A community without settings, and settings that cannot be worked with,
/// refuse the command. An account that is old enough is let in: the log
/// channel is looked up first. Any other account has a ticket issued.
pub open spec fn flow_begin(
    request: VerifyRequestView,
    frontend_base: Seq<char>,
    code: Seq<char>,
) -> (VerifyFlowView, VerifyActionView) {
    match request_decision(request) {
        Err(e) => flow_refuse(
            request.applicant(),
            VerifyOutcome::Refused(e),
            config_error_text(e),
        ),
        Ok((config, AgeDecision::AutoApprove)) => flow_approve(
            request.applicant(),
            config,
            ApprovalStage::ResolvingChannel,
            Seq::empty(),
        ),
        Ok((config, AgeDecision::NeedsVerification)) => {
            let (issuer, action) = issuer_begin(
                request.user_id,
                request.guild_id,
                frontend_base,
                code,
            );
            flow_issue(request.applicant(), config.log_channel_id, issuer, action)
        },
    }
}

/// One step of the command: where it stands after `event`, and what is
/// asked for next. `fresh` is the code that is tried next where the one
/// that was probed is taken.
///
/// Letting an account in: the log channel is resolved, the role granted,
/// the log channel told, the member told. Where the log channel cannot be
/// resolved the command is given up before the role is granted; where the
/// role cannot be granted the log channel is told of that instead; either
/// way the member is told that the command failed. Issuing a ticket: as the
/// issuer says; then the member is sent the link, the log channel is
/// resolved and told. A log channel that cannot be resolved then, and an
/// audit entry that cannot be posted, take nothing from the ticket. What
/// comes of an answer to the member is not looked at.
pub open spec fn flow_step(flow: VerifyFlowView, event: VerifyEventView, fresh: Seq<char>) -> (
    VerifyFlowView,
    VerifyActionView,
) {
    let applicant = flow.applicant;
    match flow.progress {
        VerifyProgressView::Approving { config, stage } => match stage {
            ApprovalStage::ResolvingChannel => if event is Done {
                flow_approve(applicant, config, ApprovalStage::Granting, Seq::empty())
            } else {
                flow_refuse(applicant, VerifyOutcome::Abandoned, directory_error_text())
            },
            ApprovalStage::Granting => if event is Done {
                flow_approve(applicant, config, ApprovalStage::PostingVerified, Seq::empty())
            } else {
                flow_approve(
                    applicant,
                    config,
                    ApprovalStage::PostingGrantFailure,
                    failure_text(event),
                )
            },
            ApprovalStage::PostingVerified => flow_approve(
                applicant,
                config,
                ApprovalStage::Replying,
                Seq::empty(),
            ),
            ApprovalStage::PostingGrantFailure => flow_refuse(
                applicant,
                VerifyOutcome::GrantFailed,
                grant_error_text(),
            ),
            ApprovalStage::Replying => flow_finish(applicant, VerifyOutcome::AutoApproved),
        },
        VerifyProgressView::Issuing { log_channel_id, issuer } => {
            let (issuer, action) = issuer_step(issuer, issue_event_of(issuer.stage, event), fresh);
            flow_issue(applicant, log_channel_id, issuer, action)
        },
        VerifyProgressView::Announcing { log_channel_id, ticket, announce } => match announce {
            AnnounceStage::Replying => flow_announce(
                applicant,
                log_channel_id,
                ticket,
                AnnounceStage::ResolvingChannel,
            ),
            AnnounceStage::ResolvingChannel => if event is Done {
                flow_announce(applicant, log_channel_id, ticket, AnnounceStage::Posting)
            } else {
                flow_finish(applicant, VerifyOutcome::TicketIssued)
            },
            AnnounceStage::Posting => flow_finish(applicant, VerifyOutcome::TicketIssued),
        },
        VerifyProgressView::Refusing { outcome } => flow_finish(applicant, outcome),
        VerifyProgressView::Finished { outcome } => (flow, VerifyActionView::Finish { outcome }),
    }
}

fn refuse(applicant: Applicant, outcome: VerifyOutcome, message: String) -> (next: (
    VerifyFlow,
    VerifyAction,
))
    ensures
        (next.0@, next.1@) == flow_refuse(applicant, outcome, message@),
{
    (
        VerifyFlow { applicant, progress: VerifyProgress::Refusing { outcome } },
        VerifyAction::Reply { reply: UserReply::Refused { message } },
    )
}

fn finish(applicant: Applicant, outcome: VerifyOutcome) -> (next: (VerifyFlow, VerifyAction))
    ensures
        (next.0@, next.1@) == flow_finish(applicant, outcome),
{
    (
        VerifyFlow { applicant, progress: VerifyProgress::Finished { outcome } },
        VerifyAction::Finish { outcome },
    )
}

fn approve(
    applicant: Applicant,
    config: GuildVerificationConfig,
    stage: ApprovalStage,
    grant_error: String,
) -> (next: (VerifyFlow, VerifyAction))
    ensures
        (next.0@, next.1@) == flow_approve(applicant, config, stage, grant_error@),
{
    let action = match stage {
        ApprovalStage::ResolvingChannel => VerifyAction::ResolveChannel {
            channel_id: config.log_channel_id,
        },
        ApprovalStage::Granting => VerifyAction::GrantRole {
            guild_id: applicant.guild_id,
            user_id: applicant.user_id,
            role_id: config.verification_role_id,
        },
        ApprovalStage::PostingVerified => VerifyAction::PostAudit {
            channel_id: config.log_channel_id,
            entry: AuditEntry::UserVerified { user_id: applicant.user_id },
        },
        ApprovalStage::PostingGrantFailure => VerifyAction::PostAudit {
            channel_id: config.log_channel_id,
            entry: AuditEntry::AutoGrantFailed { user_id: applicant.user_id, error: grant_error },
        },
        ApprovalStage::Replying => VerifyAction::Reply { reply: UserReply::AutoVerified },
    };
    (VerifyFlow { applicant, progress: VerifyProgress::Approving { config, stage } }, action)
}

fn announce(
    applicant: Applicant,
    log_channel_id: u64,
    ticket: Ticket,
    stage: AnnounceStage,
) -> (next: (VerifyFlow, VerifyAction))
    ensures
        (next.0@, next.1@) == flow_announce(applicant, log_channel_id, ticket@, stage),
{
    let action = match stage {
        AnnounceStage::Replying => VerifyAction::Reply {
            reply: UserReply::Initiated { link: ticket.link.clone() },
        },
        AnnounceStage::ResolvingChannel => VerifyAction::ResolveChannel {
            channel_id: log_channel_id,
        },
        AnnounceStage::Posting => VerifyAction::PostAudit {
            channel_id: log_channel_id,
            entry: AuditEntry::VerificationStarted {
                user_id: applicant.user_id,
                link: ticket.link.clone(),
                expires_at: ticket_expiry(applicant.asked_at),
            },
        },
    };
    (
        VerifyFlow {
            applicant,
            progress: VerifyProgress::Announcing { log_channel_id, ticket, announce: stage },
        },
        action,
    )
}

fn issue(
    applicant: Applicant,
    log_channel_id: u64,
    issuer: TicketIssuer,
    action: IssueAction,
) -> (next: (VerifyFlow, VerifyAction))
    ensures
        (next.0@, next.1@) == flow_issue(applicant, log_channel_id, issuer@, action@),
{
    match action {
        IssueAction::Probe { key } => (
            VerifyFlow { applicant, progress: VerifyProgress::Issuing { log_channel_id, issuer } },
            VerifyAction::Probe { key },
        ),
        IssueAction::Persist { key, value, ttl_secs } => (
            VerifyFlow { applicant, progress: VerifyProgress::Issuing { log_channel_id, issuer } },
            VerifyAction::Persist { key, value, ttl_secs },
        ),
        IssueAction::Issued { ticket } => announce(
            applicant,
            log_channel_id,
            ticket,
            AnnounceStage::Replying,
        ),
        IssueAction::Failed { error } => refuse(
            applicant,
            VerifyOutcome::StoreUnavailable,
            error.message(),
        ),
    }
}

fn is_done(event: &VerifyEvent) -> (done: bool)
    ensures
        done == (event@ is Done),
{
    match event {
        VerifyEvent::Done => true,
        _ => false,
    }
}

fn issue_event(stage: IssuerStage, event: &VerifyEvent) -> (said: IssueEvent)
    ensures
        said == issue_event_of(stage, event@),
{
    match (stage, event) {
        (IssuerStage::Probing, VerifyEvent::Vacant) => IssueEvent::Vacant,
        (IssuerStage::Probing, VerifyEvent::Occupied) => IssueEvent::Occupied,
        (IssuerStage::Persisting, VerifyEvent::Done) => IssueEvent::Stored,
        _ => IssueEvent::StoreFailed,
    }
}

/// Reads the settings of a request and asks the age gate.
fn decide(request: &VerifyRequest) -> (decision: Result<
    (GuildVerificationConfig, AgeDecision),
    ConfigError,
>)
    ensures
        decision == request_decision(request@),
{
    let config = match read_guild_config(request.settings.as_ref()) {
        Ok(config) => config,
        Err(e) => {
            return Err(e);
        },
    };
    match age_gate(request.created_at, request.now, config.age_threshold_days) {
        Ok(decision) => Ok((config, decision)),
        Err(e) => Err(e),
    }
}

impl VerifyFlow {
    /// Begins the command for `request`. Where a ticket has to be issued,
    /// its link begins with `frontend_base`, and its code is drawn at
    /// random.
    pub fn begin(request: VerifyRequest, frontend_base: String) -> (next: (
        VerifyFlow,
        VerifyAction,
    ))
        ensures
            exists|code: Seq<char>|
                is_ticket_code(code) && (next.0@, next.1@) == #[trigger] flow_begin(
                    request@,
                    frontend_base@,
                    code,
                ),
    {
        let code = TicketCode::generate();
        let ghost drawn = code@;
        let next = VerifyFlow::begin_with(request, frontend_base, code);
        assert((next.0@, next.1@) == flow_begin(request@, frontend_base@, drawn));
        next
    }

    /// As `begin`, with `code` as the first code that is tried.
    pub fn begin_with(request: VerifyRequest, frontend_base: String, code: TicketCode) -> (next: (
        VerifyFlow,
        VerifyAction,
    ))
        ensures
            (next.0@, next.1@) == flow_begin(request@, frontend_base@, code@),
    {
        let applicant = Applicant {
            user_id: request.user_id,
            guild_id: request.guild_id,
            asked_at: request.now,
        };
        match decide(&request) {
            Err(e) => refuse(applicant, VerifyOutcome::Refused(e), e.message()),
            Ok((config, AgeDecision::AutoApprove)) => approve(
                applicant,
                config,
                ApprovalStage::ResolvingChannel,
                String::new(),
            ),
            Ok((config, AgeDecision::NeedsVerification)) => {
                let (issuer, action) = TicketIssuer::begin_with(
                    request.user_id,
                    request.guild_id,
                    frontend_base,
                    code,
                );
                issue(applicant, config.log_channel_id, issuer, action)
            },
        }
    }

    /// Takes what came of the last action and says what is to be done
    /// next. Where the code that was probed is taken, the next one is drawn
    /// at random.
    pub fn advance(self, event: VerifyEvent) -> (next: (VerifyFlow, VerifyAction))
        ensures
            exists|fresh: Seq<char>|
                is_ticket_code(fresh) && (next.0@, next.1@) == #[trigger] flow_step(
                    self@,
                    event@,
                    fresh,
                ),
    {
        let fresh = TicketCode::generate();
        let ghost drawn = fresh@;
        let next = self.advance_with(event, fresh);
        assert((next.0@, next.1@) == flow_step(self@, event@, drawn));
        next
    }

    /// As `advance`, with `fresh` as the code that is tried next where the
    /// one that was probed is taken.
    pub fn advance_with(self, event: VerifyEvent, fresh: TicketCode) -> (next: (
        VerifyFlow,
        VerifyAction,
    ))
        ensures
            (next.0@, next.1@) == flow_step(self@, event@, fresh@),
    {
        let VerifyFlow { applicant, progress } = self;
        match progress {
            VerifyProgress::Approving { config, stage } => match stage {
                ApprovalStage::ResolvingChannel => {
                    if is_done(&event) {
                        approve(applicant, config, ApprovalStage::Granting, String::new())
                    } else {
                        refuse(applicant, VerifyOutcome::Abandoned, directory_error_message())
                    }
                },
                ApprovalStage::Granting => match event {
                    VerifyEvent::Done => approve(
                        applicant,
                        config,
                        ApprovalStage::PostingVerified,
                        String::new(),
                    ),
                    VerifyEvent::ActionFailed(error) => approve(
                        applicant,
                        config,
                        ApprovalStage::PostingGrantFailure,
                        error.message,
                    ),
                    _ => approve(
                        applicant,
                        config,
                        ApprovalStage::PostingGrantFailure,
                        String::new(),
                    ),
                },
                ApprovalStage::PostingVerified => approve(
                    applicant,
                    config,
                    ApprovalStage::Replying,
                    String::new(),
                ),
                ApprovalStage::PostingGrantFailure => refuse(
                    applicant,
                    VerifyOutcome::GrantFailed,
                    grant_error_message(),
                ),
                ApprovalStage::Replying => finish(applicant, VerifyOutcome::AutoApproved),
            },
            VerifyProgress::Issuing { log_channel_id, issuer } => {
                let said = issue_event(issuer.stage, &event);
                let (issuer, action) = issuer.advance_with(said, fresh);
                issue(applicant, log_channel_id, issuer, action)
            },
            VerifyProgress::Announcing { log_channel_id, ticket, announce: stage } => match stage {
                AnnounceStage::Replying => announce(
                    applicant,
                    log_channel_id,
                    ticket,
                    AnnounceStage::ResolvingChannel,
                ),
                AnnounceStage::ResolvingChannel => {
                    if is_done(&event) {
                        announce(applicant, log_channel_id, ticket, AnnounceStage::Posting)
                    } else {
                        finish(applicant, VerifyOutcome::TicketIssued)
                    }
                },
                AnnounceStage::Posting => finish(applicant, VerifyOutcome::TicketIssued),
            },
            VerifyProgress::Refusing { outcome } => finish(applicant, outcome),
            VerifyProgress::Finished { outcome } => finish(applicant, outcome),
        }
    }

    /// Whether nothing is left to do.
    pub fn is_finished(&self) -> (finished: bool)
        ensures
            finished == (self@.progress is Finished),
    {
        match &self.progress {
            VerifyProgress::Finished { .. } => true,
            _ => false,
        }
    }
}

/// Where the command stands after `inputs`, from where `flow` stands. Each
/// input is an event and the code that was drawn for the step.
pub open spec fn flow_after(
    flow: VerifyFlowView,
    inputs: Seq<(VerifyEventView, Seq<char>)>,
) -> VerifyFlowView
    decreases inputs.len(),
{
    if inputs.len() == 0 {
        flow
    } else {
        flow_step(flow_after(flow, inputs.drop_last()), inputs.last().0, inputs.last().1).0
    }
}

/// The actions that the command hands out, one in answer to each of
/// `inputs`, from where `flow` stands.
pub open spec fn flow_run(flow: VerifyFlowView, inputs: Seq<(VerifyEventView, Seq<char>)>) -> Seq<
    VerifyActionView,
> {
    Seq::new(
        inputs.len(),
        |i: int| flow_step(flow_after(flow, inputs.take(i)), inputs[i].0, inputs[i].1).1,
    )
}

/// Whether `action` touches a ticket in the store.
pub open spec fn touches_ticket(action: VerifyActionView) -> bool {
    action is Probe || action is Persist
}

/// Whether `action` does anything to the outside but answer the member.
pub open spec fn acts_outside(action: VerifyActionView) -> bool {
    !(action is Reply) && !(action is Finish)
}

/// From these states on, no ticket is touched.
spec fn past_tickets(progress: VerifyProgressView) -> bool {
    progress is Approving || progress is Refusing || progress is Finished
}

/// From these states on, no role is granted.
spec fn past_grants(progress: VerifyProgressView) -> bool {
    !(progress is Approving)
}

/// From these states on, nothing is done but to end.
spec fn past_acting(progress: VerifyProgressView) -> bool {
    progress is Refusing || progress is Finished
}

proof fn lemma_past_stays_past(flow: VerifyFlowView, inputs: Seq<(VerifyEventView, Seq<char>)>)
    ensures
        past_tickets(flow.progress) ==> past_tickets(flow_after(flow, inputs).progress),
        past_grants(flow.progress) ==> past_grants(flow_after(flow, inputs).progress),
        past_acting(flow.progress) ==> past_acting(flow_after(flow, inputs).progress),
        flow_after(flow, inputs).applicant == flow.applicant,
    decreases inputs.len(),
{
    if inputs.len() > 0 {
        lemma_past_stays_past(flow, inputs.drop_last());
    }
}

/// An account that is old enough gets no ticket: the command begins by
/// looking up the log channel, and at no step does it probe the store or
/// write to it.
pub proof fn lemma_old_account_gets_no_ticket(
    request: VerifyRequestView,
    frontend_base: Seq<char>,
    code: Seq<char>,
    inputs: Seq<(VerifyEventView, Seq<char>)>,
    i: int,
)
    requires
        request_decision(request) matches Ok(decided) && decided.1 is AutoApprove,
        0 <= i < inputs.len(),
    ensures
        flow_begin(request, frontend_base, code).1 == (VerifyActionView::ResolveChannel {
            channel_id: request_decision(request)->Ok_0.0.log_channel_id,
        }),
        !touches_ticket(flow_run(flow_begin(request, frontend_base, code).0, inputs)[i]),
{
    let start = flow_begin(request, frontend_base, code).0;
    lemma_past_stays_past(start, inputs.take(i));
}

/// An account that is too young is not given the role by the command: it
/// begins by probing the store for the code of a ticket, and at no step
/// does it grant a role.
pub proof fn lemma_young_account_gets_no_role(
    request: VerifyRequestView,
    frontend_base: Seq<char>,
    code: Seq<char>,
    inputs: Seq<(VerifyEventView, Seq<char>)>,
    i: int,
)
    requires
        request_decision(request) matches Ok(decided) && decided.1 is NeedsVerification,
        0 <= i < inputs.len(),
    ensures
        flow_begin(request, frontend_base, code).1 == (VerifyActionView::Probe {
            key: crate::ticket::ticket_key_of(code),
        }),
        !(flow_run(flow_begin(request, frontend_base, code).0, inputs)[i] is GrantRole),
{
    let start = flow_begin(request, frontend_base, code).0;
    lemma_past_stays_past(start, inputs.take(i));
}

/// Settings that are missing or cannot be worked with fail the command with
/// nothing done: the member is told why, and every step after that only
/// ends the command.
pub proof fn lemma_bad_settings_do_nothing(
    request: VerifyRequestView,
    frontend_base: Seq<char>,
    code: Seq<char>,
    inputs: Seq<(VerifyEventView, Seq<char>)>,
    i: int,
)
    requires
        request_decision(request) is Err,
        0 <= i < inputs.len(),
    ensures
        ({
            let e = request_decision(request)->Err_0;
            &&& flow_begin(request, frontend_base, code).1 == (VerifyActionView::Reply {
                reply: UserReplyView::Refused { message: config_error_text(e) },
            })
            &&& flow_run(flow_begin(request, frontend_base, code).0, inputs)[i]
                == (VerifyActionView::Finish { outcome: VerifyOutcome::Refused(e) })
        }),
{
    let start = flow_begin(request, frontend_base, code).0;
    lemma_refusal_lasts(start, inputs.take(i));
}

/// Once the member is being told that the command failed, the command only
/// ends, and ends as it was failing.
proof fn lemma_refusal_lasts(flow: VerifyFlowView, inputs: Seq<(VerifyEventView, Seq<char>)>)
    requires
        flow.progress is Refusing,
    ensures
        inputs.len() == 0 ==> flow_after(flow, inputs) == flow,
        inputs.len() > 0 ==> flow_after(flow, inputs) == (VerifyFlowView {
            applicant: flow.applicant,
            progress: VerifyProgressView::Finished { outcome: flow.progress->Refusing_outcome },
        }),
    decreases inputs.len(),
{
    if inputs.len() > 0 {
        lemma_refusal_lasts(flow, inputs.drop_last());
    }
}

/// A store that does not answer leaves no ticket behind: where the probe or
/// the write fails, the member is told so and the command does nothing more
/// to the outside.
pub proof fn lemma_store_failure_issues_nothing(
    flow: VerifyFlowView,
    event: VerifyEventView,
    fresh: Seq<char>,
    inputs: Seq<(VerifyEventView, Seq<char>)>,
    i: int,
)
    requires
        flow.progress matches VerifyProgressView::Issuing { issuer, .. } && (issuer.stage is Probing
            || issuer.stage is Persisting) && issue_event_of(issuer.stage, event)
            is StoreFailed,
        0 <= i < inputs.len(),
    ensures
        flow_step(flow, event, fresh).1 == (VerifyActionView::Reply {
            reply: UserReplyView::Refused { message: store_error_text() },
        }),
        !acts_outside(flow_run(flow_step(flow, event, fresh).0, inputs)[i]),
{
    let failed = flow_step(flow, event, fresh).0;
    lemma_past_stays_past(failed, inputs.take(i));
}

/// The most steps that the command may still take from where it stands, as
/// long as no code that is probed is taken.
spec fn flow_steps_left(progress: VerifyProgressView) -> nat {
    match progress {
        VerifyProgressView::Approving { stage, .. } => match stage {
            ApprovalStage::ResolvingChannel => 5,
            ApprovalStage::Granting => 4,
            ApprovalStage::PostingVerified => 3,
            ApprovalStage::PostingGrantFailure => 3,
            ApprovalStage::Replying => 2,
        },
        VerifyProgressView::Issuing { issuer, .. } => match issuer.stage {
            IssuerStage::Probing => 6,
            IssuerStage::Persisting => 5,
            IssuerStage::Issued => 5,
            IssuerStage::Failed => 3,
        },
        VerifyProgressView::Announcing { announce, .. } => match announce {
            AnnounceStage::Replying => 4,
            AnnounceStage::ResolvingChannel => 3,
            AnnounceStage::Posting => 2,
        },
        VerifyProgressView::Refusing { .. } => 2,
        VerifyProgressView::Finished { .. } => 1,
    }
}

proof fn lemma_flow_nears_end(flow: VerifyFlowView, inputs: Seq<(VerifyEventView, Seq<char>)>)
    requires
        forall|i: int| 0 <= i < inputs.len() ==> !(#[trigger] inputs[i].0 is Occupied),
    ensures
        flow_steps_left(flow_after(flow, inputs).progress) + inputs.len() <= flow_steps_left(
            flow.progress,
        ) || flow_after(flow, inputs).progress is Finished,
    decreases inputs.len(),
{
    if inputs.len() > 0 {
        let before = inputs.drop_last();
        assert forall|i: int| 0 <= i < before.len() implies !(#[trigger] before[i].0
            is Occupied) by {
            assert(before[i] == inputs[i]);
        }
        lemma_flow_nears_end(flow, before);
        assert(!(inputs[inputs.len() - 1].0 is Occupied));
    }
}

/// The command always ends, unless code after code is taken: as long as no
/// probe finds its code taken, nothing is left to do after six events.
pub proof fn lemma_flow_ends(flow: VerifyFlowView, inputs: Seq<(VerifyEventView, Seq<char>)>)
    requires
        forall|i: int| 0 <= i < inputs.len() ==> !(#[trigger] inputs[i].0 is Occupied),
        inputs.len() >= 6,
    ensures
        flow_after(flow, inputs).progress is Finished,
{
    lemma_flow_nears_end(flow, inputs);
}

} // verus!
