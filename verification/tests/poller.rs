use openaltid::audit::AuditEntry;
use openaltid::config::{GuildVerificationConfig, StoredSettings};
use openaltid::error::{ExternalActionError, MalformedMarkerError};
use openaltid::marker::{CompletionMarker, MarkerOutcome};
use openaltid::poller::{
    Disposition, EarlyStage, LateStage, MarkerJob, PollAction, PollEvent, Progress,
    POLL_INTERVAL_SECS,
};

const USER: u64 = 155149108183695360;
const GUILD: u64 = 416407744246054912;
const ROLE: u64 = 123;
const CHANNEL: u64 = 456;

fn key() -> String {
    format!("complete:{}:{}", USER, GUILD)
}

fn config() -> GuildVerificationConfig {
    GuildVerificationConfig {
        age_threshold_days: 30,
        verification_role_id: ROLE,
        log_channel_id: CHANNEL,
    }
}

fn settings() -> PollEvent {
    PollEvent::Settings(Some(StoredSettings {
        verification_age: 30,
        verification_role_id: ROLE.to_string(),
        verification_logs_channel_id: CHANNEL.to_string(),
    }))
}

/// Feeds `events` to a fresh job for the usual key and collects what it asks for.
fn run(events: Vec<PollEvent>) -> (MarkerJob, Vec<PollAction>) {
    let (mut job, first) = MarkerJob::start(key());
    let mut actions = vec![first];
    for event in events {
        let (next, action) = job.advance(event);
        job = next;
        actions.push(action);
    }
    (job, actions)
}

fn value(text: &str) -> PollEvent {
    PollEvent::Value(text.to_string())
}

fn failed(text: &str) -> PollEvent {
    PollEvent::ActionFailed(ExternalActionError { message: text.to_string() })
}

fn finish(disposition: Disposition) -> PollAction {
    PollAction::Finish { disposition }
}

#[test]
fn job_begins_by_asking_for_the_value() {
    let (job, action) = MarkerJob::start(key());
    assert_eq!(action, PollAction::FetchValue { key: key() });
    assert_eq!(job.progress, Progress::Fetching);
    assert!(!job.is_finished());
}

#[test]
fn passed_marker_grants_posts_and_is_removed() {
    let (job, actions) = run(vec![
        value("true:92:60"),
        PollEvent::Done,
        PollEvent::Done,
        settings(),
        PollEvent::Done,
        PollEvent::Done,
        PollEvent::Done,
        PollEvent::Done,
    ]);
    assert_eq!(
        actions,
        vec![
            PollAction::FetchValue { key: key() },
            PollAction::ResolveGuild { guild_id: GUILD },
            PollAction::ResolveMember { guild_id: GUILD, user_id: USER },
            PollAction::LoadConfig { guild_id: GUILD },
            PollAction::ResolveChannel { channel_id: CHANNEL },
            PollAction::GrantRole { guild_id: GUILD, user_id: USER, role_id: ROLE },
            PollAction::PostAudit {
                channel_id: CHANNEL,
                entry: AuditEntry::VerificationPassed { user_id: USER, score: 92, minscore: 60 },
            },
            PollAction::DeleteMarker { key: key() },
            finish(Disposition::Completed),
        ]
    );
    assert!(job.is_finished());
}

#[test]
fn failed_marker_is_removed_then_posted_without_a_grant() {
    let (_, actions) = run(vec![
        value("false:10:50"),
        PollEvent::Done,
        settings(),
        PollEvent::Done,
        PollEvent::Done,
        PollEvent::Done,
    ]);
    assert_eq!(
        actions,
        vec![
            PollAction::FetchValue { key: key() },
            PollAction::ResolveMember { guild_id: GUILD, user_id: USER },
            PollAction::LoadConfig { guild_id: GUILD },
            PollAction::DeleteMarker { key: key() },
            PollAction::ResolveChannel { channel_id: CHANNEL },
            PollAction::PostAudit {
                channel_id: CHANNEL,
                entry: AuditEntry::VerificationFailed { user_id: USER, score: 10, minscore: 50 },
            },
            finish(Disposition::Completed),
        ]
    );
    assert!(actions.iter().all(|a| !matches!(a, PollAction::GrantRole { .. })));
}

#[test]
fn errored_marker_is_removed_then_posted_with_its_reason() {
    let (_, actions) = run(vec![
        value("error:bad_input"),
        PollEvent::Done,
        settings(),
        PollEvent::Done,
        PollEvent::Done,
        PollEvent::Done,
    ]);
    assert_eq!(
        actions,
        vec![
            PollAction::FetchValue { key: key() },
            PollAction::ResolveMember { guild_id: GUILD, user_id: USER },
            PollAction::LoadConfig { guild_id: GUILD },
            PollAction::ResolveChannel { channel_id: CHANNEL },
            PollAction::DeleteMarker { key: key() },
            PollAction::PostAudit {
                channel_id: CHANNEL,
                entry: AuditEntry::VerificationErrored {
                    user_id: USER,
                    reason: "bad_input".to_string(),
                },
            },
            finish(Disposition::Completed),
        ]
    );
    match &actions[5] {
        PollAction::PostAudit { entry, .. } => {
            assert_eq!(entry.title(), "Verification Failed");
            let reason = entry.fields().into_iter().find(|f| f.name == "Reason").unwrap();
            assert_eq!(reason.value, "bad_input");
        }
        other => panic!("{:?}", other),
    }
}

#[test]
fn failed_grant_is_told_to_the_log_channel_and_the_marker_still_removed() {
    let (_, actions) = run(vec![
        value("true:92:60"),
        PollEvent::Done,
        PollEvent::Done,
        settings(),
        PollEvent::Done,
        failed("Missing Permissions"),
        PollEvent::Done,
        PollEvent::Done,
    ]);
    assert_eq!(
        actions[6],
        PollAction::PostAudit {
            channel_id: CHANNEL,
            entry: AuditEntry::GrantFailed {
                user_id: USER,
                score: 92,
                minscore: 60,
                error: "Missing Permissions".to_string(),
            },
        }
    );
    assert_eq!(actions[7], PollAction::DeleteMarker { key: key() });
    assert_eq!(actions[8], finish(Disposition::Completed));
}

#[test]
fn audit_entry_that_cannot_be_posted_holds_nothing_up() {
    let (_, actions) = run(vec![
        value("true:92:60"),
        PollEvent::Done,
        PollEvent::Done,
        settings(),
        PollEvent::Done,
        PollEvent::Done,
        failed("Cannot send messages"),
        PollEvent::Done,
    ]);
    assert_eq!(actions[7], PollAction::DeleteMarker { key: key() });
    assert_eq!(actions[8], finish(Disposition::Completed));
    let (_, actions) = run(vec![
        value("false:10:50"),
        PollEvent::Done,
        settings(),
        PollEvent::Done,
        PollEvent::Done,
        failed("Cannot send messages"),
    ]);
    assert_eq!(actions[6], finish(Disposition::Completed));
}

#[test]
fn failed_marker_of_a_member_who_left_is_removed_and_nothing_else() {
    let (_, actions) = run(vec![value("false:10:50"), failed("Unknown Member"), PollEvent::Done]);
    assert_eq!(
        actions,
        vec![
            PollAction::FetchValue { key: key() },
            PollAction::ResolveMember { guild_id: GUILD, user_id: USER },
            PollAction::DeleteMarker { key: key() },
            finish(Disposition::Discarded),
        ]
    );
    let (_, actions) =
        run(vec![value("false:10:50"), failed("Unknown Member"), PollEvent::StoreFailed]);
    assert_eq!(actions[3], finish(Disposition::Abandoned { claimed: false }));
}

#[test]
fn passed_or_errored_marker_of_a_member_who_left_is_kept() {
    for text in ["true:92:60", "error:bad_input"] {
        let mut events = vec![value(text)];
        if text.starts_with("true") {
            events.push(PollEvent::Done);
        }
        events.push(failed("Unknown Member"));
        let (_, actions) = run(events);
        assert_eq!(
            actions.last(),
            Some(&finish(Disposition::Abandoned { claimed: false })),
            "{}",
            text
        );
        assert!(actions.iter().all(|a| !matches!(a, PollAction::DeleteMarker { .. })));
    }
}

#[test]
fn failure_of_a_lookup_abandons_the_key() {
    let (_, actions) = run(vec![value("true:92:60"), failed("no guild")]);
    assert_eq!(actions[2], finish(Disposition::Abandoned { claimed: false }));
    let (_, actions) =
        run(vec![value("true:92:60"), PollEvent::Done, PollEvent::Done, failed("db")]);
    assert_eq!(actions[4], finish(Disposition::Abandoned { claimed: false }));
    let (_, actions) = run(vec![
        value("true:92:60"),
        PollEvent::Done,
        PollEvent::Done,
        settings(),
        failed("no channel"),
    ]);
    assert_eq!(actions[5], finish(Disposition::Abandoned { claimed: false }));
    assert!(actions.iter().all(|a| !matches!(a, PollAction::GrantRole { .. })));
}

#[test]
fn community_without_readable_settings_abandons_the_key() {
    let (_, actions) =
        run(vec![value("true:92:60"), PollEvent::Done, PollEvent::Done, PollEvent::Settings(None)]);
    assert_eq!(actions[4], finish(Disposition::Abandoned { claimed: false }));
    let unreadable = PollEvent::Settings(Some(StoredSettings {
        verification_age: 30,
        verification_role_id: "R123".to_string(),
        verification_logs_channel_id: "456".to_string(),
    }));
    let (_, actions) = run(vec![value("false:10:50"), PollEvent::Done, unreadable]);
    assert_eq!(actions[3], finish(Disposition::Abandoned { claimed: false }));
    assert!(actions.iter().all(|a| !matches!(a, PollAction::DeleteMarker { .. })));
}

#[test]
fn failed_marker_that_loses_its_channel_after_removal_is_abandoned_as_claimed() {
    let (_, actions) = run(vec![
        value("false:10:50"),
        PollEvent::Done,
        settings(),
        PollEvent::Done,
        failed("no channel"),
    ]);
    assert_eq!(actions[5], finish(Disposition::Abandoned { claimed: true }));
}

#[test]
fn marker_that_cannot_be_removed_is_abandoned() {
    let (_, actions) = run(vec![
        value("error:bad_input"),
        PollEvent::Done,
        settings(),
        PollEvent::Done,
        PollEvent::StoreFailed,
    ]);
    assert_eq!(actions[5], finish(Disposition::Abandoned { claimed: false }));
    assert!(actions.iter().all(|a| !matches!(a, PollAction::PostAudit { .. })));
}

#[test]
fn key_without_a_value_is_skipped() {
    let (_, actions) = run(vec![PollEvent::Absent]);
    assert_eq!(actions[1], finish(Disposition::Skipped));
    let (_, actions) = run(vec![PollEvent::StoreFailed]);
    assert_eq!(actions[1], finish(Disposition::Skipped));
}

#[test]
fn value_with_an_unknown_tag_is_skipped() {
    let (_, actions) = run(vec![value("pending")]);
    assert_eq!(actions[1], finish(Disposition::Skipped));
}

#[test]
fn value_out_of_shape_is_malformed() {
    let (_, actions) = run(vec![value("true:92")]);
    assert_eq!(actions[1], finish(Disposition::Malformed(MalformedMarkerError::Value)));
    let (job, first) = MarkerJob::start("complete:abc:1".to_string());
    assert_eq!(first, PollAction::FetchValue { key: "complete:abc:1".to_string() });
    let (_, action) = job.advance(value("true:92:60"));
    assert_eq!(action, finish(Disposition::Malformed(MalformedMarkerError::Key)));
}

#[test]
fn job_takes_an_answer_to_another_question_as_failure() {
    let (_, actions) = run(vec![value("true:92:60"), settings()]);
    assert_eq!(actions[2], finish(Disposition::Abandoned { claimed: false }));
    let (_, actions) =
        run(vec![value("true:92:60"), PollEvent::Done, PollEvent::Done, PollEvent::Done]);
    assert_eq!(actions[4], finish(Disposition::Abandoned { claimed: false }));
    let (_, actions) = run(vec![
        value("true:92:60"),
        PollEvent::Done,
        PollEvent::Done,
        settings(),
        PollEvent::Done,
        PollEvent::Absent,
    ]);
    assert_eq!(
        actions[6],
        PollAction::PostAudit {
            channel_id: CHANNEL,
            entry: AuditEntry::GrantFailed {
                user_id: USER,
                score: 92,
                minscore: 60,
                error: String::new(),
            },
        }
    );
}

#[test]
fn finished_job_stays_finished() {
    let (job, _) = run(vec![PollEvent::Absent]);
    let (job, action) = job.advance(value("true:92:60"));
    assert_eq!(action, finish(Disposition::Skipped));
    assert_eq!(job.progress, Progress::Finished { disposition: Disposition::Skipped });
}

#[test]
fn no_effect_is_asked_for_twice_whatever_comes_in() {
    let events = [
        PollEvent::Done,
        PollEvent::Absent,
        settings(),
        PollEvent::StoreFailed,
        PollEvent::ActionFailed(ExternalActionError { message: "x".to_string() }),
        PollEvent::Value("true:1:2".to_string()),
        PollEvent::Value("false:1:2".to_string()),
        PollEvent::Value("error:why".to_string()),
    ];
    // every sequence of five events out of the seven
    let n = events.len();
    for code in 0..n.pow(5) {
        let mut picked = Vec::new();
        let mut rest = code;
        for _ in 0..5 {
            picked.push(events[rest % n].clone());
            rest /= n;
        }
        let (_, actions) = run(picked);
        let count = |wanted: fn(&PollAction) -> bool| actions.iter().filter(|a| wanted(a)).count();
        assert!(count(|a| matches!(a, PollAction::GrantRole { .. })) <= 1);
        assert!(count(|a| matches!(a, PollAction::PostAudit { .. })) <= 1);
        assert!(count(|a| matches!(a, PollAction::DeleteMarker { .. })) <= 1);
        assert!(count(|a| matches!(a, PollAction::FetchValue { .. })) == 1);
        assert!(count(|a| matches!(a, PollAction::EndPass { .. })) == 0);
    }
}

#[test]
fn job_ends_within_eight_events_whatever_comes_in() {
    let events = [
        PollEvent::Done,
        settings(),
        PollEvent::StoreFailed,
        PollEvent::ActionFailed(ExternalActionError { message: "x".to_string() }),
        PollEvent::Value("true:1:2".to_string()),
    ];
    let n = events.len();
    for code in 0..n.pow(8) {
        let mut picked = Vec::new();
        let mut rest = code;
        for _ in 0..8 {
            picked.push(events[rest % n].clone());
            rest /= n;
        }
        let (job, _) = run(picked);
        assert!(job.is_finished());
    }
}

#[test]
fn states_that_no_run_reaches_are_stepped_all_the_same() {
    let marker = CompletionMarker {
        user_id: USER,
        guild_id: GUILD,
        outcome: MarkerOutcome::Failed { score: 1, minscore: 2 },
    };
    let job = MarkerJob {
        key: key(),
        progress: Progress::Configured {
            marker: marker.clone(),
            config: config(),
            late_stage: LateStage::Granting,
        },
    };
    let (job, action) = job.advance(PollEvent::Done);
    assert_eq!(
        action,
        PollAction::PostAudit {
            channel_id: CHANNEL,
            entry: AuditEntry::VerificationFailed { user_id: USER, score: 1, minscore: 2 },
        }
    );
    let (_, action) = job.advance(PollEvent::Done);
    assert_eq!(action, finish(Disposition::Completed));
    let job = MarkerJob {
        key: key(),
        progress: Progress::Known { marker, stage: EarlyStage::ResolvingGuild },
    };
    let (_, action) = job.advance(PollEvent::Done);
    assert_eq!(action, PollAction::ResolveMember { guild_id: GUILD, user_id: USER });
}

#[test]
fn passes_are_five_seconds_apart() {
    assert_eq!(POLL_INTERVAL_SECS, 5);
}
