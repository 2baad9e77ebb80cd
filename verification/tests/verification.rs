use openaltid::audit::AuditEntry;
use openaltid::config::StoredSettings;
use openaltid::error::{ConfigError, ExternalActionError};
use openaltid::ticket::{is_valid_code, TicketCode};
use openaltid::verification::{
    UserReply, VerifyAction, VerifyEvent, VerifyFlow, VerifyOutcome, VerifyRequest,
};

const DAY: i64 = 86400;
const NOW: i64 = 1_700_000_000;
const USER: u64 = 155149108183695360;
const GUILD: u64 = 416407744246054912;

fn request(age_days: i64) -> VerifyRequest {
    VerifyRequest {
        user_id: USER,
        guild_id: GUILD,
        created_at: NOW - age_days * DAY,
        now: NOW,
        settings: Some(StoredSettings {
            verification_age: 30,
            verification_role_id: "123".to_string(),
            verification_logs_channel_id: "456".to_string(),
        }),
    }
}

fn code(text: &str) -> TicketCode {
    TicketCode::parse(text).unwrap()
}

fn run(age_days: i64, events: Vec<VerifyEvent>) -> Vec<VerifyAction> {
    let (mut flow, first) =
        VerifyFlow::begin_with(request(age_days), "https://host".to_string(), code("AbCdEf1234"));
    let mut actions = vec![first];
    for event in events {
        let (next, action) = flow.advance_with(event, code("Zz00000000"));
        flow = next;
        actions.push(action);
    }
    actions
}

fn failed(text: &str) -> VerifyEvent {
    VerifyEvent::ActionFailed(ExternalActionError { message: text.to_string() })
}

fn refused(message: &str) -> VerifyAction {
    VerifyAction::Reply { reply: UserReply::Refused { message: message.to_string() } }
}

#[test]
fn old_account_is_given_the_role_and_no_ticket() {
    let actions = run(40, vec![VerifyEvent::Done; 4]);
    assert_eq!(
        actions,
        vec![
            VerifyAction::ResolveChannel { channel_id: 456 },
            VerifyAction::GrantRole { guild_id: GUILD, user_id: USER, role_id: 123 },
            VerifyAction::PostAudit {
                channel_id: 456,
                entry: AuditEntry::UserVerified { user_id: USER },
            },
            VerifyAction::Reply { reply: UserReply::AutoVerified },
            VerifyAction::Finish { outcome: VerifyOutcome::AutoApproved },
        ]
    );
}

#[test]
fn young_account_gets_a_ticket_and_its_link() {
    let mut events = vec![VerifyEvent::Vacant];
    events.extend(vec![VerifyEvent::Done; 4]);
    let actions = run(5, events);
    assert_eq!(
        actions,
        vec![
            VerifyAction::Probe { key: "uuid:AbCdEf1234".to_string() },
            VerifyAction::Persist {
                key: "uuid:AbCdEf1234".to_string(),
                value: format!("{}:{}", USER, GUILD),
                ttl_secs: 900,
            },
            VerifyAction::Reply {
                reply: UserReply::Initiated {
                    link: "https://host/verify?code=AbCdEf1234".to_string(),
                },
            },
            VerifyAction::ResolveChannel { channel_id: 456 },
            VerifyAction::PostAudit {
                channel_id: 456,
                entry: AuditEntry::VerificationStarted {
                    user_id: USER,
                    link: "https://host/verify?code=AbCdEf1234".to_string(),
                    expires_at: NOW + 900,
                },
            },
            VerifyAction::Finish { outcome: VerifyOutcome::TicketIssued },
        ]
    );
}

#[test]
fn account_at_the_threshold_is_let_in() {
    assert_eq!(run(30, vec![])[0], VerifyAction::ResolveChannel { channel_id: 456 });
    assert_eq!(run(29, vec![])[0], VerifyAction::Probe { key: "uuid:AbCdEf1234".to_string() });
    assert_eq!(run(31, vec![])[0], VerifyAction::ResolveChannel { channel_id: 456 });
}

#[test]
fn taken_code_is_drawn_again_in_the_command() {
    let actions = run(5, vec![VerifyEvent::Occupied, VerifyEvent::Vacant]);
    assert_eq!(actions[1], VerifyAction::Probe { key: "uuid:Zz00000000".to_string() });
    assert_eq!(
        actions[2],
        VerifyAction::Persist {
            key: "uuid:Zz00000000".to_string(),
            value: format!("{}:{}", USER, GUILD),
            ttl_secs: 900,
        }
    );
}

#[test]
fn command_draws_its_codes_at_random() {
    let (flow, action) = VerifyFlow::begin(request(5), "https://host".to_string());
    let first = match action {
        VerifyAction::Probe { key } => key,
        other => panic!("{:?}", other),
    };
    assert!(first.starts_with("uuid:") && is_valid_code(&first[5..]));
    let (flow, action) = flow.advance(VerifyEvent::Occupied);
    let second = match action {
        VerifyAction::Probe { key } => key,
        other => panic!("{:?}", other),
    };
    assert!(second.starts_with("uuid:") && is_valid_code(&second[5..]));
    assert_ne!(first, second);
    let (flow, action) = flow.advance(VerifyEvent::Vacant);
    match action {
        VerifyAction::Persist { key, ttl_secs, .. } => {
            assert_eq!(key, second);
            assert_eq!(ttl_secs, 900);
        }
        other => panic!("{:?}", other),
    }
    let (_, action) = flow.advance(VerifyEvent::Done);
    assert_eq!(
        action,
        VerifyAction::Reply {
            reply: UserReply::Initiated {
                link: format!("https://host/verify?code={}", &second[5..]),
            },
        }
    );
}

#[test]
fn threshold_that_cannot_be_counted_refuses_the_command() {
    let mut bad = request(5);
    bad.settings.as_mut().unwrap().verification_age = u64::MAX;
    let (flow, action) =
        VerifyFlow::begin_with(bad, "https://host".to_string(), code("AbCdEf1234"));
    assert_eq!(
        action,
        refused("This server's database is not properly configured, failed to convert age.")
    );
    let (flow, action) = flow.advance(VerifyEvent::Done);
    assert_eq!(
        action,
        VerifyAction::Finish { outcome: VerifyOutcome::Refused(ConfigError::AgeThreshold) }
    );
    assert!(flow.is_finished());
}

#[test]
fn settings_that_cannot_be_read_refuse_the_command() {
    let mut bad = request(40);
    bad.settings = None;
    let (flow, action) =
        VerifyFlow::begin_with(bad, "https://host".to_string(), code("AbCdEf1234"));
    assert_eq!(action, refused("This server has no settings in the database."));
    let (_, action) = flow.advance(VerifyEvent::Done);
    assert_eq!(
        action,
        VerifyAction::Finish { outcome: VerifyOutcome::Refused(ConfigError::Missing) }
    );
    let mut bad = request(40);
    bad.settings.as_mut().unwrap().verification_role_id = "none".to_string();
    let (_, action) =
        VerifyFlow::begin_with(bad, "https://host".to_string(), code("AbCdEf1234"));
    assert_eq!(
        action,
        refused("This server's database is not properly configured, failed to read the verification role.")
    );
    let mut bad = request(5);
    bad.settings.as_mut().unwrap().verification_logs_channel_id = "".to_string();
    let (_, action) =
        VerifyFlow::begin_with(bad, "https://host".to_string(), code("AbCdEf1234"));
    assert_eq!(
        action,
        refused("This server's database is not properly configured, failed to read the log channel.")
    );
}

#[test]
fn store_that_does_not_answer_refuses_the_command() {
    let message = "The verification service is unavailable at the moment, please try again later.";
    let actions = run(5, vec![VerifyEvent::StoreFailed, VerifyEvent::Done]);
    assert_eq!(actions[1], refused(message));
    assert_eq!(actions[2], VerifyAction::Finish { outcome: VerifyOutcome::StoreUnavailable });
    let actions = run(5, vec![VerifyEvent::Vacant, VerifyEvent::StoreFailed, VerifyEvent::Done]);
    assert_eq!(actions[2], refused(message));
    assert_eq!(actions[3], VerifyAction::Finish { outcome: VerifyOutcome::StoreUnavailable });
    assert!(actions.iter().all(|a| !matches!(a, VerifyAction::PostAudit { .. })));
}

#[test]
fn failed_grant_is_told_to_the_log_channel_and_to_the_member() {
    let actions = run(
        40,
        vec![VerifyEvent::Done, failed("Missing Permissions"), VerifyEvent::Done, VerifyEvent::Done],
    );
    assert_eq!(
        actions[2],
        VerifyAction::PostAudit {
            channel_id: 456,
            entry: AuditEntry::AutoGrantFailed {
                user_id: USER,
                error: "Missing Permissions".to_string(),
            },
        }
    );
    assert_eq!(
        actions[3],
        refused("You skipped verification, but the role could not be added to you. The server staff will need to add it manually.")
    );
    assert_eq!(actions[4], VerifyAction::Finish { outcome: VerifyOutcome::GrantFailed });
}

#[test]
fn old_account_without_a_log_channel_is_not_given_the_role() {
    let actions = run(40, vec![failed("Unknown Channel"), VerifyEvent::Done]);
    assert_eq!(
        actions[1],
        refused("Something went wrong during verification, please contact the server staff.")
    );
    assert_eq!(actions[2], VerifyAction::Finish { outcome: VerifyOutcome::Abandoned });
}

#[test]
fn ticket_stands_without_a_log_channel() {
    let actions = run(
        5,
        vec![VerifyEvent::Vacant, VerifyEvent::Done, VerifyEvent::Done, failed("Unknown Channel")],
    );
    assert_eq!(actions[4], VerifyAction::Finish { outcome: VerifyOutcome::TicketIssued });
    let actions = run(
        5,
        vec![
            VerifyEvent::Vacant,
            VerifyEvent::Done,
            failed("reply lost"),
            VerifyEvent::Done,
            failed("cannot post"),
        ],
    );
    assert_eq!(actions[5], VerifyAction::Finish { outcome: VerifyOutcome::TicketIssued });
}

#[test]
fn finished_command_stays_finished() {
    let (flow, _) =
        VerifyFlow::begin_with(request(40), "https://host".to_string(), code("AbCdEf1234"));
    let mut flow = flow;
    let mut last = None;
    for _ in 0..8 {
        let (next, action) = flow.advance(VerifyEvent::Done);
        flow = next;
        last = Some(action);
    }
    assert_eq!(last, Some(VerifyAction::Finish { outcome: VerifyOutcome::AutoApproved }));
    assert!(flow.is_finished());
}

#[test]
fn command_ends_within_six_events_unless_codes_are_taken() {
    let events = [VerifyEvent::Done, VerifyEvent::Vacant, VerifyEvent::StoreFailed];
    let n = events.len();
    for age_days in [5, 40] {
        for code in 0..n.pow(6) {
            let (mut flow, _) = VerifyFlow::begin_with(
                request(age_days),
                "https://host".to_string(),
                TicketCode::parse("AbCdEf1234").unwrap(),
            );
            let mut rest = code;
            for _ in 0..6 {
                let (next, _) = flow.advance(events[rest % n].clone());
                flow = next;
                rest /= n;
            }
            assert!(flow.is_finished());
        }
    }
}

#[test]
fn command_keeps_probing_while_codes_are_taken() {
    let (mut flow, _) = VerifyFlow::begin_with(
        request(5),
        "https://host".to_string(),
        TicketCode::parse("AbCdEf1234").unwrap(),
    );
    for _ in 0..50 {
        let (next, action) = flow.advance(VerifyEvent::Occupied);
        flow = next;
        assert!(matches!(action, VerifyAction::Probe { .. }));
    }
    assert!(!flow.is_finished());
}
