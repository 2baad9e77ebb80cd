use openaltid::audit::{expiry_text, mention, score_text, AuditColour, AuditEntry, AuditField};

fn line(name: &str, value: &str) -> AuditField {
    AuditField { name: name.to_string(), value: value.to_string() }
}

#[test]
fn passed_entry_shows_user_and_score() {
    let entry = AuditEntry::VerificationPassed { user_id: 42, score: 92, minscore: 60 };
    assert_eq!(entry.title(), "Verification Passed");
    assert_eq!(entry.description(), "The user passed verification.");
    assert_eq!(entry.colour(), AuditColour::Blue);
    assert_eq!(entry.user_id(), 42);
    assert_eq!(
        entry.fields(),
        vec![line("User Mention", "<@42>"), line("User ID", "42"), line("Score", "92/60")]
    );
}

#[test]
fn failed_entry_shows_user_and_score() {
    let entry = AuditEntry::VerificationFailed { user_id: 42, score: 10, minscore: 50 };
    assert_eq!(entry.title(), "Verification Failed");
    assert_eq!(entry.description(), "The user did not pass verification.");
    assert_eq!(entry.colour(), AuditColour::Orange);
    assert_eq!(
        entry.fields(),
        vec![line("User Mention", "<@42>"), line("User ID", "42"), line("Score", "10/50")]
    );
}

#[test]
fn errored_entry_shows_the_reason_as_it_came() {
    let entry = AuditEntry::VerificationErrored { user_id: 42, reason: "bad_input".to_string() };
    assert_eq!(entry.title(), "Verification Failed");
    assert_eq!(entry.description(), "The user could not be verified.");
    assert_eq!(entry.colour(), AuditColour::Red);
    assert_eq!(
        entry.fields(),
        vec![line("User Mention", "<@42>"), line("User ID", "42"), line("Reason", "bad_input")]
    );
}

#[test]
fn grant_failure_entry_leads_with_the_error() {
    let entry = AuditEntry::GrantFailed {
        user_id: 42,
        score: 92,
        minscore: 60,
        error: "Missing Permissions".to_string(),
    };
    assert_eq!(entry.title(), "Error during verification!");
    assert_eq!(entry.colour(), AuditColour::DarkRed);
    assert_eq!(
        entry.description(),
        "The role could not be added to the user and will need to be added manually.\n\n The user did however pass verification successfully."
    );
    assert_eq!(
        entry.fields(),
        vec![
            line("Error Message", "Missing Permissions"),
            line("User Mention", "<@42>"),
            line("User ID", "42"),
            line("Score", "92/60"),
        ]
    );
}

#[test]
fn auto_approval_entry_notes_the_skip() {
    let entry = AuditEntry::UserVerified { user_id: 7 };
    assert_eq!(entry.title(), "User Verified");
    assert_eq!(entry.description(), "Above min age, automatically skipped verification.");
    assert_eq!(entry.colour(), AuditColour::Blue);
    assert_eq!(entry.fields(), vec![line("User Mention", "<@7>"), line("User ID", "7")]);
}

#[test]
fn auto_grant_failure_entry_leads_with_the_error() {
    let entry = AuditEntry::AutoGrantFailed { user_id: 7, error: "boom".to_string() };
    assert_eq!(entry.title(), "Error during verification!");
    assert_eq!(entry.colour(), AuditColour::DarkRed);
    assert!(entry.description().ends_with("(auto-verified due to account age)"));
    assert_eq!(
        entry.fields(),
        vec![line("Error Message", "boom"), line("User Mention", "<@7>"), line("User ID", "7")]
    );
}

#[test]
fn started_entry_shows_link_and_expiry() {
    let entry = AuditEntry::VerificationStarted {
        user_id: 7,
        link: "https://host/verify?code=AbCdEf1234".to_string(),
        expires_at: 1_700_000_900,
    };
    assert_eq!(entry.title(), "Verification Started");
    assert_eq!(entry.description(), "The user has initiated verification,");
    assert_eq!(entry.colour(), AuditColour::Gold);
    assert_eq!(
        entry.fields(),
        vec![
            line("User Mention", "<@7>"),
            line("User ID", "7"),
            line("Link Provided", "https://host/verify?code=AbCdEf1234"),
            line("Expires In", "<t:1700000900:R>"),
        ]
    );
}

#[test]
fn texts_are_put_together_from_numbers() {
    assert_eq!(mention(155149108183695360), "<@155149108183695360>");
    assert_eq!(score_text(92, 60), "92/60");
    assert_eq!(score_text(-5, 0), "-5/0");
    assert_eq!(score_text(i64::MIN, i64::MAX), "-9223372036854775808/9223372036854775807");
    assert_eq!(expiry_text(0), "<t:0:R>");
    assert_eq!(expiry_text(-1), "<t:-1:R>");
}
