//! Audit entries: what is posted to the log channel of a community when
//! something happened to one of its members.

use vstd::prelude::*;
use crate::decimal::{decimal_digits, push_i64, push_u64, signed_digits, u64_to_decimal};

verus! {

/// The colour of the bar beside an audit entry.
#[derive(Clone, Copy, Debug, PartialEq, Eq, Structural)]
pub enum AuditColour {
    Blue,
    DarkRed,
    Gold,
    Orange,
    Red,
}

/// What is written to the log channel.
#[derive(Clone, Debug, PartialEq, Eq)]
pub enum AuditEntry {
    /// The account was old enough, and the role was granted at once.
    UserVerified { user_id: u64 },
    /// The account was old enough, but the role could not be granted.
    AutoGrantFailed { user_id: u64, error: String },
    /// A ticket was issued.
    VerificationStarted { user_id: u64, link: String, expires_at: i64 },
    /// The user passed, and the role was granted.
    VerificationPassed { user_id: u64, score: i64, minscore: i64 },
    /// The user passed, but the role could not be granted.
    GrantFailed { user_id: u64, score: i64, minscore: i64, error: String },
    /// The user did not reach the score.
    VerificationFailed { user_id: u64, score: i64, minscore: i64 },
    /// The user could not be scored.
    VerificationErrored { user_id: u64, reason: String },
}

/// An `AuditEntry` as a mathematical value.
pub enum AuditEntryView {
    UserVerified { user_id: u64 },
    AutoGrantFailed { user_id: u64, error: Seq<char> },
    VerificationStarted { user_id: u64, link: Seq<char>, expires_at: i64 },
    VerificationPassed { user_id: u64, score: i64, minscore: i64 },
    GrantFailed { user_id: u64, score: i64, minscore: i64, error: Seq<char> },
    VerificationFailed { user_id: u64, score: i64, minscore: i64 },
    VerificationErrored { user_id: u64, reason: Seq<char> },
}

impl View for AuditEntry {
    type V = AuditEntryView;

    open spec fn view(&self) -> AuditEntryView {
        match *self {
            AuditEntry::UserVerified { user_id } => AuditEntryView::UserVerified { user_id },
            AuditEntry::AutoGrantFailed { user_id, error } => AuditEntryView::AutoGrantFailed {
                user_id,
                error: error@,
            },
            AuditEntry::VerificationStarted {
                user_id,
                link,
                expires_at,
            } => AuditEntryView::VerificationStarted { user_id, link: link@, expires_at },
            AuditEntry::VerificationPassed {
                user_id,
                score,
                minscore,
            } => AuditEntryView::VerificationPassed { user_id, score, minscore },
            AuditEntry::GrantFailed {
                user_id,
                score,
                minscore,
                error,
            } => AuditEntryView::GrantFailed { user_id, score, minscore, error: error@ },
            AuditEntry::VerificationFailed {
                user_id,
                score,
                minscore,
            } => AuditEntryView::VerificationFailed { user_id, score, minscore },
            AuditEntry::VerificationErrored {
                user_id,
                reason,
            } => AuditEntryView::VerificationErrored { user_id, reason: reason@ },
        }
    }
}

/// One line of an audit entry: what it is, and what it says.
#[derive(Clone, Debug, PartialEq, Eq)]
pub struct AuditField {
    pub name: String,
    pub value: String,
}

impl View for AuditField {
    type V = (Seq<char>, Seq<char>);

    open spec fn view(&self) -> (Seq<char>, Seq<char>) {
        (self.name@, self.value@)
    }
}

/// The lines of `fields`, each as a pair of name and value.
pub open spec fn fields_view(fields: Seq<AuditField>) -> Seq<(Seq<char>, Seq<char>)> {
    Seq::new(fields.len(), |i: int| fields[i]@)
}

impl AuditEntryView {
    /// The member that the entry is about.
    pub open spec fn user_id(self) -> u64 {
        match self {
            AuditEntryView::UserVerified { user_id } => user_id,
            AuditEntryView::AutoGrantFailed { user_id, .. } => user_id,
            AuditEntryView::VerificationStarted { user_id, .. } => user_id,
            AuditEntryView::VerificationPassed { user_id, .. } => user_id,
            AuditEntryView::GrantFailed { user_id, .. } => user_id,
            AuditEntryView::VerificationFailed { user_id, .. } => user_id,
            AuditEntryView::VerificationErrored { user_id, .. } => user_id,
        }
    }

    pub open spec fn title(self) -> Seq<char> {
        match self {
            AuditEntryView::UserVerified { .. } => "User Verified"@,
            AuditEntryView::AutoGrantFailed { .. } => "Error during verification!"@,
            AuditEntryView::VerificationStarted { .. } => "Verification Started"@,
            AuditEntryView::VerificationPassed { .. } => "Verification Passed"@,
            AuditEntryView::GrantFailed { .. } => "Error during verification!"@,
            AuditEntryView::VerificationFailed { .. } => "Verification Failed"@,
            AuditEntryView::VerificationErrored { .. } => "Verification Failed"@,
        }
    }

    pub open spec fn description(self) -> Seq<char> {
        match self {
            AuditEntryView::UserVerified { .. } =>
                "Above min age, automatically skipped verification."@,
            AuditEntryView::AutoGrantFailed { .. } =>
                "The role could not be added to the user and will need to be added manually.\n\n The user did however pass verification successfully. (auto-verified due to account age)"@,
            AuditEntryView::VerificationStarted { .. } => "The user has initiated verification,"@,
            AuditEntryView::VerificationPassed { .. } => "The user passed verification."@,
            AuditEntryView::GrantFailed { .. } =>
                "The role could not be added to the user and will need to be added manually.\n\n The user did however pass verification successfully."@,
            AuditEntryView::VerificationFailed { .. } => "The user did not pass verification."@,
            AuditEntryView::VerificationErrored { .. } => "The user could not be verified."@,
        }
    }

    pub open spec fn colour(self) -> AuditColour {
        match self {
            AuditEntryView::UserVerified { .. } => AuditColour::Blue,
            AuditEntryView::AutoGrantFailed { .. } => AuditColour::DarkRed,
            AuditEntryView::VerificationStarted { .. } => AuditColour::Gold,
            AuditEntryView::VerificationPassed { .. } => AuditColour::Blue,
            AuditEntryView::GrantFailed { .. } => AuditColour::DarkRed,
            AuditEntryView::VerificationFailed { .. } => AuditColour::Orange,
            AuditEntryView::VerificationErrored { .. } => AuditColour::Red,
        }
    }

    /// The lines of the entry, in the order in which they are shown.
    pub open spec fn fields(self) -> Seq<(Seq<char>, Seq<char>)> {
        let mention = ("User Mention"@, mention_of(self.user_id()));
        let id = ("User ID"@, decimal_digits(self.user_id() as nat));
        match self {
            AuditEntryView::UserVerified { .. } => seq![mention, id],
            AuditEntryView::AutoGrantFailed { error, .. } => seq![
                ("Error Message"@, error),
                mention,
                id,
            ],
            AuditEntryView::VerificationStarted { link, expires_at, .. } => seq![
                mention,
                id,
                ("Link Provided"@, link),
                ("Expires In"@, expiry_text_of(expires_at)),
            ],
            AuditEntryView::VerificationPassed { score, minscore, .. } => seq![
                mention,
                id,
                ("Score"@, score_text_of(score, minscore)),
            ],
            AuditEntryView::GrantFailed { score, minscore, error, .. } => seq![
                ("Error Message"@, error),
                mention,
                id,
                ("Score"@, score_text_of(score, minscore)),
            ],
            AuditEntryView::VerificationFailed { score, minscore, .. } => seq![
                mention,
                id,
                ("Score"@, score_text_of(score, minscore)),
            ],
            AuditEntryView::VerificationErrored { reason, .. } => seq![
                mention,
                id,
                ("Reason"@, reason),
            ],
        }
    }
}

/// How a member is mentioned: `<@`, the identifier, `>`.
pub open spec fn mention_of(user_id: u64) -> Seq<char> {
    "<@"@ + decimal_digits(user_id as nat) + ">"@
}

/// How a score is shown beside the score that was asked for: the two
/// numbers with `/` between them.
pub open spec fn score_text_of(score: i64, minscore: i64) -> Seq<char> {
    signed_digits(score as int) + "/"@ + signed_digits(minscore as int)
}

/// How the end of a ticket is shown: as a time that readers see relative to
/// their own: `<t:`, the Unix time, `:R>`.
pub open spec fn expiry_text_of(expires_at: i64) -> Seq<char> {
    "<t:"@ + signed_digits(expires_at as int) + ":R>"@
}

/// How a member is mentioned.
pub fn mention(user_id: u64) -> (text: String)
    ensures
        text@ == mention_of(user_id),
{
    let mut text = String::from_str("<@");
    push_u64(&mut text, user_id);
    text.append(">");
    text
}

/// How a score is shown beside the score that was asked for.
pub fn score_text(score: i64, minscore: i64) -> (text: String)
    ensures
        text@ == score_text_of(score, minscore),
{
    let mut text = String::new();
    push_i64(&mut text, score);
    text.append("/");
    push_i64(&mut text, minscore);
    assert(text@ =~= score_text_of(score, minscore));
    text
}

/// How the end of a ticket is shown.
pub fn expiry_text(expires_at: i64) -> (text: String)
    ensures
        text@ == expiry_text_of(expires_at),
{
    let mut text = String::from_str("<t:");
    push_i64(&mut text, expires_at);
    text.append(":R>");
    text
}

fn line(name: &str, value: String) -> (field: AuditField)
    ensures
        field@ == (name@, value@),
{
    AuditField { name: String::from_str(name), value }
}

impl AuditEntry {
    /// The member that the entry is about.
    pub fn user_id(&self) -> (id: u64)
        ensures
            id == self@.user_id(),
    {
        match self {
            AuditEntry::UserVerified { user_id } => *user_id,
            AuditEntry::AutoGrantFailed { user_id, .. } => *user_id,
            AuditEntry::VerificationStarted { user_id, .. } => *user_id,
            AuditEntry::VerificationPassed { user_id, .. } => *user_id,
            AuditEntry::GrantFailed { user_id, .. } => *user_id,
            AuditEntry::VerificationFailed { user_id, .. } => *user_id,
            AuditEntry::VerificationErrored { user_id, .. } => *user_id,
        }
    }

    pub fn title(&self) -> (text: String)
        ensures
            text@ == self@.title(),
    {
        match self {
            AuditEntry::UserVerified { .. } => String::from_str("User Verified"),
            AuditEntry::AutoGrantFailed { .. } => String::from_str("Error during verification!"),
            AuditEntry::VerificationStarted { .. } => String::from_str("Verification Started"),
            AuditEntry::VerificationPassed { .. } => String::from_str("Verification Passed"),
            AuditEntry::GrantFailed { .. } => String::from_str("Error during verification!"),
            AuditEntry::VerificationFailed { .. } => String::from_str("Verification Failed"),
            AuditEntry::VerificationErrored { .. } => String::from_str("Verification Failed"),
        }
    }

    pub fn description(&self) -> (text: String)
        ensures
            text@ == self@.description(),
    {
        match self {
            AuditEntry::UserVerified { .. } => String::from_str(
                "Above min age, automatically skipped verification.",
            ),
            AuditEntry::AutoGrantFailed { .. } => String::from_str(
                "The role could not be added to the user and will need to be added manually.\n\n The user did however pass verification successfully. (auto-verified due to account age)",
            ),
            AuditEntry::VerificationStarted { .. } => String::from_str(
                "The user has initiated verification,",
            ),
            AuditEntry::VerificationPassed { .. } => String::from_str(
                "The user passed verification.",
            ),
            AuditEntry::GrantFailed { .. } => String::from_str(
                "The role could not be added to the user and will need to be added manually.\n\n The user did however pass verification successfully.",
            ),
            AuditEntry::VerificationFailed { .. } => String::from_str(
                "The user did not pass verification.",
            ),
            AuditEntry::VerificationErrored { .. } => String::from_str(
                "The user could not be verified.",
            ),
        }
    }

    pub fn colour(&self) -> (colour: AuditColour)
        ensures
            colour == self@.colour(),
    {
        match self {
            AuditEntry::UserVerified { .. } => AuditColour::Blue,
            AuditEntry::AutoGrantFailed { .. } => AuditColour::DarkRed,
            AuditEntry::VerificationStarted { .. } => AuditColour::Gold,
            AuditEntry::VerificationPassed { .. } => AuditColour::Blue,
            AuditEntry::GrantFailed { .. } => AuditColour::DarkRed,
            AuditEntry::VerificationFailed { .. } => AuditColour::Orange,
            AuditEntry::VerificationErrored { .. } => AuditColour::Red,
        }
    }

    /// The lines of the entry, in the order in which they are shown.
    pub fn fields(&self) -> (lines: Vec<AuditField>)
        ensures
            fields_view(lines@) == self@.fields(),
    {
        let mut lines: Vec<AuditField> = Vec::new();
        let user_id = self.user_id();
        match self {
            AuditEntry::AutoGrantFailed { error, .. } => {
                lines.push(line("Error Message", error.clone()));
            },
            AuditEntry::GrantFailed { error, .. } => {
                lines.push(line("Error Message", error.clone()));
            },
            _ => {},
        }
        lines.push(line("User Mention", mention(user_id)));
        lines.push(line("User ID", u64_to_decimal(user_id)));
        match self {
            AuditEntry::UserVerified { .. } => {},
            AuditEntry::AutoGrantFailed { .. } => {},
            AuditEntry::VerificationStarted { link, expires_at, .. } => {
                lines.push(line("Link Provided", link.clone()));
                lines.push(line("Expires In", expiry_text(*expires_at)));
            },
            AuditEntry::VerificationPassed { score, minscore, .. } => {
                lines.push(line("Score", score_text(*score, *minscore)));
            },
            AuditEntry::GrantFailed { score, minscore, .. } => {
                lines.push(line("Score", score_text(*score, *minscore)));
            },
            AuditEntry::VerificationFailed { score, minscore, .. } => {
                lines.push(line("Score", score_text(*score, *minscore)));
            },
            AuditEntry::VerificationErrored { reason, .. } => {
                lines.push(line("Reason", reason.clone()));
            },
        }
        assert(fields_view(lines@) =~= self@.fields());
        lines
    }
}

} // verus!
