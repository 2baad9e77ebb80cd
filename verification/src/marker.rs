//! Completion markers: what the scoring engine leaves in the store once it
//! has judged a ticket.
//!
//! A marker lives under `complete:<user>:<guild>`, which any further fields
//! may follow; they are not read. Its value is `true:<score>:<minscore>`,
//! `false:<score>:<minscore>` or `error:<reason>`.

use vstd::prelude::*;
use crate::decimal::{
    decimal_digits, decimal_i64, decimal_u64, lemma_decimal_digits, lemma_u64_round_trip,
    parse_i64_in, parse_u64_in,
};
use crate::error::MalformedMarkerError;
use crate::text::{
    chars_of, field, field_bounds, lemma_earlier_fields_exist, lemma_fields_before_suffix,
    lemma_fields_of_joined, range_is, string_of,
};

verus! {

/// What the scoring engine found.
#[derive(Clone, Debug, PartialEq, Eq)]
pub enum MarkerOutcome {
    /// The user reached the score that the community asks for.
    Passed { score: i64, minscore: i64 },
    /// The user stayed below it.
    Failed { score: i64, minscore: i64 },
    /// The engine could not score the user, for the reason it gives.
    Errored { reason: String },
}

/// A `MarkerOutcome` as a mathematical value.
pub enum MarkerOutcomeView {
    Passed { score: i64, minscore: i64 },
    Failed { score: i64, minscore: i64 },
    Errored { reason: Seq<char> },
}

impl View for MarkerOutcome {
    type V = MarkerOutcomeView;

    open spec fn view(&self) -> MarkerOutcomeView {
        match *self {
            MarkerOutcome::Passed { score, minscore } => MarkerOutcomeView::Passed {
                score,
                minscore,
            },
            MarkerOutcome::Failed { score, minscore } => MarkerOutcomeView::Failed {
                score,
                minscore,
            },
            MarkerOutcome::Errored { reason } => MarkerOutcomeView::Errored { reason: reason@ },
        }
    }
}

/// A completion marker that was read: whom it is about, and what was found.
#[derive(Clone, Debug, PartialEq, Eq)]
pub struct CompletionMarker {
    pub user_id: u64,
    pub guild_id: u64,
    pub outcome: MarkerOutcome,
}

/// A `CompletionMarker` as a mathematical value.
pub struct CompletionMarkerView {
    pub user_id: u64,
    pub guild_id: u64,
    pub outcome: MarkerOutcomeView,
}

impl View for CompletionMarker {
    type V = CompletionMarkerView;

    open spec fn view(&self) -> CompletionMarkerView {
        CompletionMarkerView {
            user_id: self.user_id,
            guild_id: self.guild_id,
            outcome: self.outcome@,
        }
    }
}

/// Why a key and its value are no completion marker that can be acted on.
#[derive(Clone, Copy, Debug, PartialEq, Eq, Structural)]
pub enum MarkerError {
    /// The value begins with none of the three tags. Such an entry is left
    /// where it is.
    UnsupportedTag,
    /// The tag is known, but the key or the rest of the value is not as
    /// agreed.
    Malformed(MalformedMarkerError),
}

/// The pattern by which the store is scanned for completion markers.
pub open spec fn marker_scan_pattern() -> Seq<char> {
    "complete*"@
}

/// Whether `tag` is one of the three tags that a value may begin with.
pub open spec fn is_marker_tag(tag: Seq<char>) -> bool {
    tag == "true"@ || tag == "false"@ || tag == "error"@
}

/// The user and the community that a marker key names: its second and its
/// third field, after the word `complete`. Fields beyond the third are not
/// looked at.
pub open spec fn marker_ids(key: Seq<char>) -> Option<(u64, u64)> {
    if field(key, 0) == Some("complete"@) {
        match (field(key, 1), field(key, 2)) {
            (Some(user), Some(guild)) => match (decimal_u64(user), decimal_u64(guild)) {
                (Some(user_id), Some(guild_id)) => Some((user_id, guild_id)),
                _ => None,
            },
            _ => None,
        }
    } else {
        None
    }
}

/// The score and the score that was asked for: the second and the third
/// field of a value.
pub open spec fn score_pair(value: Seq<char>) -> Option<(i64, i64)> {
    match (field(value, 1), field(value, 2)) {
        (Some(score), Some(minscore)) => match (decimal_i64(score), decimal_i64(minscore)) {
            (Some(score), Some(minscore)) => Some((score, minscore)),
            _ => None,
        },
        _ => None,
    }
}

/// What a value says, by its tag: the first field. After `true` and `false`
/// come the two scores; after `error` comes the reason, which is the second
/// field as it stands. Fields beyond those are not looked at.
pub open spec fn marker_outcome(value: Seq<char>) -> Result<MarkerOutcomeView, MarkerError> {
    let tag = field(value, 0)->0;
    if tag == "true"@ {
        match score_pair(value) {
            Some((score, minscore)) => Ok(MarkerOutcomeView::Passed { score, minscore }),
            None => Err(MarkerError::Malformed(MalformedMarkerError::Value)),
        }
    } else if tag == "false"@ {
        match score_pair(value) {
            Some((score, minscore)) => Ok(MarkerOutcomeView::Failed { score, minscore }),
            None => Err(MarkerError::Malformed(MalformedMarkerError::Value)),
        }
    } else if tag == "error"@ {
        match field(value, 1) {
            Some(reason) => Ok(MarkerOutcomeView::Errored { reason }),
            None => Err(MarkerError::Malformed(MalformedMarkerError::Value)),
        }
    } else {
        Err(MarkerError::UnsupportedTag)
    }
}

/// The marker that a key and its value make. A value with an unknown tag is
/// set aside before the key is looked at; then the key is read, then the
/// rest of the value.
pub open spec fn marker_of(key: Seq<char>, value: Seq<char>) -> Result<
    CompletionMarkerView,
    MarkerError,
> {
    if !is_marker_tag(field(value, 0)->0) {
        Err(MarkerError::UnsupportedTag)
    } else {
        match marker_ids(key) {
            None => Err(MarkerError::Malformed(MalformedMarkerError::Key)),
            Some((user_id, guild_id)) => match marker_outcome(value) {
                Ok(outcome) => Ok(CompletionMarkerView { user_id, guild_id, outcome }),
                Err(e) => Err(e),
            },
        }
    }
}

/// The pattern by which the store is scanned for completion markers.
pub fn scan_pattern() -> (pattern: String)
    ensures
        pattern@ == marker_scan_pattern(),
{
    String::from_str("complete*")
}

/// Reads the user and the community that a marker key names.
pub fn parse_marker_key(key: &str) -> (ids: Option<(u64, u64)>)
    ensures
        ids == marker_ids(key@),
{
    let chars = chars_of(key);
    let (from, to) = match field_bounds(&chars, 0) {
        Some(bounds) => bounds,
        None => {
            return None;
        },
    };
    if !range_is(&chars, from, to, "complete") {
        return None;
    }
    let user_id = match field_bounds(&chars, 1) {
        Some((from, to)) => parse_u64_in(&chars, from, to),
        None => {
            return None;
        },
    };
    let guild_id = match field_bounds(&chars, 2) {
        Some((from, to)) => parse_u64_in(&chars, from, to),
        None => {
            return None;
        },
    };
    match (user_id, guild_id) {
        (Some(user_id), Some(guild_id)) => Some((user_id, guild_id)),
        _ => None,
    }
}

/// Reads the two scores of a value.
fn parse_score_pair(chars: &Vec<char>) -> (pair: Option<(i64, i64)>)
    ensures
        pair == score_pair(chars@),
{
    let score = match field_bounds(chars, 1) {
        Some((from, to)) => parse_i64_in(chars, from, to),
        None => {
            return None;
        },
    };
    let minscore = match field_bounds(chars, 2) {
        Some((from, to)) => parse_i64_in(chars, from, to),
        None => {
            return None;
        },
    };
    match (score, minscore) {
        (Some(score), Some(minscore)) => Some((score, minscore)),
        _ => None,
    }
}

/// Reads what a value says.
pub fn parse_marker_value(value: &str) -> (outcome: Result<MarkerOutcome, MarkerError>)
    ensures
        match outcome {
            Ok(found) => marker_outcome(value@) == Ok::<MarkerOutcomeView, MarkerError>(found@),
            Err(e) => marker_outcome(value@) == Err::<MarkerOutcomeView, MarkerError>(e),
        },
{
    let chars = chars_of(value);
    let (from, to) = match field_bounds(&chars, 0) {
        Some(bounds) => bounds,
        None => {
            return Err(MarkerError::UnsupportedTag);
        },
    };
    if range_is(&chars, from, to, "true") {
        match parse_score_pair(&chars) {
            Some((score, minscore)) => Ok(MarkerOutcome::Passed { score, minscore }),
            None => Err(MarkerError::Malformed(MalformedMarkerError::Value)),
        }
    } else if range_is(&chars, from, to, "false") {
        match parse_score_pair(&chars) {
            Some((score, minscore)) => Ok(MarkerOutcome::Failed { score, minscore }),
            None => Err(MarkerError::Malformed(MalformedMarkerError::Value)),
        }
    } else if range_is(&chars, from, to, "error") {
        match field_bounds(&chars, 1) {
            Some((from, to)) => Ok(MarkerOutcome::Errored { reason: string_of(&chars, from, to) }),
            None => Err(MarkerError::Malformed(MalformedMarkerError::Value)),
        }
    } else {
        Err(MarkerError::UnsupportedTag)
    }
}

/// Reads the marker that a key and its value make.
pub fn parse_marker(key: &str, value: &str) -> (marker: Result<CompletionMarker, MarkerError>)
    ensures
        match marker {
            Ok(found) => marker_of(key@, value@) == Ok::<CompletionMarkerView, MarkerError>(
                found@,
            ),
            Err(e) => marker_of(key@, value@) == Err::<CompletionMarkerView, MarkerError>(e),
        },
{
    let outcome = parse_marker_value(value);
    if let Err(MarkerError::UnsupportedTag) = outcome {
        return Err(MarkerError::UnsupportedTag);
    }
    let (user_id, guild_id) = match parse_marker_key(key) {
        Some(ids) => ids,
        None => {
            return Err(MarkerError::Malformed(MalformedMarkerError::Key));
        },
    };
    match outcome {
        Ok(outcome) => Ok(CompletionMarker { user_id, guild_id, outcome }),
        Err(e) => Err(e),
    }
}

/// The key under which the marker for `user_id` in `guild_id` is expected,
/// without a suffix.
pub open spec fn marker_key_of(user_id: u64, guild_id: u64) -> Seq<char> {
    "complete"@ + seq![':'] + (decimal_digits(user_id as nat) + seq![':'] + decimal_digits(
        guild_id as nat,
    ))
}

/// A key in the agreed form is read back as the user and the community
/// that it was written for.
pub proof fn lemma_marker_key_round_trip(user_id: u64, guild_id: u64)
    ensures
        marker_ids(marker_key_of(user_id, guild_id)) == Some((user_id, guild_id)),
{
    let word = "complete"@;
    let user = decimal_digits(user_id as nat);
    let guild = decimal_digits(guild_id as nat);
    let ids = user + seq![':'] + guild;
    reveal_strlit("complete");
    lemma_decimal_digits(user_id as nat);
    lemma_decimal_digits(guild_id as nat);
    lemma_u64_round_trip(user_id);
    lemma_u64_round_trip(guild_id);
    lemma_fields_of_joined(word, ids, 0);
    lemma_fields_of_joined(word, ids, 1);
    lemma_fields_of_joined(user, guild, 0);
    assert forall|j: int| 0 <= j < guild.len() implies guild[j] != ':' by {
        assert(crate::decimal::is_digit(guild[j]));
    }
    assert forall|j: int| 0 <= j < user.len() implies user[j] != ':' by {
        assert(crate::decimal::is_digit(user[j]));
    }
    crate::text::lemma_next_separator_at(guild, 0, guild.len() as int);
    assert(guild.subrange(0, guild.len() as int) =~= guild);
    assert(field(guild, 0) == Some(guild));
}

/// The suffix of a key is not read: whatever follows a further `':'` after
/// the community, the key names the same user and the same community.
pub proof fn lemma_key_suffix_is_not_read(key: Seq<char>, suffix: Seq<char>)
    requires
        field(key, 2) is Some,
    ensures
        marker_ids(key + seq![':'] + suffix) == marker_ids(key),
{
    lemma_earlier_fields_exist(key, 0, 2);
    lemma_earlier_fields_exist(key, 1, 2);
    lemma_fields_before_suffix(key, suffix, 0);
    lemma_fields_before_suffix(key, suffix, 1);
    lemma_fields_before_suffix(key, suffix, 2);
}

/// What follows the fields that a value needs is not read: a value that
/// says something says the same with anything appended after a further
/// `':'`.
pub proof fn lemma_value_suffix_is_not_read(value: Seq<char>, suffix: Seq<char>)
    requires
        marker_outcome(value) is Ok,
    ensures
        marker_outcome(value + seq![':'] + suffix) == marker_outcome(value),
{
    lemma_fields_before_suffix(value, suffix, 0);
    lemma_fields_before_suffix(value, suffix, 1);
    if field(value, 2) is Some {
        lemma_fields_before_suffix(value, suffix, 2);
    }
}

} // verus!
