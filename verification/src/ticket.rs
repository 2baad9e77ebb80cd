//! Verification tickets: the code that names one, the store entry that
//! holds it, and the link that the user follows.

use rand::Rng;
use vstd::prelude::*;
use crate::decimal::{
    decimal_digits, decimal_u64, is_digit, lemma_decimal_digits, lemma_u64_round_trip, push_u64,
};
use crate::text::{chars_of, field, lemma_fields_of_joined, lemma_next_separator_at, push_char};

verus! {

/// The number of characters of a ticket code.
pub const CODE_LENGTH: usize = 10;

/// How long a ticket lives in the store, in seconds.
pub const TICKET_TTL_SECS: u64 = 900;

/// A letter of the English alphabet, in either case, or a digit.
pub open spec fn is_alphanumeric(c: char) -> bool {
    ('0' <= c && c <= '9') || ('a' <= c && c <= 'z') || ('A' <= c && c <= 'Z')
}

/// A ticket code: exactly ten characters, each a letter or a digit.
pub open spec fn is_ticket_code(code: Seq<char>) -> bool {
    &&& code.len() == CODE_LENGTH
    &&& forall|i: int| 0 <= i < code.len() ==> is_alphanumeric(#[trigger] code[i])
}

/// The key under which the store holds the ticket of `code`.
pub open spec fn ticket_key_of(code: Seq<char>) -> Seq<char> {
    "uuid:"@ + code
}

/// What the store holds for a ticket: who asked, and in which community.
pub open spec fn ticket_value_of(user_id: u64, guild_id: u64) -> Seq<char> {
    decimal_digits(user_id as nat) + seq![':'] + decimal_digits(guild_id as nat)
}

/// The link that takes the user of a ticket to the verification page of the
/// front end at `frontend_base`.
pub open spec fn verification_link_of(frontend_base: Seq<char>, code: Seq<char>) -> Seq<char> {
    frontend_base + "/verify?code="@ + code
}

/// When a ticket written at `now` runs out.
pub open spec fn ticket_expiry_of(now: int) -> int {
    now + TICKET_TTL_SECS
}

/// Calls `Rng::sample` of `rand`, on the thread's generator and with the
/// distribution `Alphanumeric`: the byte that comes back is one of the 62
/// ASCII letters and digits. Which one is left to chance.
#[verifier::external_body]
fn draw_alphanumeric() -> (byte: u8)
    ensures
        is_alphanumeric(byte as char),
{
    rand::thread_rng().sample(rand::distributions::Alphanumeric)
}

/// Draws a ticket code at random.
pub fn generate_code() -> (code: String)
    ensures
        is_ticket_code(code@),
{
    let mut code = String::new();
    let mut drawn: usize = 0;
    while drawn < CODE_LENGTH
        invariant
            drawn <= CODE_LENGTH,
            code@.len() == drawn,
            forall|i: int| 0 <= i < code@.len() ==> is_alphanumeric(#[trigger] code@[i]),
        decreases CODE_LENGTH - drawn,
    {
        let byte = draw_alphanumeric();
        push_char(&mut code, byte as char);
        drawn = drawn + 1;
    }
    code
}

/// A ticket code that is known to have the shape of one.
#[derive(Debug, PartialEq, Eq)]
pub struct TicketCode {
    text: String,
}

impl View for TicketCode {
    type V = Seq<char>;

    closed spec fn view(&self) -> Seq<char> {
        self.text@
    }
}

impl TicketCode {
    #[verifier::type_invariant]
    spec fn well_formed(self) -> bool {
        is_ticket_code(self.text@)
    }

    /// Draws a ticket code at random.
    pub fn generate() -> (code: TicketCode)
        ensures
            is_ticket_code(code@),
    {
        TicketCode { text: generate_code() }
    }

    /// Takes `text` for a ticket code, if it has the shape of one.
    pub fn parse(text: &str) -> (code: Option<TicketCode>)
        ensures
            code is Some <==> is_ticket_code(text@),
            code matches Some(c) ==> c@ == text@,
    {
        if is_valid_code(text) {
            Some(TicketCode { text: String::from_str(text) })
        } else {
            None
        }
    }

    /// The code as text.
    pub fn as_str(&self) -> (text: &str)
        ensures
            text@ == self@,
            is_ticket_code(text@),
    {
        proof {
            use_type_invariant(self);
        }
        self.text.as_str()
    }

}

impl Clone for TicketCode {
    fn clone(&self) -> (code: TicketCode)
        ensures
            code@ == self@,
    {
        proof {
            use_type_invariant(self);
        }
        TicketCode { text: self.text.clone() }
    }
}

/// Whether `code` has the shape of a ticket code.
pub fn is_valid_code(code: &str) -> (valid: bool)
    ensures
        valid == is_ticket_code(code@),
{
    let chars = chars_of(code);
    if chars.len() != CODE_LENGTH {
        return false;
    }
    let mut i: usize = 0;
    while i < chars.len()
        invariant
            i <= chars.len(),
            chars@ == code@,
            chars.len() == CODE_LENGTH,
            forall|j: int| 0 <= j < i ==> is_alphanumeric(#[trigger] code@[j]),
        decreases chars.len() - i,
    {
        let c = chars[i];
        let ok = (c >= '0' && c <= '9') || (c >= 'a' && c <= 'z') || (c >= 'A' && c <= 'Z');
        if !ok {
            assert(!is_alphanumeric(code@[i as int]));
            return false;
        }
        i = i + 1;
    }
    true
}

/// The key under which the store holds the ticket of `code`.
pub fn ticket_key(code: &str) -> (key: String)
    ensures
        key@ == ticket_key_of(code@),
{
    let mut key = String::from_str("uuid:");
    key.append(code);
    key
}

/// What the store holds for the ticket of `user_id` in `guild_id`.
pub fn ticket_value(user_id: u64, guild_id: u64) -> (value: String)
    ensures
        value@ == ticket_value_of(user_id, guild_id),
{
    let mut value = String::new();
    push_u64(&mut value, user_id);
    push_char(&mut value, ':');
    push_u64(&mut value, guild_id);
    assert(value@ =~= ticket_value_of(user_id, guild_id));
    value
}

/// The link that takes the user of the ticket `code` to the verification
/// page of the front end at `frontend_base`.
pub fn verification_link(frontend_base: &str, code: &str) -> (link: String)
    ensures
        link@ == verification_link_of(frontend_base@, code@),
{
    let mut link = String::from_str(frontend_base);
    link.append("/verify?code=");
    link.append(code);
    link
}

/// When a ticket written at `now` runs out, as a Unix time in seconds; the
/// last second that a clock can show where that lies beyond it.
pub fn ticket_expiry(now: i64) -> (expiry: i64)
    ensures
        expiry == if ticket_expiry_of(now as int) <= i64::MAX {
            ticket_expiry_of(now as int)
        } else {
            i64::MAX as int
        },
{
    if now <= i64::MAX - 900 {
        now + 900
    } else {
        i64::MAX
    }
}

/// Two codes never share a key, nor two keys a code.
pub proof fn lemma_ticket_key_injective(a: Seq<char>, b: Seq<char>)
    ensures
        ticket_key_of(a) == ticket_key_of(b) <==> a == b,
{
    let prefix = "uuid:"@;
    assert(ticket_key_of(a).skip(prefix.len() as int) =~= a);
    assert(ticket_key_of(b).skip(prefix.len() as int) =~= b);
}

/// What is written for a ticket can be read back: the value has two fields,
/// the first denotes the user and the second the community.
pub proof fn lemma_ticket_value_round_trip(user_id: u64, guild_id: u64)
    ensures
        ({
            let value = ticket_value_of(user_id, guild_id);
            &&& field(value, 0) matches Some(user) && decimal_u64(user) == Some(user_id)
            &&& field(value, 1) matches Some(guild) && decimal_u64(guild) == Some(guild_id)
            &&& field(value, 2) is None
        }),
{
    let user = decimal_digits(user_id as nat);
    let guild = decimal_digits(guild_id as nat);
    lemma_decimal_digits(user_id as nat);
    lemma_decimal_digits(guild_id as nat);
    lemma_u64_round_trip(user_id);
    lemma_u64_round_trip(guild_id);
    assert forall|j: int| 0 <= j < user.len() implies user[j] != ':' by {
        assert(is_digit(user[j]));
    }
    assert forall|j: int| 0 <= j < guild.len() implies guild[j] != ':' by {
        assert(is_digit(guild[j]));
    }
    lemma_fields_of_joined(user, guild, 0);
    lemma_fields_of_joined(user, guild, 1);
    lemma_next_separator_at(guild, 0, guild.len() as int);
    assert(guild.subrange(0, guild.len() as int) =~= guild);
}

} // verus!
