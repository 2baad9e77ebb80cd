//! The ticket issuer: mints a ticket that no live ticket shares its code
//! with.
//!
//! The issuer draws a code, asks whether the store already holds a ticket
//! under it, draws again as long as it does, and then has the ticket
//! written with its time to live. The probe and the write are two
//! operations of the store; nothing makes the pair atomic.

use vstd::prelude::*;
use crate::error::TransientStoreError;
use crate::ticket::{
    is_ticket_code, ticket_key, ticket_key_of, ticket_value, ticket_value_of, verification_link,
    verification_link_of, TicketCode, TICKET_TTL_SECS,
};

verus! {

/// A ticket that was issued.
#[derive(Clone, Debug, PartialEq, Eq)]
pub struct Ticket {
    pub code: String,
    pub link: String,
}

/// A `Ticket` as a mathematical value.
pub struct TicketView {
    pub code: Seq<char>,
    pub link: Seq<char>,
}

impl View for Ticket {
    type V = TicketView;

    open spec fn view(&self) -> TicketView {
        TicketView { code: self.code@, link: self.link@ }
    }
}

/// What the caller of the issuer is asked to do next.
#[derive(Clone, Debug, PartialEq, Eq)]
pub enum IssueAction {
    /// Ask the store whether it holds anything under `key`.
    Probe { key: String },
    /// Write `value` under `key`, to live for `ttl_secs` seconds.
    Persist { key: String, value: String, ttl_secs: u64 },
    /// The ticket is written. Nothing is left to do.
    Issued { ticket: Ticket },
    /// The store did not answer. No ticket was issued.
    Failed { error: TransientStoreError },
}

/// An `IssueAction` as a mathematical value.
pub enum IssueActionView {
    Probe { key: Seq<char> },
    Persist { key: Seq<char>, value: Seq<char>, ttl_secs: u64 },
    Issued { ticket: TicketView },
    Failed { error: TransientStoreError },
}

impl View for IssueAction {
    type V = IssueActionView;

    open spec fn view(&self) -> IssueActionView {
        match *self {
            IssueAction::Probe { key } => IssueActionView::Probe { key: key@ },
            IssueAction::Persist { key, value, ttl_secs } => IssueActionView::Persist {
                key: key@,
                value: value@,
                ttl_secs,
            },
            IssueAction::Issued { ticket } => IssueActionView::Issued { ticket: ticket@ },
            IssueAction::Failed { error } => IssueActionView::Failed { error },
        }
    }
}

/// What came of the action that the issuer asked for last.
#[derive(Clone, Copy, Debug, PartialEq, Eq, Structural)]
pub enum IssueEvent {
    /// The store holds nothing under the key that was probed.
    Vacant,
    /// The store holds something under the key that was probed.
    Occupied,
    /// The ticket is written.
    Stored,
    /// The store did not answer.
    StoreFailed,
}

/// How far an issuance has come.
#[derive(Clone, Copy, Debug, PartialEq, Eq, Structural)]
pub enum IssuerStage {
    Probing,
    Persisting,
    Issued,
    Failed,
}

/// One issuance of a ticket.
#[derive(Clone, Debug, PartialEq, Eq)]
pub struct TicketIssuer {
    pub user_id: u64,
    pub guild_id: u64,
    /// Where the front end lives, as the link begins.
    pub frontend_base: String,
    /// The code that is being tried, or that was issued.
    pub code: TicketCode,
    pub stage: IssuerStage,
}

/// A `TicketIssuer` as a mathematical value.
pub struct TicketIssuerView {
    pub user_id: u64,
    pub guild_id: u64,
    pub frontend_base: Seq<char>,
    pub code: Seq<char>,
    pub stage: IssuerStage,
}

impl View for TicketIssuer {
    type V = TicketIssuerView;

    open spec fn view(&self) -> TicketIssuerView {
        TicketIssuerView {
            user_id: self.user_id,
            guild_id: self.guild_id,
            frontend_base: self.frontend_base@,
            code: self.code@,
            stage: self.stage,
        }
    }
}

impl TicketIssuerView {
    /// The issuance with another code and at another stage.
    pub open spec fn at(self, code: Seq<char>, stage: IssuerStage) -> TicketIssuerView {
        TicketIssuerView {
            user_id: self.user_id,
            guild_id: self.guild_id,
            frontend_base: self.frontend_base,
            code,
            stage,
        }
    }

    /// The ticket that this issuance is about.
    pub open spec fn ticket(self) -> TicketView {
        TicketView { code: self.code, link: verification_link_of(self.frontend_base, self.code) }
    }
}

/// An issuance begins: with `code` as the first code that is tried.
pub open spec fn issuer_begin(
    user_id: u64,
    guild_id: u64,
    frontend_base: Seq<char>,
    code: Seq<char>,
) -> (TicketIssuerView, IssueActionView) {
    (
        TicketIssuerView { user_id, guild_id, frontend_base, code, stage: IssuerStage::Probing },
        IssueActionView::Probe { key: ticket_key_of(code) },
    )
}

/// One step of an issuance: where it stands after `event`, and what is
/// asked for next. `fresh` is the code that is tried next where the one
/// that was probed is taken.
///
/// A code under which the store holds something is dropped, and `fresh` is
/// probed in its place. A code under which the store holds nothing is
/// written at once, with the requester and the community as its value and
/// 900 seconds to live. Where the store does not answer, to the probe or to
/// the write, the issuance fails and no ticket is issued; an event that
/// does not answer what was asked for counts as that.
pub open spec fn issuer_step(issuer: TicketIssuerView, event: IssueEvent, fresh: Seq<char>) -> (
    TicketIssuerView,
    IssueActionView,
) {
    match issuer.stage {
        IssuerStage::Probing => match event {
            IssueEvent::Vacant => (
                issuer.at(issuer.code, IssuerStage::Persisting),
                IssueActionView::Persist {
                    key: ticket_key_of(issuer.code),
                    value: ticket_value_of(issuer.user_id, issuer.guild_id),
                    ttl_secs: TICKET_TTL_SECS,
                },
            ),
            IssueEvent::Occupied => (
                issuer.at(fresh, IssuerStage::Probing),
                IssueActionView::Probe { key: ticket_key_of(fresh) },
            ),
            _ => (
                issuer.at(issuer.code, IssuerStage::Failed),
                IssueActionView::Failed { error: TransientStoreError },
            ),
        },
        IssuerStage::Persisting => match event {
            IssueEvent::Stored => (
                issuer.at(issuer.code, IssuerStage::Issued),
                IssueActionView::Issued { ticket: issuer.ticket() },
            ),
            _ => (
                issuer.at(issuer.code, IssuerStage::Failed),
                IssueActionView::Failed { error: TransientStoreError },
            ),
        },
        IssuerStage::Issued => (issuer, IssueActionView::Issued { ticket: issuer.ticket() }),
        IssuerStage::Failed => (issuer, IssueActionView::Failed { error: TransientStoreError }),
    }
}

impl TicketIssuer {
    /// Begins the issuance of a ticket for `user_id` in `guild_id`, with a
    /// code drawn at random.
    pub fn begin(user_id: u64, guild_id: u64, frontend_base: String) -> (next: (
        TicketIssuer,
        IssueAction,
    ))
        ensures
            is_ticket_code(next.0@.code),
            (next.0@, next.1@) == issuer_begin(user_id, guild_id, frontend_base@, next.0@.code),
    {
        let code = TicketCode::generate();
        TicketIssuer::begin_with(user_id, guild_id, frontend_base, code)
    }

    /// Begins the issuance of a ticket for `user_id` in `guild_id`, with
    /// `code` as the first code that is tried.
    pub fn begin_with(
        user_id: u64,
        guild_id: u64,
        frontend_base: String,
        code: TicketCode,
    ) -> (next: (TicketIssuer, IssueAction))
        ensures
            (next.0@, next.1@) == issuer_begin(user_id, guild_id, frontend_base@, code@),
    {
        let action = IssueAction::Probe { key: ticket_key(code.as_str()) };
        (
            TicketIssuer { user_id, guild_id, frontend_base, code, stage: IssuerStage::Probing },
            action,
        )
    }

    /// Takes what came of the last action and says what is to be done
    /// next. Where the code that was probed is taken, the next one is drawn
    /// at random.
    pub fn advance(self, event: IssueEvent) -> (next: (TicketIssuer, IssueAction))
        ensures
            exists|fresh: Seq<char>|
                is_ticket_code(fresh) && (next.0@, next.1@) == #[trigger] issuer_step(
                    self@,
                    event,
                    fresh,
                ),
    {
        let retry = match (self.stage, event) {
            (IssuerStage::Probing, IssueEvent::Occupied) => true,
            _ => false,
        };
        let fresh = if retry {
            TicketCode::generate()
        } else {
            self.code.clone()
        };
        let ghost drawn = fresh@;
        let shape = fresh.as_str();
        assert(is_ticket_code(drawn));
        let next = self.advance_with(event, fresh);
        assert((next.0@, next.1@) == issuer_step(self@, event, drawn));
        next
    }

    /// As `advance`, with `fresh` as the code that is tried next where the
    /// one that was probed is taken.
    pub fn advance_with(self, event: IssueEvent, fresh: TicketCode) -> (next: (
        TicketIssuer,
        IssueAction,
    ))
        ensures
            (next.0@, next.1@) == issuer_step(self@, event, fresh@),
    {
        let TicketIssuer { user_id, guild_id, frontend_base, code, stage } = self;
        match stage {
            IssuerStage::Probing => match event {
                IssueEvent::Vacant => {
                    let action = IssueAction::Persist {
                        key: ticket_key(code.as_str()),
                        value: ticket_value(user_id, guild_id),
                        ttl_secs: TICKET_TTL_SECS,
                    };
                    (
                        TicketIssuer {
                            user_id,
                            guild_id,
                            frontend_base,
                            code,
                            stage: IssuerStage::Persisting,
                        },
                        action,
                    )
                },
                IssueEvent::Occupied => {
                    let action = IssueAction::Probe { key: ticket_key(fresh.as_str()) };
                    (
                        TicketIssuer {
                            user_id,
                            guild_id,
                            frontend_base,
                            code: fresh,
                            stage: IssuerStage::Probing,
                        },
                        action,
                    )
                },
                _ => (
                    TicketIssuer {
                        user_id,
                        guild_id,
                        frontend_base,
                        code,
                        stage: IssuerStage::Failed,
                    },
                    IssueAction::Failed { error: TransientStoreError },
                ),
            },
            IssuerStage::Persisting => match event {
                IssueEvent::Stored => {
                    let ticket = issued(&frontend_base, &code);
                    (
                        TicketIssuer {
                            user_id,
                            guild_id,
                            frontend_base,
                            code,
                            stage: IssuerStage::Issued,
                        },
                        IssueAction::Issued { ticket },
                    )
                },
                _ => (
                    TicketIssuer {
                        user_id,
                        guild_id,
                        frontend_base,
                        code,
                        stage: IssuerStage::Failed,
                    },
                    IssueAction::Failed { error: TransientStoreError },
                ),
            },
            IssuerStage::Issued => {
                let ticket = issued(&frontend_base, &code);
                (
                    TicketIssuer {
                        user_id,
                        guild_id,
                        frontend_base,
                        code,
                        stage: IssuerStage::Issued,
                    },
                    IssueAction::Issued { ticket },
                )
            },
            IssuerStage::Failed => (
                TicketIssuer { user_id, guild_id, frontend_base, code, stage: IssuerStage::Failed },
                IssueAction::Failed { error: TransientStoreError },
            ),
        }
    }
}

/// The ticket of `code`, with its link.
fn issued(frontend_base: &String, code: &TicketCode) -> (ticket: Ticket)
    ensures
        ticket@ == (TicketView {
            code: code@,
            link: verification_link_of(frontend_base@, code@),
        }),
{
    Ticket {
        code: String::from_str(code.as_str()),
        link: verification_link(frontend_base.as_str(), code.as_str()),
    }
}

/// What the store answers when it is asked whether it holds anything under
/// `key`.
pub open spec fn probe_reply(store: Map<Seq<char>, Seq<char>>, key: Seq<char>) -> IssueEvent {
    if store.contains_key(key) {
        IssueEvent::Occupied
    } else {
        IssueEvent::Vacant
    }
}

/// Whether `store` holds a ticket under `code`.
pub open spec fn is_live(store: Map<Seq<char>, Seq<char>>, code: Seq<char>) -> bool {
    store.contains_key(ticket_key_of(code))
}

/// A code that is taken is dropped, and another is drawn and probed: the
/// issuer never writes over a ticket that the probe found.
pub proof fn lemma_taken_code_is_drawn_again(
    issuer: TicketIssuerView,
    store: Map<Seq<char>, Seq<char>>,
    fresh: Seq<char>,
)
    requires
        issuer.stage is Probing,
        is_live(store, issuer.code),
    ensures
        ({
            let reply = probe_reply(store, ticket_key_of(issuer.code));
            let (next, action) = issuer_step(issuer, reply, fresh);
            &&& action == (IssueActionView::Probe { key: ticket_key_of(fresh) })
            &&& next.stage is Probing
            &&& next.code == fresh
        }),
{
}

/// No two live tickets share a code: a ticket is written only under a code
/// that no ticket of the store has, it takes its place beside them with the
/// requester and the community as its value and 900 seconds to live, and
/// every ticket that the store held is still there, under its code and with
/// its value. This is so where nothing else writes to the store between the
/// probe and the write.
pub proof fn lemma_issued_code_is_new(
    issuer: TicketIssuerView,
    store: Map<Seq<char>, Seq<char>>,
    fresh: Seq<char>,
)
    requires
        issuer.stage is Probing,
        issuer_step(issuer, probe_reply(store, ticket_key_of(issuer.code)), fresh).1 is Persist,
    ensures
        ({
            let action = issuer_step(
                issuer,
                probe_reply(store, ticket_key_of(issuer.code)),
                fresh,
            ).1;
            let written = store.insert(action->Persist_key, action->Persist_value);
            &&& action->Persist_key == ticket_key_of(issuer.code)
            &&& action->Persist_value == ticket_value_of(issuer.user_id, issuer.guild_id)
            &&& action->ttl_secs == 900
            &&& !is_live(store, issuer.code)
            &&& forall|other: Seq<char>| #[trigger]
                is_live(store, other) ==> other != issuer.code && is_live(written, other)
                    && written[ticket_key_of(other)] == store[ticket_key_of(other)]
            &&& is_live(written, issuer.code)
            &&& written[ticket_key_of(issuer.code)] == ticket_value_of(
                issuer.user_id,
                issuer.guild_id,
            )
        }),
{
    let key = ticket_key_of(issuer.code);
    assert forall|other: Seq<char>| #[trigger]
        is_live(store, other) implies other != issuer.code by {
        crate::ticket::lemma_ticket_key_injective(other, issuer.code);
    }
}

/// Every code that the issuer tries has the shape of a ticket code, as long
/// as those that it is given have it.
pub proof fn lemma_issuer_keeps_code_shape(
    issuer: TicketIssuerView,
    event: IssueEvent,
    fresh: Seq<char>,
)
    requires
        is_ticket_code(issuer.code),
        is_ticket_code(fresh),
    ensures
        is_ticket_code(issuer_step(issuer, event, fresh).0.code),
{
}

} // verus!
